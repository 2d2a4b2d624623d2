//! The syntax tree of a wiki page as the inspector reads it: a parse gives an
//! ordered list of nodes and an ordered list of warnings. Every node and every
//! record below it carries the byte positions in the source text where it
//! starts and ends.
//!
//! Each type comes with its mathematical value (its view): the same tree with
//! sequences in place of vectors and strings.

use vstd::prelude::*;

verus! {

/// The kind of a definition list item.
#[derive(Clone, Copy, Debug, PartialEq, Eq)]
pub enum DefinitionListItemType {
    /// The details of a definition.
    Details,
    /// The term that is defined.
    Term,
}

/// The kind of a table cell.
#[derive(Clone, Copy, Debug, PartialEq, Eq)]
pub enum TableCellType {
    /// A heading cell.
    Heading,
    /// An ordinary cell.
    Ordinary,
}

/// An item of a definition list.
#[derive(Debug, PartialEq, Eq)]
pub struct DefinitionListItem {
    pub end: usize,
    pub nodes: Vec<Node>,
    pub start: usize,
    pub type_: DefinitionListItemType,
}

/// An item of an ordered or unordered list.
#[derive(Debug, PartialEq, Eq)]
pub struct ListItem {
    pub end: usize,
    pub nodes: Vec<Node>,
    pub start: usize,
}

/// A parameter of a template.
#[derive(Debug, PartialEq, Eq)]
pub struct TemplateParameter {
    pub end: usize,
    pub name: Option<Vec<Node>>,
    pub start: usize,
    pub value: Vec<Node>,
}

/// A caption of a table.
#[derive(Debug, PartialEq, Eq)]
pub struct TableCaption {
    pub attributes: Option<Vec<Node>>,
    pub content: Vec<Node>,
    pub end: usize,
    pub start: usize,
}

/// A cell of a table row.
#[derive(Debug, PartialEq, Eq)]
pub struct TableCell {
    pub attributes: Option<Vec<Node>>,
    pub content: Vec<Node>,
    pub end: usize,
    pub start: usize,
    pub type_: TableCellType,
}

/// A row of a table.
#[derive(Debug, PartialEq, Eq)]
pub struct TableRow {
    pub attributes: Vec<Node>,
    pub cells: Vec<TableCell>,
    pub end: usize,
    pub start: usize,
}

/// A node of the syntax tree.
#[allow(inconsistent_fields)]
#[derive(Debug, PartialEq, Eq)]
pub enum Node {
    /// A toggle of bold text.
    Bold { end: usize, start: usize },
    /// A toggle of bold and italic text.
    BoldItalic { end: usize, start: usize },
    /// A category that the page belongs to, with what it is sorted by.
    Category { end: usize, ordinal: Vec<Node>, start: usize, target: String },
    /// A character written as an entity.
    CharacterEntity { character: char, end: usize, start: usize },
    /// A comment.
    Comment { end: usize, start: usize },
    /// A definition list.
    DefinitionList { end: usize, items: Vec<DefinitionListItem>, start: usize },
    /// An end tag.
    EndTag { end: usize, name: String, start: usize },
    /// A link to another site.
    ExternalLink { end: usize, nodes: Vec<Node>, start: usize },
    /// A heading of the given level.
    Heading { end: usize, level: u8, nodes: Vec<Node>, start: usize },
    /// A horizontal divider.
    HorizontalDivider { end: usize, start: usize },
    /// An image, with the text that comes with it.
    Image { end: usize, start: usize, target: String, text: Vec<Node> },
    /// A toggle of italic text.
    Italic { end: usize, start: usize },
    /// A link to another page, with the text that is shown for it.
    Link { end: usize, start: usize, target: String, text: Vec<Node> },
    /// A magic word.
    MagicWord { end: usize, start: usize },
    /// An ordered list.
    OrderedList { end: usize, items: Vec<ListItem>, start: usize },
    /// A break between two paragraphs.
    ParagraphBreak { end: usize, start: usize },
    /// A parameter, with its default value where it has one.
    Parameter { default: Option<Vec<Node>>, end: usize, name: Vec<Node>, start: usize },
    /// A block of preformatted text.
    Preformatted { end: usize, nodes: Vec<Node>, start: usize },
    /// A redirect to another page.
    Redirect { end: usize, start: usize, target: String },
    /// A start tag.
    StartTag { end: usize, name: String, start: usize },
    /// A table.
    Table {
        attributes: Vec<Node>,
        captions: Vec<TableCaption>,
        end: usize,
        rows: Vec<TableRow>,
        start: usize,
    },
    /// An extension tag, with what stands between its start and its end.
    Tag { end: usize, name: String, nodes: Vec<Node>, start: usize },
    /// A template with its parameters.
    Template { end: usize, name: Vec<Node>, parameters: Vec<TemplateParameter>, start: usize },
    /// Plain text.
    Text { end: usize, start: usize, value: String },
    /// An unordered list.
    UnorderedList { end: usize, items: Vec<ListItem>, start: usize },
}

/// A warning of the parser: something in the source text is not well formed.
#[derive(Debug, PartialEq, Eq)]
pub struct Warning {
    /// The byte position in the source text where the warning ends.
    pub end: usize,
    /// What is wrong, in words.
    pub message: String,
    /// The byte position in the source text where the warning starts.
    pub start: usize,
}

/// The result of parsing a wiki text.
#[derive(Debug, PartialEq, Eq)]
pub struct Output {
    /// The nodes at the top of the tree, in the order of the source text.
    pub nodes: Vec<Node>,
    /// The warnings, in the order in which the parser gave them.
    pub warnings: Vec<Warning>,
}

/// The mathematical value of a [`DefinitionListItem`].
pub struct DefinitionListItemView {
    pub end: nat,
    pub nodes: Seq<NodeView>,
    pub start: nat,
    pub type_: DefinitionListItemType,
}

/// The mathematical value of a [`ListItem`].
pub struct ListItemView {
    pub end: nat,
    pub nodes: Seq<NodeView>,
    pub start: nat,
}

/// The mathematical value of a [`TemplateParameter`].
pub struct TemplateParameterView {
    pub end: nat,
    pub name: Option<Seq<NodeView>>,
    pub start: nat,
    pub value: Seq<NodeView>,
}

/// The mathematical value of a [`TableCaption`].
pub struct TableCaptionView {
    pub attributes: Option<Seq<NodeView>>,
    pub content: Seq<NodeView>,
    pub end: nat,
    pub start: nat,
}

/// The mathematical value of a [`TableCell`].
pub struct TableCellView {
    pub attributes: Option<Seq<NodeView>>,
    pub content: Seq<NodeView>,
    pub end: nat,
    pub start: nat,
    pub type_: TableCellType,
}

/// The mathematical value of a [`TableRow`].
pub struct TableRowView {
    pub attributes: Seq<NodeView>,
    pub cells: Seq<TableCellView>,
    pub end: nat,
    pub start: nat,
}

/// The mathematical value of a [`Node`].
#[allow(inconsistent_fields)]
pub enum NodeView {
    Bold { end: nat, start: nat },
    BoldItalic { end: nat, start: nat },
    Category { end: nat, ordinal: Seq<NodeView>, start: nat, target: Seq<char> },
    CharacterEntity { character: char, end: nat, start: nat },
    Comment { end: nat, start: nat },
    DefinitionList { end: nat, items: Seq<DefinitionListItemView>, start: nat },
    EndTag { end: nat, name: Seq<char>, start: nat },
    ExternalLink { end: nat, nodes: Seq<NodeView>, start: nat },
    Heading { end: nat, level: nat, nodes: Seq<NodeView>, start: nat },
    HorizontalDivider { end: nat, start: nat },
    Image { end: nat, start: nat, target: Seq<char>, text: Seq<NodeView> },
    Italic { end: nat, start: nat },
    Link { end: nat, start: nat, target: Seq<char>, text: Seq<NodeView> },
    MagicWord { end: nat, start: nat },
    OrderedList { end: nat, items: Seq<ListItemView>, start: nat },
    ParagraphBreak { end: nat, start: nat },
    Parameter { default: Option<Seq<NodeView>>, end: nat, name: Seq<NodeView>, start: nat },
    Preformatted { end: nat, nodes: Seq<NodeView>, start: nat },
    Redirect { end: nat, start: nat, target: Seq<char> },
    StartTag { end: nat, name: Seq<char>, start: nat },
    Table {
        attributes: Seq<NodeView>,
        captions: Seq<TableCaptionView>,
        end: nat,
        rows: Seq<TableRowView>,
        start: nat,
    },
    Tag { end: nat, name: Seq<char>, nodes: Seq<NodeView>, start: nat },
    Template { end: nat, name: Seq<NodeView>, parameters: Seq<TemplateParameterView>, start: nat },
    Text { end: nat, start: nat, value: Seq<char> },
    UnorderedList { end: nat, items: Seq<ListItemView>, start: nat },
}

/// The mathematical value of a [`Warning`].
pub struct WarningView {
    pub end: nat,
    pub message: Seq<char>,
    pub start: nat,
}

/// The mathematical value of an [`Output`].
pub struct OutputView {
    pub nodes: Seq<NodeView>,
    pub warnings: Seq<WarningView>,
}

impl NodeView {
    /// The byte position in the source text where the node starts.
    pub open spec fn start(self) -> nat {
        match self {
            NodeView::Bold { start, .. } => start,
            NodeView::BoldItalic { start, .. } => start,
            NodeView::Category { start, .. } => start,
            NodeView::CharacterEntity { start, .. } => start,
            NodeView::Comment { start, .. } => start,
            NodeView::DefinitionList { start, .. } => start,
            NodeView::EndTag { start, .. } => start,
            NodeView::ExternalLink { start, .. } => start,
            NodeView::Heading { start, .. } => start,
            NodeView::HorizontalDivider { start, .. } => start,
            NodeView::Image { start, .. } => start,
            NodeView::Italic { start, .. } => start,
            NodeView::Link { start, .. } => start,
            NodeView::MagicWord { start, .. } => start,
            NodeView::OrderedList { start, .. } => start,
            NodeView::ParagraphBreak { start, .. } => start,
            NodeView::Parameter { start, .. } => start,
            NodeView::Preformatted { start, .. } => start,
            NodeView::Redirect { start, .. } => start,
            NodeView::StartTag { start, .. } => start,
            NodeView::Table { start, .. } => start,
            NodeView::Tag { start, .. } => start,
            NodeView::Template { start, .. } => start,
            NodeView::Text { start, .. } => start,
            NodeView::UnorderedList { start, .. } => start,
        }
    }

    /// The byte position in the source text where the node ends.
    pub open spec fn end(self) -> nat {
        match self {
            NodeView::Bold { end, .. } => end,
            NodeView::BoldItalic { end, .. } => end,
            NodeView::Category { end, .. } => end,
            NodeView::CharacterEntity { end, .. } => end,
            NodeView::Comment { end, .. } => end,
            NodeView::DefinitionList { end, .. } => end,
            NodeView::EndTag { end, .. } => end,
            NodeView::ExternalLink { end, .. } => end,
            NodeView::Heading { end, .. } => end,
            NodeView::HorizontalDivider { end, .. } => end,
            NodeView::Image { end, .. } => end,
            NodeView::Italic { end, .. } => end,
            NodeView::Link { end, .. } => end,
            NodeView::MagicWord { end, .. } => end,
            NodeView::OrderedList { end, .. } => end,
            NodeView::ParagraphBreak { end, .. } => end,
            NodeView::Parameter { end, .. } => end,
            NodeView::Preformatted { end, .. } => end,
            NodeView::Redirect { end, .. } => end,
            NodeView::StartTag { end, .. } => end,
            NodeView::Table { end, .. } => end,
            NodeView::Tag { end, .. } => end,
            NodeView::Template { end, .. } => end,
            NodeView::Text { end, .. } => end,
            NodeView::UnorderedList { end, .. } => end,
        }
    }
}

/// The value of a node.
pub open spec fn node_view(node: Node) -> NodeView
    decreases node,
{
    match node {
        Node::Bold { end, start } => NodeView::Bold { end: end as nat, start: start as nat },
        Node::BoldItalic { end, start } => NodeView::BoldItalic {
            end: end as nat,
            start: start as nat,
        },
        Node::Category { end, ordinal, start, target } => NodeView::Category {
            end: end as nat,
            ordinal: nodes_view(ordinal@),
            start: start as nat,
            target: target@,
        },
        Node::CharacterEntity { character, end, start } => NodeView::CharacterEntity {
            character: character,
            end: end as nat,
            start: start as nat,
        },
        Node::Comment { end, start } => NodeView::Comment { end: end as nat, start: start as nat },
        Node::DefinitionList { end, items, start } => NodeView::DefinitionList {
            end: end as nat,
            items: definition_items_view(items@),
            start: start as nat,
        },
        Node::EndTag { end, name, start } => NodeView::EndTag {
            end: end as nat,
            name: name@,
            start: start as nat,
        },
        Node::ExternalLink { end, nodes, start } => NodeView::ExternalLink {
            end: end as nat,
            nodes: nodes_view(nodes@),
            start: start as nat,
        },
        Node::Heading { end, level, nodes, start } => NodeView::Heading {
            end: end as nat,
            level: level as nat,
            nodes: nodes_view(nodes@),
            start: start as nat,
        },
        Node::HorizontalDivider { end, start } => NodeView::HorizontalDivider {
            end: end as nat,
            start: start as nat,
        },
        Node::Image { end, start, target, text } => NodeView::Image {
            end: end as nat,
            start: start as nat,
            target: target@,
            text: nodes_view(text@),
        },
        Node::Italic { end, start } => NodeView::Italic { end: end as nat, start: start as nat },
        Node::Link { end, start, target, text } => NodeView::Link {
            end: end as nat,
            start: start as nat,
            target: target@,
            text: nodes_view(text@),
        },
        Node::MagicWord { end, start } => NodeView::MagicWord {
            end: end as nat,
            start: start as nat,
        },
        Node::OrderedList { end, items, start } => NodeView::OrderedList {
            end: end as nat,
            items: list_items_view(items@),
            start: start as nat,
        },
        Node::ParagraphBreak { end, start } => NodeView::ParagraphBreak {
            end: end as nat,
            start: start as nat,
        },
        Node::Parameter { default, end, name, start } => NodeView::Parameter {
            default: optional_nodes_view(default),
            end: end as nat,
            name: nodes_view(name@),
            start: start as nat,
        },
        Node::Preformatted { end, nodes, start } => NodeView::Preformatted {
            end: end as nat,
            nodes: nodes_view(nodes@),
            start: start as nat,
        },
        Node::Redirect { end, start, target } => NodeView::Redirect {
            end: end as nat,
            start: start as nat,
            target: target@,
        },
        Node::StartTag { end, name, start } => NodeView::StartTag {
            end: end as nat,
            name: name@,
            start: start as nat,
        },
        Node::Table { attributes, captions, end, rows, start } => NodeView::Table {
            attributes: nodes_view(attributes@),
            captions: captions_view(captions@),
            end: end as nat,
            rows: rows_view(rows@),
            start: start as nat,
        },
        Node::Tag { end, name, nodes, start } => NodeView::Tag {
            end: end as nat,
            name: name@,
            nodes: nodes_view(nodes@),
            start: start as nat,
        },
        Node::Template { end, name, parameters, start } => NodeView::Template {
            end: end as nat,
            name: nodes_view(name@),
            parameters: parameters_view(parameters@),
            start: start as nat,
        },
        Node::Text { end, start, value } => NodeView::Text {
            end: end as nat,
            start: start as nat,
            value: value@,
        },
        Node::UnorderedList { end, items, start } => NodeView::UnorderedList {
            end: end as nat,
            items: list_items_view(items@),
            start: start as nat,
        },
    }
}

/// The values of a list of nodes, in order.
pub open spec fn nodes_view(nodes: Seq<Node>) -> Seq<NodeView>
    decreases nodes,
{
    Seq::new(
        nodes.len(),
        |i: int|
            if 0 <= i < nodes.len() {
                node_view(nodes[i])
            } else {
                arbitrary()
            },
    )
}

/// The values of a list of nodes that may be absent.
pub open spec fn optional_nodes_view(nodes: Option<Vec<Node>>) -> Option<Seq<NodeView>>
    decreases nodes,
{
    match nodes {
        Some(nodes) => Some(nodes_view(nodes@)),
        None => None,
    }
}

/// The value of a definition list item.
pub open spec fn definition_item_view(item: DefinitionListItem) -> DefinitionListItemView
    decreases item,
{
    DefinitionListItemView {
        end: item.end as nat,
        nodes: nodes_view(item.nodes@),
        start: item.start as nat,
        type_: item.type_,
    }
}

/// The values of a list of definition list items, in order.
pub open spec fn definition_items_view(items: Seq<DefinitionListItem>) -> Seq<
    DefinitionListItemView,
>
    decreases items,
{
    Seq::new(
        items.len(),
        |i: int|
            if 0 <= i < items.len() {
                definition_item_view(items[i])
            } else {
                arbitrary()
            },
    )
}

/// The value of a list item.
pub open spec fn list_item_view(item: ListItem) -> ListItemView
    decreases item,
{
    ListItemView {
        end: item.end as nat,
        nodes: nodes_view(item.nodes@),
        start: item.start as nat,
    }
}

/// The values of a list of list items, in order.
pub open spec fn list_items_view(items: Seq<ListItem>) -> Seq<ListItemView>
    decreases items,
{
    Seq::new(
        items.len(),
        |i: int|
            if 0 <= i < items.len() {
                list_item_view(items[i])
            } else {
                arbitrary()
            },
    )
}

/// The value of a template parameter.
pub open spec fn parameter_view(item: TemplateParameter) -> TemplateParameterView
    decreases item,
{
    TemplateParameterView {
        end: item.end as nat,
        name: optional_nodes_view(item.name),
        start: item.start as nat,
        value: nodes_view(item.value@),
    }
}

/// The values of a list of template parameters, in order.
pub open spec fn parameters_view(items: Seq<TemplateParameter>) -> Seq<TemplateParameterView>
    decreases items,
{
    Seq::new(
        items.len(),
        |i: int|
            if 0 <= i < items.len() {
                parameter_view(items[i])
            } else {
                arbitrary()
            },
    )
}

/// The value of a table caption.
pub open spec fn caption_view(item: TableCaption) -> TableCaptionView
    decreases item,
{
    TableCaptionView {
        attributes: optional_nodes_view(item.attributes),
        content: nodes_view(item.content@),
        end: item.end as nat,
        start: item.start as nat,
    }
}

/// The values of a list of table captions, in order.
pub open spec fn captions_view(items: Seq<TableCaption>) -> Seq<TableCaptionView>
    decreases items,
{
    Seq::new(
        items.len(),
        |i: int|
            if 0 <= i < items.len() {
                caption_view(items[i])
            } else {
                arbitrary()
            },
    )
}

/// The value of a table cell.
pub open spec fn cell_view(item: TableCell) -> TableCellView
    decreases item,
{
    TableCellView {
        attributes: optional_nodes_view(item.attributes),
        content: nodes_view(item.content@),
        end: item.end as nat,
        start: item.start as nat,
        type_: item.type_,
    }
}

/// The values of a list of table cells, in order.
pub open spec fn cells_view(items: Seq<TableCell>) -> Seq<TableCellView>
    decreases items,
{
    Seq::new(
        items.len(),
        |i: int|
            if 0 <= i < items.len() {
                cell_view(items[i])
            } else {
                arbitrary()
            },
    )
}

/// The value of a table row.
pub open spec fn row_view(item: TableRow) -> TableRowView
    decreases item,
{
    TableRowView {
        attributes: nodes_view(item.attributes@),
        cells: cells_view(item.cells@),
        end: item.end as nat,
        start: item.start as nat,
    }
}

/// The values of a list of table rows, in order.
pub open spec fn rows_view(items: Seq<TableRow>) -> Seq<TableRowView>
    decreases items,
{
    Seq::new(
        items.len(),
        |i: int|
            if 0 <= i < items.len() {
                row_view(items[i])
            } else {
                arbitrary()
            },
    )
}

/// The value of a warning.
pub open spec fn warning_view(warning: Warning) -> WarningView {
    WarningView {
        end: warning.end as nat,
        message: warning.message@,
        start: warning.start as nat,
    }
}

/// The values of a list of warnings, in order.
pub open spec fn warnings_view(warnings: Seq<Warning>) -> Seq<WarningView> {
    Seq::new(warnings.len(), |i: int| warning_view(warnings[i]))
}

impl View for DefinitionListItem {
    type V = DefinitionListItemView;

    open spec fn view(&self) -> DefinitionListItemView {
        definition_item_view(*self)
    }
}

impl View for ListItem {
    type V = ListItemView;

    open spec fn view(&self) -> ListItemView {
        list_item_view(*self)
    }
}

impl View for TemplateParameter {
    type V = TemplateParameterView;

    open spec fn view(&self) -> TemplateParameterView {
        parameter_view(*self)
    }
}

impl View for TableCaption {
    type V = TableCaptionView;

    open spec fn view(&self) -> TableCaptionView {
        caption_view(*self)
    }
}

impl View for TableCell {
    type V = TableCellView;

    open spec fn view(&self) -> TableCellView {
        cell_view(*self)
    }
}

impl View for TableRow {
    type V = TableRowView;

    open spec fn view(&self) -> TableRowView {
        row_view(*self)
    }
}

impl View for Node {
    type V = NodeView;

    open spec fn view(&self) -> NodeView {
        node_view(*self)
    }
}

impl View for Warning {
    type V = WarningView;

    open spec fn view(&self) -> WarningView {
        warning_view(*self)
    }
}

impl View for Output {
    type V = OutputView;

    open spec fn view(&self) -> OutputView {
        OutputView { nodes: nodes_view(self.nodes@), warnings: warnings_view(self.warnings@) }
    }
}

} // verus!
