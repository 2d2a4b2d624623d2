//! What the result panel shows for a parse, as a value: the tree of node
//! boxes that the walker builds, and what holds of that tree.

use vstd::prelude::*;
use crate::ast::{
    DefinitionListItemType, DefinitionListItemView, ListItemView, NodeView, OutputView,
    TableCaptionView, TableCellType, TableCellView, TableRowView, TemplateParameterView,
    WarningView,
};
use crate::dom::{ChildView, ElementView};
use crate::scalar::{debug_text, position_text, ScalarView};

verus! {

/// A node box with the given children.
pub open spec fn node_box(children: Seq<ChildView>) -> ChildView {
    ChildView::Element(
        ElementView { tag_name: "div"@, class_names: "node"@, children: children },
    )
}

/// A span of the given class that holds one run of text.
pub open spec fn span(class_name: Seq<char>, text: Seq<char>) -> ChildView {
    ChildView::Element(
        ElementView {
            tag_name: "span"@,
            class_names: class_name,
            children: seq![ChildView::Text(text)],
        },
    )
}

/// The header of a node box: the label in a `name` span, then the source span
/// in a `position` span.
pub open spec fn node_head(label: Seq<char>, start: nat, end: nat) -> Seq<ChildView> {
    seq![span("name"@, label), span("position"@, position_text(start, end))]
}

/// The row of an attribute with a scalar value: the label, then the value as
/// it is shown.
pub open spec fn text_attribute(label: Seq<char>, value: ScalarView) -> ChildView {
    node_box(seq![ChildView::Text(label), ChildView::Text(debug_text(value))])
}

/// The row of an attribute whose value is a list of nodes: the label, then
/// the boxes of those nodes.
pub open spec fn complex_attribute(label: Seq<char>, value: Seq<ChildView>) -> ChildView {
    node_box(seq![ChildView::Text(label)] + value)
}

/// The row of an attribute that may be absent: none when it is.
pub open spec fn optional_attribute(
    label: Seq<char>,
    value: Option<Seq<ChildView>>,
) -> Seq<ChildView> {
    match value {
        Some(value) => seq![complex_attribute(label, value)],
        None => Seq::empty(),
    }
}

/// The row of a list of attributes that is left out when the list is empty.
pub open spec fn nonempty_attribute(
    label: Seq<char>,
    nodes: Seq<NodeView>,
    value: Seq<ChildView>,
) -> Seq<ChildView> {
    if nodes.len() == 0 {
        Seq::empty()
    } else {
        seq![complex_attribute(label, value)]
    }
}

/// The label in the header of a node: the name of its kind.
pub open spec fn node_label(node: NodeView) -> Seq<char> {
    match node {
        NodeView::Bold { .. } => "bold"@,
        NodeView::BoldItalic { .. } => "bold italic"@,
        NodeView::Category { .. } => "category"@,
        NodeView::CharacterEntity { .. } => "character entity"@,
        NodeView::Comment { .. } => "comment"@,
        NodeView::DefinitionList { .. } => "definition list"@,
        NodeView::EndTag { .. } => "end tag"@,
        NodeView::ExternalLink { .. } => "external link"@,
        NodeView::Heading { .. } => "heading"@,
        NodeView::HorizontalDivider { .. } => "horizontal divider"@,
        NodeView::Image { .. } => "image"@,
        NodeView::Italic { .. } => "italic"@,
        NodeView::Link { .. } => "link"@,
        NodeView::MagicWord { .. } => "magic word"@,
        NodeView::OrderedList { .. } => "ordered list"@,
        NodeView::ParagraphBreak { .. } => "paragraph break"@,
        NodeView::Parameter { .. } => "parameter"@,
        NodeView::Preformatted { .. } => "preformatted"@,
        NodeView::Redirect { .. } => "redirect"@,
        NodeView::StartTag { .. } => "start tag"@,
        NodeView::Table { .. } => "table"@,
        NodeView::Tag { .. } => "tag"@,
        NodeView::Template { .. } => "template"@,
        NodeView::Text { .. } => "text"@,
        NodeView::UnorderedList { .. } => "unordered list"@,
    }
}

/// The label in the header of a definition list item.
pub open spec fn definition_item_label(type_: DefinitionListItemType) -> Seq<char> {
    match type_ {
        DefinitionListItemType::Details => "details"@,
        DefinitionListItemType::Term => "term"@,
    }
}

/// The label in the header of a table cell.
pub open spec fn table_cell_label(type_: TableCellType) -> Seq<char> {
    match type_ {
        TableCellType::Heading => "heading"@,
        TableCellType::Ordinary => "cell"@,
    }
}

/// The boxes of a list of nodes: one for each node, in order.
pub open spec fn rendered_nodes(nodes: Seq<NodeView>) -> Seq<ChildView>
    decreases nodes, 0nat,
{
    Seq::new(
        nodes.len(),
        |i: int|
            if 0 <= i < nodes.len() {
                rendered_node(nodes[i])
            } else {
                arbitrary()
            },
    )
}

/// The boxes of the nodes of an attribute that may be absent.
pub open spec fn rendered_optional(nodes: Option<Seq<NodeView>>) -> Option<Seq<ChildView>>
    decreases nodes, 0nat,
{
    match nodes {
        Some(nodes) => Some(rendered_nodes(nodes)),
        None => None,
    }
}

/// The box of a node.
pub open spec fn rendered_node(node: NodeView) -> ChildView
    decreases node, 2nat,
{
    node_box(node_children(node))
}

/// What the box of a node holds: its header, then its rows.
pub open spec fn node_children(node: NodeView) -> Seq<ChildView>
    decreases node, 1nat,
{
    node_head(node_label(node), node.start(), node.end()) + node_rows(node)
}

/// The rows of a node below its header, by kind.
pub open spec fn node_rows(node: NodeView) -> Seq<ChildView>
    decreases node, 0nat,
{
    match node {
        NodeView::Bold { .. } => Seq::empty(),
        NodeView::BoldItalic { .. } => Seq::empty(),
        NodeView::Category { ordinal, target, .. } => seq![
            text_attribute("target: "@, ScalarView::Text(target)),
            complex_attribute("ordinal: "@, rendered_nodes(ordinal)),
        ],
        NodeView::CharacterEntity { character, .. } => seq![
            text_attribute("character: "@, ScalarView::Text(seq![character])),
        ],
        NodeView::Comment { .. } => Seq::empty(),
        NodeView::DefinitionList { items, .. } => rendered_definition_items(items),
        NodeView::EndTag { name, .. } => seq![text_attribute("name: "@, ScalarView::Text(name))],
        NodeView::ExternalLink { nodes, .. } => rendered_nodes(nodes),
        NodeView::Heading { level, nodes, .. } => seq![
            text_attribute("level: "@, ScalarView::Integer(level)),
        ] + rendered_nodes(nodes),
        NodeView::HorizontalDivider { .. } => Seq::empty(),
        NodeView::Image { target, text, .. } => seq![
            text_attribute("target: "@, ScalarView::Text(target)),
            complex_attribute("text: "@, rendered_nodes(text)),
        ],
        NodeView::Italic { .. } => Seq::empty(),
        NodeView::Link { target, text, .. } => seq![
            text_attribute("target: "@, ScalarView::Text(target)),
            complex_attribute("text: "@, rendered_nodes(text)),
        ],
        NodeView::MagicWord { .. } => Seq::empty(),
        NodeView::OrderedList { items, .. } => rendered_list_items(items),
        NodeView::ParagraphBreak { .. } => Seq::empty(),
        NodeView::Parameter { default, name, .. } => seq![
            complex_attribute("name"@, rendered_nodes(name)),
        ] + optional_attribute("default"@, rendered_optional(default)),
        NodeView::Preformatted { nodes, .. } => rendered_nodes(nodes),
        NodeView::Redirect { target, .. } => seq![
            text_attribute("target: "@, ScalarView::Text(target)),
        ],
        NodeView::StartTag { name, .. } => seq![text_attribute("name: "@, ScalarView::Text(name))],
        NodeView::Table { attributes, captions, rows, .. } => nonempty_attribute(
            "attributes"@,
            attributes,
            rendered_nodes(attributes),
        ) + rendered_captions(captions) + rendered_rows(rows),
        NodeView::Tag { name, nodes, .. } => seq![
            text_attribute("name: "@, ScalarView::Text(name)),
        ] + rendered_nodes(nodes),
        NodeView::Template { name, parameters, .. } => seq![
            complex_attribute("name"@, rendered_nodes(name)),
        ] + rendered_parameters(parameters),
        NodeView::Text { value, .. } => seq![text_attribute("value: "@, ScalarView::Text(value))],
        NodeView::UnorderedList { items, .. } => rendered_list_items(items),
    }
}

/// The box of a list item: its header, then the boxes of its nodes.
pub open spec fn rendered_list_item(item: ListItemView) -> ChildView
    decreases item, 0nat,
{
    node_box(node_head("item"@, item.start, item.end) + rendered_nodes(item.nodes))
}

/// The boxes of the items of a list, in order.
pub open spec fn rendered_list_items(items: Seq<ListItemView>) -> Seq<ChildView>
    decreases items, 0nat,
{
    Seq::new(
        items.len(),
        |i: int|
            if 0 <= i < items.len() {
                rendered_list_item(items[i])
            } else {
                arbitrary()
            },
    )
}

/// The box of a definition list item: its header, labelled by the kind of the
/// item, then the boxes of its nodes.
pub open spec fn rendered_definition_item(item: DefinitionListItemView) -> ChildView
    decreases item, 0nat,
{
    node_box(
        node_head(definition_item_label(item.type_), item.start, item.end)
            + rendered_nodes(item.nodes),
    )
}

/// The boxes of the items of a definition list, in order.
pub open spec fn rendered_definition_items(items: Seq<DefinitionListItemView>) -> Seq<ChildView>
    decreases items, 0nat,
{
    Seq::new(
        items.len(),
        |i: int|
            if 0 <= i < items.len() {
                rendered_definition_item(items[i])
            } else {
                arbitrary()
            },
    )
}

/// The box of a table caption: its header, its attributes where it has any,
/// then its content.
pub open spec fn rendered_caption(caption: TableCaptionView) -> ChildView
    decreases caption, 0nat,
{
    node_box(
        node_head("caption"@, caption.start, caption.end) + optional_attribute(
            "attributes"@,
            rendered_optional(caption.attributes),
        ) + seq![complex_attribute("content"@, rendered_nodes(caption.content))],
    )
}

/// The boxes of the captions of a table, in order.
pub open spec fn rendered_captions(captions: Seq<TableCaptionView>) -> Seq<ChildView>
    decreases captions, 0nat,
{
    Seq::new(
        captions.len(),
        |i: int|
            if 0 <= i < captions.len() {
                rendered_caption(captions[i])
            } else {
                arbitrary()
            },
    )
}

/// The box of a table cell: its header, labelled by the kind of the cell, its
/// attributes where it has any, then its content.
pub open spec fn rendered_cell(cell: TableCellView) -> ChildView
    decreases cell, 0nat,
{
    node_box(
        node_head(table_cell_label(cell.type_), cell.start, cell.end)
            + optional_attribute("attributes"@, rendered_optional(cell.attributes)) + seq![
            complex_attribute("content"@, rendered_nodes(cell.content)),
        ],
    )
}

/// The boxes of the cells of a table row, in order.
pub open spec fn rendered_cells(cells: Seq<TableCellView>) -> Seq<ChildView>
    decreases cells, 0nat,
{
    Seq::new(
        cells.len(),
        |i: int|
            if 0 <= i < cells.len() {
                rendered_cell(cells[i])
            } else {
                arbitrary()
            },
    )
}

/// The box of a table row: its header, its attributes unless the list is
/// empty, then the boxes of its cells.
pub open spec fn rendered_row(row: TableRowView) -> ChildView
    decreases row, 0nat,
{
    node_box(
        node_head("row"@, row.start, row.end) + nonempty_attribute(
            "attributes"@,
            row.attributes,
            rendered_nodes(row.attributes),
        ) + rendered_cells(row.cells),
    )
}

/// The boxes of the rows of a table, in order.
pub open spec fn rendered_rows(rows: Seq<TableRowView>) -> Seq<ChildView>
    decreases rows, 0nat,
{
    Seq::new(
        rows.len(),
        |i: int|
            if 0 <= i < rows.len() {
                rendered_row(rows[i])
            } else {
                arbitrary()
            },
    )
}

/// The box of a template parameter: its header, its name where it has one,
/// then its value.
pub open spec fn rendered_parameter(parameter: TemplateParameterView) -> ChildView
    decreases parameter, 0nat,
{
    node_box(
        node_head("parameter"@, parameter.start, parameter.end) + optional_attribute(
            "name"@,
            rendered_optional(parameter.name),
        ) + seq![complex_attribute("value"@, rendered_nodes(parameter.value))],
    )
}

/// The boxes of the parameters of a template, in order.
pub open spec fn rendered_parameters(parameters: Seq<TemplateParameterView>) -> Seq<ChildView>
    decreases parameters, 0nat,
{
    Seq::new(
        parameters.len(),
        |i: int|
            if 0 <= i < parameters.len() {
                rendered_parameter(parameters[i])
            } else {
                arbitrary()
            },
    )
}

/// The box of a warning: a header with the message of the warning as its
/// label.
pub open spec fn rendered_warning(warning: WarningView) -> ChildView {
    node_box(node_head(warning.message, warning.start, warning.end))
}

/// The boxes of a list of warnings, in order.
pub open spec fn rendered_warnings(warnings: Seq<WarningView>) -> Seq<ChildView> {
    Seq::new(warnings.len(), |i: int| rendered_warning(warnings[i]))
}

/// The children of the result panel for a parse: the boxes of the warnings,
/// then the boxes of the nodes.
pub open spec fn rendered_output(output: OutputView) -> Seq<ChildView> {
    rendered_warnings(output.warnings) + rendered_nodes(output.nodes)
}

/// The result panel after a parse has been rendered into it: whatever it held
/// before is gone, and its children are those of the parse.
pub open spec fn rendered_panel(panel: ElementView, output: OutputView) -> ElementView {
    ElementView { children: rendered_output(output), ..panel }
}

/// Whether `element` is a node box that opens with the header of the given
/// label and source span.
pub open spec fn has_header(element: ChildView, label: Seq<char>, start: nat, end: nat) -> bool {
    &&& element is Element
    &&& element->Element_0.tag_name == "div"@
    &&& element->Element_0.class_names == "node"@
    &&& element->Element_0.children.len() >= 2
    &&& element->Element_0.children[0] == span("name"@, label)
    &&& element->Element_0.children[1] == span("position"@, position_text(start, end))
}

/// Whether `child` is a span of the given class that holds one run of text.
pub open spec fn is_text_span(child: ChildView, class_name: Seq<char>) -> bool {
    &&& child is Element
    &&& child->Element_0.tag_name == "span"@
    &&& child->Element_0.class_names == class_name
    &&& child->Element_0.children.len() == 1
    &&& child->Element_0.children[0] is Text
}

/// Whether `text` is the text of a source span.
pub open spec fn is_position_text(text: Seq<char>) -> bool {
    exists|start: nat, end: nat| text == #[trigger] position_text(start, end)
}

/// Whether `child` is a box of the presentation tree, down to its leaves. A
/// box is an element of class `node` of one of two forms. A box with a header
/// opens with a `name` span and a `position` span, and only boxes follow. An
/// attribute row opens with its label as text; what follows is either the
/// value as one run of text, or boxes only.
pub open spec fn well_formed_box(child: ChildView) -> bool
    decreases child,
{
    &&& child is Element
    &&& child->Element_0.tag_name == "div"@
    &&& child->Element_0.class_names == "node"@
    &&& child->Element_0.children.len() >= 1
    &&& if child->Element_0.children[0] is Text {
        ||| child->Element_0.children.len() == 2 && child->Element_0.children[1] is Text
        ||| forall|i: int|
            1 <= i < child->Element_0.children.len() ==> well_formed_box(
                #[trigger] child->Element_0.children[i],
            )
    } else {
        &&& child->Element_0.children.len() >= 2
        &&& is_text_span(child->Element_0.children[0], "name"@)
        &&& is_text_span(child->Element_0.children[1], "position"@)
        &&& is_position_text(child->Element_0.children[1]->Element_0.children[0]->Text_0)
        &&& forall|i: int|
            2 <= i < child->Element_0.children.len() ==> well_formed_box(
                #[trigger] child->Element_0.children[i],
            )
    }
}

/// Whether every one of `children` is a box of the presentation tree.
pub open spec fn well_formed_boxes(children: Seq<ChildView>) -> bool {
    forall|i: int| 0 <= i < children.len() ==> well_formed_box(#[trigger] children[i])
}

/// The result panel holds the boxes of the warnings, each with its message
/// as the label of its header, and after them one box for each node at the
/// top of the tree, all in the order of the parse.
pub proof fn lemma_panel_layout(panel: ElementView, output: OutputView)
    ensures
        rendered_panel(panel, output).children.len() == output.warnings.len()
            + output.nodes.len(),
        forall|i: int|
            0 <= i < output.warnings.len() ==> {
                &&& #[trigger] rendered_panel(panel, output).children[i] == rendered_warning(
                    output.warnings[i],
                )
                &&& has_header(
                    rendered_panel(panel, output).children[i],
                    output.warnings[i].message,
                    output.warnings[i].start,
                    output.warnings[i].end,
                )
            },
        forall|i: int|
            0 <= i < output.nodes.len() ==> #[trigger] rendered_panel(
                panel,
                output,
            ).children[output.warnings.len() + i] == rendered_node(output.nodes[i]),
{
}

/// A list of nodes gives one box for each node, in the order of the nodes.
pub proof fn lemma_rendered_nodes_in_order(nodes: Seq<NodeView>)
    ensures
        rendered_nodes(nodes).len() == nodes.len(),
        forall|i: int|
            0 <= i < nodes.len() ==> #[trigger] rendered_nodes(nodes)[i] == rendered_node(nodes[i]),
{
}

/// The box of a node opens with its header: a `name` span with the label of
/// its kind, then a `position` span with its source span.
pub proof fn lemma_node_header(node: NodeView)
    ensures
        has_header(rendered_node(node), node_label(node), node.start(), node.end()),
{
}

/// The boxes of list items, definition list items, table captions, rows and
/// cells and template parameters open with a header too.
pub proof fn lemma_record_headers(
    item: ListItemView,
    definition: DefinitionListItemView,
    caption: TableCaptionView,
    row: TableRowView,
    cell: TableCellView,
    parameter: TemplateParameterView,
)
    ensures
        has_header(rendered_list_item(item), "item"@, item.start, item.end),
        has_header(
            rendered_definition_item(definition),
            definition_item_label(definition.type_),
            definition.start,
            definition.end,
        ),
        has_header(rendered_caption(caption), "caption"@, caption.start, caption.end),
        has_header(rendered_row(row), "row"@, row.start, row.end),
        has_header(rendered_cell(cell), table_cell_label(cell.type_), cell.start, cell.end),
        has_header(rendered_parameter(parameter), "parameter"@, parameter.start, parameter.end),
{
}

/// Rendering does not depend on what the panel held before: two panels with
/// the same tag and class show the same tree for the same parse, and to render
/// a parse a second time changes nothing.
pub proof fn lemma_render_idempotent(first: ElementView, second: ElementView, output: OutputView)
    requires
        first.tag_name == second.tag_name,
        first.class_names == second.class_names,
    ensures
        rendered_panel(first, output) == rendered_panel(second, output),
        rendered_panel(rendered_panel(first, output), output) == rendered_panel(first, output),
{
}

/// A box with a header whose rows are boxes is a box of the presentation
/// tree.
pub proof fn lemma_headed_box_well_formed(
    label: Seq<char>,
    start: nat,
    end: nat,
    rows: Seq<ChildView>,
)
    requires
        well_formed_boxes(rows),
    ensures
        well_formed_box(node_box(node_head(label, start, end) + rows)),
{
    let children = node_head(label, start, end) + rows;
    assert(children[0] == span("name"@, label));
    assert(children[1] == span("position"@, position_text(start, end)));
    assert(is_position_text(position_text(start, end)));
    assert forall|i: int| 2 <= i < children.len() implies well_formed_box(
        #[trigger] children[i],
    ) by {
        assert(children[i] == rows[i - 2]);
    }
}

/// The row of an attribute with a scalar value is a box of the presentation
/// tree.
pub proof fn lemma_text_attribute_well_formed(label: Seq<char>, value: ScalarView)
    ensures
        well_formed_box(text_attribute(label, value)),
{
}

/// The row of an attribute whose value is a list of boxes is a box of the
/// presentation tree.
pub proof fn lemma_complex_attribute_well_formed(label: Seq<char>, value: Seq<ChildView>)
    requires
        well_formed_boxes(value),
    ensures
        well_formed_box(complex_attribute(label, value)),
{
    let children = seq![ChildView::Text(label)] + value;
    assert forall|i: int| 1 <= i < children.len() implies well_formed_box(
        #[trigger] children[i],
    ) by {
        assert(children[i] == value[i - 1]);
    }
}

/// Two lists of boxes, one after the other, are a list of boxes.
pub proof fn lemma_well_formed_boxes_concat(first: Seq<ChildView>, second: Seq<ChildView>)
    requires
        well_formed_boxes(first),
        well_formed_boxes(second),
    ensures
        well_formed_boxes(first + second),
{
    let both = first + second;
    assert forall|i: int| 0 <= i < both.len() implies well_formed_box(#[trigger] both[i]) by {
        if i < first.len() {
            assert(both[i] == first[i]);
        } else {
            assert(both[i] == second[i - first.len()]);
        }
    }
}

/// The row of an attribute that may be absent, where there is one, is a box
/// of the presentation tree.
pub proof fn lemma_optional_attribute_well_formed(label: Seq<char>, nodes: Option<Seq<NodeView>>)
    ensures
        well_formed_boxes(optional_attribute(label, rendered_optional(nodes))),
    decreases nodes, 1nat,
{
    match nodes {
        Some(nodes) => {
            lemma_rendered_nodes_well_formed(nodes);
            lemma_complex_attribute_well_formed(label, rendered_nodes(nodes));
        },
        None => {},
    }
}

/// The row of a list of attributes, where the list is not empty, is a box of
/// the presentation tree.
pub proof fn lemma_nonempty_attribute_well_formed(label: Seq<char>, nodes: Seq<NodeView>)
    ensures
        well_formed_boxes(nonempty_attribute(label, nodes, rendered_nodes(nodes))),
    decreases nodes, 1nat,
{
    lemma_rendered_nodes_well_formed(nodes);
    lemma_complex_attribute_well_formed(label, rendered_nodes(nodes));
}

/// The box of a node is a box of the presentation tree: at every depth, a
/// box either opens with exactly one header, with only boxes after it, or is
/// an attribute row.
pub proof fn lemma_rendered_node_well_formed(node: NodeView)
    ensures
        well_formed_box(rendered_node(node)),
    decreases node, 2nat,
{
    lemma_node_rows_well_formed(node);
    lemma_headed_box_well_formed(node_label(node), node.start(), node.end(), node_rows(node));
}

/// The boxes of a list of nodes are boxes of the presentation tree.
pub proof fn lemma_rendered_nodes_well_formed(nodes: Seq<NodeView>)
    ensures
        well_formed_boxes(rendered_nodes(nodes)),
    decreases nodes, 0nat,
{
    assert forall|i: int| 0 <= i < nodes.len() implies well_formed_box(
        #[trigger] rendered_nodes(nodes)[i],
    ) by {
        lemma_rendered_node_well_formed(nodes[i]);
    }
}

/// The rows of a node are boxes of the presentation tree.
pub proof fn lemma_node_rows_well_formed(node: NodeView)
    ensures
        well_formed_boxes(node_rows(node)),
    decreases node, 0nat,
{
    match node {
        NodeView::Category { ordinal, target, .. } => {
            lemma_text_attribute_well_formed("target: "@, ScalarView::Text(target));
            lemma_rendered_nodes_well_formed(ordinal);
            lemma_complex_attribute_well_formed("ordinal: "@, rendered_nodes(ordinal));
        },
        NodeView::CharacterEntity { character, .. } => {
            lemma_text_attribute_well_formed("character: "@, ScalarView::Text(seq![character]));
        },
        NodeView::DefinitionList { items, .. } => {
            lemma_rendered_definition_items_well_formed(items);
        },
        NodeView::EndTag { name, .. } => {
            lemma_text_attribute_well_formed("name: "@, ScalarView::Text(name));
        },
        NodeView::ExternalLink { nodes, .. } => {
            lemma_rendered_nodes_well_formed(nodes);
        },
        NodeView::Heading { level, nodes, .. } => {
            lemma_text_attribute_well_formed("level: "@, ScalarView::Integer(level));
            lemma_rendered_nodes_well_formed(nodes);
            lemma_well_formed_boxes_concat(
                seq![text_attribute("level: "@, ScalarView::Integer(level))],
                rendered_nodes(nodes),
            );
        },
        NodeView::Image { target, text, .. } => {
            lemma_text_attribute_well_formed("target: "@, ScalarView::Text(target));
            lemma_rendered_nodes_well_formed(text);
            lemma_complex_attribute_well_formed("text: "@, rendered_nodes(text));
        },
        NodeView::Link { target, text, .. } => {
            lemma_text_attribute_well_formed("target: "@, ScalarView::Text(target));
            lemma_rendered_nodes_well_formed(text);
            lemma_complex_attribute_well_formed("text: "@, rendered_nodes(text));
        },
        NodeView::OrderedList { items, .. } => {
            lemma_rendered_list_items_well_formed(items);
        },
        NodeView::Parameter { default, name, .. } => {
            lemma_rendered_nodes_well_formed(name);
            lemma_complex_attribute_well_formed("name"@, rendered_nodes(name));
            lemma_optional_attribute_well_formed("default"@, default);
            lemma_well_formed_boxes_concat(
                seq![complex_attribute("name"@, rendered_nodes(name))],
                optional_attribute("default"@, rendered_optional(default)),
            );
        },
        NodeView::Preformatted { nodes, .. } => {
            lemma_rendered_nodes_well_formed(nodes);
        },
        NodeView::Redirect { target, .. } => {
            lemma_text_attribute_well_formed("target: "@, ScalarView::Text(target));
        },
        NodeView::StartTag { name, .. } => {
            lemma_text_attribute_well_formed("name: "@, ScalarView::Text(name));
        },
        NodeView::Table { attributes, captions, rows, .. } => {
            lemma_nonempty_attribute_well_formed("attributes"@, attributes);
            lemma_rendered_captions_well_formed(captions);
            lemma_rendered_rows_well_formed(rows);
            lemma_well_formed_boxes_concat(
                nonempty_attribute("attributes"@, attributes, rendered_nodes(attributes)),
                rendered_captions(captions),
            );
            lemma_well_formed_boxes_concat(
                nonempty_attribute("attributes"@, attributes, rendered_nodes(attributes))
                    + rendered_captions(captions),
                rendered_rows(rows),
            );
        },
        NodeView::Tag { name, nodes, .. } => {
            lemma_text_attribute_well_formed("name: "@, ScalarView::Text(name));
            lemma_rendered_nodes_well_formed(nodes);
            lemma_well_formed_boxes_concat(
                seq![text_attribute("name: "@, ScalarView::Text(name))],
                rendered_nodes(nodes),
            );
        },
        NodeView::Template { name, parameters, .. } => {
            lemma_rendered_nodes_well_formed(name);
            lemma_complex_attribute_well_formed("name"@, rendered_nodes(name));
            lemma_rendered_parameters_well_formed(parameters);
            lemma_well_formed_boxes_concat(
                seq![complex_attribute("name"@, rendered_nodes(name))],
                rendered_parameters(parameters),
            );
        },
        NodeView::Text { value, .. } => {
            lemma_text_attribute_well_formed("value: "@, ScalarView::Text(value));
        },
        NodeView::UnorderedList { items, .. } => {
            lemma_rendered_list_items_well_formed(items);
        },
        _ => {},
    }
}

/// The box of a list item is a box of the presentation tree.
pub proof fn lemma_rendered_list_item_well_formed(item: ListItemView)
    ensures
        well_formed_box(rendered_list_item(item)),
    decreases item, 0nat,
{
    lemma_rendered_nodes_well_formed(item.nodes);
    lemma_headed_box_well_formed("item"@, item.start, item.end, rendered_nodes(item.nodes));
}

/// The box of a definition list item is a box of the presentation tree.
pub proof fn lemma_rendered_definition_item_well_formed(item: DefinitionListItemView)
    ensures
        well_formed_box(rendered_definition_item(item)),
    decreases item, 0nat,
{
    lemma_rendered_nodes_well_formed(item.nodes);
    lemma_headed_box_well_formed(
        definition_item_label(item.type_),
        item.start,
        item.end,
        rendered_nodes(item.nodes),
    );
}

/// The box of a table caption is a box of the presentation tree.
pub proof fn lemma_rendered_caption_well_formed(caption: TableCaptionView)
    ensures
        well_formed_box(rendered_caption(caption)),
    decreases caption, 0nat,
{
    let head = node_head("caption"@, caption.start, caption.end);
    let attributes = optional_attribute("attributes"@, rendered_optional(caption.attributes));
    let content = seq![complex_attribute("content"@, rendered_nodes(caption.content))];
    lemma_optional_attribute_well_formed("attributes"@, caption.attributes);
    lemma_rendered_nodes_well_formed(caption.content);
    lemma_complex_attribute_well_formed("content"@, rendered_nodes(caption.content));
    lemma_well_formed_boxes_concat(attributes, content);
    lemma_headed_box_well_formed("caption"@, caption.start, caption.end, attributes + content);
    assert(head + attributes + content =~= head + (attributes + content));
}

/// The box of a table cell is a box of the presentation tree.
pub proof fn lemma_rendered_cell_well_formed(cell: TableCellView)
    ensures
        well_formed_box(rendered_cell(cell)),
    decreases cell, 0nat,
{
    let head = node_head(table_cell_label(cell.type_), cell.start, cell.end);
    let attributes = optional_attribute("attributes"@, rendered_optional(cell.attributes));
    let content = seq![complex_attribute("content"@, rendered_nodes(cell.content))];
    lemma_optional_attribute_well_formed("attributes"@, cell.attributes);
    lemma_rendered_nodes_well_formed(cell.content);
    lemma_complex_attribute_well_formed("content"@, rendered_nodes(cell.content));
    lemma_well_formed_boxes_concat(attributes, content);
    lemma_headed_box_well_formed(
        table_cell_label(cell.type_),
        cell.start,
        cell.end,
        attributes + content,
    );
    assert(head + attributes + content =~= head + (attributes + content));
}

/// The box of a table row is a box of the presentation tree.
pub proof fn lemma_rendered_row_well_formed(row: TableRowView)
    ensures
        well_formed_box(rendered_row(row)),
    decreases row, 0nat,
{
    let head = node_head("row"@, row.start, row.end);
    let attributes = nonempty_attribute(
        "attributes"@,
        row.attributes,
        rendered_nodes(row.attributes),
    );
    let cells = rendered_cells(row.cells);
    lemma_nonempty_attribute_well_formed("attributes"@, row.attributes);
    lemma_rendered_cells_well_formed(row.cells);
    lemma_well_formed_boxes_concat(attributes, cells);
    lemma_headed_box_well_formed("row"@, row.start, row.end, attributes + cells);
    assert(head + attributes + cells =~= head + (attributes + cells));
}

/// The box of a template parameter is a box of the presentation tree.
pub proof fn lemma_rendered_parameter_well_formed(parameter: TemplateParameterView)
    ensures
        well_formed_box(rendered_parameter(parameter)),
    decreases parameter, 0nat,
{
    let head = node_head("parameter"@, parameter.start, parameter.end);
    let name = optional_attribute("name"@, rendered_optional(parameter.name));
    let value = seq![complex_attribute("value"@, rendered_nodes(parameter.value))];
    lemma_optional_attribute_well_formed("name"@, parameter.name);
    lemma_rendered_nodes_well_formed(parameter.value);
    lemma_complex_attribute_well_formed("value"@, rendered_nodes(parameter.value));
    lemma_well_formed_boxes_concat(name, value);
    lemma_headed_box_well_formed("parameter"@, parameter.start, parameter.end, name + value);
    assert(head + name + value =~= head + (name + value));
}

/// The boxes of the items of a list are boxes of the presentation tree.
pub proof fn lemma_rendered_list_items_well_formed(items: Seq<ListItemView>)
    ensures
        well_formed_boxes(rendered_list_items(items)),
    decreases items, 0nat,
{
    assert forall|i: int| 0 <= i < items.len() implies well_formed_box(
        #[trigger] rendered_list_items(items)[i],
    ) by {
        lemma_rendered_list_item_well_formed(items[i]);
    }
}

/// The boxes of the items of a definition list are boxes of the presentation
/// tree.
pub proof fn lemma_rendered_definition_items_well_formed(items: Seq<DefinitionListItemView>)
    ensures
        well_formed_boxes(rendered_definition_items(items)),
    decreases items, 0nat,
{
    assert forall|i: int| 0 <= i < items.len() implies well_formed_box(
        #[trigger] rendered_definition_items(items)[i],
    ) by {
        lemma_rendered_definition_item_well_formed(items[i]);
    }
}

/// The boxes of the captions of a table are boxes of the presentation tree.
pub proof fn lemma_rendered_captions_well_formed(items: Seq<TableCaptionView>)
    ensures
        well_formed_boxes(rendered_captions(items)),
    decreases items, 0nat,
{
    assert forall|i: int| 0 <= i < items.len() implies well_formed_box(
        #[trigger] rendered_captions(items)[i],
    ) by {
        lemma_rendered_caption_well_formed(items[i]);
    }
}

/// The boxes of the cells of a table row are boxes of the presentation tree.
pub proof fn lemma_rendered_cells_well_formed(items: Seq<TableCellView>)
    ensures
        well_formed_boxes(rendered_cells(items)),
    decreases items, 0nat,
{
    assert forall|i: int| 0 <= i < items.len() implies well_formed_box(
        #[trigger] rendered_cells(items)[i],
    ) by {
        lemma_rendered_cell_well_formed(items[i]);
    }
}

/// The boxes of the rows of a table are boxes of the presentation tree.
pub proof fn lemma_rendered_rows_well_formed(items: Seq<TableRowView>)
    ensures
        well_formed_boxes(rendered_rows(items)),
    decreases items, 0nat,
{
    assert forall|i: int| 0 <= i < items.len() implies well_formed_box(
        #[trigger] rendered_rows(items)[i],
    ) by {
        lemma_rendered_row_well_formed(items[i]);
    }
}

/// The boxes of the parameters of a template are boxes of the presentation
/// tree.
pub proof fn lemma_rendered_parameters_well_formed(items: Seq<TemplateParameterView>)
    ensures
        well_formed_boxes(rendered_parameters(items)),
    decreases items, 0nat,
{
    assert forall|i: int| 0 <= i < items.len() implies well_formed_box(
        #[trigger] rendered_parameters(items)[i],
    ) by {
        lemma_rendered_parameter_well_formed(items[i]);
    }
}

/// Every child of the result panel is a box of the presentation tree: the
/// boxes of the warnings and the boxes of the nodes, and the boxes inside
/// them at every depth, open with exactly one header or are attribute rows.
pub proof fn lemma_panel_well_formed(panel: ElementView, output: OutputView)
    ensures
        well_formed_boxes(rendered_panel(panel, output).children),
{
    let warnings = rendered_warnings(output.warnings);
    assert forall|i: int| 0 <= i < warnings.len() implies well_formed_box(
        #[trigger] warnings[i],
    ) by {
        let warning = output.warnings[i];
        lemma_headed_box_well_formed(
            warning.message,
            warning.start,
            warning.end,
            Seq::empty(),
        );
        assert(node_head(warning.message, warning.start, warning.end)
            + Seq::<ChildView>::empty() =~= node_head(
            warning.message,
            warning.start,
            warning.end,
        ));
    }
    lemma_rendered_nodes_well_formed(output.nodes);
    lemma_well_formed_boxes_concat(warnings, rendered_nodes(output.nodes));
}

} // verus!
