//! The tree walker and the render driver: every node of the syntax tree
//! becomes a node box that opens with a header (the kind of the node and its
//! source span) and goes on with the rows of that kind, in a fixed order.

use vstd::prelude::*;
use crate::ast::{
    captions_view, cells_view, definition_items_view, list_items_view, nodes_view,
    optional_nodes_view, parameters_view, rows_view, warnings_view, DefinitionListItem,
    DefinitionListItemType, ListItem, Node, Output, TableCaption, TableCell, TableCellType,
    TableRow, TemplateParameter, Warning,
};
use crate::dom::{html, ChildView, Element};
use crate::rendering::{
    complex_attribute, node_box, node_children, node_head, nonempty_attribute, optional_attribute,
    rendered_captions, rendered_cells, rendered_definition_items, rendered_list_items,
    rendered_node, rendered_nodes, rendered_optional, rendered_panel, rendered_parameters,
    rendered_rows, rendered_warnings, table_cell_label, text_attribute,
};
use crate::scalar::{debug_format, debug_text, format_position, Scalar};

verus! {

/// Renders the result of a parse into the result panel: the panel is cleared,
/// then it gets one box for each warning and, after those, one box for each
/// node at the top of the tree.
pub fn parse(result: &Output, result_el: &mut Element)
    ensures
        final(result_el)@ == rendered_panel(old(result_el)@, result@),
{
    result_el.set_inner_text("");
    proof {
        reveal_strlit("");
    }
    add_warnings(result_el, &result.warnings);
    add_nodes(result_el, result.nodes.as_slice());
}

/// Appends to `result_el` one box for each warning, in order: a node box
/// that holds a header with the message as its label.
fn add_warnings(result_el: &mut Element, warnings: &Vec<Warning>)
    ensures
        final(result_el)@ == old(result_el)@.extend(rendered_warnings(warnings_view(warnings@))),
{
    let ghost boxes = rendered_warnings(warnings_view(warnings@));
    let mut i: usize = 0;
    while i < warnings.len()
        invariant
            i <= warnings.len(),
            boxes == rendered_warnings(warnings_view(warnings@)),
            result_el@ == old(result_el)@.extend(boxes.take(i as int)),
        decreases warnings.len() - i,
    {
        let warning = &warnings[i];
        let mut warning_el = new_node_box();
        add_node_head(&mut warning_el, warning.message.as_str(), warning.start, warning.end);
        result_el.append_element(warning_el);
        assert(result_el@.children =~= old(result_el)@.children + boxes.take(i as int + 1));
        i += 1;
    }
    assert(boxes.take(i as int) =~= boxes);
}

/// Appends to `node_el` the row of an attribute whose value is a list of
/// nodes: a node box with the label and the boxes of the nodes.
pub fn add_complex_attribute(node_el: &mut Element, label: &str, value: &[Node])
    ensures
        final(node_el)@ == old(node_el)@.append(
            complex_attribute(label@, rendered_nodes(nodes_view(value@))),
        ),
    decreases value@, 1nat,
{
    let mut value_el = new_node_box();
    value_el.append_text(label);
    add_nodes(&mut value_el, value);
    node_el.append_element(value_el);
}

/// Appends the header of a node box to `node_el`: a `name` span with the
/// label, then a `position` span with the source span.
pub fn add_node_head(node_el: &mut Element, label: &str, start: usize, end: usize)
    ensures
        final(node_el)@ == old(node_el)@.extend(node_head(label@, start as nat, end as nat)),
{
    let mut name_el = html("span", &["name"]);
    name_el.append_text(label);
    node_el.append_element(name_el);
    let mut position_el = html("span", &["position"]);
    let position = format_position(start, end);
    position_el.append_text(position.as_str());
    node_el.append_element(position_el);
    assert(node_el@.children =~= old(node_el)@.children + node_head(
        label@,
        start as nat,
        end as nat,
    ));
}

/// Appends to `container_el` one node box for each of `nodes`, in order.
pub fn add_nodes(container_el: &mut Element, nodes: &[Node])
    ensures
        final(container_el)@ == old(container_el)@.extend(rendered_nodes(nodes_view(nodes@))),
    decreases nodes@, 0nat,
{
    let ghost boxes = rendered_nodes(nodes_view(nodes@));
    let mut i: usize = 0;
    while i < nodes.len()
        invariant
            i <= nodes.len(),
            boxes == rendered_nodes(nodes_view(nodes@)),
            container_el@ == old(container_el)@.extend(boxes.take(i as int)),
        decreases nodes.len() - i,
    {
        add_node(container_el, &nodes[i]);
        assert(container_el@.children =~= old(container_el)@.children + boxes.take(
            i as int + 1,
        ));
        i += 1;
    }
    assert(boxes.take(i as int) =~= boxes);
}

/// Appends to `container_el` the box of one node: its header, then the rows
/// of its kind.
fn add_node(container_el: &mut Element, node: &Node)
    ensures
        final(container_el)@ == old(container_el)@.append(rendered_node(node@)),
    decreases *node, 2nat,
{
    let mut node_el = new_node_box();
    match node {
        Node::Bold { end, start } => {
            add_node_head(&mut node_el, "bold", *start, *end);
        },
        Node::BoldItalic { end, start } => {
            add_node_head(&mut node_el, "bold italic", *start, *end);
        },
        Node::Category { end, ordinal, start, target } => {
            add_node_head(&mut node_el, "category", *start, *end);
            add_text_attribute(&mut node_el, "target: ", Scalar::Text(target.as_str()));
            add_complex_attribute(&mut node_el, "ordinal: ", ordinal.as_slice());
        },
        Node::CharacterEntity { character, end, start } => {
            add_node_head(&mut node_el, "character entity", *start, *end);
            let mut text = String::new();
            text.push(*character);
            add_text_attribute(&mut node_el, "character: ", Scalar::Text(text.as_str()));
        },
        Node::Comment { end, start } => {
            add_node_head(&mut node_el, "comment", *start, *end);
        },
        Node::DefinitionList { end, items, start } => {
            add_node_head(&mut node_el, "definition list", *start, *end);
            add_definition_items(&mut node_el, items);
        },
        Node::EndTag { end, name, start } => {
            add_node_head(&mut node_el, "end tag", *start, *end);
            add_text_attribute(&mut node_el, "name: ", Scalar::Text(name.as_str()));
        },
        Node::ExternalLink { end, nodes, start } => {
            add_node_head(&mut node_el, "external link", *start, *end);
            add_nodes(&mut node_el, nodes.as_slice());
        },
        Node::Heading { end, level, nodes, start } => {
            add_node_head(&mut node_el, "heading", *start, *end);
            add_text_attribute(&mut node_el, "level: ", Scalar::Integer(*level as usize));
            add_nodes(&mut node_el, nodes.as_slice());
        },
        Node::HorizontalDivider { end, start } => {
            add_node_head(&mut node_el, "horizontal divider", *start, *end);
        },
        Node::Image { end, start, target, text } => {
            add_node_head(&mut node_el, "image", *start, *end);
            add_text_attribute(&mut node_el, "target: ", Scalar::Text(target.as_str()));
            add_complex_attribute(&mut node_el, "text: ", text.as_slice());
        },
        Node::Italic { end, start } => {
            add_node_head(&mut node_el, "italic", *start, *end);
        },
        Node::Link { end, start, target, text } => {
            add_node_head(&mut node_el, "link", *start, *end);
            add_text_attribute(&mut node_el, "target: ", Scalar::Text(target.as_str()));
            add_complex_attribute(&mut node_el, "text: ", text.as_slice());
        },
        Node::MagicWord { end, start } => {
            add_node_head(&mut node_el, "magic word", *start, *end);
        },
        Node::OrderedList { end, items, start } => {
            add_node_head(&mut node_el, "ordered list", *start, *end);
            add_list_items(&mut node_el, items);
        },
        Node::ParagraphBreak { end, start } => {
            add_node_head(&mut node_el, "paragraph break", *start, *end);
        },
        Node::Parameter { default, end, name, start } => {
            add_node_head(&mut node_el, "parameter", *start, *end);
            add_complex_attribute(&mut node_el, "name", name.as_slice());
            add_optional_attribute(&mut node_el, "default", default);
        },
        Node::Preformatted { end, nodes, start } => {
            add_node_head(&mut node_el, "preformatted", *start, *end);
            add_nodes(&mut node_el, nodes.as_slice());
        },
        Node::Redirect { end, start, target } => {
            add_node_head(&mut node_el, "redirect", *start, *end);
            add_text_attribute(&mut node_el, "target: ", Scalar::Text(target.as_str()));
        },
        Node::StartTag { end, name, start } => {
            add_node_head(&mut node_el, "start tag", *start, *end);
            add_text_attribute(&mut node_el, "name: ", Scalar::Text(name.as_str()));
        },
        Node::Table { attributes, captions, end, rows, start } => {
            add_node_head(&mut node_el, "table", *start, *end);
            add_nonempty_attribute(&mut node_el, "attributes", attributes);
            add_captions(&mut node_el, captions);
            add_rows(&mut node_el, rows);
        },
        Node::Tag { end, name, nodes, start } => {
            add_node_head(&mut node_el, "tag", *start, *end);
            add_text_attribute(&mut node_el, "name: ", Scalar::Text(name.as_str()));
            add_nodes(&mut node_el, nodes.as_slice());
        },
        Node::Template { end, name, parameters, start } => {
            add_node_head(&mut node_el, "template", *start, *end);
            add_complex_attribute(&mut node_el, "name", name.as_slice());
            add_parameters(&mut node_el, parameters);
        },
        Node::Text { end, start, value } => {
            add_node_head(&mut node_el, "text", *start, *end);
            add_text_attribute(&mut node_el, "value: ", Scalar::Text(value.as_str()));
        },
        Node::UnorderedList { end, items, start } => {
            add_node_head(&mut node_el, "unordered list", *start, *end);
            add_list_items(&mut node_el, items);
        },
    }
    assert(node_el@.children =~= node_children(node@));
    container_el.append_element(node_el);
}

/// Appends to `node_el` one box for each item of a list, in order.
fn add_list_items(node_el: &mut Element, items: &Vec<ListItem>)
    ensures
        final(node_el)@ == old(node_el)@.extend(rendered_list_items(list_items_view(items@))),
    decreases items@, 0nat,
{
    let ghost boxes = rendered_list_items(list_items_view(items@));
    let mut i: usize = 0;
    while i < items.len()
        invariant
            i <= items.len(),
            boxes == rendered_list_items(list_items_view(items@)),
            node_el@ == old(node_el)@.extend(boxes.take(i as int)),
        decreases items.len() - i,
    {
        let item = &items[i];
        let mut item_el = new_node_box();
        add_node_head(&mut item_el, "item", item.start, item.end);
        add_nodes(&mut item_el, item.nodes.as_slice());
        node_el.append_element(item_el);
        assert(node_el@.children =~= old(node_el)@.children + boxes.take(i as int + 1));
        i += 1;
    }
    assert(boxes.take(i as int) =~= boxes);
}

/// Appends to `node_el` one box for each item of a definition list, in order.
fn add_definition_items(node_el: &mut Element, items: &Vec<DefinitionListItem>)
    ensures
        final(node_el)@ == old(node_el)@.extend(
            rendered_definition_items(definition_items_view(items@)),
        ),
    decreases items@, 0nat,
{
    let ghost boxes = rendered_definition_items(definition_items_view(items@));
    let mut i: usize = 0;
    while i < items.len()
        invariant
            i <= items.len(),
            boxes == rendered_definition_items(definition_items_view(items@)),
            node_el@ == old(node_el)@.extend(boxes.take(i as int)),
        decreases items.len() - i,
    {
        let item = &items[i];
        let mut item_el = new_node_box();
        let label = match item.type_ {
            DefinitionListItemType::Details => "details",
            DefinitionListItemType::Term => "term",
        };
        add_node_head(&mut item_el, label, item.start, item.end);
        add_nodes(&mut item_el, item.nodes.as_slice());
        node_el.append_element(item_el);
        assert(node_el@.children =~= old(node_el)@.children + boxes.take(i as int + 1));
        i += 1;
    }
    assert(boxes.take(i as int) =~= boxes);
}

/// Appends to `node_el` one box for each caption of a table, in order.
fn add_captions(node_el: &mut Element, items: &Vec<TableCaption>)
    ensures
        final(node_el)@ == old(node_el)@.extend(rendered_captions(captions_view(items@))),
    decreases items@, 0nat,
{
    let ghost boxes = rendered_captions(captions_view(items@));
    let mut i: usize = 0;
    while i < items.len()
        invariant
            i <= items.len(),
            boxes == rendered_captions(captions_view(items@)),
            node_el@ == old(node_el)@.extend(boxes.take(i as int)),
        decreases items.len() - i,
    {
        let item = &items[i];
        let mut item_el = new_node_box();
        add_node_head(&mut item_el, "caption", item.start, item.end);
        add_optional_attribute(&mut item_el, "attributes", &item.attributes);
        add_complex_attribute(&mut item_el, "content", item.content.as_slice());
        assert(item_el@.children =~= node_head("caption"@, item@.start, item@.end)
            + optional_attribute("attributes"@, rendered_optional(item@.attributes)) + seq![
            complex_attribute("content"@, rendered_nodes(item@.content)),
        ]);
        node_el.append_element(item_el);
        assert(node_el@.children =~= old(node_el)@.children + boxes.take(i as int + 1));
        i += 1;
    }
    assert(boxes.take(i as int) =~= boxes);
}

/// Appends to `node_el` one box for each row of a table, in order.
fn add_rows(node_el: &mut Element, items: &Vec<TableRow>)
    ensures
        final(node_el)@ == old(node_el)@.extend(rendered_rows(rows_view(items@))),
    decreases items@, 0nat,
{
    let ghost boxes = rendered_rows(rows_view(items@));
    let mut i: usize = 0;
    while i < items.len()
        invariant
            i <= items.len(),
            boxes == rendered_rows(rows_view(items@)),
            node_el@ == old(node_el)@.extend(boxes.take(i as int)),
        decreases items.len() - i,
    {
        let item = &items[i];
        let mut item_el = new_node_box();
        add_node_head(&mut item_el, "row", item.start, item.end);
        add_nonempty_attribute(&mut item_el, "attributes", &item.attributes);
        add_cells(&mut item_el, &item.cells);
        node_el.append_element(item_el);
        assert(node_el@.children =~= old(node_el)@.children + boxes.take(i as int + 1));
        i += 1;
    }
    assert(boxes.take(i as int) =~= boxes);
}

/// Appends to `node_el` one box for each cell of a table row, in order.
fn add_cells(node_el: &mut Element, items: &Vec<TableCell>)
    ensures
        final(node_el)@ == old(node_el)@.extend(rendered_cells(cells_view(items@))),
    decreases items@, 0nat,
{
    let ghost boxes = rendered_cells(cells_view(items@));
    let mut i: usize = 0;
    while i < items.len()
        invariant
            i <= items.len(),
            boxes == rendered_cells(cells_view(items@)),
            node_el@ == old(node_el)@.extend(boxes.take(i as int)),
        decreases items.len() - i,
    {
        let item = &items[i];
        let mut item_el = new_node_box();
        let label = match item.type_ {
            TableCellType::Heading => "heading",
            TableCellType::Ordinary => "cell",
        };
        add_node_head(&mut item_el, label, item.start, item.end);
        add_optional_attribute(&mut item_el, "attributes", &item.attributes);
        add_complex_attribute(&mut item_el, "content", item.content.as_slice());
        assert(item_el@.children =~= node_head(
            table_cell_label(item@.type_),
            item@.start,
            item@.end,
        ) + optional_attribute("attributes"@, rendered_optional(item@.attributes)) + seq![
            complex_attribute("content"@, rendered_nodes(item@.content)),
        ]);
        node_el.append_element(item_el);
        assert(node_el@.children =~= old(node_el)@.children + boxes.take(i as int + 1));
        i += 1;
    }
    assert(boxes.take(i as int) =~= boxes);
}

/// Appends to `node_el` one box for each parameter of a template, in order.
fn add_parameters(node_el: &mut Element, items: &Vec<TemplateParameter>)
    ensures
        final(node_el)@ == old(node_el)@.extend(
            rendered_parameters(parameters_view(items@)),
        ),
    decreases items@, 0nat,
{
    let ghost boxes = rendered_parameters(parameters_view(items@));
    let mut i: usize = 0;
    while i < items.len()
        invariant
            i <= items.len(),
            boxes == rendered_parameters(parameters_view(items@)),
            node_el@ == old(node_el)@.extend(boxes.take(i as int)),
        decreases items.len() - i,
    {
        let item = &items[i];
        let mut item_el = new_node_box();
        add_node_head(&mut item_el, "parameter", item.start, item.end);
        add_optional_attribute(&mut item_el, "name", &item.name);
        add_complex_attribute(&mut item_el, "value", item.value.as_slice());
        assert(item_el@.children =~= node_head("parameter"@, item@.start, item@.end)
            + optional_attribute("name"@, rendered_optional(item@.name)) + seq![
            complex_attribute("value"@, rendered_nodes(item@.value)),
        ]);
        node_el.append_element(item_el);
        assert(node_el@.children =~= old(node_el)@.children + boxes.take(i as int + 1));
        i += 1;
    }
    assert(boxes.take(i as int) =~= boxes);
}

/// Appends to `node_el` the row of an attribute that may be absent; nothing
/// when it is.
fn add_optional_attribute(node_el: &mut Element, label: &str, value: &Option<Vec<Node>>)
    ensures
        final(node_el)@ == old(node_el)@.extend(
            optional_attribute(label@, rendered_optional(optional_nodes_view(*value))),
        ),
    decreases *value, 2nat,
{
    match value {
        Some(nodes) => {
            add_complex_attribute(node_el, label, nodes.as_slice());
        },
        None => {},
    }
    assert(node_el@.children =~= old(node_el)@.children + optional_attribute(
        label@,
        rendered_optional(optional_nodes_view(*value)),
    ));
}

/// Appends to `node_el` the row of a list of attributes; nothing when the
/// list is empty.
fn add_nonempty_attribute(node_el: &mut Element, label: &str, value: &Vec<Node>)
    ensures
        final(node_el)@ == old(node_el)@.extend(
            nonempty_attribute(label@, nodes_view(value@), rendered_nodes(nodes_view(value@))),
        ),
    decreases value@, 2nat,
{
    if !value.is_empty() {
        add_complex_attribute(node_el, label, value.as_slice());
    }
    assert(node_el@.children =~= old(node_el)@.children + nonempty_attribute(
        label@,
        nodes_view(value@),
        rendered_nodes(nodes_view(value@)),
    ));
}

/// Appends to `node_el` the row of an attribute with a scalar value: a node
/// box with the label and the value as it is shown.
pub fn add_text_attribute(node_el: &mut Element, label: &str, value: Scalar)
    ensures
        final(node_el)@ == old(node_el)@.append(text_attribute(label@, value@)),
{
    let mut value_el = new_node_box();
    value_el.append_text(label);
    let formatted = debug_format(value);
    value_el.append_text(formatted.as_str());
    assert(value_el@.children =~= seq![
        ChildView::Text(label@),
        ChildView::Text(debug_text(value@)),
    ]);
    node_el.append_element(value_el);
}

/// Creates an empty node box.
fn new_node_box() -> (node_el: Element)
    ensures
        ChildView::Element(node_el@) == node_box(Seq::empty()),
{
    html("div", &["node"])
}

} // verus!
