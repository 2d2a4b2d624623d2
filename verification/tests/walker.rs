//! The tree walker on syntax trees written out by hand: the header of every
//! box, and the rows of every kind of node in their order.

use wikitext_inspector::ast::{
    DefinitionListItem, DefinitionListItemType, ListItem, Node, Output, TableCaption, TableCell,
    TableCellType, TableRow, TemplateParameter, Warning,
};
use wikitext_inspector::dom::{html, Child, Element};
use wikitext_inspector::parse::{
    add_complex_attribute, add_node_head, add_nodes, add_text_attribute, parse,
};
use wikitext_inspector::scalar::Scalar;

fn text(content: &str) -> Child {
    Child::Text(content.to_string())
}

fn element(tag_name: &str, class_names: &str, children: Vec<Child>) -> Child {
    Child::Element(Element {
        tag_name: tag_name.to_string(),
        class_names: class_names.to_string(),
        children,
    })
}

fn node_box(label: &str, position: &str, rows: Vec<Child>) -> Child {
    let mut children = vec![
        element("span", "name", vec![text(label)]),
        element("span", "position", vec![text(position)]),
    ];
    children.extend(rows);
    element("div", "node", children)
}

fn text_attribute(label: &str, shown: &str) -> Child {
    element("div", "node", vec![text(label), text(shown)])
}

fn complex_attribute(label: &str, nodes: Vec<Child>) -> Child {
    let mut children = vec![text(label)];
    children.extend(nodes);
    element("div", "node", children)
}

fn bold(start: usize, end: usize) -> Node {
    Node::Bold { end, start }
}

fn bold_box(position: &str) -> Child {
    node_box("bold", position, vec![])
}

fn rendered(nodes: Vec<Node>) -> Vec<Child> {
    let mut container_el = html("div", &[]);
    add_nodes(&mut container_el, &nodes);
    container_el.children
}

fn rendered_one(node: Node) -> Child {
    let mut children = rendered(vec![node]);
    assert_eq!(children.len(), 1);
    children.remove(0)
}

#[test]
fn node_head_is_a_name_span_then_a_position_span() {
    let mut node_el = html("div", &["node"]);
    add_node_head(&mut node_el, "heading", 0, 12);
    assert_eq!(
        node_el.children,
        vec![
            element("span", "name", vec![text("heading")]),
            element("span", "position", vec![text(" 0:12")]),
        ]
    );
}

#[test]
fn node_head_is_added_after_what_is_there() {
    let mut node_el = html("div", &["node"]);
    node_el.append_text("before");
    add_node_head(&mut node_el, "x", 7, 7);
    assert_eq!(node_el.children.len(), 3);
    assert_eq!(node_el.children[0], text("before"));
    assert_eq!(node_el.children[2], element("span", "position", vec![text(" 7:7")]));
}

#[test]
fn text_attribute_shows_a_string_in_quotes() {
    let mut node_el = html("div", &["node"]);
    add_text_attribute(&mut node_el, "target: ", Scalar::Text("World"));
    assert_eq!(node_el.children, vec![text_attribute("target: ", "\"World\"")]);
}

#[test]
fn text_attribute_shows_an_integer_in_decimal() {
    let mut node_el = html("div", &["node"]);
    add_text_attribute(&mut node_el, "level: ", Scalar::Integer(2));
    assert_eq!(node_el.children, vec![text_attribute("level: ", "2")]);
}

#[test]
fn text_attribute_shows_a_character_as_a_literal() {
    let mut node_el = html("div", &["node"]);
    add_text_attribute(&mut node_el, "character: ", Scalar::Character('&'));
    assert_eq!(node_el.children, vec![text_attribute("character: ", "'&'")]);
}

#[test]
fn text_attribute_of_equal_values_gives_equal_rows() {
    let mut first = html("div", &["node"]);
    let mut second = html("div", &["node"]);
    add_text_attribute(&mut first, "value: ", Scalar::Text("a \"b\" \\ c\n"));
    add_text_attribute(&mut second, "value: ", Scalar::Text("a \"b\" \\ c\n"));
    assert_eq!(first, second);
    assert_eq!(first.children, vec![text_attribute("value: ", "\"a \\\"b\\\" \\\\ c\\n\"")]);
}

#[test]
fn complex_attribute_wraps_the_nodes_in_a_labelled_row() {
    let mut node_el = html("div", &["node"]);
    add_complex_attribute(&mut node_el, "text: ", &[bold(1, 4), bold(5, 8)]);
    assert_eq!(
        node_el.children,
        vec![complex_attribute("text: ", vec![bold_box(" 1:4"), bold_box(" 5:8")])]
    );
}

#[test]
fn complex_attribute_without_nodes_is_a_row_with_its_label_only() {
    let mut node_el = html("div", &["node"]);
    add_complex_attribute(&mut node_el, "ordinal: ", &[]);
    assert_eq!(node_el.children, vec![complex_attribute("ordinal: ", vec![])]);
}

#[test]
fn add_nodes_gives_one_box_per_node_in_order() {
    let children = rendered(vec![
        bold(0, 3),
        Node::Italic { end: 5, start: 3 },
        Node::Comment { end: 9, start: 5 },
    ]);
    assert_eq!(
        children,
        vec![
            bold_box(" 0:3"),
            node_box("italic", " 3:5", vec![]),
            node_box("comment", " 5:9", vec![]),
        ]
    );
}

#[test]
fn add_nodes_of_nothing_adds_nothing() {
    let mut container_el = html("div", &["result"]);
    container_el.append_text("kept");
    add_nodes(&mut container_el, &[]);
    assert_eq!(container_el.children, vec![text("kept")]);
}

#[test]
fn add_nodes_keeps_what_the_container_holds() {
    let mut container_el = html("div", &["result"]);
    container_el.append_text("kept");
    add_nodes(&mut container_el, &[bold(2, 5)]);
    assert_eq!(container_el.children, vec![text("kept"), bold_box(" 2:5")]);
    assert_eq!(container_el.tag_name, "div");
    assert_eq!(container_el.class_names, "result");
}

#[test]
fn nodes_without_rows_show_their_kind() {
    let children = rendered(vec![
        Node::Bold { end: 1, start: 0 },
        Node::BoldItalic { end: 2, start: 1 },
        Node::Comment { end: 3, start: 2 },
        Node::HorizontalDivider { end: 4, start: 3 },
        Node::Italic { end: 5, start: 4 },
        Node::MagicWord { end: 6, start: 5 },
        Node::ParagraphBreak { end: 7, start: 6 },
    ]);
    assert_eq!(
        children,
        vec![
            node_box("bold", " 0:1", vec![]),
            node_box("bold italic", " 1:2", vec![]),
            node_box("comment", " 2:3", vec![]),
            node_box("horizontal divider", " 3:4", vec![]),
            node_box("italic", " 4:5", vec![]),
            node_box("magic word", " 5:6", vec![]),
            node_box("paragraph break", " 6:7", vec![]),
        ]
    );
}

#[test]
fn category_shows_target_then_ordinal() {
    let node = Node::Category {
        end: 20,
        ordinal: vec![bold(15, 18)],
        start: 0,
        target: "Category:A".to_string(),
    };
    assert_eq!(
        rendered_one(node),
        node_box(
            "category",
            " 0:20",
            vec![
                text_attribute("target: ", "\"Category:A\""),
                complex_attribute("ordinal: ", vec![bold_box(" 15:18")]),
            ],
        )
    );
}

#[test]
fn category_without_ordinal_still_has_the_row() {
    let node =
        Node::Category { end: 14, ordinal: vec![], start: 0, target: "Category:A".to_string() };
    assert_eq!(
        rendered_one(node),
        node_box(
            "category",
            " 0:14",
            vec![
                text_attribute("target: ", "\"Category:A\""),
                complex_attribute("ordinal: ", vec![]),
            ],
        )
    );
}

#[test]
fn character_entity_shows_the_character_as_a_string() {
    let node = Node::CharacterEntity { character: '&', end: 5, start: 0 };
    assert_eq!(
        rendered_one(node),
        node_box("character entity", " 0:5", vec![text_attribute("character: ", "\"&\"")])
    );
}

#[test]
fn character_entity_escapes_a_quote() {
    let node = Node::CharacterEntity { character: '"', end: 6, start: 0 };
    assert_eq!(
        rendered_one(node),
        node_box("character entity", " 0:6", vec![text_attribute("character: ", "\"\\\"\"")])
    );
}

#[test]
fn definition_list_shows_terms_and_details() {
    let node = Node::DefinitionList {
        end: 9,
        items: vec![
            DefinitionListItem {
                end: 4,
                nodes: vec![bold(1, 4)],
                start: 1,
                type_: DefinitionListItemType::Term,
            },
            DefinitionListItem {
                end: 9,
                nodes: vec![],
                start: 5,
                type_: DefinitionListItemType::Details,
            },
        ],
        start: 0,
    };
    assert_eq!(
        rendered_one(node),
        node_box(
            "definition list",
            " 0:9",
            vec![
                node_box("term", " 1:4", vec![bold_box(" 1:4")]),
                node_box("details", " 5:9", vec![]),
            ],
        )
    );
}

#[test]
fn tags_show_their_name() {
    let children = rendered(vec![
        Node::StartTag { end: 3, name: "b".to_string(), start: 0 },
        Node::EndTag { end: 7, name: "b".to_string(), start: 3 },
    ]);
    assert_eq!(
        children,
        vec![
            node_box("start tag", " 0:3", vec![text_attribute("name: ", "\"b\"")]),
            node_box("end tag", " 3:7", vec![text_attribute("name: ", "\"b\"")]),
        ]
    );
}

#[test]
fn external_link_holds_its_nodes_directly() {
    let node = Node::ExternalLink { end: 14, nodes: vec![bold(1, 4), bold(4, 7)], start: 0 };
    assert_eq!(
        rendered_one(node),
        node_box("external link", " 0:14", vec![bold_box(" 1:4"), bold_box(" 4:7")])
    );
}

#[test]
fn heading_shows_level_then_its_nodes_directly() {
    let node = Node::Heading {
        end: 8,
        level: 2,
        nodes: vec![Node::Text { end: 5, start: 3, value: "Hi".to_string() }],
        start: 0,
    };
    assert_eq!(
        rendered_one(node),
        node_box(
            "heading",
            " 0:8",
            vec![
                text_attribute("level: ", "2"),
                node_box("text", " 3:5", vec![text_attribute("value: ", "\"Hi\"")]),
            ],
        )
    );
}

#[test]
fn heading_level_is_shown_in_full() {
    let node = Node::Heading { end: 1, level: 255, nodes: vec![], start: 0 };
    assert_eq!(
        rendered_one(node),
        node_box("heading", " 0:1", vec![text_attribute("level: ", "255")])
    );
}

#[test]
fn image_and_link_show_target_then_text() {
    let children = rendered(vec![
        Node::Image {
            end: 16,
            start: 0,
            target: "File:F.png".to_string(),
            text: vec![bold(11, 14)],
        },
        Node::Link { end: 25, start: 16, target: "World".to_string(), text: vec![] },
    ]);
    assert_eq!(
        children,
        vec![
            node_box(
                "image",
                " 0:16",
                vec![
                    text_attribute("target: ", "\"File:F.png\""),
                    complex_attribute("text: ", vec![bold_box(" 11:14")]),
                ],
            ),
            node_box(
                "link",
                " 16:25",
                vec![text_attribute("target: ", "\"World\""), complex_attribute("text: ", vec![])],
            ),
        ]
    );
}

#[test]
fn ordered_and_unordered_lists_show_their_items() {
    let items = |offset: usize| {
        vec![
            ListItem {
                end: offset + 3,
                nodes: vec![bold(offset + 2, offset + 3)],
                start: offset + 1,
            },
            ListItem { end: offset + 7, nodes: vec![], start: offset + 5 },
        ]
    };
    let children = rendered(vec![
        Node::OrderedList { end: 7, items: items(0), start: 0 },
        Node::UnorderedList { end: 17, items: items(10), start: 10 },
    ]);
    assert_eq!(
        children,
        vec![
            node_box(
                "ordered list",
                " 0:7",
                vec![
                    node_box("item", " 1:3", vec![bold_box(" 2:3")]),
                    node_box("item", " 5:7", vec![]),
                ],
            ),
            node_box(
                "unordered list",
                " 10:17",
                vec![
                    node_box("item", " 11:13", vec![bold_box(" 12:13")]),
                    node_box("item", " 15:17", vec![]),
                ],
            ),
        ]
    );
}

#[test]
fn list_without_items_has_no_rows() {
    let node = Node::OrderedList { end: 1, items: vec![], start: 0 };
    assert_eq!(rendered_one(node), node_box("ordered list", " 0:1", vec![]));
}

#[test]
fn parameter_shows_name_then_default_when_present() {
    let node = Node::Parameter {
        default: Some(vec![bold(5, 8)]),
        end: 11,
        name: vec![bold(3, 4)],
        start: 0,
    };
    assert_eq!(
        rendered_one(node),
        node_box(
            "parameter",
            " 0:11",
            vec![
                complex_attribute("name", vec![bold_box(" 3:4")]),
                complex_attribute("default", vec![bold_box(" 5:8")]),
            ],
        )
    );
}

#[test]
fn parameter_with_an_empty_default_still_has_the_row() {
    let node = Node::Parameter { default: Some(vec![]), end: 8, name: vec![], start: 0 };
    assert_eq!(
        rendered_one(node),
        node_box(
            "parameter",
            " 0:8",
            vec![complex_attribute("name", vec![]), complex_attribute("default", vec![])],
        )
    );
}

#[test]
fn parameter_without_default_has_no_such_row() {
    let node = Node::Parameter { default: None, end: 7, name: vec![bold(3, 4)], start: 0 };
    assert_eq!(
        rendered_one(node),
        node_box("parameter", " 0:7", vec![complex_attribute("name", vec![bold_box(" 3:4")])])
    );
}

#[test]
fn preformatted_holds_its_nodes_directly() {
    let node = Node::Preformatted { end: 5, nodes: vec![bold(1, 4)], start: 0 };
    assert_eq!(rendered_one(node), node_box("preformatted", " 0:5", vec![bold_box(" 1:4")]));
}

#[test]
fn redirect_shows_target() {
    let node = Node::Redirect { end: 15, start: 0, target: "T".to_string() };
    assert_eq!(
        rendered_one(node),
        node_box("redirect", " 0:15", vec![text_attribute("target: ", "\"T\"")])
    );
}

#[test]
fn tag_shows_name_then_its_nodes_directly() {
    let node = Node::Tag { end: 12, name: "ref".to_string(), nodes: vec![bold(5, 6)], start: 0 };
    assert_eq!(
        rendered_one(node),
        node_box("tag", " 0:12", vec![text_attribute("name: ", "\"ref\""), bold_box(" 5:6")])
    );
}

#[test]
fn text_shows_value() {
    let node = Node::Text { end: 7, start: 0, value: "Hello, ".to_string() };
    assert_eq!(
        rendered_one(node),
        node_box("text", " 0:7", vec![text_attribute("value: ", "\"Hello, \"")])
    );
}

#[test]
fn template_shows_name_then_parameters() {
    let node = Node::Template {
        end: 30,
        name: vec![bold(2, 3)],
        parameters: vec![
            TemplateParameter {
                end: 9,
                name: Some(vec![bold(4, 5)]),
                start: 4,
                value: vec![bold(6, 9)],
            },
            TemplateParameter { end: 14, name: None, start: 10, value: vec![] },
        ],
        start: 0,
    };
    assert_eq!(
        rendered_one(node),
        node_box(
            "template",
            " 0:30",
            vec![
                complex_attribute("name", vec![bold_box(" 2:3")]),
                node_box(
                    "parameter",
                    " 4:9",
                    vec![
                        complex_attribute("name", vec![bold_box(" 4:5")]),
                        complex_attribute("value", vec![bold_box(" 6:9")]),
                    ],
                ),
                node_box("parameter", " 10:14", vec![complex_attribute("value", vec![])]),
            ],
        )
    );
}

#[test]
fn table_shows_attributes_captions_and_rows() {
    let node = Node::Table {
        attributes: vec![bold(3, 10)],
        captions: vec![
            TableCaption {
                attributes: Some(vec![bold(12, 13)]),
                content: vec![bold(14, 17)],
                end: 17,
                start: 11,
            },
            TableCaption { attributes: None, content: vec![], end: 19, start: 18 },
        ],
        end: 60,
        rows: vec![
            TableRow {
                attributes: vec![bold(21, 25)],
                cells: vec![
                    TableCell {
                        attributes: None,
                        content: vec![bold(28, 29)],
                        end: 29,
                        start: 26,
                        type_: TableCellType::Heading,
                    },
                    TableCell {
                        attributes: Some(vec![]),
                        content: vec![],
                        end: 43,
                        start: 30,
                        type_: TableCellType::Ordinary,
                    },
                ],
                end: 43,
                start: 20,
            },
            TableRow { attributes: vec![], cells: vec![], end: 50, start: 44 },
        ],
        start: 0,
    };
    assert_eq!(
        rendered_one(node),
        node_box(
            "table",
            " 0:60",
            vec![
                complex_attribute("attributes", vec![bold_box(" 3:10")]),
                node_box(
                    "caption",
                    " 11:17",
                    vec![
                        complex_attribute("attributes", vec![bold_box(" 12:13")]),
                        complex_attribute("content", vec![bold_box(" 14:17")]),
                    ],
                ),
                node_box("caption", " 18:19", vec![complex_attribute("content", vec![])]),
                node_box(
                    "row",
                    " 20:43",
                    vec![
                        complex_attribute("attributes", vec![bold_box(" 21:25")]),
                        node_box(
                            "heading",
                            " 26:29",
                            vec![complex_attribute("content", vec![bold_box(" 28:29")])],
                        ),
                        node_box(
                            "cell",
                            " 30:43",
                            vec![
                                complex_attribute("attributes", vec![]),
                                complex_attribute("content", vec![]),
                            ],
                        ),
                    ],
                ),
                node_box("row", " 44:50", vec![]),
            ],
        )
    );
}

#[test]
fn table_without_attributes_has_no_such_row() {
    let node = Node::Table { attributes: vec![], captions: vec![], end: 5, rows: vec![], start: 0 };
    assert_eq!(rendered_one(node), node_box("table", " 0:5", vec![]));
}

#[test]
fn nested_nodes_are_rendered_to_any_depth() {
    let mut node = bold(0, 1);
    for depth in 0..50 {
        node = Node::ExternalLink { end: depth + 2, nodes: vec![node], start: 0 };
    }
    let mut current = rendered_one(node);
    for depth in (0..50).rev() {
        let Child::Element(node_el) = current else {
            panic!("a run of text where a box should be")
        };
        assert_eq!(node_el.children.len(), 3);
        assert_eq!(node_el.children[0], element("span", "name", vec![text("external link")]));
        assert_eq!(
            node_el.children[1],
            element("span", "position", vec![text(&format!(" 0:{}", depth + 2))])
        );
        current = node_el.children.into_iter().nth(2).unwrap();
    }
    assert_eq!(current, bold_box(" 0:1"));
}

#[test]
fn parse_puts_warnings_before_nodes() {
    let output = Output {
        nodes: vec![bold(0, 3), Node::Text { end: 5, start: 3, value: "[[".to_string() }],
        warnings: vec![
            Warning { end: 5, message: "Invalid link syntax.".to_string(), start: 3 },
            Warning { end: 9, message: "Repeated empty line.".to_string(), start: 8 },
        ],
    };
    let mut result_el = html("div", &["result"]);
    parse(&output, &mut result_el);
    assert_eq!(
        result_el.children,
        vec![
            node_box("Invalid link syntax.", " 3:5", vec![]),
            node_box("Repeated empty line.", " 8:9", vec![]),
            bold_box(" 0:3"),
            node_box("text", " 3:5", vec![text_attribute("value: ", "\"[[\"")]),
        ]
    );
}

#[test]
fn parse_of_an_empty_result_clears_the_panel() {
    let mut result_el = html("div", &["result"]);
    result_el.append_text("stale");
    result_el.append_element(html("div", &["node"]));
    parse(&Output { nodes: vec![], warnings: vec![] }, &mut result_el);
    assert_eq!(result_el, html("div", &["result"]));
}

#[test]
fn parse_twice_is_parse_once() {
    let output = Output {
        nodes: vec![bold(0, 3)],
        warnings: vec![Warning { end: 1, message: "Invalid character.".to_string(), start: 0 }],
    };
    let mut once = html("div", &["result"]);
    parse(&output, &mut once);
    let mut twice = html("div", &["result"]);
    twice.append_text("stale");
    parse(&output, &mut twice);
    parse(&output, &mut twice);
    assert_eq!(once, twice);
}

#[test]
fn every_box_opens_with_its_header() {
    let output = Output {
        nodes: vec![
            Node::Heading { end: 8, level: 2, nodes: vec![bold(3, 5)], start: 0 },
            Node::UnorderedList {
                end: 17,
                items: vec![ListItem { end: 13, nodes: vec![], start: 11 }],
                start: 10,
            },
        ],
        warnings: vec![Warning { end: 2, message: "Invalid tag syntax.".to_string(), start: 1 }],
    };
    let mut result_el = html("div", &["result"]);
    parse(&output, &mut result_el);
    let expected =
        [("Invalid tag syntax.", " 1:2"), ("heading", " 0:8"), ("unordered list", " 10:17")];
    assert_eq!(result_el.children.len(), expected.len());
    for (child, (label, position)) in result_el.children.iter().zip(expected) {
        let Child::Element(node_el) = child else { panic!("a run of text where a box should be") };
        assert_eq!(node_el.tag_name, "div");
        assert_eq!(node_el.class_names, "node");
        assert_eq!(node_el.children[0], element("span", "name", vec![text(label)]));
        assert_eq!(node_el.children[1], element("span", "position", vec![text(position)]));
    }
}

#[test]
fn every_kind_of_node_renders_under_its_label() {
    let nodes = vec![
        Node::Bold { end: 1, start: 0 },
        Node::BoldItalic { end: 1, start: 0 },
        Node::Category { end: 1, ordinal: vec![], start: 0, target: String::new() },
        Node::CharacterEntity { character: 'x', end: 1, start: 0 },
        Node::Comment { end: 1, start: 0 },
        Node::DefinitionList { end: 1, items: vec![], start: 0 },
        Node::EndTag { end: 1, name: String::new(), start: 0 },
        Node::ExternalLink { end: 1, nodes: vec![], start: 0 },
        Node::Heading { end: 1, level: 1, nodes: vec![], start: 0 },
        Node::HorizontalDivider { end: 1, start: 0 },
        Node::Image { end: 1, start: 0, target: String::new(), text: vec![] },
        Node::Italic { end: 1, start: 0 },
        Node::Link { end: 1, start: 0, target: String::new(), text: vec![] },
        Node::MagicWord { end: 1, start: 0 },
        Node::OrderedList { end: 1, items: vec![], start: 0 },
        Node::ParagraphBreak { end: 1, start: 0 },
        Node::Parameter { default: None, end: 1, name: vec![], start: 0 },
        Node::Preformatted { end: 1, nodes: vec![], start: 0 },
        Node::Redirect { end: 1, start: 0, target: String::new() },
        Node::StartTag { end: 1, name: String::new(), start: 0 },
        Node::Table { attributes: vec![], captions: vec![], end: 1, rows: vec![], start: 0 },
        Node::Tag { end: 1, name: String::new(), nodes: vec![], start: 0 },
        Node::Template { end: 1, name: vec![], parameters: vec![], start: 0 },
        Node::Text { end: 1, start: 0, value: String::new() },
        Node::UnorderedList { end: 1, items: vec![], start: 0 },
    ];
    let labels = [
        "bold",
        "bold italic",
        "category",
        "character entity",
        "comment",
        "definition list",
        "end tag",
        "external link",
        "heading",
        "horizontal divider",
        "image",
        "italic",
        "link",
        "magic word",
        "ordered list",
        "paragraph break",
        "parameter",
        "preformatted",
        "redirect",
        "start tag",
        "table",
        "tag",
        "template",
        "text",
        "unordered list",
    ];
    let children = rendered(nodes);
    assert_eq!(children.len(), labels.len());
    for (child, label) in children.iter().zip(labels) {
        let Child::Element(node_el) = child else { panic!("a run of text where a box should be") };
        assert_eq!(node_el.children[0], element("span", "name", vec![text(label)]));
        assert_eq!(node_el.children[1], element("span", "position", vec![text(" 0:1")]));
    }
}
