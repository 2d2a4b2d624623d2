//! The presentation tree and the helpers that build it.

use wikitext_inspector::dom::{html, Child, Element};

#[test]
fn html_without_class_has_an_empty_class_attribute() {
    let element = html("textarea", &[]);
    assert_eq!(
        element,
        Element { tag_name: "textarea".to_string(), class_names: String::new(), children: vec![] }
    );
}

#[test]
fn html_with_one_class() {
    let element = html("div", &["result"]);
    assert_eq!(element.tag_name, "div");
    assert_eq!(element.class_names, "result");
    assert!(element.children.is_empty());
}

#[test]
fn html_with_several_classes_separates_them_by_spaces() {
    assert_eq!(html("div", &["node", "warning"]).class_names, "node warning");
    assert_eq!(html("span", &["a", "b", "c"]).class_names, "a b c");
}

#[test]
fn new_element_has_tag_only() {
    let element = Element::new("span");
    assert_eq!(element.tag_name, "span");
    assert_eq!(element.class_names, "");
    assert!(element.children.is_empty());
}

#[test]
fn set_class_names_replaces_the_attribute() {
    let mut element = html("div", &["node"]);
    element.append_text("kept");
    element.set_class_names("result wide");
    assert_eq!(element.class_names, "result wide");
    assert_eq!(element.tag_name, "div");
    assert_eq!(element.children, vec![Child::Text("kept".to_string())]);
}

#[test]
fn children_are_appended_in_order() {
    let mut element = html("div", &["node"]);
    element.append_text("one");
    element.append_element(html("span", &["name"]));
    element.append_text("two");
    assert_eq!(
        element.children,
        vec![
            Child::Text("one".to_string()),
            Child::Element(html("span", &["name"])),
            Child::Text("two".to_string()),
        ]
    );
}

#[test]
fn empty_text_is_still_a_child() {
    let mut element = html("div", &[]);
    element.append_text("");
    assert_eq!(element.children, vec![Child::Text(String::new())]);
}

#[test]
fn set_inner_text_to_nothing_removes_all_children() {
    let mut element = html("div", &["result"]);
    element.append_text("one");
    element.append_element(html("div", &["node"]));
    element.set_inner_text("");
    assert_eq!(element, html("div", &["result"]));
}

#[test]
fn set_inner_text_replaces_the_children_by_the_text() {
    let mut element = html("div", &["result"]);
    element.append_element(html("div", &["node"]));
    element.set_inner_text("<b>plain</b>");
    assert_eq!(element.children, vec![Child::Text("<b>plain</b>".to_string())]);
    assert_eq!(element.class_names, "result");
}
