//! The live loop: how the text field is seeded, and what an edit changes.

use wikitext_inspector::ast::{Node, Output};
use wikitext_inspector::dom::{html, Child};
use wikitext_inspector::shell::{initial_text, Shell};

fn one_text(value: &str) -> Output {
    Output {
        nodes: vec![Node::Text { end: value.len(), start: 0, value: value.to_string() }],
        warnings: vec![],
    }
}

#[test]
fn kept_text_seeds_the_field() {
    let shell = Shell::new(Some("foo".to_string()));
    assert_eq!(shell.input_value, "foo");
    assert_ne!(shell.input_value, "Hello, [[World]]!");
    assert_eq!(shell.history_state, Some("foo".to_string()));
}

#[test]
fn sample_seeds_the_field_when_nothing_was_kept() {
    let shell = Shell::new(None);
    assert_eq!(shell.input_value, "Hello, [[World]]!");
    assert_eq!(shell.history_state, None);
}

#[test]
fn kept_empty_text_is_kept_text() {
    let shell = Shell::new(Some(String::new()));
    assert_eq!(shell.input_value, "");
}

#[test]
fn initial_text_is_the_kept_text_or_the_sample() {
    assert_eq!(initial_text(&Some("== Hi ==\n".to_string())), "== Hi ==\n");
    assert_eq!(initial_text(&None), "Hello, [[World]]!");
}

#[test]
fn result_panel_starts_empty() {
    let shell = Shell::new(None);
    assert_eq!(shell.result_el, html("div", &["result"]));
}

#[test]
fn render_fills_the_panel_and_keeps_the_rest() {
    let mut shell = Shell::new(Some("foo".to_string()));
    shell.render(&one_text("foo"));
    assert_eq!(shell.input_value, "foo");
    assert_eq!(shell.history_state, Some("foo".to_string()));
    assert_eq!(shell.result_el.children.len(), 1);
}

#[test]
fn after_an_edit_the_history_state_is_the_new_text() {
    let mut shell = Shell::new(None);
    shell.render(&one_text("Hello, [[World]]!"));
    for value in ["H", "", "== Hi ==\n", "[["] {
        shell.input(value, &one_text(value));
        assert_eq!(shell.history_state, Some(value.to_string()));
        assert_eq!(shell.input_value, value);
    }
}

#[test]
fn an_edit_shows_the_new_parse_only() {
    let mut shell = Shell::new(None);
    shell.render(&Output {
        nodes: vec![Node::Bold { end: 3, start: 0 }, Node::Bold { end: 6, start: 3 }],
        warnings: vec![],
    });
    assert_eq!(shell.result_el.children.len(), 2);
    shell.input("x", &one_text("x"));
    assert_eq!(shell.result_el.children.len(), 1);
    let Child::Element(node_el) = &shell.result_el.children[0] else {
        panic!("a run of text where a box should be")
    };
    let Child::Element(name_el) = &node_el.children[0] else {
        panic!("the box opens with text")
    };
    assert_eq!(name_el.children, vec![Child::Text("text".to_string())]);
}

#[test]
fn reload_brings_the_last_edit_back() {
    let mut shell = Shell::new(None);
    shell.input("foo", &one_text("foo"));
    let reloaded = Shell::new(shell.history_state.clone());
    assert_eq!(reloaded.input_value, "foo");
}
