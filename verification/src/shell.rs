//! The live loop of the page: the text field is seeded from the text kept in
//! the history state, or from a sample when none was kept, and every edit
//! replaces the kept text and renders the new parse into the result panel.

use vstd::prelude::*;
use crate::ast::{Output, OutputView};
use crate::dom::{html, Element, ElementView};
use crate::parse::parse;
use crate::rendering::rendered_panel;

verus! {

/// The page as the live loop sees it.
#[derive(Debug, PartialEq, Eq)]
pub struct Shell {
    /// The text in the text field.
    pub input_value: String,
    /// The text kept in the history state, if any.
    pub history_state: Option<String>,
    /// The result panel.
    pub result_el: Element,
}

/// The mathematical value of a [`Shell`].
pub struct ShellView {
    pub input_value: Seq<char>,
    pub history_state: Option<Seq<char>>,
    pub result_el: ElementView,
}

/// The sample text that the field shows when no text was kept.
pub open spec fn default_text() -> Seq<char> {
    "Hello, [[World]]!"@
}

/// The text that the field starts with: the kept text, or the sample.
pub open spec fn seed_text(history_state: Option<Seq<char>>) -> Seq<char> {
    match history_state {
        Some(text) => text,
        None => default_text(),
    }
}

/// The characters of a text that may be absent.
pub open spec fn optional_text(text: Option<String>) -> Option<Seq<char>> {
    match text {
        Some(text) => Some(text@),
        None => None,
    }
}

/// An empty result panel.
pub open spec fn empty_panel() -> ElementView {
    ElementView { tag_name: "div"@, class_names: "result"@, children: Seq::empty() }
}

impl ShellView {
    /// The page at startup: the text field holds the seed, the history state
    /// is as it was found, and the result panel is empty.
    pub open spec fn startup(history_state: Option<Seq<char>>) -> ShellView {
        ShellView {
            input_value: seed_text(history_state),
            history_state: history_state,
            result_el: empty_panel(),
        }
    }

    /// The page once `output` has been rendered: the result panel shows it,
    /// and nothing else has changed.
    pub open spec fn rendered(self, output: OutputView) -> ShellView {
        ShellView { result_el: rendered_panel(self.result_el, output), ..self }
    }

    /// The page after an edit that left `value` in the text field, `output`
    /// being the parse of it: the history state holds `value`, and the result
    /// panel shows `output`.
    pub open spec fn edited(self, value: Seq<char>, output: OutputView) -> ShellView {
        ShellView {
            input_value: value,
            history_state: Some(value),
            result_el: rendered_panel(self.result_el, output),
        }
    }
}

impl View for Shell {
    type V = ShellView;

    open spec fn view(&self) -> ShellView {
        ShellView {
            input_value: self.input_value@,
            history_state: optional_text(self.history_state),
            result_el: self.result_el@,
        }
    }
}

/// After an edit the history state holds the text of that edit, whatever the
/// page was before.
pub proof fn lemma_edit_is_kept(before: ShellView, value: Seq<char>, output: OutputView)
    ensures
        before.edited(value, output).history_state == Some(value),
{
}

/// What an edit leaves in the history state is what the next startup finds
/// there: the text field then starts with the text of that edit, and not with
/// the sample.
pub proof fn lemma_reload_restores_input(before: ShellView, value: Seq<char>, output: OutputView)
    ensures
        ShellView::startup(before.edited(value, output).history_state).input_value == value,
{
}

/// The text that the text field starts with, given what the history state
/// holds: that text, or the sample when it holds none.
pub fn initial_text(history_state: &Option<String>) -> (text: String)
    ensures
        text@ == seed_text(optional_text(*history_state)),
{
    match history_state {
        Some(text) => text.clone(),
        None => "Hello, [[World]]!".to_owned(),
    }
}

impl Shell {
    /// Sets the page up: the text field is seeded from the history state, and
    /// the result panel is created empty.
    pub fn new(history_state: Option<String>) -> (shell: Shell)
        ensures
            shell@ == ShellView::startup(optional_text(history_state)),
    {
        let input_value = initial_text(&history_state);
        Shell { input_value, history_state, result_el: html("div", &["result"]) }
    }

    /// Shows `result`, the parse of the text in the field, in the result
    /// panel.
    pub fn render(&mut self, result: &Output)
        ensures
            final(self)@ == old(self)@.rendered(result@),
    {
        parse(result, &mut self.result_el);
    }

    /// Handles an edit: the field now holds `value`, whose parse is `result`.
    /// The history state is overwritten with `value`, and the result panel
    /// shows the new parse.
    pub fn input(&mut self, value: &str, result: &Output)
        ensures
            final(self)@ == old(self)@.edited(value@, result@),
    {
        self.input_value = value.to_owned();
        self.history_state = Some(value.to_owned());
        parse(result, &mut self.result_el);
    }
}

} // verus!
