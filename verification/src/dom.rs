//! The presentation tree: elements with a tag, a class list and an ordered
//! list of children, each child being a run of text or another element.

use vstd::prelude::*;
use vstd::string::StringExecFns;

verus! {

/// A child of an element: plain text or a nested element.
#[derive(Debug, PartialEq, Eq)]
pub enum Child {
    Text(String),
    Element(Element),
}

/// An element of the presentation tree.
#[derive(Debug, PartialEq, Eq)]
pub struct Element {
    pub tag_name: String,
    pub class_names: String,
    pub children: Vec<Child>,
}

/// The mathematical value of a [`Child`].
pub enum ChildView {
    Text(Seq<char>),
    Element(ElementView),
}

/// The mathematical value of an [`Element`].
pub struct ElementView {
    pub tag_name: Seq<char>,
    pub class_names: Seq<char>,
    pub children: Seq<ChildView>,
}

impl ElementView {
    /// The element with `child` added after its present children.
    pub open spec fn append(self, child: ChildView) -> ElementView {
        ElementView { children: self.children.push(child), ..self }
    }

    /// The element with `children` added, in order, after its present
    /// children.
    pub open spec fn extend(self, children: Seq<ChildView>) -> ElementView {
        ElementView { children: self.children + children, ..self }
    }

    /// The element with `text` added as its last child.
    pub open spec fn append_text(self, text: Seq<char>) -> ElementView {
        self.append(ChildView::Text(text))
    }

    /// The element with `element` added as its last child.
    pub open spec fn append_element(self, element: ElementView) -> ElementView {
        self.append(ChildView::Element(element))
    }
}

/// The value of a child.
pub open spec fn child_view(child: Child) -> ChildView
    decreases child,
{
    match child {
        Child::Text(text) => ChildView::Text(text@),
        Child::Element(element) => ChildView::Element(element_view(element)),
    }
}

/// The value of an element: its tag, its class list and the values of its
/// children in order.
pub open spec fn element_view(element: Element) -> ElementView
    decreases element,
{
    ElementView {
        tag_name: element.tag_name@,
        class_names: element.class_names@,
        children: children_view(element.children@),
    }
}

/// The values of a sequence of children, in order.
pub open spec fn children_view(children: Seq<Child>) -> Seq<ChildView>
    decreases children,
{
    Seq::new(
        children.len(),
        |i: int|
            if 0 <= i < children.len() {
                child_view(children[i])
            } else {
                arbitrary()
            },
    )
}

impl View for Child {
    type V = ChildView;

    open spec fn view(&self) -> ChildView {
        child_view(*self)
    }
}

impl View for Element {
    type V = ElementView;

    open spec fn view(&self) -> ElementView {
        element_view(*self)
    }
}

/// The class attribute that names a list of classes: the names in order,
/// one space between neighbours.
pub open spec fn class_list(names: Seq<Seq<char>>) -> Seq<char>
    decreases names.len(),
{
    if names.len() == 0 {
        Seq::empty()
    } else if names.len() == 1 {
        names[0]
    } else {
        class_list(names.drop_last()) + seq![' '] + names.last()
    }
}

/// The views of a list of string slices.
pub open spec fn str_views(names: Seq<&str>) -> Seq<Seq<char>> {
    Seq::new(names.len(), |i: int| names[i]@)
}

/// Creates an element with the given tag, no children, and a class attribute
/// that lists `class_names` separated by single spaces (empty when no class is
/// asked for).
pub fn html(tag_name: &str, class_names: &[&str]) -> (element: Element)
    ensures
        element@ == (ElementView {
            tag_name: tag_name@,
            class_names: class_list(str_views(class_names@)),
            children: Seq::empty(),
        }),
{
    let mut element = Element::new(tag_name);
    let ghost names = str_views(class_names@);
    let mut joined = String::new();
    let mut i: usize = 0;
    while i < class_names.len()
        invariant
            i <= class_names.len(),
            names == str_views(class_names@),
            joined@ == class_list(names.take(i as int)),
        decreases class_names.len() - i,
    {
        proof {
            reveal_strlit(" ");
            assert(names.take(i as int + 1).drop_last() =~= names.take(i as int));
        }
        if i > 0 {
            joined.append(" ");
        }
        joined.append(class_names[i]);
        i += 1;
    }
    proof {
        assert(names.take(i as int) =~= names);
    }
    element.set_class_names(joined.as_str());
    element
}

impl Element {
    /// Creates an element with the given tag, no class and no children.
    pub fn new(tag_name: &str) -> (element: Element)
        ensures
            element@ == (ElementView {
                tag_name: tag_name@,
                class_names: Seq::empty(),
                children: Seq::empty(),
            }),
    {
        let element = Element {
            tag_name: tag_name.to_owned(),
            class_names: String::new(),
            children: Vec::new(),
        };
        assert(element@.children =~= Seq::empty());
        element
    }

    /// Replaces the class attribute.
    pub fn set_class_names(&mut self, class_names: &str)
        ensures
            final(self)@ == (ElementView { class_names: class_names@, ..old(self)@ }),
    {
        self.class_names = class_names.to_owned();
    }

    /// Adds `content` after the present children.
    pub fn append_element(&mut self, content: Element)
        ensures
            final(self)@ == old(self)@.append_element(content@),
    {
        self.children.push(Child::Element(content));
        assert(self@.children =~= old(self)@.children.push(ChildView::Element(content@)));
    }

    /// Adds a run of text after the present children.
    pub fn append_text(&mut self, content: &str)
        ensures
            final(self)@ == old(self)@.append_text(content@),
    {
        self.children.push(Child::Text(content.to_owned()));
        assert(self@.children =~= old(self)@.children.push(ChildView::Text(content@)));
    }

    /// Sets the displayed text: every child is removed, and `text`, unless it
    /// is empty, becomes the only child.
    pub fn set_inner_text(&mut self, text: &str)
        ensures
            final(self)@ == (ElementView {
                children: if text@.len() == 0 {
                    Seq::empty()
                } else {
                    seq![ChildView::Text(text@)]
                },
                ..old(self)@
            }),
    {
        self.children = Vec::new();
        if !text.is_empty() {
            self.children.push(Child::Text(text.to_owned()));
        }
        assert(self@.children =~= if text@.len() == 0 {
            Seq::empty()
        } else {
            seq![ChildView::Text(text@)]
        });
    }
}

} // verus!
