//! Elements of a document, and a cursor over the children of one.
//!
//! The library reads no markup. Whoever parses the document hands each
//! element over as an `Element`: its tag name, its attributes, its text and
//! its child elements in document order.

use crate::text::str_eq;
use vstd::prelude::*;

verus! {

/// An attribute of an element.
#[derive(Clone, Debug, PartialEq, Eq)]
pub struct Attribute {
    pub name: String,
    pub value: String,
}

/// An element of a document.
#[derive(Debug)]
pub struct Element {
    pub tag_name: String,
    pub attributes: Vec<Attribute>,
    pub text: String,
    pub children: Vec<Element>,
}

/// Whether the child at `at` is there and has the tag name `tag`.
pub open spec fn tag_is(children: Seq<Element>, at: int, tag: Seq<char>) -> bool {
    0 <= at < children.len() && children[at].tag_name@ == tag
}

/// The text of the child at `at` where it has the tag name `tag`, and the
/// place of the cursor after it; `None` and the same place where it has not.
pub open spec fn text_if(children: Seq<Element>, at: int, tag: Seq<char>) -> (Option<String>, int) {
    if tag_is(children, at, tag) {
        (Some(children[at].text), at + 1)
    } else {
        (None, at)
    }
}

/// The place of the first child from `at` on that does not have the tag name
/// `tag`.
pub open spec fn run_end(children: Seq<Element>, at: int, tag: Seq<char>) -> int
    decreases children.len() - at,
{
    if tag_is(children, at, tag) {
        run_end(children, at + 1, tag)
    } else {
        at
    }
}

/// The texts of the children from `at` to `end`.
pub open spec fn texts(children: Seq<Element>, at: int, end: int) -> Seq<String> {
    Seq::new((end - at) as nat, |i: int| children[at + i].text)
}

/// The texts of the children from `at` on that have the tag name `tag`, up
/// to the first that has not.
pub open spec fn run_texts(children: Seq<Element>, at: int, tag: Seq<char>) -> Seq<String> {
    texts(children, at, run_end(children, at, tag))
}

/// The run of children with the tag name `tag` from `at` on ends at or after
/// `at`, within the children where `at` is, and every child in it has the
/// tag name.
pub proof fn lemma_run_end(children: Seq<Element>, at: int, tag: Seq<char>)
    requires
        0 <= at <= children.len(),
    ensures
        at <= run_end(children, at, tag) <= children.len(),
        !tag_is(children, run_end(children, at, tag), tag),
        forall|i: int| at <= i < run_end(children, at, tag) ==> tag_is(children, i, tag),
    decreases children.len() - at,
{
    if tag_is(children, at, tag) {
        lemma_run_end(children, at + 1, tag);
    }
}

/// The value of the first attribute with the name `name`.
pub open spec fn attribute_value(attributes: Seq<Attribute>, name: Seq<char>) -> Option<String>
    decreases attributes.len(),
{
    if attributes.len() == 0 {
        None
    } else if attributes[0].name@ == name {
        Some(attributes[0].value)
    } else {
        attribute_value(attributes.skip(1), name)
    }
}

impl Element {
    /// An element without attributes and children.
    pub fn new(tag_name: &str, text: &str) -> (element: Self)
        ensures
            element.tag_name@ == tag_name@,
            element.text@ == text@,
            element.attributes@.len() == 0,
            element.children@.len() == 0,
    {
        Self {
            tag_name: String::from_str(tag_name),
            attributes: Vec::new(),
            text: String::from_str(text),
            children: Vec::new(),
        }
    }

    /// The element with one more attribute.
    pub fn with_attribute(self, name: &str, value: &str) -> (element: Self)
        ensures
            element.tag_name == self.tag_name,
            element.text == self.text,
            element.children == self.children,
            element.attributes@.len() == self.attributes@.len() + 1,
            element.attributes@.drop_last() == self.attributes@,
            element.attributes@.last().name@ == name@,
            element.attributes@.last().value@ == value@,
    {
        let mut element = self;
        element.attributes.push(
            Attribute { name: String::from_str(name), value: String::from_str(value) },
        );
        assert(element.attributes@.drop_last() =~= self.attributes@);
        element
    }

    /// The element with one more child behind those that it has.
    pub fn with_child(self, child: Element) -> (element: Self)
        ensures
            element.tag_name == self.tag_name,
            element.text == self.text,
            element.attributes == self.attributes,
            element.children@ == self.children@.push(child),
    {
        let mut element = self;
        element.children.push(child);
        element
    }

    /// The value of the first attribute with the name `name`.
    pub fn attribute_of(&self, name: &str) -> (value: Option<&String>)
        ensures
            match attribute_value(self.attributes@, name@) {
                Some(found) => value matches Some(v) && *v == found,
                None => value is None,
            },
    {
        let mut i: usize = 0;
        assert(self.attributes@.skip(0) =~= self.attributes@);
        while i < self.attributes.len()
            invariant
                i <= self.attributes@.len(),
                attribute_value(self.attributes@, name@) == attribute_value(
                    self.attributes@.skip(i as int),
                    name@,
                ),
            decreases self.attributes@.len() - i,
        {
            let ghost rest = self.attributes@.skip(i as int);
            assert(rest[0] == self.attributes@[i as int]);
            assert(rest.skip(1) =~= self.attributes@.skip(i + 1));
            if str_eq(self.attributes[i].name.as_str(), name) {
                return Some(&self.attributes[i].value);
            }
            i = i + 1;
        }
        None
    }
}

/// A cursor over the children of an element.
#[derive(Clone, Copy, Debug)]
pub struct Node<'a> {
    pub element: &'a Element,
    pub next: usize,
}

impl<'a> Node<'a> {
    /// The cursor stands at a child or behind the last.
    pub open spec fn wf(&self) -> bool {
        self.next <= self.element.children@.len()
    }

    /// The children of the element.
    pub open spec fn children(&self) -> Seq<Element> {
        self.element.children@
    }

    /// A cursor at the first child of `element`.
    pub fn new(element: &'a Element) -> (node: Self)
        ensures
            node.wf(),
            node.element == element,
            node.next == 0,
    {
        Self { element, next: 0 }
    }

    /// The tag name of the element.
    pub fn tag_name(&self) -> (name: &'a str)
        ensures
            name@ == self.element.tag_name@,
    {
        self.element.tag_name.as_str()
    }

    /// The child at the cursor.
    pub fn peek(&self) -> (child: Option<&'a Element>)
        requires
            self.wf(),
        ensures
            self.next < self.children().len() ==> child == Some(&self.children()[self.next as int]),
            self.next >= self.children().len() ==> child is None,
    {
        if self.next < self.element.children.len() {
            Some(&self.element.children[self.next])
        } else {
            None
        }
    }

    /// Whether the child at the cursor has the tag name `tag_name`.
    pub fn is_next_node_name(&self, tag_name: &str) -> (is: bool)
        requires
            self.wf(),
        ensures
            is == tag_is(self.children(), self.next as int, tag_name@),
    {
        match self.peek() {
            Some(child) => str_eq(child.tag_name.as_str(), tag_name),
            None => false,
        }
    }

    /// The child at the cursor, which moves on, where that child has the tag
    /// name `tag_name`.
    pub fn next_if(&mut self, tag_name: &str) -> (child: Option<&'a Element>)
        requires
            old(self).wf(),
        ensures
            final(self).wf(),
            final(self).element == old(self).element,
            tag_is(old(self).children(), old(self).next as int, tag_name@) ==> child == Some(
                &old(self).children()[old(self).next as int],
            ) && final(self).next == old(self).next + 1,
            !tag_is(old(self).children(), old(self).next as int, tag_name@) ==> child is None
                && final(self).next == old(self).next,
    {
        if self.is_next_node_name(tag_name) {
            let child = &self.element.children[self.next];
            assert(self.element.children.len() == self.children().len());
            self.next = self.next + 1;
            Some(child)
        } else {
            None
        }
    }

    /// The text of the child at the cursor, which moves on, where that child
    /// has the tag name `tag_name`.
    pub fn parse_if(&mut self, tag_name: &str) -> (text: Option<String>)
        requires
            old(self).wf(),
        ensures
            final(self).wf(),
            final(self).element == old(self).element,
            (text, final(self).next as int) == text_if(
                old(self).children(),
                old(self).next as int,
                tag_name@,
            ),
    {
        match self.next_if(tag_name) {
            Some(child) => Some(child.text.clone()),
            None => None,
        }
    }

    /// The texts of the children from the cursor on that have the tag name
    /// `tag_name`; the cursor moves to the first child that has not.
    pub fn parse_while(&mut self, tag_name: &str) -> (found: Vec<String>)
        requires
            old(self).wf(),
        ensures
            final(self).wf(),
            final(self).element == old(self).element,
            final(self).next == run_end(old(self).children(), old(self).next as int, tag_name@),
            found@ == run_texts(old(self).children(), old(self).next as int, tag_name@),
    {
        let mut found: Vec<String> = Vec::new();
        let ghost start = self.next as int;
        loop
            invariant
                self.wf(),
                self.element == old(self).element,
                start == old(self).next,
                start <= self.next,
                run_end(self.children(), start, tag_name@) == run_end(
                    self.children(),
                    self.next as int,
                    tag_name@,
                ),
                found@ == texts(self.children(), start, self.next as int),
            decreases self.children().len() - self.next,
        {
            match self.parse_if(tag_name) {
                Some(text) => {
                    found.push(text);
                    assert(found@ =~= texts(self.children(), start, self.next as int));
                },
                None => {
                    return found;
                },
            }
        }
    }
}

} // verus!
