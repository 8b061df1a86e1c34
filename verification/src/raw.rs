//! The generic attributed markup tree the node converter consumes.
//!
//! A [`RawElement`] carries exactly what the converter reads from a parsed
//! document: the tag name as written, the attributes in document order,
//! the element's direct text (the first text child, untrimmed), and the
//! child list with non-element children kept as [`RawChild::Other`]
//! placeholders so the converter's skipping rule is visible and verified.

use vstd::prelude::*;

verus! {

/// One attribute of an element: its name and value as written.
#[derive(Debug)]
pub struct RawAttr {
    pub name: String,
    pub value: String,
}

/// One element of the markup tree.
#[derive(Debug)]
pub struct RawElement {
    /// The tag name as written in the document.
    pub tag: String,
    /// The attributes, in document order.
    pub attrs: Vec<RawAttr>,
    /// The element's direct text: its first child, when that child is a
    /// text node, untrimmed.
    pub text: Option<String>,
    /// All children in document order, non-elements included.
    pub children: Vec<RawChild>,
}

/// One child of an element: a nested element, or a non-element node
/// (text between elements, a comment, a processing instruction).
#[derive(Debug)]
pub enum RawChild {
    Element(RawElement),
    Other,
}

/// A whole parsed document: the nodes at its top level, in order.
#[derive(Debug)]
pub struct RawDocument {
    pub top: Vec<RawChild>,
}

impl RawElement {
    /// A leaf element with a tag and nothing else, a convenient starting
    /// point for building raw trees by hand.
    pub fn new(tag: String) -> (r: RawElement)
        ensures
            r.tag == tag,
            r.attrs@ =~= Seq::<RawAttr>::empty(),
            r.text is None,
            r.children@ =~= Seq::<RawChild>::empty(),
    {
        RawElement { tag, attrs: Vec::new(), text: None, children: Vec::new() }
    }
}

} // verus!
