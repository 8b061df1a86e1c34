//! The thin trusted layer over the XML parser, and the whole-document
//! entry point.
//!
//! The parser's document and node values are opaque here: this module
//! only extracts them into the plain [`RawDocument`] tree that the
//! verified converter consumes. Each wrapper makes exactly one call into
//! the parser and converts its result into plain values; nothing below
//! this module sees a parser type again.

use vstd::prelude::*;

use crate::document::HtmlTailwind;
use crate::document::HtmlTailwindV;
use crate::document::build_document;
use crate::document::document_spec;
use crate::dom::ConvertError;
use crate::dom::ConvertErrorV;
use crate::raw::RawAttr;
use crate::raw::RawChild;
use crate::raw::RawDocument;
use crate::raw::RawElement;

verus! {

#[verifier::external_type_specification]
#[verifier::external_body]
pub struct ExXmlDocument<'input>(roxmltree::Document<'input>);

#[verifier::external_type_specification]
#[verifier::external_body]
pub struct ExXmlNode<'a, 'input: 'a>(roxmltree::Node<'a, 'input>);

#[verifier::external_type_specification]
#[verifier::external_body]
pub struct ExXmlError(roxmltree::Error);

/// The errors a whole document load can stop with.
#[derive(Debug, PartialEq, Eq)]
pub enum HtmlUiLoadError {
    /// The document is not well-formed XML; carries the parser's message.
    MarkupSyntax(String),
    /// The traversal budget derived from the parser's node count ran out
    /// before the tree was fully extracted.
    NodeBudget,
    /// An element outside the recognized tag set stood where a node was
    /// expected.
    UnsupportedTag(String),
    /// No recognized content element was found to serve as the root.
    MissingRoot,
}

/// Relies on `roxmltree::Document::parse`: parses XML text into a
/// document tree, or reports why the text is not well-formed.
#[verifier::external_body]
fn xml_parse<'i>(text: &'i str) -> (r: Result<roxmltree::Document<'i>, roxmltree::Error>) {
    roxmltree::Document::parse(text)
}

/// Relies on `core::fmt::Display` for `roxmltree::Error`: the parser's
/// human-readable description of the syntax error.
#[verifier::external_body]
fn xml_error_message(e: &roxmltree::Error) -> (r: String) {
    format!("{}", e)
}

/// Relies on `roxmltree::Document::root`: the document's root node.
#[verifier::external_body]
fn xml_root<'a, 'i>(doc: &'a roxmltree::Document<'i>) -> (r: roxmltree::Node<'a, 'i>) {
    doc.root()
}

/// Relies on `roxmltree::Node::descendants`: this node and everything
/// below it, in document order; used only to bound the traversal.
#[verifier::external_body]
fn xml_descendant_count(n: &roxmltree::Node) -> (r: usize) {
    n.descendants().count()
}

/// Relies on `roxmltree::Node::is_element`.
#[verifier::external_body]
fn xml_is_element(n: &roxmltree::Node) -> (r: bool) {
    n.is_element()
}

/// Relies on `roxmltree::Node::tag_name`: the element's local name,
/// empty for non-element nodes.
#[verifier::external_body]
fn xml_tag_name(n: &roxmltree::Node) -> (r: String) {
    n.tag_name().name().to_string()
}

/// Relies on `roxmltree::Node::attributes`: the attributes in document
/// order, each converted to a name/value pair.
#[verifier::external_body]
fn xml_attributes(n: &roxmltree::Node) -> (r: Vec<RawAttr>) {
    n.attributes().map(
        |a| RawAttr { name: a.name().to_string(), value: a.value().to_string() },
    ).collect()
}

/// Relies on `roxmltree::Node::text`: for an element, the text of its
/// first child when that child is a text node.
#[verifier::external_body]
fn xml_text(n: &roxmltree::Node) -> (r: Option<String>) {
    n.text().map(|t| t.to_string())
}

/// Relies on `roxmltree::Node::children`: the child nodes in document
/// order.
#[verifier::external_body]
fn xml_children<'a, 'i>(n: &roxmltree::Node<'a, 'i>) -> (r: Vec<roxmltree::Node<'a, 'i>>) {
    n.children().collect()
}

/// Reverses a vector.
fn reversed<T>(v: Vec<T>) -> (r: Vec<T>)
    ensures
        r@ == v@.reverse(),
{
    let mut rest = v;
    let mut out: Vec<T> = Vec::new();
    let ghost v0 = rest@;
    while rest.len() > 0
        invariant
            rest@.len() + out@.len() == v0.len(),
            rest@ =~= v0.take(rest@.len() as int),
            forall|k: int| 0 <= k < out@.len() ==> out@[k] == v0[v0.len() - 1 - k],
        decreases rest@.len(),
    {
        match rest.pop() {
            Some(x) => {
                out.push(x);
            },
            None => {
                proof {
                    assert(false);
                }
            },
        }
        proof {
            assert(rest@ =~= v0.take(rest@.len() as int));
        }
    }
    proof {
        assert(out@ =~= v0.reverse());
    }
    out
}

/// One unfinished element during tree extraction: its own data, the
/// children already extracted, and the parser nodes still to visit (in
/// reverse order, so the next child is popped from the end).
struct BuildFrame<'a, 'i> {
    tag: String,
    attrs: Vec<RawAttr>,
    text: Option<String>,
    done: Vec<RawChild>,
    pending: Vec<roxmltree::Node<'a, 'i>>,
}

/// Parses XML text and extracts the plain raw tree the converter works
/// on. The traversal is bounded by twice the parser's own node count;
/// a well-formed parse never exhausts that budget.
pub fn parse_raw(text: &str) -> (r: Result<RawDocument, HtmlUiLoadError>) {
    let doc = match xml_parse(text) {
        Ok(d) => d,
        Err(e) => {
            return Err(HtmlUiLoadError::MarkupSyntax(xml_error_message(&e)));
        },
    };
    let root = xml_root(&doc);
    let count = xml_descendant_count(&root);
    let mut fuel: usize = if count > (usize::MAX - 4) / 2 {
        usize::MAX
    } else {
        2 * count + 4
    };
    let mut stack: Vec<BuildFrame> = Vec::new();
    stack.push(
        BuildFrame {
            tag: String::new(),
            attrs: Vec::new(),
            text: None,
            done: Vec::new(),
            pending: reversed(xml_children(&root)),
        },
    );
    let mut result: Option<Vec<RawChild>> = None;
    while stack.len() > 0 && fuel > 0 && result.is_none()
        decreases fuel,
    {
        fuel = fuel - 1;
        let mut frame = match stack.pop() {
            Some(f) => f,
            None => {
                proof {
                    assert(false);
                }
                continue ;
            },
        };
        match frame.pending.pop() {
            Some(child) => {
                if xml_is_element(&child) {
                    let tag = xml_tag_name(&child);
                    let attrs = xml_attributes(&child);
                    let text = xml_text(&child);
                    let pending = reversed(xml_children(&child));
                    stack.push(frame);
                    stack.push(BuildFrame { tag, attrs, text, done: Vec::new(), pending });
                } else {
                    frame.done.push(RawChild::Other);
                    stack.push(frame);
                }
            },
            None => {
                if stack.len() == 0 {
                    result = Some(frame.done);
                } else {
                    let elem = RawElement {
                        tag: frame.tag,
                        attrs: frame.attrs,
                        text: frame.text,
                        children: frame.done,
                    };
                    let mut parent = match stack.pop() {
                        Some(p) => p,
                        None => {
                            proof {
                                assert(false);
                            }
                            continue ;
                        },
                    };
                    parent.done.push(RawChild::Element(elem));
                    stack.push(parent);
                }
            },
        }
    }
    match result {
        Some(top) => Ok(RawDocument { top }),
        None => Err(HtmlUiLoadError::NodeBudget),
    }
}

/// Loads a whole document from its text: parse, extract, assemble.
/// Whatever tree the parser produced, the assembled result is exactly
/// what the verified document build yields for it.
pub fn load_document(text: &str) -> (r: Result<HtmlTailwind, HtmlUiLoadError>)
    ensures
        match r {
            Ok(h) => exists|d: RawDocument|
                #[trigger] document_spec(d) == Ok::<HtmlTailwindV, ConvertErrorV>(h@),
            Err(_) => true,
        },
{
    let raw = match parse_raw(text) {
        Ok(d) => d,
        Err(e) => {
            return Err(e);
        },
    };
    match build_document(&raw) {
        Ok(h) => {
            proof {
                assert(document_spec(raw) == Ok::<HtmlTailwindV, ConvertErrorV>(h@));
            }
            Ok(h)
        },
        Err(ConvertError::UnsupportedTag(t)) => Err(HtmlUiLoadError::UnsupportedTag(t)),
        Err(ConvertError::MissingRoot) => Err(HtmlUiLoadError::MissingRoot),
    }
}

} // verus!
