//! Document-level assembly: scanning the head for font declarations,
//! selecting the document's single root element, converting it and
//! running the resolution pass.
//!
//! A document is either a bare content element at the top level or an
//! `html` wrapper holding an optional `head` (with `font` declarations)
//! and a `body`. Inside a body every element child must be a recognized
//! content element (`div`, `p`, `span`, `button`) and the first one
//! becomes the root; any other tag there is a fatal error. At the top
//! level, unrecognized elements are tolerated and skipped, so a bare
//! root can stand beside processing instructions and comments.

use vstd::prelude::*;

use crate::dom::ConvertError;
use crate::dom::ConvertErrorV;
use crate::dom::XNode;
use crate::dom::XNodeV;
use crate::dom::attr_value;
use crate::dom::attr_value_exec;
use crate::dom::convert_spec;
use crate::dom::eq_ci;
use crate::dom::is_tag_ci;
use crate::dom::opt_handle_view;
use crate::dom::resolve_node_spec;
use crate::grammar::token_eq;
use crate::raw::RawChild;
use crate::raw::RawDocument;
use crate::raw::RawElement;
use crate::resource::FontTable;
use crate::resource::ResourceHandle;
use crate::resource::load_resource;

verus! {

/// The effect of one `font` declaration on the font table and the
/// default-font slot: a declaration without `src` is skipped entirely, a
/// `name="default"` or nameless declaration fills the default slot, and
/// any other name is bound in the table.
pub open spec fn font_step(
    e: RawElement,
    m: Map<Seq<char>, Seq<char>>,
    df: Option<Seq<char>>,
) -> (Map<Seq<char>, Seq<char>>, Option<Seq<char>>) {
    match attr_value(e.attrs@, "src"@) {
        None => (m, df),
        Some(src) => match attr_value(e.attrs@, "name"@) {
            None => (m, Some(src)),
            Some(name) => if name == "default"@ {
                (m, Some(src))
            } else {
                (m.insert(name, src), df)
            },
        },
    }
}

/// Scans a head's children from position `i` for `font` declarations.
pub open spec fn head_fonts(
    cs: Seq<RawChild>,
    i: int,
    m: Map<Seq<char>, Seq<char>>,
    df: Option<Seq<char>>,
) -> (Map<Seq<char>, Seq<char>>, Option<Seq<char>>)
    decreases cs, cs.len() - i,
{
    if i < 0 || i >= cs.len() {
        (m, df)
    } else {
        match cs[i] {
            RawChild::Other => head_fonts(cs, i + 1, m, df),
            RawChild::Element(e) => if is_tag_ci(e.tag@, "font"@) {
                let (m2, d2) = font_step(e, m, df);
                head_fonts(cs, i + 1, m2, d2)
            } else {
                head_fonts(cs, i + 1, m, df)
            },
        }
    }
}

/// Scans an `html` wrapper's children from position `i`, folding every
/// `head` section's font declarations.
pub open spec fn html_fonts(
    cs: Seq<RawChild>,
    i: int,
    m: Map<Seq<char>, Seq<char>>,
    df: Option<Seq<char>>,
) -> (Map<Seq<char>, Seq<char>>, Option<Seq<char>>)
    decreases cs, cs.len() - i,
{
    if i < 0 || i >= cs.len() {
        (m, df)
    } else {
        match cs[i] {
            RawChild::Other => html_fonts(cs, i + 1, m, df),
            RawChild::Element(e) => if is_tag_ci(e.tag@, "head"@) {
                let (m2, d2) = head_fonts(e.children@, 0, m, df);
                html_fonts(cs, i + 1, m2, d2)
            } else {
                html_fonts(cs, i + 1, m, df)
            },
        }
    }
}

/// Scans the document's top-level children from position `i`, folding
/// the font declarations of every `html` wrapper's heads.
pub open spec fn top_fonts(
    cs: Seq<RawChild>,
    i: int,
    m: Map<Seq<char>, Seq<char>>,
    df: Option<Seq<char>>,
) -> (Map<Seq<char>, Seq<char>>, Option<Seq<char>>)
    decreases cs, cs.len() - i,
{
    if i < 0 || i >= cs.len() {
        (m, df)
    } else {
        match cs[i] {
            RawChild::Other => top_fonts(cs, i + 1, m, df),
            RawChild::Element(e) => if is_tag_ci(e.tag@, "html"@) {
                let (m2, d2) = html_fonts(e.children@, 0, m, df);
                top_fonts(cs, i + 1, m2, d2)
            } else {
                top_fonts(cs, i + 1, m, df)
            },
        }
    }
}

/// Whether a tag may stand as the document's root content element.
pub open spec fn root_eligible(tag: Seq<char>) -> bool {
    is_tag_ci(tag, "div"@) || is_tag_ci(tag, "button"@) || is_tag_ci(tag, "span"@) || is_tag_ci(
        tag,
        "p"@,
    )
}

/// The root a body's children from position `i` yield: the first
/// ineligible element child is a fatal error, otherwise the first
/// eligible element becomes the root.
pub open spec fn body_root(cs: Seq<RawChild>, i: int) -> Result<Option<RawElement>, Seq<char>>
    decreases cs, cs.len() - i,
{
    if i < 0 || i >= cs.len() {
        Ok(None)
    } else {
        match cs[i] {
            RawChild::Other => body_root(cs, i + 1),
            RawChild::Element(e) => if root_eligible(e.tag@) {
                match body_root(cs, i + 1) {
                    Err(t) => Err(t),
                    Ok(_) => Ok(Some(e)),
                }
            } else {
                Err(e.tag@)
            },
        }
    }
}

/// The root an `html` wrapper's children from position `i` yield: the
/// first `body` section that contains one.
pub open spec fn html_root(cs: Seq<RawChild>, i: int) -> Result<Option<RawElement>, Seq<char>>
    decreases cs, cs.len() - i,
{
    if i < 0 || i >= cs.len() {
        Ok(None)
    } else {
        match cs[i] {
            RawChild::Other => html_root(cs, i + 1),
            RawChild::Element(e) => if is_tag_ci(e.tag@, "body"@) {
                match body_root(e.children@, 0) {
                    Err(t) => Err(t),
                    Ok(Some(r)) => Ok(Some(r)),
                    Ok(None) => html_root(cs, i + 1),
                }
            } else {
                html_root(cs, i + 1)
            },
        }
    }
}

/// The root the document's top-level children from position `i` yield:
/// from the first `html` wrapper that contains one, or the first bare
/// eligible element; other top-level elements are skipped.
pub open spec fn top_root(cs: Seq<RawChild>, i: int) -> Result<Option<RawElement>, Seq<char>>
    decreases cs, cs.len() - i,
{
    if i < 0 || i >= cs.len() {
        Ok(None)
    } else {
        match cs[i] {
            RawChild::Other => top_root(cs, i + 1),
            RawChild::Element(e) => if is_tag_ci(e.tag@, "html"@) {
                match html_root(e.children@, 0) {
                    Err(t) => Err(t),
                    Ok(Some(r)) => Ok(Some(r)),
                    Ok(None) => top_root(cs, i + 1),
                }
            } else if root_eligible(e.tag@) {
                Ok(Some(e))
            } else {
                top_root(cs, i + 1)
            },
        }
    }
}

/// A fully assembled document: the resolved node tree, the font table
/// scanned from its head, and the default font.
#[derive(Debug)]
pub struct HtmlTailwind {
    pub dom: XNode,
    pub fonts: FontTable,
    pub default_font: Option<ResourceHandle>,
}

/// The mathematical model of an assembled document.
pub ghost struct HtmlTailwindV {
    pub dom: XNodeV,
    pub fonts: Map<Seq<char>, Seq<char>>,
    pub default_font: Option<Seq<char>>,
}

impl View for HtmlTailwind {
    type V = HtmlTailwindV;

    open spec fn view(&self) -> HtmlTailwindV {
        HtmlTailwindV {
            dom: self.dom@,
            fonts: self.fonts@,
            default_font: opt_handle_view(self.default_font),
        }
    }
}

/// The assembled document a raw document yields: fonts scanned, the
/// single root selected, converted, and resolved; or the error that
/// stops it.
pub open spec fn document_spec(doc: RawDocument) -> Result<HtmlTailwindV, ConvertErrorV> {
    let (m, df) = top_fonts(doc.top@, 0, Map::empty(), None);
    match top_root(doc.top@, 0) {
        Err(t) => Err(ConvertErrorV::UnsupportedTag(t)),
        Ok(None) => Err(ConvertErrorV::MissingRoot),
        Ok(Some(e)) => match convert_spec(e) {
            Err(t) => Err(ConvertErrorV::UnsupportedTag(t)),
            Ok(n) => Ok(
                HtmlTailwindV { dom: resolve_node_spec(n, m, df), fonts: m, default_font: df },
            ),
        },
    }
}

/// The scanner for one `font` declaration.
pub struct XFont;

impl XFont {
    /// Applies one `font` declaration to the table and default slot.
    pub fn convert(
        e: &RawElement,
        fonts: &mut FontTable,
        default_font: &mut Option<ResourceHandle>,
    )
        ensures
            ({
                let (m2, d2) = font_step(*e, old(fonts)@, opt_handle_view(*old(default_font)));
                final (fonts)@ == m2 && opt_handle_view(*final (default_font)) == d2
            }),
    {
        let src = match attr_value_exec(&e.attrs, "src") {
            Some(s) => s,
            None => {
                return ;
            },
        };
        let handle = load_resource(src.as_str());
        match attr_value_exec(&e.attrs, "name") {
            None => {
                *default_font = Some(handle);
            },
            Some(name) => {
                if token_eq(name.as_str(), "default") {
                    *default_font = Some(handle);
                } else {
                    fonts.insert(name, handle);
                }
            },
        }
    }
}

/// Scans a head's children for font declarations.
#[verifier::loop_isolation(false)]
fn scan_head_fonts(cs: &Vec<RawChild>, fonts: &mut FontTable, df: &mut Option<ResourceHandle>)
    ensures
        ({
            let (m2, d2) = head_fonts(cs@, 0, old(fonts)@, opt_handle_view(*old(df)));
            final (fonts)@ == m2 && opt_handle_view(*final (df)) == d2
        }),
{
    let ghost m0 = fonts@;
    let ghost d0 = opt_handle_view(*df);
    let mut i: usize = 0;
    while i < cs.len()
        invariant
            i <= cs@.len(),
            head_fonts(cs@, 0, m0, d0) == head_fonts(cs@, i as int, fonts@, opt_handle_view(*df)),
        decreases cs@.len() - i,
    {
        match &cs[i] {
            RawChild::Other => {},
            RawChild::Element(e) => {
                if eq_ci(e.tag.as_str(), "font") {
                    XFont::convert(e, fonts, df);
                }
            },
        }
        i += 1;
    }
}

/// Scans an `html` wrapper's children, folding every head section.
#[verifier::loop_isolation(false)]
fn scan_html_fonts(cs: &Vec<RawChild>, fonts: &mut FontTable, df: &mut Option<ResourceHandle>)
    ensures
        ({
            let (m2, d2) = html_fonts(cs@, 0, old(fonts)@, opt_handle_view(*old(df)));
            final (fonts)@ == m2 && opt_handle_view(*final (df)) == d2
        }),
{
    let ghost m0 = fonts@;
    let ghost d0 = opt_handle_view(*df);
    let mut i: usize = 0;
    while i < cs.len()
        invariant
            i <= cs@.len(),
            html_fonts(cs@, 0, m0, d0) == html_fonts(cs@, i as int, fonts@, opt_handle_view(*df)),
        decreases cs@.len() - i,
    {
        match &cs[i] {
            RawChild::Other => {},
            RawChild::Element(e) => {
                if eq_ci(e.tag.as_str(), "head") {
                    scan_head_fonts(&e.children, fonts, df);
                }
            },
        }
        i += 1;
    }
}

/// Scans the top-level children, folding every `html` wrapper.
#[verifier::loop_isolation(false)]
fn scan_top_fonts(cs: &Vec<RawChild>, fonts: &mut FontTable, df: &mut Option<ResourceHandle>)
    ensures
        ({
            let (m2, d2) = top_fonts(cs@, 0, old(fonts)@, opt_handle_view(*old(df)));
            final (fonts)@ == m2 && opt_handle_view(*final (df)) == d2
        }),
{
    let ghost m0 = fonts@;
    let ghost d0 = opt_handle_view(*df);
    let mut i: usize = 0;
    while i < cs.len()
        invariant
            i <= cs@.len(),
            top_fonts(cs@, 0, m0, d0) == top_fonts(cs@, i as int, fonts@, opt_handle_view(*df)),
        decreases cs@.len() - i,
    {
        match &cs[i] {
            RawChild::Other => {},
            RawChild::Element(e) => {
                if eq_ci(e.tag.as_str(), "html") {
                    scan_html_fonts(&e.children, fonts, df);
                }
            },
        }
        i += 1;
    }
}

/// Finds a body's root element, validating every element child.
#[verifier::loop_isolation(false)]
fn body_root_exec<'a>(cs: &'a Vec<RawChild>) -> (r: Result<Option<&'a RawElement>, ConvertError>)
    ensures
        match r {
            Ok(Some(e)) => body_root(cs@, 0) == Ok::<Option<RawElement>, Seq<char>>(Some(*e)),
            Ok(None) => body_root(cs@, 0) == Ok::<Option<RawElement>, Seq<char>>(None),
            Err(err) => match err {
                ConvertError::UnsupportedTag(t) => body_root(cs@, 0) == Err::<
                    Option<RawElement>,
                    Seq<char>,
                >(t@),
                _ => false,
            },
        },
{
    let mut i: usize = 0;
    let mut found: Option<usize> = None;
    while i < cs.len()
        invariant
            i <= cs@.len(),
            match found {
                Some(k) => k < i && cs@[k as int] is Element && root_eligible(
                    cs@[k as int]->Element_0.tag@,
                ) && body_root(cs@, 0) == (match body_root(cs@, i as int) {
                    Err(t) => Err::<Option<RawElement>, Seq<char>>(t),
                    Ok(_) => Ok::<Option<RawElement>, Seq<char>>(
                        Some(cs@[k as int]->Element_0),
                    ),
                }),
                None => body_root(cs@, 0) == body_root(cs@, i as int),
            },
        decreases cs@.len() - i,
    {
        match &cs[i] {
            RawChild::Other => {},
            RawChild::Element(e) => {
                if root_eligible_exec(e) {
                    if found.is_none() {
                        found = Some(i);
                    }
                } else {
                    return Err(ConvertError::UnsupportedTag(e.tag.clone()));
                }
            },
        }
        i += 1;
    }
    match found {
        Some(k) => match &cs[k] {
            RawChild::Element(e) => Ok(Some(e)),
            RawChild::Other => {
                proof {
                    assert(false);
                }
                Ok(None)
            },
        },
        None => Ok(None),
    }
}

/// Whether an element's tag may stand as the document root.
fn root_eligible_exec(e: &RawElement) -> (r: bool)
    ensures
        r == root_eligible(e.tag@),
{
    eq_ci(e.tag.as_str(), "div") || eq_ci(e.tag.as_str(), "button") || eq_ci(
        e.tag.as_str(),
        "span",
    ) || eq_ci(e.tag.as_str(), "p")
}

/// Finds the root inside an `html` wrapper's body sections.
#[verifier::loop_isolation(false)]
fn html_root_exec<'a>(cs: &'a Vec<RawChild>) -> (r: Result<Option<&'a RawElement>, ConvertError>)
    ensures
        match r {
            Ok(Some(e)) => html_root(cs@, 0) == Ok::<Option<RawElement>, Seq<char>>(Some(*e)),
            Ok(None) => html_root(cs@, 0) == Ok::<Option<RawElement>, Seq<char>>(None),
            Err(err) => match err {
                ConvertError::UnsupportedTag(t) => html_root(cs@, 0) == Err::<
                    Option<RawElement>,
                    Seq<char>,
                >(t@),
                _ => false,
            },
        },
{
    let mut i: usize = 0;
    while i < cs.len()
        invariant
            i <= cs@.len(),
            html_root(cs@, 0) == html_root(cs@, i as int),
        decreases cs@.len() - i,
    {
        match &cs[i] {
            RawChild::Other => {},
            RawChild::Element(e) => {
                if eq_ci(e.tag.as_str(), "body") {
                    match body_root_exec(&e.children) {
                        Err(err) => {
                            return Err(err);
                        },
                        Ok(Some(root)) => {
                            return Ok(Some(root));
                        },
                        Ok(None) => {},
                    }
                }
            },
        }
        i += 1;
    }
    Ok(None)
}

/// Finds the document's root among the top-level children.
#[verifier::loop_isolation(false)]
fn top_root_exec<'a>(cs: &'a Vec<RawChild>) -> (r: Result<Option<&'a RawElement>, ConvertError>)
    ensures
        match r {
            Ok(Some(e)) => top_root(cs@, 0) == Ok::<Option<RawElement>, Seq<char>>(Some(*e)),
            Ok(None) => top_root(cs@, 0) == Ok::<Option<RawElement>, Seq<char>>(None),
            Err(err) => match err {
                ConvertError::UnsupportedTag(t) => top_root(cs@, 0) == Err::<
                    Option<RawElement>,
                    Seq<char>,
                >(t@),
                _ => false,
            },
        },
{
    let mut i: usize = 0;
    while i < cs.len()
        invariant
            i <= cs@.len(),
            top_root(cs@, 0) == top_root(cs@, i as int),
        decreases cs@.len() - i,
    {
        match &cs[i] {
            RawChild::Other => {},
            RawChild::Element(e) => {
                if eq_ci(e.tag.as_str(), "html") {
                    match html_root_exec(&e.children) {
                        Err(err) => {
                            return Err(err);
                        },
                        Ok(Some(root)) => {
                            return Ok(Some(root));
                        },
                        Ok(None) => {},
                    }
                } else if root_eligible_exec(e) {
                    return Ok(Some(e));
                }
            },
        }
        i += 1;
    }
    Ok(None)
}

/// Assembles a raw document: scans fonts, selects the root, converts it
/// and runs the resolution pass over the whole tree.
pub fn build_document(doc: &RawDocument) -> (r: Result<HtmlTailwind, ConvertError>)
    ensures
        match r {
            Ok(h) => document_spec(*doc) == Ok::<HtmlTailwindV, ConvertErrorV>(h@),
            Err(err) => document_spec(*doc) == Err::<HtmlTailwindV, ConvertErrorV>(err@),
        },
{
    let mut fonts = FontTable::new();
    let mut default_font: Option<ResourceHandle> = None;
    scan_top_fonts(&doc.top, &mut fonts, &mut default_font);
    let root = match top_root_exec(&doc.top) {
        Err(err) => {
            return Err(err);
        },
        Ok(None) => {
            return Err(ConvertError::MissingRoot);
        },
        Ok(Some(e)) => e,
    };
    let node = match XNode::convert(root) {
        Ok(n) => n,
        Err(err) => {
            return Err(err);
        },
    };
    let resolved = node.resolve(&fonts, &default_font);
    Ok(HtmlTailwind { dom: resolved, fonts, default_font })
}

} // verus!
