//! The markup node converter: from a raw attributed tree to the closed
//! set of typed UI node variants, and the resolution pass that fills in
//! resource handles and the inherited default font.
//!
//! Tag dispatch is case-insensitive over ASCII. An element with any other
//! tag is a fatal structural error: conversion stops and reports the tag,
//! it never degrades. Non-element children are skipped when the child
//! list is collected; an element's direct text becomes its trimmed
//! `content`, with all-whitespace text yielding no content at all.

use vstd::prelude::*;
use vstd::string::StrSliceExecFns;

use crate::grammar::is_space;
use crate::grammar::resolve_spec;
use crate::grammar::token_eq;
use crate::raw::RawAttr;
use crate::raw::RawChild;
use crate::raw::RawElement;
use crate::resource::ResourceHandle;
use crate::resource::FontTable;
use crate::tailwind::Style;
use crate::tailwind::StyleV;
use crate::tailwind::default_style;

verus! {

/// A container node, from a `div` element.
#[derive(Debug)]
pub struct XDiv {
    pub id: Option<String>,
    pub classes: String,
    pub style: Style,
    pub content: Option<String>,
    pub font: Option<ResourceHandle>,
    pub children: Vec<XNode>,
}

/// A text node, from a `p` or `span` element.
#[derive(Debug)]
pub struct XText {
    pub id: Option<String>,
    pub classes: String,
    pub style: Style,
    pub content: Option<String>,
    pub font: Option<ResourceHandle>,
    pub children: Vec<XNode>,
}

/// An image node, from an `img` element.
#[derive(Debug)]
pub struct XImg {
    pub id: Option<String>,
    pub src: String,
    pub classes: String,
    pub style: Style,
    pub image_handle: Option<ResourceHandle>,
    pub children: Vec<XNode>,
}

/// A button node, from a `button` element.
#[derive(Debug)]
pub struct XButton {
    pub id: Option<String>,
    pub classes: String,
    pub style: Style,
    pub content: Option<String>,
    pub font: Option<ResourceHandle>,
    pub children: Vec<XNode>,
}

/// One node of the converted tree: the closed variant set.
#[derive(Debug)]
pub enum XNode {
    Div(XDiv),
    Text(XText),
    Img(XImg),
    Button(XButton),
}

/// The mathematical model of a container node.
pub ghost struct XDivV {
    pub id: Option<Seq<char>>,
    pub classes: Seq<char>,
    pub style: StyleV,
    pub content: Option<Seq<char>>,
    pub font: Option<Seq<char>>,
    pub children: Seq<XNodeV>,
}

/// The mathematical model of a text node.
pub ghost struct XTextV {
    pub id: Option<Seq<char>>,
    pub classes: Seq<char>,
    pub style: StyleV,
    pub content: Option<Seq<char>>,
    pub font: Option<Seq<char>>,
    pub children: Seq<XNodeV>,
}

/// The mathematical model of an image node.
pub ghost struct XImgV {
    pub id: Option<Seq<char>>,
    pub src: Seq<char>,
    pub classes: Seq<char>,
    pub style: StyleV,
    pub image_handle: Option<Seq<char>>,
    pub children: Seq<XNodeV>,
}

/// The mathematical model of a button node.
pub ghost struct XButtonV {
    pub id: Option<Seq<char>>,
    pub classes: Seq<char>,
    pub style: StyleV,
    pub content: Option<Seq<char>>,
    pub font: Option<Seq<char>>,
    pub children: Seq<XNodeV>,
}

/// The mathematical model of a converted node.
pub ghost enum XNodeV {
    Div(XDivV),
    Text(XTextV),
    Img(XImgV),
    Button(XButtonV),
}

/// The view of an optional owned string.
pub open spec fn opt_str_view(o: Option<String>) -> Option<Seq<char>> {
    match o {
        Some(s) => Some(s@),
        None => None,
    }
}

/// The view of an optional resource handle.
pub open spec fn opt_handle_view(o: Option<ResourceHandle>) -> Option<Seq<char>> {
    match o {
        Some(h) => Some(h@),
        None => None,
    }
}

/// The views of a node list, in order.
pub open spec fn nodes_view(ns: Seq<XNode>) -> Seq<XNodeV>
    decreases ns, 0int,
{
    if ns.len() == 0 {
        Seq::empty()
    } else {
        nodes_view(ns.drop_last()).push(ns.last().nview())
    }
}

impl XDiv {
    /// The model of this node.
    pub open spec fn dview(self) -> XDivV
        decreases self, 0int,
    {
        XDivV {
            id: opt_str_view(self.id),
            classes: self.classes@,
            style: self.style@,
            content: opt_str_view(self.content),
            font: opt_handle_view(self.font),
            children: nodes_view(self.children@),
        }
    }
}

impl XText {
    /// The model of this node.
    pub open spec fn tview(self) -> XTextV
        decreases self, 0int,
    {
        XTextV {
            id: opt_str_view(self.id),
            classes: self.classes@,
            style: self.style@,
            content: opt_str_view(self.content),
            font: opt_handle_view(self.font),
            children: nodes_view(self.children@),
        }
    }
}

impl XImg {
    /// The model of this node.
    pub open spec fn iview(self) -> XImgV
        decreases self, 0int,
    {
        XImgV {
            id: opt_str_view(self.id),
            src: self.src@,
            classes: self.classes@,
            style: self.style@,
            image_handle: opt_handle_view(self.image_handle),
            children: nodes_view(self.children@),
        }
    }
}

impl XButton {
    /// The model of this node.
    pub open spec fn bview(self) -> XButtonV
        decreases self, 0int,
    {
        XButtonV {
            id: opt_str_view(self.id),
            classes: self.classes@,
            style: self.style@,
            content: opt_str_view(self.content),
            font: opt_handle_view(self.font),
            children: nodes_view(self.children@),
        }
    }
}

impl XNode {
    /// The model of this node.
    pub open spec fn nview(self) -> XNodeV
        decreases self, 1int,
    {
        match self {
            XNode::Div(d) => XNodeV::Div(d.dview()),
            XNode::Text(t) => XNodeV::Text(t.tview()),
            XNode::Img(im) => XNodeV::Img(im.iview()),
            XNode::Button(b) => XNodeV::Button(b.bview()),
        }
    }
}

impl View for XNode {
    type V = XNodeV;

    open spec fn view(&self) -> XNodeV {
        self.nview()
    }
}

impl View for XDiv {
    type V = XDivV;

    open spec fn view(&self) -> XDivV {
        self.dview()
    }
}

impl View for XText {
    type V = XTextV;

    open spec fn view(&self) -> XTextV {
        self.tview()
    }
}

impl View for XImg {
    type V = XImgV;

    open spec fn view(&self) -> XImgV {
        self.iview()
    }
}

impl View for XButton {
    type V = XButtonV;

    open spec fn view(&self) -> XButtonV {
        self.bview()
    }
}

/// `nodes_view` maps the list pointwise.
pub proof fn lemma_nodes_view_index(ns: Seq<XNode>)
    ensures
        nodes_view(ns).len() == ns.len(),
        forall|i: int| 0 <= i < ns.len() ==> nodes_view(ns)[i] == ns[i].nview(),
    decreases ns.len(),
{
    if ns.len() > 0 {
        lemma_nodes_view_index(ns.drop_last());
    }
}

/// The errors a conversion can stop with.
#[derive(Debug, PartialEq, Eq)]
pub enum ConvertError {
    /// An element outside the recognized tag set stood where a node was
    /// expected; the offending tag is carried as written.
    UnsupportedTag(String),
    /// No recognized content element was found at the document's top
    /// level or inside its body.
    MissingRoot,
}

/// The mathematical model of a conversion error.
pub ghost enum ConvertErrorV {
    UnsupportedTag(Seq<char>),
    MissingRoot,
}

impl View for ConvertError {
    type V = ConvertErrorV;

    open spec fn view(&self) -> ConvertErrorV {
        match self {
            ConvertError::UnsupportedTag(t) => ConvertErrorV::UnsupportedTag(t@),
            ConvertError::MissingRoot => ConvertErrorV::MissingRoot,
        }
    }
}

/// The recognized element kinds.
#[derive(Clone, Copy, Debug, PartialEq, Eq, Structural)]
pub enum TagKind {
    Div,
    Text,
    Img,
    Button,
}

/// Case-insensitive match of one character against a lowercase letter.
pub open spec fn char_matches_ci(c: char, lower: char) -> bool {
    c == lower || c as u32 + 32 == lower as u32
}

/// Case-insensitive match of a tag against a lowercase name.
pub open spec fn is_tag_ci(s: Seq<char>, lower: Seq<char>) -> bool {
    s.len() == lower.len() && forall|i: int|
        0 <= i < s.len() ==> char_matches_ci(#[trigger] s[i], lower[i])
}

/// The node kind a tag name selects, matched case-insensitively:
/// `div`, `p`/`span`, `img`, `button`, or none.
pub open spec fn tag_kind(tag: Seq<char>) -> Option<TagKind> {
    if is_tag_ci(tag, "div"@) {
        Some(TagKind::Div)
    } else if is_tag_ci(tag, "p"@) || is_tag_ci(tag, "span"@) {
        Some(TagKind::Text)
    } else if is_tag_ci(tag, "img"@) {
        Some(TagKind::Img)
    } else if is_tag_ci(tag, "button"@) {
        Some(TagKind::Button)
    } else {
        None
    }
}

/// Case-insensitive comparison of a tag against a lowercase name.
pub(crate) fn eq_ci(t: &str, lower: &str) -> (r: bool)
    ensures
        r == is_tag_ci(t@, lower@),
{
    let n = lower.unicode_len();
    if t.unicode_len() != n {
        return false;
    }
    let mut i: usize = 0;
    while i < n
        invariant
            i <= n,
            n == lower@.len(),
            n == t@.len(),
            forall|k: int| 0 <= k < i ==> char_matches_ci(#[trigger] t@[k], lower@[k]),
        decreases n - i,
    {
        let c = t.get_char(i);
        let l = lower.get_char(i);
        if !(c == l || (c as u32) + 32 == l as u32) {
            return false;
        }
        i += 1;
    }
    true
}

/// Dispatches a tag name to its node kind.
pub fn tag_kind_exec(tag: &str) -> (r: Option<TagKind>)
    ensures
        r == tag_kind(tag@),
{
    if eq_ci(tag, "div") {
        Some(TagKind::Div)
    } else if eq_ci(tag, "p") || eq_ci(tag, "span") {
        Some(TagKind::Text)
    } else if eq_ci(tag, "img") {
        Some(TagKind::Img)
    } else if eq_ci(tag, "button") {
        Some(TagKind::Button)
    } else {
        None
    }
}

/// The value of the latest attribute named `name`, if any.
pub open spec fn attr_value(attrs: Seq<RawAttr>, name: Seq<char>) -> Option<Seq<char>>
    decreases attrs.len(),
{
    if attrs.len() == 0 {
        None
    } else if attrs.last().name@ == name {
        Some(attrs.last().value@)
    } else {
        attr_value(attrs.drop_last(), name)
    }
}

/// Extracts the latest attribute named `name`.
#[verifier::loop_isolation(false)]
pub(crate) fn attr_value_exec(attrs: &Vec<RawAttr>, name: &str) -> (r: Option<String>)
    ensures
        opt_str_view(r) == attr_value(attrs@, name@),
{
    let mut found: Option<String> = None;
    let mut i: usize = 0;
    proof {
        assert(attrs@.take(0) =~= Seq::<RawAttr>::empty());
    }
    while i < attrs.len()
        invariant
            i <= attrs@.len(),
            opt_str_view(found) == attr_value(attrs@.take(i as int), name@),
        decreases attrs@.len() - i,
    {
        proof {
            assert(attrs@.take(i + 1).drop_last() =~= attrs@.take(i as int));
            assert(attrs@.take(i + 1).last() == attrs@[i as int]);
        }
        if token_eq(attrs[i].name.as_str(), name) {
            found = Some(attrs[i].value.clone());
        }
        i += 1;
    }
    proof {
        assert(attrs@.take(attrs@.len() as int) =~= attrs@);
    }
    found
}

/// The sequence with its leading whitespace removed.
pub open spec fn trim_start(s: Seq<char>) -> Seq<char>
    decreases s.len(),
{
    if s.len() > 0 && is_space(s[0]) {
        trim_start(s.skip(1))
    } else {
        s
    }
}

/// The sequence with its trailing whitespace removed.
pub open spec fn trim_end(s: Seq<char>) -> Seq<char>
    decreases s.len(),
{
    if s.len() > 0 && is_space(s.last()) {
        trim_end(s.drop_last())
    } else {
        s
    }
}

/// The sequence with leading and trailing whitespace removed.
pub open spec fn trim(s: Seq<char>) -> Seq<char> {
    trim_end(trim_start(s))
}

/// The content an element's direct text yields: the trimmed text, or
/// nothing when the text is absent or all whitespace.
pub open spec fn content_of(text: Option<String>) -> Option<Seq<char>> {
    match text {
        None => None,
        Some(t) => if trim(t@).len() == 0 {
            None
        } else {
            Some(trim(t@))
        },
    }
}

/// Whether a character is ASCII whitespace.
fn is_space_char(c: char) -> (r: bool)
    ensures
        r == is_space(c),
{
    c == ' ' || c == '\t' || c == '\n' || c == '\r' || c == '\x0c'
}

/// Trims a string, returning nothing for all-whitespace input.
#[verifier::loop_isolation(false)]
fn trimmed(s: &str) -> (r: Option<String>)
    ensures
        match r {
            Some(v) => trim(s@).len() > 0 && v@ == trim(s@),
            None => trim(s@).len() == 0,
        },
{
    let n = s.unicode_len();
    let mut a: usize = 0;
    proof {
        assert(s@.skip(0) =~= s@);
    }
    while a < n && is_space_char(s.get_char(a))
        invariant
            a <= n,
            trim_start(s@) == trim_start(s@.skip(a as int)),
        decreases n - a,
    {
        proof {
            assert(s@.skip(a as int)[0] == s@[a as int]);
            assert(s@.skip(a as int).skip(1) =~= s@.skip(a + 1));
        }
        a += 1;
    }
    if a == n {
        proof {
            assert(s@.skip(n as int) =~= Seq::<char>::empty());
            assert(trim_start(s@) == Seq::<char>::empty());
        }
        return None;
    }
    let ghost tstart = s@.skip(a as int);
    proof {
        assert(tstart[0] == s@[a as int]);
        assert(trim_start(s@) == tstart);
    }
    let mut b: usize = n;
    proof {
        assert(tstart.take(n - a) =~= tstart);
    }
    while b > a && is_space_char(s.get_char(b - 1))
        invariant
            a <= b <= n,
            trim_end(tstart) == trim_end(tstart.take(b - a)),
        decreases b,
    {
        proof {
            assert(tstart.take(b - a).last() == s@[b - 1]);
            assert(tstart.take(b - a).drop_last() =~= tstart.take(b - 1 - a));
        }
        b = b - 1;
    }
    if b == a {
        proof {
            assert(tstart.take(0) =~= Seq::<char>::empty());
            assert(trim_end(tstart) == Seq::<char>::empty());
        }
        return None;
    }
    proof {
        assert(tstart.take(b - a).last() == s@[b - 1]);
        assert(trim_end(tstart) == tstart.take(b - a));
        assert(tstart.take(b - a) =~= s@.subrange(a as int, b as int));
        assert(trim(s@).len() > 0);
    }
    let out = s.substring_char(a, b).to_owned();
    Some(out)
}

/// The node an element converts to, or the tag that stops conversion.
///
/// The converted node keeps the default style, an unresolved handle and
/// no font: those are filled in by the resolution pass. Only element
/// children are converted, in document order; the first offending tag
/// anywhere in the subtree is the error.
pub open spec fn convert_spec(e: RawElement) -> Result<XNodeV, Seq<char>>
    decreases e, 1int,
{
    match tag_kind(e.tag@) {
        None => Err(e.tag@),
        Some(k) => match convert_children_spec(e.children@) {
            Err(t) => Err(t),
            Ok(kids) => Ok(
                match k {
                    TagKind::Div => XNodeV::Div(
                        XDivV {
                            id: attr_value(e.attrs@, "id"@),
                            classes: attr_or_empty(e.attrs@, "class"@),
                            style: default_style(),
                            content: content_of(e.text),
                            font: None,
                            children: kids,
                        },
                    ),
                    TagKind::Text => XNodeV::Text(
                        XTextV {
                            id: attr_value(e.attrs@, "id"@),
                            classes: attr_or_empty(e.attrs@, "class"@),
                            style: default_style(),
                            content: content_of(e.text),
                            font: None,
                            children: kids,
                        },
                    ),
                    TagKind::Img => XNodeV::Img(
                        XImgV {
                            id: attr_value(e.attrs@, "id"@),
                            src: attr_or_empty(e.attrs@, "src"@),
                            classes: attr_or_empty(e.attrs@, "class"@),
                            style: default_style(),
                            image_handle: None,
                            children: kids,
                        },
                    ),
                    TagKind::Button => XNodeV::Button(
                        XButtonV {
                            id: attr_value(e.attrs@, "id"@),
                            classes: attr_or_empty(e.attrs@, "class"@),
                            style: default_style(),
                            content: content_of(e.text),
                            font: None,
                            children: kids,
                        },
                    ),
                },
            ),
        },
    }
}

/// An attribute's value, or the empty string when it is absent.
pub open spec fn attr_or_empty(attrs: Seq<RawAttr>, name: Seq<char>) -> Seq<char> {
    match attr_value(attrs, name) {
        Some(v) => v,
        None => Seq::empty(),
    }
}

/// The converted element children of a child list, in order, with
/// non-element children skipped; or the first offending tag.
pub open spec fn convert_children_spec(cs: Seq<RawChild>) -> Result<Seq<XNodeV>, Seq<char>>
    decreases cs, 0int,
{
    if cs.len() == 0 {
        Ok(Seq::empty())
    } else {
        match convert_children_spec(cs.drop_last()) {
            Err(t) => Err(t),
            Ok(pre) => match cs.last() {
                RawChild::Other => Ok(pre),
                RawChild::Element(e) => match convert_spec(e) {
                    Ok(n) => Ok(pre.push(n)),
                    Err(t) => Err(t),
                },
            },
        }
    }
}

/// A conversion error in a prefix of the child list settles the whole
/// list's outcome.
proof fn lemma_children_err_persists(cs: Seq<RawChild>, k: int, t: Seq<char>)
    requires
        0 <= k <= cs.len(),
        convert_children_spec(cs.take(k)) == Err::<Seq<XNodeV>, Seq<char>>(t),
    ensures
        convert_children_spec(cs) == Err::<Seq<XNodeV>, Seq<char>>(t),
    decreases cs.len() - k,
{
    if k < cs.len() {
        assert(cs.take(k + 1).drop_last() =~= cs.take(k));
        assert(convert_children_spec(cs.take(k + 1)) == Err::<Seq<XNodeV>, Seq<char>>(t));
        lemma_children_err_persists(cs, k + 1, t);
    } else {
        assert(cs.take(k) =~= cs);
    }
}

/// Whether a conversion result is exactly what the element's model
/// conversion yields, error tag included.
pub open spec fn convert_result_matches(e: RawElement, r: Result<XNode, ConvertError>) -> bool {
    match r {
        Ok(n) => convert_spec(e) == Ok::<XNodeV, Seq<char>>(n@),
        Err(err) => match err {
            ConvertError::UnsupportedTag(t) => convert_spec(e) == Err::<XNodeV, Seq<char>>(t@),
            _ => false,
        },
    }
}

/// Converts the element children of a child list, skipping non-elements.
#[verifier::loop_isolation(false)]
fn convert_children(cs: &Vec<RawChild>) -> (r: Result<Vec<XNode>, ConvertError>)
    ensures
        match r {
            Ok(v) => convert_children_spec(cs@) == Ok::<Seq<XNodeV>, Seq<char>>(nodes_view(v@)),
            Err(err) => match err {
                ConvertError::UnsupportedTag(t) => convert_children_spec(cs@) == Err::<
                    Seq<XNodeV>,
                    Seq<char>,
                >(t@),
                _ => false,
            },
        },
    decreases cs@, 0int,
{
    let mut out: Vec<XNode> = Vec::new();
    let mut i: usize = 0;
    proof {
        assert(cs@.take(0) =~= Seq::<RawChild>::empty());
    }
    while i < cs.len()
        invariant
            i <= cs@.len(),
            convert_children_spec(cs@.take(i as int)) == Ok::<Seq<XNodeV>, Seq<char>>(
                nodes_view(out@),
            ),
        decreases cs@.len() - i,
    {
        proof {
            assert(cs@.take(i + 1).drop_last() =~= cs@.take(i as int));
            assert(cs@.take(i + 1).last() == cs@[i as int]);
        }
        match &cs[i] {
            RawChild::Other => {},
            RawChild::Element(ce) => {
                proof {
                    assert(decreases_to!(cs@ => cs@[i as int]));
                }
                match XNode::convert(ce) {
                    Ok(n) => {
                        let ghost prev = out@;
                        out.push(n);
                        proof {
                            assert(out@.drop_last() =~= prev);
                            assert(nodes_view(out@) == nodes_view(prev).push(n.nview()));
                        }
                    },
                    Err(err) => {
                        proof {
                            match &err {
                                ConvertError::UnsupportedTag(t) => {
                                    lemma_children_err_persists(cs@, i + 1, t@);
                                },
                                _ => {},
                            }
                        }
                        return Err(err);
                    },
                }
            },
        }
        i += 1;
    }
    proof {
        assert(cs@.take(cs@.len() as int) =~= cs@);
    }
    Ok(out)
}

impl XNode {
    /// Converts one element, dispatching on its tag name.
    pub fn convert(e: &RawElement) -> (r: Result<XNode, ConvertError>)
        ensures
            convert_result_matches(*e, r),
        decreases *e, 2int,
    {
        match tag_kind_exec(e.tag.as_str()) {
            None => Err(ConvertError::UnsupportedTag(e.tag.clone())),
            Some(TagKind::Div) => match XDiv::convert(e) {
                Ok(d) => Ok(XNode::Div(d)),
                Err(err) => Err(err),
            },
            Some(TagKind::Text) => match XText::convert(e) {
                Ok(d) => Ok(XNode::Text(d)),
                Err(err) => Err(err),
            },
            Some(TagKind::Img) => match XImg::convert(e) {
                Ok(d) => Ok(XNode::Img(d)),
                Err(err) => Err(err),
            },
            Some(TagKind::Button) => match XButton::convert(e) {
                Ok(d) => Ok(XNode::Button(d)),
                Err(err) => Err(err),
            },
        }
    }
}

/// The node after the resolution pass: its style resolved from its class
/// string, its font the inherited default (the per-node override path is
/// kept open through the table parameter), an image's declared source
/// turned into a handle (or none when the source is empty), and the
/// children resolved the same way, parent before child.
#[verifier::rlimit(60)]
pub open spec fn resolve_node_spec(
    n: XNodeV,
    fonts: Map<Seq<char>, Seq<char>>,
    df: Option<Seq<char>>,
) -> XNodeV
    decreases n, 1int,
{
    match n {
        XNodeV::Div(d) => XNodeV::Div(
            XDivV {
                style: resolve_spec(d.classes),
                font: df,
                children: resolve_children_spec(d.children, fonts, df),
                ..d
            },
        ),
        XNodeV::Text(t) => XNodeV::Text(
            XTextV {
                style: resolve_spec(t.classes),
                font: df,
                children: resolve_children_spec(t.children, fonts, df),
                ..t
            },
        ),
        XNodeV::Img(im) => XNodeV::Img(
            XImgV {
                style: resolve_spec(im.classes),
                image_handle: if im.src.len() == 0 {
                    None
                } else {
                    Some(im.src)
                },
                children: resolve_children_spec(im.children, fonts, df),
                ..im
            },
        ),
        XNodeV::Button(b) => XNodeV::Button(
            XButtonV {
                style: resolve_spec(b.classes),
                font: df,
                children: resolve_children_spec(b.children, fonts, df),
                ..b
            },
        ),
    }
}

/// The children after the resolution pass, in order.
pub open spec fn resolve_children_spec(
    ns: Seq<XNodeV>,
    fonts: Map<Seq<char>, Seq<char>>,
    df: Option<Seq<char>>,
) -> Seq<XNodeV>
    decreases ns, 0int,
{
    if ns.len() == 0 {
        Seq::empty()
    } else {
        resolve_children_spec(ns.drop_last(), fonts, df).push(
            resolve_node_spec(ns.last(), fonts, df),
        )
    }
}

/// `resolve_children_spec` maps the list pointwise.
pub proof fn lemma_resolve_children_index(
    ns: Seq<XNodeV>,
    fonts: Map<Seq<char>, Seq<char>>,
    df: Option<Seq<char>>,
)
    ensures
        resolve_children_spec(ns, fonts, df).len() == ns.len(),
        forall|i: int|
            0 <= i < ns.len() ==> resolve_children_spec(ns, fonts, df)[i] == resolve_node_spec(
                ns[i],
                fonts,
                df,
            ),
    decreases ns.len(),
{
    if ns.len() > 0 {
        lemma_resolve_children_index(ns.drop_last(), fonts, df);
    }
}

/// The resolution pass is idempotent: resolving an already resolved node
/// with the same font table and default font changes nothing.
pub proof fn lemma_resolve_idempotent(
    n: XNodeV,
    fonts: Map<Seq<char>, Seq<char>>,
    df: Option<Seq<char>>,
)
    ensures
        resolve_node_spec(resolve_node_spec(n, fonts, df), fonts, df) == resolve_node_spec(
            n,
            fonts,
            df,
        ),
    decreases n, 1int,
{
    match n {
        XNodeV::Div(d) => {
            lemma_resolve_children_idempotent(d.children, fonts, df);
        },
        XNodeV::Text(t) => {
            lemma_resolve_children_idempotent(t.children, fonts, df);
        },
        XNodeV::Img(im) => {
            lemma_resolve_children_idempotent(im.children, fonts, df);
        },
        XNodeV::Button(b) => {
            lemma_resolve_children_idempotent(b.children, fonts, df);
        },
    }
}

/// Idempotence of the resolution pass over a child list.
pub proof fn lemma_resolve_children_idempotent(
    ns: Seq<XNodeV>,
    fonts: Map<Seq<char>, Seq<char>>,
    df: Option<Seq<char>>,
)
    ensures
        resolve_children_spec(resolve_children_spec(ns, fonts, df), fonts, df)
            == resolve_children_spec(ns, fonts, df),
    decreases ns, 0int,
{
    if ns.len() > 0 {
        lemma_resolve_children_idempotent(ns.drop_last(), fonts, df);
        let once = resolve_children_spec(ns, fonts, df);
        assert(once.drop_last() =~= resolve_children_spec(ns.drop_last(), fonts, df));
        lemma_resolve_idempotent(ns.last(), fonts, df);
    }
}

/// Resolves each node of a list, preserving order.
#[verifier::loop_isolation(false)]
fn resolve_children(
    v: Vec<XNode>,
    fonts: &FontTable,
    default_font: &Option<ResourceHandle>,
) -> (r: Vec<XNode>)
    ensures
        nodes_view(r@) == resolve_children_spec(
            nodes_view(v@),
            fonts@,
            opt_handle_view(*default_font),
        ),
    decreases v@, 0int,
{
    let ghost v0 = v@;
    let mut rest = v;
    let mut stack: Vec<XNode> = Vec::new();
    while rest.len() > 0
        invariant
            rest@.len() + stack@.len() == v0.len(),
            rest@ =~= v0.take(rest@.len() as int),
            forall|k: int| 0 <= k < stack@.len() ==> stack@[k] == v0[v0.len() - 1 - k],
        decreases rest@.len(),
    {
        let x = match rest.pop() {
            Some(x) => x,
            None => {
                proof {
                    assert(false);
                }
                continue ;
            },
        };
        proof {
            assert(rest@ =~= v0.take(rest@.len() as int));
        }
        stack.push(x);
    }
    let mut out: Vec<XNode> = Vec::new();
    proof {
        lemma_nodes_view_index(v0);
        lemma_resolve_children_index(nodes_view(v0), fonts@, opt_handle_view(*default_font));
    }
    while stack.len() > 0
        invariant
            stack@.len() + out@.len() == v0.len(),
            forall|k: int| 0 <= k < stack@.len() ==> stack@[k] == v0[v0.len() - 1 - k],
            forall|k: int|
                0 <= k < out@.len() ==> (#[trigger] out@[k]).nview() == resolve_node_spec(
                    v0[k].nview(),
                    fonts@,
                    opt_handle_view(*default_font),
                ),
        decreases stack@.len(),
    {
        let x = match stack.pop() {
            Some(x) => x,
            None => {
                proof {
                    assert(false);
                }
                continue ;
            },
        };
        proof {
            assert(x == v0[out@.len() as int]);
            assert(decreases_to!(v0 => v0[out@.len() as int]));
        }
        let rx = x.resolve(fonts, default_font);
        out.push(rx);
    }
    proof {
        lemma_nodes_view_index(out@);
        assert(nodes_view(out@) =~= resolve_children_spec(
            nodes_view(v0),
            fonts@,
            opt_handle_view(*default_font),
        ));
    }
    out
}

impl XNode {
    /// Resolves this node and its subtree: styles from class strings,
    /// the inherited default font, and image handles from sources.
    pub fn resolve(self, fonts: &FontTable, default_font: &Option<ResourceHandle>) -> (r: XNode)
        ensures
            r@ == resolve_node_spec(self@, fonts@, opt_handle_view(*default_font)),
        decreases self, 2int,
    {
        match self {
            XNode::Div(d) => XNode::Div(d.resolve(fonts, default_font)),
            XNode::Text(t) => XNode::Text(t.resolve(fonts, default_font)),
            XNode::Img(im) => XNode::Img(im.resolve(fonts, default_font)),
            XNode::Button(b) => XNode::Button(b.resolve(fonts, default_font)),
        }
    }
}

impl XDiv {
    /// Resolves this container's style, font and subtree.
    #[verifier::rlimit(60)]
    pub fn resolve(self, fonts: &FontTable, default_font: &Option<ResourceHandle>) -> (r: XDiv)
        ensures
            XNodeV::Div(r@) == resolve_node_spec(
                XNodeV::Div(self@),
                fonts@,
                opt_handle_view(*default_font),
            ),
        decreases self, 1int,
    {
        let XDiv { id, classes, style: _, content, font: _, children } = self;
        let style = Style::parse(classes.as_str());
        let font = clone_handle_opt(default_font);
        let children = resolve_children(children, fonts, default_font);
        XDiv { id, classes, style, content, font, children }
    }
}

impl XText {
    /// Resolves this text node's style, font and subtree.
    #[verifier::rlimit(60)]
    pub fn resolve(self, fonts: &FontTable, default_font: &Option<ResourceHandle>) -> (r: XText)
        ensures
            XNodeV::Text(r@) == resolve_node_spec(
                XNodeV::Text(self@),
                fonts@,
                opt_handle_view(*default_font),
            ),
        decreases self, 1int,
    {
        let XText { id, classes, style: _, content, font: _, children } = self;
        let style = Style::parse(classes.as_str());
        let font = clone_handle_opt(default_font);
        let children = resolve_children(children, fonts, default_font);
        XText { id, classes, style, content, font, children }
    }
}

impl XImg {
    /// Resolves this image's style, source handle and subtree. An empty
    /// source resolves to no handle rather than failing.
    #[verifier::rlimit(60)]
    pub fn resolve(self, fonts: &FontTable, default_font: &Option<ResourceHandle>) -> (r: XImg)
        ensures
            XNodeV::Img(r@) == resolve_node_spec(
                XNodeV::Img(self@),
                fonts@,
                opt_handle_view(*default_font),
            ),
        decreases self, 1int,
    {
        let XImg { id, src, classes, style: _, image_handle: _, children } = self;
        let style = Style::parse(classes.as_str());
        let image_handle = if src.as_str().unicode_len() == 0 {
            None
        } else {
            Some(crate::resource::load_resource(src.as_str()))
        };
        let children = resolve_children(children, fonts, default_font);
        XImg { id, src, classes, style, image_handle, children }
    }
}

impl XButton {
    /// Resolves this button's style, font and subtree.
    #[verifier::rlimit(60)]
    pub fn resolve(self, fonts: &FontTable, default_font: &Option<ResourceHandle>) -> (r: XButton)
        ensures
            XNodeV::Button(r@) == resolve_node_spec(
                XNodeV::Button(self@),
                fonts@,
                opt_handle_view(*default_font),
            ),
        decreases self, 1int,
    {
        let XButton { id, classes, style: _, content, font: _, children } = self;
        let style = Style::parse(classes.as_str());
        let font = clone_handle_opt(default_font);
        let children = resolve_children(children, fonts, default_font);
        XButton { id, classes, style, content, font, children }
    }
}

/// Copies an optional handle, preserving its path.
fn clone_handle_opt(o: &Option<ResourceHandle>) -> (r: Option<ResourceHandle>)
    ensures
        opt_handle_view(r) == opt_handle_view(*o),
{
    match o {
        Some(h) => Some(ResourceHandle { path: h.path.clone() }),
        None => None,
    }
}

impl XDiv {
    /// Builds a container node from a `div` element.
    pub fn convert(e: &RawElement) -> (r: Result<XDiv, ConvertError>)
        requires
            tag_kind(e.tag@) == Some(TagKind::Div),
        ensures
            match r {
                Ok(d) => convert_spec(*e) == Ok::<XNodeV, Seq<char>>(XNodeV::Div(d@)),
                Err(err) => match err {
                    ConvertError::UnsupportedTag(t) => convert_spec(*e) == Err::<
                        XNodeV,
                        Seq<char>,
                    >(t@),
                    _ => false,
                },
            },
        decreases *e, 1int,
    {
        let id = attr_value_exec(&e.attrs, "id");
        let classes = match attr_value_exec(&e.attrs, "class") {
            Some(v) => v,
            None => String::new(),
        };
        let content = match &e.text {
            Some(t) => trimmed(t.as_str()),
            None => None,
        };
        let children = match convert_children(&e.children) {
            Ok(v) => v,
            Err(err) => {
                return Err(err);
            },
        };
        Ok(XDiv { id, classes, style: Style::default(), content, font: None, children })
    }
}

impl XText {
    /// Builds a text node from a `p` or `span` element.
    pub fn convert(e: &RawElement) -> (r: Result<XText, ConvertError>)
        requires
            tag_kind(e.tag@) == Some(TagKind::Text),
        ensures
            match r {
                Ok(d) => convert_spec(*e) == Ok::<XNodeV, Seq<char>>(XNodeV::Text(d@)),
                Err(err) => match err {
                    ConvertError::UnsupportedTag(t) => convert_spec(*e) == Err::<
                        XNodeV,
                        Seq<char>,
                    >(t@),
                    _ => false,
                },
            },
        decreases *e, 1int,
    {
        let id = attr_value_exec(&e.attrs, "id");
        let classes = match attr_value_exec(&e.attrs, "class") {
            Some(v) => v,
            None => String::new(),
        };
        let content = match &e.text {
            Some(t) => trimmed(t.as_str()),
            None => None,
        };
        let children = match convert_children(&e.children) {
            Ok(v) => v,
            Err(err) => {
                return Err(err);
            },
        };
        Ok(XText { id, classes, style: Style::default(), content, font: None, children })
    }
}

impl XImg {
    /// Builds an image node from an `img` element. A missing `src`
    /// yields an empty source path, not an error; the handle stays
    /// unresolved until the resolution pass.
    pub fn convert(e: &RawElement) -> (r: Result<XImg, ConvertError>)
        requires
            tag_kind(e.tag@) == Some(TagKind::Img),
        ensures
            match r {
                Ok(d) => convert_spec(*e) == Ok::<XNodeV, Seq<char>>(XNodeV::Img(d@)),
                Err(err) => match err {
                    ConvertError::UnsupportedTag(t) => convert_spec(*e) == Err::<
                        XNodeV,
                        Seq<char>,
                    >(t@),
                    _ => false,
                },
            },
        decreases *e, 1int,
    {
        let id = attr_value_exec(&e.attrs, "id");
        let src = match attr_value_exec(&e.attrs, "src") {
            Some(v) => v,
            None => String::new(),
        };
        let classes = match attr_value_exec(&e.attrs, "class") {
            Some(v) => v,
            None => String::new(),
        };
        let children = match convert_children(&e.children) {
            Ok(v) => v,
            Err(err) => {
                return Err(err);
            },
        };
        Ok(XImg { id, src, classes, style: Style::default(), image_handle: None, children })
    }
}

impl XButton {
    /// Builds a button node from a `button` element.
    pub fn convert(e: &RawElement) -> (r: Result<XButton, ConvertError>)
        requires
            tag_kind(e.tag@) == Some(TagKind::Button),
        ensures
            match r {
                Ok(d) => convert_spec(*e) == Ok::<XNodeV, Seq<char>>(XNodeV::Button(d@)),
                Err(err) => match err {
                    ConvertError::UnsupportedTag(t) => convert_spec(*e) == Err::<
                        XNodeV,
                        Seq<char>,
                    >(t@),
                    _ => false,
                },
            },
        decreases *e, 1int,
    {
        let id = attr_value_exec(&e.attrs, "id");
        let classes = match attr_value_exec(&e.attrs, "class") {
            Some(v) => v,
            None => String::new(),
        };
        let content = match &e.text {
            Some(t) => trimmed(t.as_str()),
            None => None,
        };
        let children = match convert_children(&e.children) {
            Ok(v) => v,
            Err(err) => {
                return Err(err);
            },
        };
        Ok(XButton { id, classes, style: Style::default(), content, font: None, children })
    }
}

} // verus!
