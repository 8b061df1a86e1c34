//! The host consumption interface: a single-dispatch walk of the node
//! tree as a flat pre-order event list.
//!
//! The host instantiates each node variant into its own representation
//! by iterating the events: an enter event per node, carrying the
//! node's resolved payload, and an exit event closing it, so the host
//! controls its own parenting while the order is fixed here.

use vstd::prelude::*;

use crate::dom::XNode;
use crate::dom::XNodeV;
use crate::dom::lemma_nodes_view_index;
use crate::dom::nodes_view;
use crate::dom::opt_handle_view;
use crate::dom::opt_str_view;
use crate::resource::ResourceHandle;
use crate::tailwind::GridTrack;
use crate::tailwind::Style;
use crate::tailwind::StyleV;

verus! {

/// One step of the pre-order walk, carrying the node's resolved payload.
#[derive(Debug)]
pub enum UiEvent {
    EnterContainer {
        id: Option<String>,
        style: Style,
        content: Option<String>,
        font: Option<ResourceHandle>,
    },
    EnterText {
        id: Option<String>,
        style: Style,
        content: Option<String>,
        font: Option<ResourceHandle>,
    },
    EnterImage {
        id: Option<String>,
        style: Style,
        src: String,
        image_handle: Option<ResourceHandle>,
    },
    EnterButton {
        id: Option<String>,
        style: Style,
        content: Option<String>,
        font: Option<ResourceHandle>,
    },
    Exit,
}

/// The mathematical model of one walk event.
pub ghost enum UiEventV {
    EnterContainer {
        id: Option<Seq<char>>,
        style: StyleV,
        content: Option<Seq<char>>,
        font: Option<Seq<char>>,
    },
    EnterText {
        id: Option<Seq<char>>,
        style: StyleV,
        content: Option<Seq<char>>,
        font: Option<Seq<char>>,
    },
    EnterImage {
        id: Option<Seq<char>>,
        style: StyleV,
        src: Seq<char>,
        image_handle: Option<Seq<char>>,
    },
    EnterButton {
        id: Option<Seq<char>>,
        style: StyleV,
        content: Option<Seq<char>>,
        font: Option<Seq<char>>,
    },
    Exit,
}

impl View for UiEvent {
    type V = UiEventV;

    open spec fn view(&self) -> UiEventV {
        match self {
            UiEvent::EnterContainer { id, style, content, font } => UiEventV::EnterContainer {
                id: opt_str_view(*id),
                style: style@,
                content: opt_str_view(*content),
                font: opt_handle_view(*font),
            },
            UiEvent::EnterText { id, style, content, font } => UiEventV::EnterText {
                id: opt_str_view(*id),
                style: style@,
                content: opt_str_view(*content),
                font: opt_handle_view(*font),
            },
            UiEvent::EnterImage { id, style, src, image_handle } => UiEventV::EnterImage {
                id: opt_str_view(*id),
                style: style@,
                src: src@,
                image_handle: opt_handle_view(*image_handle),
            },
            UiEvent::EnterButton { id, style, content, font } => UiEventV::EnterButton {
                id: opt_str_view(*id),
                style: style@,
                content: opt_str_view(*content),
                font: opt_handle_view(*font),
            },
            UiEvent::Exit => UiEventV::Exit,
        }
    }
}

/// The views of an event list, in order.
pub open spec fn events_view(es: Seq<UiEvent>) -> Seq<UiEventV>
    decreases es.len(),
{
    if es.len() == 0 {
        Seq::empty()
    } else {
        events_view(es.drop_last()).push(es.last()@)
    }
}

/// The enter event a node contributes, carrying its own payload.
pub open spec fn enter_event(n: XNodeV) -> UiEventV {
    match n {
        XNodeV::Div(d) => UiEventV::EnterContainer {
            id: d.id,
            style: d.style,
            content: d.content,
            font: d.font,
        },
        XNodeV::Text(t) => UiEventV::EnterText {
            id: t.id,
            style: t.style,
            content: t.content,
            font: t.font,
        },
        XNodeV::Img(im) => UiEventV::EnterImage {
            id: im.id,
            style: im.style,
            src: im.src,
            image_handle: im.image_handle,
        },
        XNodeV::Button(b) => UiEventV::EnterButton {
            id: b.id,
            style: b.style,
            content: b.content,
            font: b.font,
        },
    }
}

/// A node's children, whatever its variant.
pub open spec fn children_of(n: XNodeV) -> Seq<XNodeV> {
    match n {
        XNodeV::Div(d) => d.children,
        XNodeV::Text(t) => t.children,
        XNodeV::Img(im) => im.children,
        XNodeV::Button(b) => b.children,
    }
}

/// The pre-order event list of a node: enter it, walk the children in
/// order, exit it.
pub open spec fn events_of(n: XNodeV) -> Seq<UiEventV>
    decreases n, 1int,
{
    seq![enter_event(n)] + events_of_list(children_of(n)) + seq![UiEventV::Exit]
}

/// The concatenated event lists of a node list, in order.
pub open spec fn events_of_list(ns: Seq<XNodeV>) -> Seq<UiEventV>
    decreases ns, 0int,
{
    if ns.len() == 0 {
        Seq::empty()
    } else {
        events_of_list(ns.drop_last()) + events_of(ns.last())
    }
}

/// Copies a grid track list.
fn clone_tracks(v: &Vec<GridTrack>) -> (r: Vec<GridTrack>)
    ensures
        r@ == v@,
{
    let mut out: Vec<GridTrack> = Vec::new();
    let mut i: usize = 0;
    while i < v.len()
        invariant
            i <= v@.len(),
            out@ =~= v@.take(i as int),
        decreases v@.len() - i,
    {
        out.push(v[i]);
        proof {
            assert(out@ =~= v@.take(i + 1));
        }
        i += 1;
    }
    proof {
        assert(out@ =~= v@);
    }
    out
}

/// Copies a style record, field for field.
fn clone_style(s: &Style) -> (r: Style)
    ensures
        r@ == s@,
{
    Style {
        visibility: s.visibility,
        position: s.position,
        display: s.display,
        flex_direction: s.flex_direction,
        justify_content: s.justify_content,
        justify_items: s.justify_items,
        justify_self: s.justify_self,
        align_content: s.align_content,
        align_items: s.align_items,
        align_self: s.align_self,
        width: s.width,
        min_width: s.min_width,
        max_width: s.max_width,
        height: s.height,
        min_height: s.min_height,
        max_height: s.max_height,
        border_color: s.border_color,
        border: s.border,
        background_color: s.background_color,
        padding: s.padding,
        margin: s.margin,
        text_color: s.text_color,
        z_index: s.z_index,
        grid_template_columns: clone_tracks(&s.grid_template_columns),
    }
}

/// Copies an optional string.
fn clone_opt_string(o: &Option<String>) -> (r: Option<String>)
    ensures
        opt_str_view(r) == opt_str_view(*o),
{
    match o {
        Some(s) => Some(s.clone()),
        None => None,
    }
}

/// Copies an optional resource handle.
fn clone_opt_handle(o: &Option<ResourceHandle>) -> (r: Option<ResourceHandle>)
    ensures
        opt_handle_view(r) == opt_handle_view(*o),
{
    match o {
        Some(h) => Some(ResourceHandle { path: h.path.clone() }),
        None => None,
    }
}

/// Builds the enter event for one node.
fn enter_event_exec(n: &XNode) -> (r: UiEvent)
    ensures
        r@ == enter_event(n@),
{
    match n {
        XNode::Div(d) => UiEvent::EnterContainer {
            id: clone_opt_string(&d.id),
            style: clone_style(&d.style),
            content: clone_opt_string(&d.content),
            font: clone_opt_handle(&d.font),
        },
        XNode::Text(t) => UiEvent::EnterText {
            id: clone_opt_string(&t.id),
            style: clone_style(&t.style),
            content: clone_opt_string(&t.content),
            font: clone_opt_handle(&t.font),
        },
        XNode::Img(im) => UiEvent::EnterImage {
            id: clone_opt_string(&im.id),
            style: clone_style(&im.style),
            src: im.src.clone(),
            image_handle: clone_opt_handle(&im.image_handle),
        },
        XNode::Button(b) => UiEvent::EnterButton {
            id: clone_opt_string(&b.id),
            style: clone_style(&b.style),
            content: clone_opt_string(&b.content),
            font: clone_opt_handle(&b.font),
        },
    }
}

/// Appends a node's pre-order events to the output.
fn walk_into(n: &XNode, out: &mut Vec<UiEvent>)
    ensures
        events_view(final (out)@) == events_view(old(out)@) + events_of(n@),
    decreases *n, 1int,
{
    let ghost base = events_view(old(out)@);
    let enter = enter_event_exec(n);
    let ghost prev = out@;
    out.push(enter);
    proof {
        assert(out@.drop_last() =~= prev);
        assert(events_view(out@) == base.push(enter_event(n@)));
        assert(base.push(enter_event(n@)) =~= base + seq![enter_event(n@)]);
    }
    match n {
        XNode::Div(d) => walk_children(&d.children, out),
        XNode::Text(t) => walk_children(&t.children, out),
        XNode::Img(im) => walk_children(&im.children, out),
        XNode::Button(b) => walk_children(&b.children, out),
    }
    let ghost mid = out@;
    out.push(UiEvent::Exit);
    proof {
        assert(out@.drop_last() =~= mid);
        assert(events_view(out@) == events_view(mid).push(UiEventV::Exit));
        assert(events_view(mid) == (base + seq![enter_event(n@)]) + events_of_list(
            children_of(n@),
        ));
        assert(events_view(mid).push(UiEventV::Exit) =~= base + (seq![enter_event(n@)]
            + events_of_list(children_of(n@)) + seq![UiEventV::Exit]));
    }
}

/// Appends the pre-order events of each node of a list, in order.
#[verifier::loop_isolation(false)]
fn walk_children(ns: &Vec<XNode>, out: &mut Vec<UiEvent>)
    ensures
        events_view(final (out)@) == events_view(old(out)@) + events_of_list(nodes_view(ns@)),
    decreases ns@, 0int,
{
    let ghost base = events_view(old(out)@);
    let ghost nv = nodes_view(ns@);
    proof {
        lemma_nodes_view_index(ns@);
        assert(nv.take(0) =~= Seq::<XNodeV>::empty());
        assert(base + events_of_list(nv.take(0)) =~= base);
    }
    let mut i: usize = 0;
    while i < ns.len()
        invariant
            i <= ns@.len(),
            events_view(out@) == base + events_of_list(nv.take(i as int)),
        decreases ns@.len() - i,
    {
        proof {
            assert(decreases_to!(ns@ => ns@[i as int]));
        }
        walk_into(&ns[i], out);
        proof {
            assert(nv.take(i + 1).drop_last() =~= nv.take(i as int));
            assert(nv.take(i + 1).last() == nv[i as int]);
            assert(nv[i as int] == ns@[i as int].nview());
            assert((base + events_of_list(nv.take(i as int))) + events_of(ns@[i as int].nview())
                =~= base + events_of_list(nv.take(i + 1)));
        }
        i += 1;
    }
    proof {
        assert(nv.take(ns@.len() as int) =~= nv);
    }
}

impl XNode {
    /// The pre-order walk of this node's subtree, as the flat event
    /// list the host consumes.
    pub fn apply(&self) -> (r: Vec<UiEvent>)
        ensures
            events_view(r@) == events_of(self@),
    {
        let mut out: Vec<UiEvent> = Vec::new();
        proof {
            assert(events_view(out@) =~= Seq::<UiEventV>::empty());
            assert(Seq::<UiEventV>::empty() + events_of(self@) =~= events_of(self@));
        }
        walk_into(self, &mut out);
        out
    }
}

} // verus!
