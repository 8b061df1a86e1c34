//! The marker registry: an ordered mapping from a node's stable id to
//! the marker descriptors the host attaches to it.
//!
//! Markers are data, not behavior: each descriptor is an opaque string
//! the host's own dispatcher interprets after the tree is handed over.
//! Registration order is preserved per id.

use vstd::prelude::*;

use crate::grammar::token_eq;

verus! {

/// The registry: id/descriptor pairs in registration order.
#[derive(Debug)]
pub struct HtmlTailwindRegistry {
    entries: Vec<(String, String)>,
}

/// The descriptors registered for `id` among `entries`, in order.
pub open spec fn markers_for(entries: Seq<(String, String)>, id: Seq<char>) -> Seq<Seq<char>>
    decreases entries.len(),
{
    if entries.len() == 0 {
        Seq::empty()
    } else {
        let rest = markers_for(entries.drop_last(), id);
        if entries.last().0@ == id {
            rest.push(entries.last().1@)
        } else {
            rest
        }
    }
}

impl HtmlTailwindRegistry {
    /// The descriptors registered for `id`, in order.
    pub closed spec fn markers_spec(&self, id: Seq<char>) -> Seq<Seq<char>> {
        markers_for(self.entries@, id)
    }

    /// An empty registry.
    pub fn new() -> (r: HtmlTailwindRegistry)
        ensures
            forall|id: Seq<char>| r.markers_spec(id) =~= Seq::<Seq<char>>::empty(),
    {
        let r = HtmlTailwindRegistry { entries: Vec::new() };
        proof {
            assert(r.entries@.len() == 0);
        }
        r
    }

    /// Registers one marker descriptor for an id, after any already
    /// registered for it; other ids are untouched.
    pub fn add_marker(&mut self, html_id: String, marker: String)
        ensures
            final (self).markers_spec(html_id@) == old(self).markers_spec(html_id@).push(marker@),
            forall|other: Seq<char>|
                other != html_id@ ==> final (self).markers_spec(other) == old(self).markers_spec(
                    other,
                ),
    {
        let ghost prev = self.entries@;
        let ghost idv = html_id@;
        self.entries.push((html_id, marker));
        proof {
            assert(self.entries@.drop_last() =~= prev);
            assert(forall|other: Seq<char>|
                markers_for(self.entries@, other) == if other == idv {
                    markers_for(prev, other).push(self.entries@.last().1@)
                } else {
                    markers_for(prev, other)
                });
        }
    }

    /// The descriptors to apply to a node with this id, in order.
    pub fn apply_markers(&self, html_id: &str) -> (r: Vec<String>)
        ensures
            r.deep_view() == self.markers_spec(html_id@),
    {
        let mut out: Vec<String> = Vec::new();
        let mut i: usize = 0;
        proof {
            assert(self.entries@.take(0) =~= Seq::<(String, String)>::empty());
            assert(out.deep_view() =~= Seq::<Seq<char>>::empty());
        }
        while i < self.entries.len()
            invariant
                i <= self.entries@.len(),
                out.deep_view() == markers_for(self.entries@.take(i as int), html_id@),
            decreases self.entries@.len() - i,
        {
            proof {
                assert(self.entries@.take(i + 1).drop_last() =~= self.entries@.take(i as int));
                assert(self.entries@.take(i + 1).last() == self.entries@[i as int]);
            }
            if token_eq(self.entries[i].0.as_str(), html_id) {
                let ghost prev = out.deep_view();
                out.push(self.entries[i].1.clone());
                proof {
                    assert(out.deep_view() =~= prev.push(self.entries@[i as int].1@));
                }
            }
            i += 1;
        }
        proof {
            assert(self.entries@.take(self.entries@.len() as int) =~= self.entries@);
        }
        out
    }
}

} // verus!
