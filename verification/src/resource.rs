//! Resource handles and the transient font table.
//!
//! A [`ResourceHandle`] is the core's opaque token for an externally
//! loaded resource: it records the declared path, and the host exchanges
//! it for its own handle when it instantiates the tree. The core never
//! interprets it beyond equality of paths.

use vstd::prelude::*;

use crate::grammar::token_eq;

verus! {

/// An opaque reference to an external resource, identified by the path
/// it was requested under.
#[derive(Clone, Debug, PartialEq, Eq)]
pub struct ResourceHandle {
    pub path: String,
}

impl View for ResourceHandle {
    type V = Seq<char>;

    open spec fn view(&self) -> Seq<char> {
        self.path@
    }
}

/// Issues the handle for a resource path. Handle issuance is pure: the
/// handle records the path, and actual loading is the host's concern.
pub fn load_resource(path: &str) -> (r: ResourceHandle)
    ensures
        r@ == path@,
{
    ResourceHandle { path: path.to_owned() }
}

/// The named-font map populated from a document's head section and
/// consumed during the resolution pass. Later declarations of the same
/// name overwrite earlier ones.
#[derive(Clone, Debug)]
pub struct FontTable {
    pub entries: Vec<(String, ResourceHandle)>,
}

/// The mapping an entry list denotes: each name bound to the handle of
/// its latest entry.
pub open spec fn table_map(entries: Seq<(String, ResourceHandle)>) -> Map<Seq<char>, Seq<char>>
    decreases entries.len(),
{
    if entries.len() == 0 {
        Map::empty()
    } else {
        table_map(entries.drop_last()).insert(entries.last().0@, entries.last().1@)
    }
}

impl View for FontTable {
    type V = Map<Seq<char>, Seq<char>>;

    open spec fn view(&self) -> Map<Seq<char>, Seq<char>> {
        table_map(self.entries@)
    }
}

/// If entry `i` is the latest entry for `name`, the table maps `name`
/// to its handle's path.
proof fn lemma_table_found(entries: Seq<(String, ResourceHandle)>, name: Seq<char>, i: int)
    requires
        0 <= i < entries.len(),
        entries[i].0@ == name,
        forall|j: int| i < j < entries.len() ==> (#[trigger] entries[j].0@) != name,
    ensures
        table_map(entries).contains_key(name),
        table_map(entries)[name] == entries[i].1@,
    decreases entries.len(),
{
    if i + 1 < entries.len() {
        assert(entries.drop_last()[i] == entries[i]);
        assert(forall|j: int|
            i < j < entries.drop_last().len() ==> (#[trigger] entries.drop_last()[j].0@) != name);
        lemma_table_found(entries.drop_last(), name, i);
    }
}

/// If no entry carries `name`, the table has no binding for it.
proof fn lemma_table_missing(entries: Seq<(String, ResourceHandle)>, name: Seq<char>)
    requires
        forall|j: int| 0 <= j < entries.len() ==> (#[trigger] entries[j].0@) != name,
    ensures
        !table_map(entries).contains_key(name),
    decreases entries.len(),
{
    if entries.len() > 0 {
        assert(forall|j: int|
            0 <= j < entries.drop_last().len() ==> (#[trigger] entries.drop_last()[j].0@) != name);
        lemma_table_missing(entries.drop_last(), name);
    }
}

impl FontTable {
    /// An empty table.
    pub fn new() -> (r: FontTable)
        ensures
            r@ == Map::<Seq<char>, Seq<char>>::empty(),
    {
        let r = FontTable { entries: Vec::new() };
        proof {
            assert(r.entries@.len() == 0);
        }
        r
    }

    /// Binds `name` to `handle`, overwriting any earlier binding.
    pub fn insert(&mut self, name: String, handle: ResourceHandle)
        ensures
            final (self)@ == old(self)@.insert(name@, handle@),
    {
        let ghost prev = self.entries@;
        self.entries.push((name, handle));
        proof {
            assert(self.entries@.drop_last() =~= prev);
        }
    }

    /// Looks up the handle bound to `name`, if any.
    pub fn lookup(&self, name: &str) -> (r: Option<ResourceHandle>)
        ensures
            match r {
                Some(h) => self@.contains_key(name@) && h@ == self@[name@],
                None => !self@.contains_key(name@),
            },
    {
        let n = self.entries.len();
        let mut i: usize = n;
        while i > 0
            invariant
                i <= n,
                n == self.entries@.len(),
                forall|j: int| i <= j < n ==> (#[trigger] self.entries@[j].0@) != name@,
            decreases i,
        {
            i = i - 1;
            if token_eq(self.entries[i].0.as_str(), name) {
                let h = ResourceHandle { path: self.entries[i].1.path.clone() };
                proof {
                    lemma_table_found(self.entries@, name@, i as int);
                }
                return Some(h);
            }
        }
        proof {
            lemma_table_missing(self.entries@, name@);
        }
        None
    }
}

} // verus!
