use vstd::prelude::*;
use crate::path::{overlaps, MetadataPath};
use crate::value::Kind;

verus! {

/// The kind most recently recorded at `p` in `entries`, if any.
pub open spec fn kind_at(entries: Seq<(Seq<Seq<char>>, Kind)>, p: Seq<Seq<char>>) -> Option<Kind>
    decreases entries.len(),
{
    if entries.len() == 0 {
        None
    } else if entries.last().0 == p {
        Some(entries.last().1)
    } else {
        kind_at(entries.drop_last(), p)
    }
}

/// The shape that a list of entries describes: each path with the kind last recorded at it.
pub open spec fn shape_of(entries: Seq<(Seq<Seq<char>>, Kind)>) -> Map<Seq<Seq<char>>, Kind> {
    Map::new(|p: Seq<Seq<char>>| kind_at(entries, p) is Some, |p: Seq<Seq<char>>| kind_at(entries, p)->Some_0)
}

/// The shape after `k` is written at `p`: what lay on `p` or below it is replaced, and
/// every path that does not overlap `p` keeps its kind.
pub open spec fn shape_insert(
    m: Map<Seq<Seq<char>>, Kind>,
    p: Seq<Seq<char>>,
    k: Kind,
) -> Map<Seq<Seq<char>>, Kind> {
    m.remove_keys(Set::new(|q: Seq<Seq<char>>| overlaps(q, p))).insert(p, k)
}

/// The compiler's static model of the metadata tree: the kind known at each path.
#[derive(Clone, Debug, PartialEq, Eq)]
pub struct MetadataSchema {
    entries: Vec<(MetadataPath, Kind)>,
}

impl View for MetadataSchema {
    type V = Map<Seq<Seq<char>>, Kind>;

    closed spec fn view(&self) -> Map<Seq<Seq<char>>, Kind> {
        shape_of(self.entries_view())
    }
}

impl MetadataSchema {
    spec fn entries_view(&self) -> Seq<(Seq<Seq<char>>, Kind)> {
        self.entries@.map_values(|e: (MetadataPath, Kind)| (e.0@, e.1))
    }

    /// A schema that knows nothing of the metadata.
    pub fn empty() -> (r: MetadataSchema)
        ensures
            r@ == Map::<Seq<Seq<char>>, Kind>::empty(),
    {
        let r = MetadataSchema { entries: Vec::new() };
        proof {
            assert(r@ =~= Map::<Seq<Seq<char>>, Kind>::empty());
        }
        r
    }

    /// A copy of this schema.
    pub fn duplicate(&self) -> (r: MetadataSchema)
        ensures
            r@ == self@,
    {
        let mut entries: Vec<(MetadataPath, Kind)> = Vec::new();
        let mut i: usize = 0;
        while i < self.entries.len()
            invariant
                i <= self.entries.len(),
                entries@.map_values(|e: (MetadataPath, Kind)| (e.0@, e.1)) =~= self.entries_view().subrange(0, i as int),
            decreases self.entries.len() - i,
        {
            let ghost prev = entries@.map_values(|e: (MetadataPath, Kind)| (e.0@, e.1));
            entries.push((self.entries[i].0.duplicate(), self.entries[i].1));
            proof {
                assert(entries@.map_values(|e: (MetadataPath, Kind)| (e.0@, e.1)) =~= prev.push((self.entries@[i as int].0@, self.entries@[i as int].1)));
            }
            i += 1;
        }
        let r = MetadataSchema { entries };
        proof {
            assert(r.entries_view() =~= self.entries_view());
        }
        r
    }

    /// The kind known at `path`, if any.
    pub fn kind_at_path(&self, path: &MetadataPath) -> (r: Option<Kind>)
        ensures
            r == (if self@.contains_key(path@) {
                Some(self@[path@])
            } else {
                None
            }),
    {
        let mut i: usize = self.entries.len();
        proof {
            assert(self.entries_view().subrange(0, i as int) =~= self.entries_view());
        }
        while i > 0
            invariant
                i <= self.entries.len(),
                kind_at(self.entries_view(), path@) == kind_at(
                    self.entries_view().subrange(0, i as int),
                    path@,
                ),
            decreases i,
        {
            let ghost before = self.entries_view().subrange(0, i as int);
            proof {
                assert(before.drop_last() =~= self.entries_view().subrange(0, i - 1));
            }
            if self.entries[i - 1].0.same_as(path) {
                return Some(self.entries[i - 1].1);
            }
            i -= 1;
        }
        proof {
            assert(self.entries_view().subrange(0, 0) =~= Seq::<(Seq<Seq<char>>, Kind)>::empty());
        }
        None
    }

    /// A copy of this schema with `kind` written at `path`.
    pub fn insert(&self, path: &MetadataPath, kind: Kind) -> (r: MetadataSchema)
        ensures
            r@ == shape_insert(self@, path@, kind),
    {
        let mut entries: Vec<(MetadataPath, Kind)> = Vec::new();
        let mut i: usize = 0;
        while i < self.entries.len()
            invariant
                i <= self.entries.len(),
                forall|q: Seq<Seq<char>>|
                    !overlaps(q, path@) ==> kind_at(
                        entries@.map_values(|e: (MetadataPath, Kind)| (e.0@, e.1)),
                        q,
                    ) == kind_at(self.entries_view().subrange(0, i as int), q),
                forall|q: Seq<Seq<char>>|
                    overlaps(q, path@) ==> kind_at(
                        entries@.map_values(|e: (MetadataPath, Kind)| (e.0@, e.1)),
                        q,
                    ) is None,
            decreases self.entries.len() - i,
        {
            let ghost done = self.entries_view().subrange(0, i as int + 1);
            let ghost prev = entries@.map_values(|e: (MetadataPath, Kind)| (e.0@, e.1));
            proof {
                assert(done.drop_last() =~= self.entries_view().subrange(0, i as int));
            }
            let entry_path = &self.entries[i].0;
            let covered = entry_path.starts_with(path) || path.starts_with(entry_path);
            if !covered {
                entries.push((entry_path.duplicate(), self.entries[i].1));
                proof {
                    assert(entries@.map_values(|e: (MetadataPath, Kind)| (e.0@, e.1)).drop_last()
                        =~= prev);
                }
            }
            i += 1;
        }
        let ghost kept = entries@.map_values(|e: (MetadataPath, Kind)| (e.0@, e.1));
        entries.push((path.duplicate(), kind));
        let r = MetadataSchema { entries };
        proof {
            assert(self.entries_view().subrange(0, i as int) =~= self.entries_view());
            assert(r.entries_view().drop_last() =~= kept);
            assert(r.entries_view().last() == (path@, kind));
            let target = shape_insert(self@, path@, kind);
            assert forall|q: Seq<Seq<char>>|
                #![trigger r@.dom().contains(q)]
                #![trigger target.dom().contains(q)]
                #![trigger r@[q]]
                #![trigger target[q]]
                r@.dom().contains(q) == target.dom().contains(q) && (r@.dom().contains(q) ==> r@[q]
                    == target[q]) by {
                let gone = Set::new(|x: Seq<Seq<char>>| overlaps(x, path@));
                assert(overlaps(path@, path@));
                if q == path@ {
                    assert(kind_at(r.entries_view(), q) == Some(kind));
                } else {
                    assert(kind_at(r.entries_view(), q) == kind_at(kept, q));
                    if overlaps(q, path@) {
                        assert(gone.contains(q));
                        assert(!target.contains_key(q));
                    } else {
                        assert(!gone.contains(q));
                        assert(kind_at(kept, q) == kind_at(self.entries_view(), q));
                    }
                }
            }
            assert(r@ =~= target);
        }
        r
    }
}

/// The compiler's running snapshot of static types, as far as metadata writes concern it.
#[derive(Clone, Debug, PartialEq, Eq)]
pub struct TypeState {
    pub external_metadata: MetadataSchema,
}

impl View for TypeState {
    type V = Map<Seq<Seq<char>>, Kind>;

    open spec fn view(&self) -> Map<Seq<Seq<char>>, Kind> {
        self.external_metadata@
    }
}

impl TypeState {
    pub fn new(external_metadata: MetadataSchema) -> (r: TypeState)
        ensures
            r@ == external_metadata@,
    {
        TypeState { external_metadata }
    }

    /// The shape of the external metadata.
    pub fn metadata_kind(&self) -> (r: &MetadataSchema)
        ensures
            r@ == self@,
    {
        &self.external_metadata
    }

    /// Replaces the shape of the external metadata.
    pub fn update_metadata(&mut self, schema: MetadataSchema)
        ensures
            final(self)@ == schema@,
    {
        self.external_metadata = schema;
    }
}

/// Writing a kind at a path puts that kind at the path, removes what lay above or below it,
/// and leaves every path that does not overlap it exactly as it was.
pub proof fn lemma_insert_keeps_other_paths(m: Map<Seq<Seq<char>>, Kind>, p: Seq<Seq<char>>, k: Kind)
    ensures
        shape_insert(m, p, k).contains_key(p),
        shape_insert(m, p, k)[p] == k,
        forall|q: Seq<Seq<char>>|
            !overlaps(q, p) ==> (#[trigger] shape_insert(m, p, k).contains_key(q) == m.contains_key(q)),
        forall|q: Seq<Seq<char>>|
            !overlaps(q, p) && m.contains_key(q) ==> #[trigger] shape_insert(m, p, k)[q] == m[q],
        forall|q: Seq<Seq<char>>|
            overlaps(q, p) && q != p ==> !(#[trigger] shape_insert(m, p, k).contains_key(q)),
{
    let gone = Set::new(|x: Seq<Seq<char>>| overlaps(x, p));
    let r = shape_insert(m, p, k);
    assert forall|q: Seq<Seq<char>>| !overlaps(q, p) implies (r.contains_key(q) == m.contains_key(q)
        && (m.contains_key(q) ==> r[q] == m[q])) by {
        assert(!gone.contains(q));
        assert(q != p);
    }
    assert forall|q: Seq<Seq<char>>| overlaps(q, p) && q != p implies !r.contains_key(q) by {
        assert(gone.contains(q));
    }
}

} // verus!
