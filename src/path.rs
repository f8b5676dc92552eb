use vstd::prelude::*;
use vstd::string::*;

verus! {

/// A path into the metadata tree, as a sequence of field names.
#[derive(Clone, Debug, PartialEq, Eq)]
pub struct MetadataPath {
    pub segments: Vec<String>,
}

impl View for MetadataPath {
    type V = Seq<Seq<char>>;

    open spec fn view(&self) -> Seq<Seq<char>> {
        self.segments@.map_values(|s: String| s@)
    }
}

/// `p` is `q` or an ancestor of `q`.
pub open spec fn is_prefix(p: Seq<Seq<char>>, q: Seq<Seq<char>>) -> bool {
    p.len() <= q.len() && forall|i: int| 0 <= i < p.len() ==> #[trigger] p[i] == q[i]
}

/// One of the two paths lies on the other: writing at one changes what is found at the other.
pub open spec fn overlaps(p: Seq<Seq<char>>, q: Seq<Seq<char>>) -> bool {
    is_prefix(p, q) || is_prefix(q, p)
}

/// The dotted text of a path: its field names joined by `.`.
pub open spec fn dotted(p: Seq<Seq<char>>) -> Seq<char>
    decreases p.len(),
{
    if p.len() == 0 {
        Seq::empty()
    } else if p.len() == 1 {
        p[0]
    } else {
        dotted(p.drop_last()) + seq!['.'] + p.last()
    }
}

impl MetadataPath {
    pub fn new(segments: Vec<String>) -> (r: MetadataPath)
        ensures
            r.segments == segments,
    {
        MetadataPath { segments }
    }

    /// The path of the metadata root.
    pub fn root() -> (r: MetadataPath)
        ensures
            r@ == Seq::<Seq<char>>::empty(),
    {
        MetadataPath { segments: Vec::new() }
    }

    /// The path one field further down.
    pub fn push(&mut self, field: String)
        ensures
            final(self)@ == old(self)@.push(field@),
    {
        self.segments.push(field);
        proof {
            assert(final(self)@ =~= old(self)@.push(field@));
        }
    }

    /// A copy of this path.
    pub fn duplicate(&self) -> (r: MetadataPath)
        ensures
            r@ == self@,
    {
        let mut segments: Vec<String> = Vec::new();
        let mut i: usize = 0;
        while i < self.segments.len()
            invariant
                i <= self.segments.len(),
                segments@.len() == i,
                forall|j: int| 0 <= j < i ==> segments@[j]@ == self.segments@[j]@,
            decreases self.segments.len() - i,
        {
            segments.push(self.segments[i].clone());
            i += 1;
        }
        let r = MetadataPath { segments };
        proof {
            assert(r@ =~= self@);
        }
        r
    }

    /// Whether `prefix` is this path or one of its ancestors.
    pub fn starts_with(&self, prefix: &MetadataPath) -> (r: bool)
        ensures
            r == is_prefix(prefix@, self@),
    {
        if prefix.segments.len() > self.segments.len() {
            return false;
        }
        let mut i: usize = 0;
        while i < prefix.segments.len()
            invariant
                i <= prefix.segments.len() <= self.segments.len(),
                forall|j: int| 0 <= j < i ==> self@[j] == prefix@[j],
            decreases prefix.segments.len() - i,
        {
            if self.segments[i] != prefix.segments[i] {
                proof {
                    assert(prefix@[i as int] != self@[i as int]);
                }
                return false;
            }
            i += 1;
        }
        true
    }

    /// Whether the two paths are the same.
    pub fn same_as(&self, other: &MetadataPath) -> (r: bool)
        ensures
            r == (self@ == other@),
    {
        if self.segments.len() != other.segments.len() {
            proof {
                assert(self@.len() != other@.len());
            }
            return false;
        }
        let r = self.starts_with(other);
        proof {
            if r {
                assert(self@ =~= other@);
            }
        }
        r
    }

    /// The dotted text of this path.
    pub fn render(&self) -> (r: String)
        ensures
            r@ == dotted(self@),
    {
        let mut out = String::new();
        let mut i: usize = 0;
        while i < self.segments.len()
            invariant
                i <= self.segments.len(),
                out@ == dotted(self@.subrange(0, i as int)),
            decreases self.segments.len() - i,
        {
            proof {
                let next = self@.subrange(0, i as int + 1);
                assert(next.drop_last() =~= self@.subrange(0, i as int));
                if i == 0 {
                    assert(self@.subrange(0, 0) =~= Seq::<Seq<char>>::empty());
                }
            }
            if i > 0 {
                proof {
                    reveal_strlit(".");
                }
                out.append(".");
            }
            out.append(self.segments[i].as_str());
            proof {
                if i == 0 {
                    assert(out@ =~= self@[0]);
                } else {
                    assert(out@ =~= dotted(self@.subrange(0, i as int)) + seq!['.'] + self@[i as int]);
                }
            }
            i += 1;
        }
        proof {
            assert(self@.subrange(0, i as int) =~= self@);
        }
        out
    }
}

/// One read-only rule of the host: a protected path, and whether what lies below it is protected too.
#[derive(Clone, Debug, PartialEq, Eq)]
pub struct ReadOnlyPath {
    pub path: MetadataPath,
    pub recursive: bool,
}

/// Whether the rule `(rule, recursive)` forbids writing at `p`: writing at the protected path
/// itself or at an ancestor of it would change it, and a recursive rule also protects what
/// lies below.
pub open spec fn forbids(rule: Seq<Seq<char>>, recursive: bool, p: Seq<Seq<char>>) -> bool {
    is_prefix(p, rule) || (recursive && is_prefix(rule, p))
}

/// The metadata paths that the host has marked read-only.
#[derive(Clone, Debug, PartialEq, Eq)]
pub struct ReadOnlyPaths {
    pub rules: Vec<ReadOnlyPath>,
}

impl ReadOnlyPaths {
    /// Whether some rule forbids writing at `p`.
    pub open spec fn forbids_spec(&self, p: Seq<Seq<char>>) -> bool {
        exists|i: int|
            0 <= i < self.rules@.len() && forbids(
                #[trigger] self.rules@[i].path@,
                self.rules@[i].recursive,
                p,
            )
    }

    /// A policy with no read-only path.
    pub fn none() -> (r: ReadOnlyPaths)
        ensures
            forall|p: Seq<Seq<char>>| !r.forbids_spec(p),
    {
        ReadOnlyPaths { rules: Vec::new() }
    }

    /// Marks `path` read-only.
    pub fn add(&mut self, path: MetadataPath, recursive: bool)
        ensures
            final(self).rules@ == old(self).rules@.push(ReadOnlyPath { path, recursive }),
            forall|p: Seq<Seq<char>>|
                #[trigger] final(self).forbids_spec(p) == (old(self).forbids_spec(p) || forbids(
                    path@,
                    recursive,
                    p,
                )),
    {
        let ghost before = self.rules@;
        self.rules.push(ReadOnlyPath { path, recursive });
        proof {
            assert forall|p: Seq<Seq<char>>|
                #[trigger] self.forbids_spec(p) == (old(self).forbids_spec(p) || forbids(
                    path@,
                    recursive,
                    p,
                )) by {
                if old(self).forbids_spec(p) {
                    let i = choose|i: int|
                        0 <= i < before.len() && forbids(
                            #[trigger] before[i].path@,
                            before[i].recursive,
                            p,
                        );
                    assert(self.rules@[i] == before[i]);
                }
                if forbids(path@, recursive, p) {
                    assert(self.rules@[before.len() as int].path@ == path@);
                }
                if self.forbids_spec(p) {
                    let i = choose|i: int|
                        0 <= i < self.rules@.len() && forbids(
                            #[trigger] self.rules@[i].path@,
                            self.rules@[i].recursive,
                            p,
                        );
                    if i < before.len() {
                        assert(self.rules@[i] == before[i]);
                    }
                }
            }
        }
    }

    /// Whether writing at `path` is forbidden.
    pub fn is_read_only(&self, path: &MetadataPath) -> (r: bool)
        ensures
            r == self.forbids_spec(path@),
    {
        let mut i: usize = 0;
        while i < self.rules.len()
            invariant
                i <= self.rules.len(),
                forall|j: int|
                    0 <= j < i ==> !forbids(
                        #[trigger] self.rules@[j].path@,
                        self.rules@[j].recursive,
                        path@,
                    ),
            decreases self.rules.len() - i,
        {
            let rule = &self.rules[i];
            if rule.path.starts_with(path) || (rule.recursive && path.starts_with(&rule.path)) {
                return true;
            }
            i += 1;
        }
        false
    }
}

} // verus!
