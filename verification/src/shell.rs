//! Rules for resolving paths into shell items: a multi-selection must share
//! one parent folder, and the size of an item ID list (PIDL) is the sum of
//! the sizes of its `SHITEMID` records.

use vstd::prelude::*;
use crate::error::{Error, Result};

verus! {

/// The components of a parent folder as text.
pub open spec fn components_view(v: Vec<String>) -> Seq<Seq<char>> {
    v@.map_values(|s: String| s@)
}

/// The view of an optional parent folder.
pub open spec fn parent_view(p: Option<Vec<String>>) -> Option<Seq<Seq<char>>> {
    match p {
        None => None,
        Some(v) => Some(components_view(v)),
    }
}

/// Every path of the selection lies in the same parent folder: all observed
/// parents are equal, an unknown parent (a root) included.
pub open spec fn all_same_parent(seen: Seq<Option<Seq<Seq<char>>>>) -> bool {
    forall|i: int| 0 <= i < seen.len() ==> #[trigger] seen[i] == seen[0]
}

/// Tells whether two parent folders have the same components.
pub fn same_components(a: &Vec<String>, b: &Vec<String>) -> (res: bool)
    ensures
        res == (components_view(*a) == components_view(*b)),
{
    if a.len() != b.len() {
        assert(components_view(*a).len() != components_view(*b).len());
        return false;
    }
    let n = a.len();
    let mut i: usize = 0;
    while i < n
        invariant
            n == a@.len(),
            n == b@.len(),
            i <= n,
            forall|j: int| 0 <= j < i ==> a@[j]@ == b@[j]@,
        decreases n - i,
    {
        if a[i] != b[i] {
            assert(components_view(*a)[i as int] != components_view(*b)[i as int]);
            return false;
        }
        i = i + 1;
    }
    assert(components_view(*a) =~= components_view(*b));
    true
}

/// Tracks the parent folder of the paths of a multi-selection, which must
/// all share it. Paths without a parent (roots) share only with other roots.
pub struct ParentTracker {
    parent: Option<Option<Vec<String>>>,
    seen: Ghost<Seq<Option<Seq<Seq<char>>>>>,
}

impl ParentTracker {
    /// The parents observed so far, in order.
    pub closed spec fn spec_seen(&self) -> Seq<Option<Seq<Seq<char>>>> {
        self.seen@
    }

    /// The internal invariant.
    pub closed spec fn wf(&self) -> bool {
        &&& (self.parent is None <==> self.seen@.len() == 0)
        &&& (self.parent matches Some(p) ==> parent_view(p) == self.seen@[0])
        &&& all_same_parent(self.seen@)
    }

    /// Starts tracking a selection of `path_count` paths: an empty selection
    /// has no common parent.
    pub fn start(path_count: usize) -> (res: Result<ParentTracker>)
        ensures
            path_count == 0 <==> res is Err,
            res matches Err(e) ==> e == Error::NoCommonParent,
            res matches Ok(t) ==> t.wf() && t.spec_seen() == Seq::<
                Option<Seq<Seq<char>>>,
            >::empty(),
    {
        if path_count == 0 {
            Err(Error::NoCommonParent)
        } else {
            Ok(ParentTracker { parent: None, seen: Ghost(Seq::empty()) })
        }
    }

    /// Observes the parent folder (its components, `None` for a root) of
    /// the next path.
    ///
    /// Fails with [`Error::NoCommonParent`] when it differs from the parent
    /// of the first path: two different folders, or a folder and a root.
    /// Otherwise records it.
    pub fn observe(&mut self, this_parent: Option<Vec<String>>) -> (res: Result<()>)
        requires
            old(self).wf(),
        ensures
            final(self).wf(),
            res is Err <==> (old(self).spec_seen().len() > 0 && old(self).spec_seen()[0]
                != parent_view(this_parent)),
            res matches Err(e) ==> e == Error::NoCommonParent && final(self).spec_seen() == old(
                self,
            ).spec_seen(),
            res is Ok ==> final(self).spec_seen() == old(self).spec_seen().push(
                parent_view(this_parent),
            ),
            all_same_parent(final(self).spec_seen()),
    {
        let ghost old_seen = self.seen@;
        let ghost this_view = parent_view(this_parent);
        let matches_first = match &self.parent {
            None => true,
            Some(first) => match (first, &this_parent) {
                (None, None) => true,
                (Some(a), Some(b)) => same_components(a, b),
                _ => false,
            },
        };
        if !matches_first {
            return Err(Error::NoCommonParent);
        }
        let ghost new_seen = old_seen.push(this_view);
        if self.parent.is_none() {
            self.parent = Some(this_parent);
        }
        self.seen = Ghost(new_seen);
        proof {
            assert(new_seen[0] == this_view || new_seen[0] == old_seen[0]);
            assert forall|i: int| 0 <= i < new_seen.len() implies #[trigger] new_seen[i]
                == new_seen[0] by {
                if i < old_seen.len() {
                    assert(new_seen[i] == old_seen[i]);
                }
            }
        }
        Ok(())
    }
}

/// The sum of the sizes of the records of an item ID list.
pub open spec fn records_size(cbs: Seq<u16>) -> int
    decreases cbs.len(),
{
    if cbs.len() == 0 {
        0
    } else {
        records_size(cbs.drop_last()) + cbs.last()
    }
}

/// Computes the byte size of an item ID list (excluding its 2-byte NUL
/// terminator) from the `cb` fields of its `SHITEMID` records, read one
/// after another: each record starts with a `u16` giving its total size,
/// and a size of zero marks the end.
pub struct PidlSizer {
    size: usize,
    finished: bool,
    records: Ghost<Seq<u16>>,
}

impl PidlSizer {
    /// The record sizes summed so far.
    pub closed spec fn spec_records(&self) -> Seq<u16> {
        self.records@
    }

    /// The size computed so far.
    pub closed spec fn spec_size(&self) -> usize {
        self.size
    }

    /// Whether the terminator has been read.
    pub closed spec fn spec_finished(&self) -> bool {
        self.finished
    }

    #[verifier::type_invariant]
    spec fn inv(&self) -> bool {
        &&& self.size == records_size(self.records@)
        &&& forall|i: int| 0 <= i < self.records@.len() ==> self.records@[i] != 0
    }

    /// Starts at the first record of a list.
    pub fn new() -> (res: Self)
        ensures
            res.spec_size() == 0,
            !res.spec_finished(),
            res.spec_records() == Seq::<u16>::empty(),
    {
        PidlSizer { size: 0, finished: false, records: Ghost(Seq::empty()) }
    }

    /// The size of the records read so far: the size of the whole list once
    /// the terminator has been read.
    pub fn size(&self) -> (res: usize)
        ensures
            res == self.spec_size(),
            res == records_size(self.spec_records()),
    {
        proof {
            use_type_invariant(self);
        }
        self.size
    }

    /// Whether the terminator has been read.
    pub fn is_finished(&self) -> (res: bool)
        ensures
            res == self.spec_finished(),
    {
        self.finished
    }

    /// Reads the `cb` field of the next record. Returns `true` when it is
    /// the terminator (`cb == 0`); otherwise adds the record's size and
    /// returns `false`; the next record starts `cb` bytes further on.
    pub fn feed(&mut self, cb: u16) -> (done: bool)
        requires
            !old(self).spec_finished(),
            old(self).spec_size() + cb <= usize::MAX,
        ensures
            done == (cb == 0),
            final(self).spec_finished() == done,
            done ==> final(self).spec_records() == old(self).spec_records(),
            !done ==> final(self).spec_records() == old(self).spec_records().push(cb),
            final(self).spec_size() == records_size(final(self).spec_records()),
    {
        proof {
            use_type_invariant(&*self);
        }
        if cb == 0 {
            self.finished = true;
            true
        } else {
            let ghost next = self.records@.push(cb);
            assert(next.drop_last() =~= self.records@);
            *self = PidlSizer { size: self.size + cb as usize, finished: false, records: Ghost(next) };
            false
        }
    }
}

} // verus!
