//! Connection identifiers and their allocator.
//!
//! Identifiers are drawn from a monotonically increasing counter that starts
//! at 1 (0 is reserved as a sentinel).  The allocator records, in ghost
//! state, every identifier it has handed out, so that strict monotonicity
//! and uniqueness of the issued identifiers are provable facts rather than
//! conventions.

use vstd::prelude::*;

verus! {

/// Connection identifier.
#[derive(Debug, Copy, Clone, Hash, PartialEq, Eq, Structural, PartialOrd, Ord)]
pub struct ConnectionId(usize);

/// Allocator of [`ConnectionId`]s.
///
/// One allocator stands for one process-wide counter; callers that share it
/// across threads place it behind their own synchronisation.  Identifiers
/// issued by one allocator are strictly increasing and therefore unique.
pub struct ConnectionIdAllocator {
    next_id: usize,
    issued: Ghost<Seq<int>>,
}

impl ConnectionId {
    /// The numeric value of this identifier.
    pub closed spec fn value(self) -> int {
        self.0 as int
    }

    /// Creates an _unchecked_ `ConnectionId`.
    ///
    /// Uniqueness among identifiers made this way is the caller's burden;
    /// it is primarily meant for tests.
    pub fn new_unchecked(id: usize) -> (r: Self)
        ensures
            r.value() == id,
    {
        ConnectionId(id)
    }

    /// Returns the next available `ConnectionId` from the given allocator.
    pub fn next(alloc: &mut ConnectionIdAllocator) -> (r: Self)
        requires
            old(alloc).wf(),
            old(alloc).counter() < usize::MAX,
        ensures
            final(alloc).wf(),
            r.value() == old(alloc).counter(),
            1 <= r.value(),
            final(alloc).counter() == old(alloc).counter() + 1,
            final(alloc).issued() == old(alloc).issued().push(r.value()),
    {
        let id = alloc.next_id;
        alloc.next_id = alloc.next_id + 1;
        proof {
            alloc.issued@ = alloc.issued@.push(id as int);
            assert forall|i: int, j: int| 0 <= i < j < alloc.issued@.len() implies #[trigger] alloc
                .issued@[i] < #[trigger] alloc.issued@[j] by {
                if j == alloc.issued@.len() - 1 {
                    assert(old(alloc).issued()[i] < id as int);
                }
            }
        }
        ConnectionId(id)
    }
}

impl ConnectionIdAllocator {
    /// The value the next issued identifier will carry.
    pub closed spec fn counter(self) -> int {
        self.next_id as int
    }

    /// All identifier values issued so far, in order of issue.
    pub closed spec fn issued(self) -> Seq<int> {
        self.issued@
    }

    /// Well-formedness: the counter starts no lower than 1 and every issued
    /// identifier is at least 1, below the counter, and strictly greater
    /// than all issued before it.
    pub closed spec fn wf(self) -> bool {
        &&& 1 <= self.counter()
        &&& forall|i: int|
            0 <= i < self.issued().len() ==> 1 <= #[trigger] self.issued()[i] < self.counter()
        &&& forall|i: int, j: int|
            0 <= i < j < self.issued().len() ==> #[trigger] self.issued()[i]
                < #[trigger] self.issued()[j]
    }

    /// A fresh allocator: counter at 1, nothing issued yet.
    pub fn new() -> (r: Self)
        ensures
            r.wf(),
            r.counter() == 1,
            r.issued() == Seq::<int>::empty(),
    {
        ConnectionIdAllocator { next_id: 1, issued: Ghost(Seq::empty()) }
    }
}

/// Law: identifiers produced by one allocator are strictly increasing in
/// order of issue, and hence pairwise distinct and never zero.
pub proof fn lemma_connection_ids_strictly_increasing(a: ConnectionIdAllocator, i: int, j: int)
    requires
        a.wf(),
        0 <= i < j < a.issued().len(),
    ensures
        a.issued()[i] < a.issued()[j],
        a.issued()[i] != a.issued()[j],
        1 <= a.issued()[i],
{
}

} // verus!
