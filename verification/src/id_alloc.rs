//! Allocator for per-connection identifiers.
//!
//! The allocator owns a contiguous half-open range `[low, high)` of unsigned
//! 32-bit values and tracks which of them are currently allocated. Its one
//! required property is that no value is handed out twice while allocated;
//! freed values become allocatable again.

use vstd::prelude::*;

verus! {

/// Returned by [`IdAllocator::allocate`] when every identifier in the range is
/// in use.
#[derive(Debug)]
pub struct IdExhaustedError;

/// Hands out and reclaims identifiers from a bounded range `[low, high)`.
///
/// Allocation policy: the lowest available identifier is returned first.
/// Access from concurrent call sites must be synchronized by the embedding
/// (for example behind a mutex); the allocator itself is a sequential value.
pub struct IdAllocator {
    low: u32,
    high: u32,
    /// `used[i]` records whether identifier `low + i` is currently allocated.
    used: Vec<bool>,
}

impl IdAllocator {
    /// Lower bound (inclusive) of the identifier range.
    pub closed spec fn lo(self) -> u32 {
        self.low
    }

    /// Upper bound (exclusive) of the identifier range.
    pub closed spec fn hi(self) -> u32 {
        self.high
    }

    /// The set of identifiers currently allocated.
    pub closed spec fn allocated(self) -> Set<u32> {
        Set::new(|id: u32| self.low <= id < self.high && self.used@[id - self.low])
    }

    /// Internal well-formedness: the bookkeeping vector covers the range.
    pub closed spec fn wf(self) -> bool {
        self.low <= self.high && self.used@.len() == self.high - self.low
    }

    /// Creates an allocator for the empty-so-far range `[low, high)`.
    pub fn new(low: u32, high: u32) -> (r: IdAllocator)
        requires
            low <= high,
        ensures
            r.wf(),
            r.lo() == low,
            r.hi() == high,
            r.allocated() == Set::<u32>::empty(),
    {
        let len: usize = (high - low) as usize;
        let mut used: Vec<bool> = Vec::new();
        let mut i: usize = 0;
        while i < len
            invariant
                i <= len,
                used@.len() == i,
                forall|k: int| 0 <= k < i ==> !used@[k],
            decreases len - i,
        {
            used.push(false);
            i = i + 1;
        }
        let r = IdAllocator { low, high, used };
        proof {
            assert(r.allocated() =~= Set::<u32>::empty());
        }
        r
    }

    /// Allocates the lowest identifier in the range that is not currently in
    /// use, or fails with [`IdExhaustedError`] exactly when the whole range is
    /// allocated.
    pub fn allocate(&mut self) -> (r: Result<u32, IdExhaustedError>)
        requires
            old(self).wf(),
        ensures
            final(self).wf(),
            final(self).lo() == old(self).lo(),
            final(self).hi() == old(self).hi(),
            match r {
                Ok(id) => {
                    &&& old(self).lo() <= id < old(self).hi()
                    &&& !old(self).allocated().contains(id)
                    &&& final(self).allocated() == old(self).allocated().insert(id)
                    &&& forall|j: u32|
                        old(self).lo() <= j < id ==> old(self).allocated().contains(j)
                },
                Err(_) => {
                    &&& *final(self) == *old(self)
                    &&& forall|j: u32|
                        old(self).lo() <= j < old(self).hi() ==> old(
                            self,
                        ).allocated().contains(j)
                },
            },
    {
        let mut id: u32 = self.low;
        while id < self.high
            invariant
                *self == *old(self),
                self.wf(),
                self.low <= id <= self.high,
                forall|j: u32| self.low <= j < id ==> self.allocated().contains(j),
            decreases self.high - id,
        {
            let idx: usize = (id - self.low) as usize;
            if !self.used[idx] {
                self.used[idx] = true;
                proof {
                    assert(final(self).allocated() =~= old(self).allocated().insert(id));
                }
                return Ok(id);
            }
            id = id + 1;
        }
        Err(IdExhaustedError)
    }

    /// Returns `id` to the pool. Freeing a value that is not currently
    /// allocated (including one outside the range) leaves the allocator
    /// unchanged; it never fails or panics.
    pub fn free(&mut self, id: u32)
        requires
            old(self).wf(),
        ensures
            final(self).wf(),
            final(self).lo() == old(self).lo(),
            final(self).hi() == old(self).hi(),
            final(self).allocated() == old(self).allocated().remove(id),
    {
        if self.low <= id && id < self.high {
            let idx: usize = (id - self.low) as usize;
            self.used[idx] = false;
            proof {
                assert(final(self).allocated() =~= old(self).allocated().remove(id));
            }
        } else {
            proof {
                assert(final(self).allocated() =~= old(self).allocated().remove(id));
            }
        }
    }

    /// Reports whether `id` is currently allocated.
    pub fn is_allocated(&self, id: u32) -> (r: bool)
        requires
            self.wf(),
        ensures
            r == self.allocated().contains(id),
    {
        if self.low <= id && id < self.high {
            self.used[(id - self.low) as usize]
        } else {
            false
        }
    }
}

/// Law: an identifier handed out by an allocation differs from every
/// identifier that was already live (allocated and not yet freed) when the
/// allocation happened, so no two simultaneously-live connections ever share
/// an identifier.
///
/// The premises are exactly what [`IdAllocator::allocate`] (and
/// `Client::new_conn`, which surfaces it) ensures of a successful
/// allocation, stated over the allocated set before and after the step, so
/// every chain of `allocate`/`free` steps preserves pairwise distinctness of
/// the live identifiers.
pub proof fn lemma_live_ids_distinct(pre: Set<u32>, post: Set<u32>, live_id: u32, new_id: u32)
    requires
        pre.contains(live_id),
        !pre.contains(new_id),
        post == pre.insert(new_id),
    ensures
        new_id != live_id,
        post.contains(live_id),
        post.contains(new_id),
{
}

/// One connection-lifecycle event: an identifier was minted for a new
/// connection, or released when its connection went away.
pub enum IdEvent {
    /// A connection was created with this identifier.
    Minted(u32),
    /// A connection with this identifier was discarded.
    Released(u32),
}

/// The set of identifiers live after replaying `events` from an empty pool:
/// minting adds an identifier, releasing removes it.
pub open spec fn live_ids(events: Seq<IdEvent>) -> Set<u32>
    decreases events.len(),
{
    if events.len() == 0 {
        Set::empty()
    } else {
        match events.last() {
            IdEvent::Minted(id) => live_ids(events.drop_last()).insert(id),
            IdEvent::Released(id) => live_ids(events.drop_last()).remove(id),
        }
    }
}

/// Whether the event at position `k`, if it is a mint, picked an identifier
/// that was not live at that moment.
pub open spec fn mint_ok(events: Seq<IdEvent>, k: int) -> bool {
    events[k] matches IdEvent::Minted(id) ==> !live_ids(events.take(k)).contains(id)
}

/// Whether every mint in `events` picked an identifier that was not live at
/// that moment — which is exactly what [`IdAllocator::allocate`] ensures of
/// each identifier it hands out.
pub open spec fn mints_fresh(events: Seq<IdEvent>) -> bool {
    forall|k: int| 0 <= k < events.len() ==> #[trigger] mint_ok(events, k)
}

/// Law: one `allocate`/`free` step keeps the allocator's set in lock step
/// with the replayed events, and keeps every mint fresh. Together with
/// [`lemma_interleaving_distinct`] this covers every interleaving of
/// connection creation and teardown: each premise is the corresponding
/// clause of [`IdAllocator::allocate`] or [`IdAllocator::free`], stated
/// over the allocated set before and after the step.
pub proof fn lemma_step_tracks_live_ids(
    events: Seq<IdEvent>,
    pre: Set<u32>,
    post: Set<u32>,
    ev: IdEvent,
)
    requires
        pre == live_ids(events),
        mints_fresh(events),
        match ev {
            IdEvent::Minted(id) => !pre.contains(id) && post == pre.insert(id),
            IdEvent::Released(id) => post == pre.remove(id),
        },
    ensures
        post == live_ids(events.push(ev)),
        mints_fresh(events.push(ev)),
{
    let pushed = events.push(ev);
    assert(pushed.drop_last() =~= events);
    assert(post == live_ids(pushed));
    assert forall|k: int| 0 <= k < pushed.len() implies #[trigger] mint_ok(pushed, k) by {
        if k < events.len() {
            assert(mint_ok(events, k));
            assert(pushed.take(k) =~= events.take(k));
            assert(pushed[k] == events[k]);
        } else {
            assert(pushed.take(k) =~= events);
        }
    }
}

/// Law: an identifier minted at position `i` and not released before
/// position `j` is still live just before `j`.
pub proof fn lemma_minted_stays_live(events: Seq<IdEvent>, i: int, j: int)
    requires
        0 <= i < j <= events.len(),
        events[i] matches IdEvent::Minted(id),
        forall|k: int| i < k < j ==> events[k] != IdEvent::Released(events[i]->Minted_0),
    ensures
        live_ids(events.take(j)).contains(events[i]->Minted_0),
    decreases j - i,
{
    let id = events[i]->Minted_0;
    if j == i + 1 {
        assert(events.take(j).drop_last() =~= events.take(i));
        assert(events.take(j).last() == events[i]);
    } else {
        lemma_minted_stays_live(events, i, j - 1);
        assert(events.take(j).drop_last() =~= events.take(j - 1));
        assert(events.take(j).last() == events[j - 1]);
        assert(events[j - 1] != IdEvent::Released(id));
    }
}

/// Law: under any interleaving of mints and releases in which each mint
/// picked an identifier that was not live at that moment, two connections
/// that are live at the same time carry distinct identifiers: if the
/// connection minted at `i` has not been released when the mint at `j`
/// happens, the two identifiers differ.
pub proof fn lemma_interleaving_distinct(events: Seq<IdEvent>, i: int, j: int)
    requires
        mints_fresh(events),
        0 <= i < j < events.len(),
        events[i] matches IdEvent::Minted(id_i),
        events[j] matches IdEvent::Minted(id_j),
        forall|k: int| i < k < j ==> events[k] != IdEvent::Released(events[i]->Minted_0),
    ensures
        events[i]->Minted_0 != events[j]->Minted_0,
{
    lemma_minted_stays_live(events, i, j);
    assert(mint_ok(events, j));
}

/// Law: after an identifier is freed it is no longer allocated, and the
/// allocator is again able to hand an identifier out: the next allocation
/// cannot fail with exhaustion, and the freed identifier itself is a
/// candidate for reuse.
pub proof fn lemma_freed_id_allocatable(pre: IdAllocator, post: IdAllocator, id: u32)
    requires
        pre.lo() <= id < pre.hi(),
        post.lo() == pre.lo(),
        post.hi() == pre.hi(),
        post.allocated() == pre.allocated().remove(id),
    ensures
        !post.allocated().contains(id),
        exists|j: u32| post.lo() <= j < post.hi() && !post.allocated().contains(j),
{
    assert(post.lo() <= id < post.hi() && !post.allocated().contains(id));
}

} // verus!
