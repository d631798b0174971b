use vstd::prelude::*;

use crate::pool::{clone_pool, host_parallelism, new_fixed_pool, pool_inst, pool_workers, Pool};
use crate::slot::{
    decode_word, encode_index, is_ready_word, state_of_word, SlotCell, SlotState, INITIALIZING,
    READY_BASE, UNINITIALIZED,
};

verus! {

/// The error returned when initialization is attempted on a slot that was
/// observed to be no longer empty.
#[derive(Debug)]
pub struct InitPoolError(());

impl InitPoolError {
    /// A human-readable description of the error.
    pub fn message(&self) -> &'static str {
        "attempted to initialize a pool after the pool was already initialized"
    }
}

/// The process-wide registry of shared slots and the pools published
/// through them. It is constructed once at startup and handed to every
/// call site; each slot in it is an independent lazily filled singleton.
///
/// A slot's word either is one of the two reserved words or encodes the
/// index of the slot's own pool in the arena, so a reader decodes a pool
/// by the word alone. The ghost `builds` sequence counts, per slot, how
/// many times a pool constructor has ever run for that slot.
pub struct Registry {
    slots: Vec<SlotCell>,
    pools: Vec<Option<Pool>>,
    builds: Ghost<Seq<nat>>,
}

impl Registry {
    /// How many slots have been handed out.
    pub closed spec fn num_slots(self) -> nat {
        self.slots@.len()
    }

    /// The word slot `i` currently holds.
    pub closed spec fn slot_word(self, i: int) -> usize {
        self.slots@[i]@
    }

    /// The pool the arena holds for slot `i`, if any.
    pub closed spec fn stored_pool(self, i: int) -> Option<Pool> {
        self.pools@[i]
    }

    /// How many times a pool constructor has run for slot `i`.
    pub closed spec fn times_built(self, i: int) -> nat {
        self.builds@[i]
    }

    /// The logical state of slot `i`.
    pub open spec fn slot_state(self, i: int) -> SlotState {
        state_of_word(self.slot_word(i))
    }

    /// What a read of slot `i` can decode: the identity and worker count
    /// of the published pool, or nothing while the slot is `Empty` or
    /// `Initializing`.
    pub open spec fn published(self, i: int) -> Option<(nat, nat)> {
        if self.slot_state(i) is Ready {
            Some((pool_inst(self.stored_pool(i).unwrap()), pool_workers(self.stored_pool(i).unwrap())))
        } else {
            None
        }
    }

    /// Well-formedness of one slot: the reserved words hold no pool, a
    /// ready word is exactly this slot's encoded arena index and a fully
    /// constructed pool stands behind it, and the constructor has run
    /// exactly as often as the state machine allows.
    pub closed spec fn slot_ok(self, i: int) -> bool {
        let w = self.slot_word(i);
        &&& w == UNINITIALIZED ==> self.pools@[i] is None && self.builds@[i] == 0
        &&& w == INITIALIZING ==> self.pools@[i] is None && self.builds@[i] <= 1
        &&& is_ready_word(w) ==> {
            &&& w == i + READY_BASE
            &&& self.pools@[i] is Some
            &&& pool_workers(self.pools@[i].unwrap()) >= 1
            &&& self.builds@[i] == 1
        }
    }

    /// Well-formedness of the registry: every constructor establishes it
    /// and every operation preserves it.
    pub closed spec fn wf(self) -> bool {
        &&& self.pools@.len() == self.slots@.len()
        &&& self.builds@.len() == self.slots@.len()
        &&& self.slots@.len() <= usize::MAX - READY_BASE
        &&& forall|i: int| 0 <= i < self.slots@.len() ==> #[trigger] self.slot_ok(i)
    }

    /// No observable change to slot `i` relative to `pre`.
    pub open spec fn slot_preserved(self, pre: Registry, i: int) -> bool {
        &&& self.slot_state(i) == pre.slot_state(i)
        &&& self.published(i) == pre.published(i)
        &&& self.times_built(i) == pre.times_built(i)
    }

    /// An operation on slot `i` leaves every slot that `pre` already had,
    /// other than `i`, untouched: same state, same published pool, same
    /// construction count.
    pub open spec fn others_unchanged(self, pre: Registry, i: int) -> bool {
        &&& forall|j: int|
            #![trigger self.slot_state(j)]
            0 <= j < pre.num_slots() && j != i ==> self.slot_state(j) == pre.slot_state(j)
        &&& forall|j: int|
            #![trigger self.published(j)]
            0 <= j < pre.num_slots() && j != i ==> self.published(j) == pre.published(j)
        &&& forall|j: int|
            #![trigger self.times_built(j)]
            0 <= j < pre.num_slots() && j != i ==> self.times_built(j) == pre.times_built(j)
    }

    /// A registry with no slots yet.
    pub fn new() -> (r: Registry)
        ensures
            r.wf(),
            r.num_slots() == 0,
    {
        Registry { slots: Vec::new(), pools: Vec::new(), builds: Ghost(Seq::empty()) }
    }

    /// Adds a fresh, independent slot, in the `Empty` state, and returns
    /// its handle. The bound on the slot count is what lets every slot's
    /// arena index be encoded in a word.
    pub fn new_slot(&mut self) -> (id: usize)
        requires
            old(self).wf(),
            old(self).num_slots() < usize::MAX - READY_BASE,
        ensures
            final(self).wf(),
            id == old(self).num_slots(),
            final(self).num_slots() == old(self).num_slots() + 1,
            final(self).slot_state(id as int) is Empty,
            final(self).times_built(id as int) == 0,
            final(self).others_unchanged(*old(self), id as int),
    {
        let id = self.slots.len();
        self.slots.push(SlotCell::new());
        self.pools.push(None);
        proof {
            self.builds@ = self.builds@.push(0);
        }
        proof {
            assert forall|i: int| 0 <= i < self.slots@.len() implies #[trigger] self.slot_ok(i) by {
                if i < id {
                    assert(old(self).slot_ok(i));
                }
            }
            lemma_registry_framed(*old(self), *self, id as int);
        }
        id
    }

    /// How many slots have been handed out so far.
    pub fn slot_count(&self) -> (n: usize)
        ensures
            n == self.num_slots(),
    {
        self.slots.len()
    }

    /// Reads slot `slot` and returns a shared handle to its pool if one
    /// is published; returns nothing while the slot is `Empty` or
    /// `Initializing`. Never constructs, never blocks, never mutates.
    pub fn get(&self, slot: usize) -> (r: Option<Pool>)
        requires
            self.wf(),
            slot < self.num_slots(),
        ensures
            r is Some <==> self.published(slot as int) is Some,
            r matches Some(p) ==> self.published(slot as int) == Some(
                (pool_inst(p), pool_workers(p)),
            ),
    {
        let w = self.slots[slot].load();
        if w == UNINITIALIZED || w == INITIALIZING {
            None
        } else {
            proof {
                assert(self.slot_ok(slot as int));
            }
            let k = decode_word(w);
            match &self.pools[k] {
                Some(p) => Some(clone_pool(p)),
                None => None,
            }
        }
    }

    /// Exit-time teardown for `slot`: swaps in the `Initializing`
    /// sentinel, so the slot can never again be claimed or read, and
    /// takes the published pool out of the arena and drops it, giving the
    /// worker pool the chance to release its threads. Handles already
    /// held by callers stay valid; the constructor never runs here.
    pub fn teardown(&mut self, slot: usize)
        requires
            old(self).wf(),
            slot < old(self).num_slots(),
        ensures
            final(self).wf(),
            final(self).num_slots() == old(self).num_slots(),
            final(self).others_unchanged(*old(self), slot as int),
            final(self).slot_state(slot as int) is Initializing,
            final(self).published(slot as int) is None,
            final(self).stored_pool(slot as int) is None,
            final(self).times_built(slot as int) == old(self).times_built(slot as int),
    {
        proof {
            assert(old(self).slot_ok(slot as int));
        }
        let prev = self.slots[slot].swap(INITIALIZING);
        if !(prev == UNINITIALIZED || prev == INITIALIZING) {
            let k = decode_word(prev);
            self.pools[k] = None;
        }
        proof {
            assert forall|i: int| 0 <= i < self.slots@.len() implies #[trigger] self.slot_ok(i) by {
                assert(old(self).slot_ok(i));
            }
            assert forall|j: int|
                0 <= j < old(self).num_slots() && j != slot implies #[trigger] self.slot_preserved(
                *old(self),
                j,
            ) by {
                assert(old(self).slot_ok(j));
            }
        }
    }
}

/// Claims `slot` and publishes a pool of `size` workers in it.
///
/// The claim is a compare-and-swap of `Empty` for `Initializing`: it
/// succeeds exactly when the slot was never touched, so a constructor can
/// run at most once per slot, and a second call fails with
/// `InitPoolError` before any construction, whatever state the slot is
/// in. On success the pool is constructed, entered into the arena, and
/// only then published by storing its encoded index, so no reader can
/// ever decode a partially constructed pool.
///
/// Construction cannot fail between the claim and the publication: the
/// pool constructor is total, so a claimed slot is always published and
/// no rollback or poisoning policy is needed.
pub fn init_from(reg: &mut Registry, slot: usize, size: usize) -> (r: Result<(), InitPoolError>)
    requires
        old(reg).wf(),
        slot < old(reg).num_slots(),
        1 <= size <= u32::MAX,
    ensures
        final(reg).wf(),
        final(reg).num_slots() == old(reg).num_slots(),
        final(reg).others_unchanged(*old(reg), slot as int),
        r is Ok <==> old(reg).slot_state(slot as int) is Empty,
        r is Ok ==> {
            &&& final(reg).slot_state(slot as int) is Ready
            &&& final(reg).published(slot as int) matches Some((inst, workers)) && workers
                == size as nat
            &&& final(reg).times_built(slot as int) == old(reg).times_built(slot as int) + 1
        },
        r is Err ==> final(reg).slot_preserved(*old(reg), slot as int),
{
    proof {
        assert(old(reg).slot_ok(slot as int));
    }
    let prev = reg.slots[slot].compare_and_swap(UNINITIALIZED, INITIALIZING);
    if prev != UNINITIALIZED {
        proof {
            assert forall|i: int| 0 <= i < reg.slots@.len() implies #[trigger] reg.slot_ok(i) by {
                assert(old(reg).slot_ok(i));
            }
            lemma_registry_framed(*old(reg), *reg, slot as int);
        }
        return Err(InitPoolError(()));
    }
    // This call won the claim: the slot now holds `Initializing`, which
    // blocks every other initialization attempt while the pool is built.
    let pool = new_fixed_pool(size as u32);
    reg.pools[slot] = Some(pool);
    proof {
        reg.builds@ = reg.builds@.update(slot as int, (reg.builds@[slot as int] + 1) as nat);
    }
    // Publication: only after the pool is fully constructed and stored
    // does the slot's word become its decodable index.
    let w = encode_index(slot);
    reg.slots[slot].store(w);
    proof {
        lemma_registry_framed(*old(reg), *reg, slot as int);
        assert forall|i: int| 0 <= i < reg.slots@.len() implies #[trigger] reg.slot_ok(i) by {
            if i != slot {
                assert(old(reg).slot_ok(i));
            }
        }
    }
    Ok(())
}

/// The race-free read path: returns a shared handle to the pool published
/// in `slot`, claiming the slot and constructing a pool of `default_size`
/// workers if the slot has never been touched.
///
/// Losing a claim that another initializer has since completed is not an
/// error: after a failed claim the slot is read again, and only a slot
/// that still holds the `Initializing` sentinel, as one does after
/// teardown, makes the call fail.
pub fn get_or_init(reg: &mut Registry, slot: usize, default_size: usize) -> (r: Result<
    Pool,
    InitPoolError,
>)
    requires
        old(reg).wf(),
        slot < old(reg).num_slots(),
        1 <= default_size <= u32::MAX,
    ensures
        final(reg).wf(),
        final(reg).num_slots() == old(reg).num_slots(),
        final(reg).others_unchanged(*old(reg), slot as int),
        r is Ok <==> !(old(reg).slot_state(slot as int) is Initializing),
        r is Ok <==> final(reg).slot_state(slot as int) is Ready,
        r matches Ok(p) ==> final(reg).published(slot as int) == Some(
            (pool_inst(p), pool_workers(p)),
        ) && pool_workers(p) >= 1,
        old(reg).slot_state(slot as int) is Ready ==> final(reg).slot_preserved(
            *old(reg),
            slot as int,
        ),
        old(reg).slot_state(slot as int) is Empty ==> {
            &&& final(reg).times_built(slot as int) == old(reg).times_built(slot as int) + 1
            &&& r matches Ok(p) && pool_workers(p) == default_size as nat
        },
        old(reg).slot_state(slot as int) is Initializing ==> r is Err && final(reg).slot_preserved(
            *old(reg),
            slot as int,
        ),
{
    proof {
        assert(old(reg).slot_ok(slot as int));
    }
    let w = reg.slots[slot].load();
    if w == UNINITIALIZED || w == INITIALIZING {
        match init_from(reg, slot, default_size) {
            Ok(()) => {
                // This call won the claim, so the re-read below must
                // observe the index it just published.
            },
            Err(e) => {
                // The claim failed: re-read rather than surface the
                // failure, so a slot that another initializer has filled
                // in the meantime is still handed out. Only the sentinel
                // state is left as an error.
                let w2 = reg.slots[slot].load();
                if w2 == UNINITIALIZED || w2 == INITIALIZING {
                    return Err(e);
                }
                proof {
                    assert(reg.slot_ok(slot as int));
                }
                let k = decode_word(w2);
                match &reg.pools[k] {
                    Some(p) => {
                        return Ok(clone_pool(p));
                    },
                    None => {
                        return Err(e);
                    },
                }
            },
        }
        proof {
            assert(reg.slot_ok(slot as int));
        }
        let w2 = reg.slots[slot].load();
        let k = decode_word(w2);
        match &reg.pools[k] {
            Some(p) => Ok(clone_pool(p)),
            None => Err(InitPoolError(())),
        }
    } else {
        proof {
            assert(reg.slot_ok(slot as int));
        }
        let k = decode_word(w);
        match &reg.pools[k] {
            Some(p) => Ok(clone_pool(p)),
            None => Err(InitPoolError(())),
        }
    }
}

/// Like `get_or_init`, with the documented default size: a pool
/// constructed here gets one worker per logical CPU of the host.
pub fn pool_from(reg: &mut Registry, slot: usize) -> (r: Result<Pool, InitPoolError>)
    requires
        old(reg).wf(),
        slot < old(reg).num_slots(),
    ensures
        final(reg).wf(),
        final(reg).num_slots() == old(reg).num_slots(),
        final(reg).others_unchanged(*old(reg), slot as int),
        r is Ok <==> !(old(reg).slot_state(slot as int) is Initializing),
        r is Ok <==> final(reg).slot_state(slot as int) is Ready,
        r matches Ok(p) ==> final(reg).published(slot as int) == Some(
            (pool_inst(p), pool_workers(p)),
        ) && pool_workers(p) >= 1,
        old(reg).slot_state(slot as int) is Ready ==> final(reg).slot_preserved(
            *old(reg),
            slot as int,
        ),
        old(reg).slot_state(slot as int) is Empty ==> final(reg).times_built(slot as int) == old(
            reg,
        ).times_built(slot as int) + 1,
        old(reg).slot_state(slot as int) is Initializing ==> r is Err && final(reg).slot_preserved(
            *old(reg),
            slot as int,
        ),
{
    let wish = host_parallelism();
    let default_size = if wish > (u32::MAX as usize) {
        u32::MAX as usize
    } else {
        wish
    };
    get_or_init(reg, slot, default_size)
}

/// Two registries that agree, slot for slot, on word, arena entry and
/// construction count agree on every observable of every slot but `i`.
proof fn lemma_registry_framed(pre: Registry, post: Registry, i: int)
    requires
        forall|j: int|
            0 <= j < pre.num_slots() && j != i ==> post.slot_word(j) == pre.slot_word(j)
                && post.stored_pool(j) == pre.stored_pool(j) && post.times_built(j)
                == pre.times_built(j),
    ensures
        post.others_unchanged(pre, i),
{
    assert forall|j: int|
        0 <= j < pre.num_slots() && j != i implies #[trigger] post.published(j) == pre.published(
        j,
    ) by {}
}

/// At-most-once construction: whatever sequence of claims, reads and
/// teardowns a slot has seen, its pool constructor has run at most once.
pub proof fn lemma_at_most_once(reg: Registry, i: int)
    requires
        reg.wf(),
        0 <= i < reg.num_slots(),
    ensures
        reg.times_built(i) <= 1,
{
    assert(reg.slot_ok(i));
}

/// No uninitialized read: outside the `Ready` state a slot's arena entry
/// holds no pool at all, so no reader can decode a partially constructed
/// one; `Ready` is entered only after construction completed.
pub proof fn lemma_no_uninitialized_read(reg: Registry, i: int)
    requires
        reg.wf(),
        0 <= i < reg.num_slots(),
        !(reg.slot_state(i) is Ready),
    ensures
        reg.stored_pool(i) is None,
        reg.published(i) is None,
{
    assert(reg.slot_ok(i));
}

/// Idempotent read: any two handles whose identity and worker count match
/// what one slot publishes, as every handle `get` or `pool_from` returns
/// does, refer to the same pool instance.
pub proof fn lemma_get_idempotent(reg: Registry, i: int, p1: Pool, p2: Pool)
    requires
        reg.published(i) == Some((pool_inst(p1), pool_workers(p1))),
        reg.published(i) == Some((pool_inst(p2), pool_workers(p2))),
    ensures
        pool_inst(p1) == pool_inst(p2),
        pool_workers(p1) == pool_workers(p2),
{
}

/// Independent handles: an operation on one slot, which ensures
/// `others_unchanged`, leaves the state, the published pool and the
/// construction count of every other slot exactly as they were.
pub proof fn lemma_independent_slots(pre: Registry, post: Registry, i: int, j: int)
    requires
        post.others_unchanged(pre, i),
        0 <= j < pre.num_slots(),
        j != i,
    ensures
        post.slot_state(j) == pre.slot_state(j),
        post.published(j) == pre.published(j),
        post.times_built(j) == pre.times_built(j),
{
    assert(post.slot_preserved(pre, j));
}

/// Teardown ordering: once a slot holds the `Initializing` sentinel that
/// teardown leaves behind, nothing can be decoded from it any more, so no
/// later call obtains a live handle from that slot.
pub proof fn lemma_torn_down_unreadable(reg: Registry, i: int)
    requires
        reg.wf(),
        0 <= i < reg.num_slots(),
        reg.slot_state(i) is Initializing,
    ensures
        reg.published(i) is None,
{
}

} // verus!
