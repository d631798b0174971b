use vstd::prelude::*;

verus! {

/// Word held by a slot that has never been claimed.
pub const UNINITIALIZED: usize = 0;

/// Word held by a slot that has been claimed but whose resource is not
/// published; teardown also leaves this word behind as a sentinel so the
/// slot can never be claimed again.
pub const INITIALIZING: usize = 1;

/// The smallest word that encodes a published arena index.
pub const READY_BASE: usize = 2;

/// The logical state of a shared slot, as decoded from its word.
pub enum SlotState {
    /// Never claimed: an initializer may still win this slot.
    Empty,
    /// Claimed but not published, or invalidated by teardown.
    Initializing,
    /// A constructed resource has been published in this slot.
    Ready,
}

/// Whether a word encodes a published arena index.
pub open spec fn is_ready_word(w: usize) -> bool {
    w >= READY_BASE
}

/// The logical state a slot word encodes.
pub open spec fn state_of_word(w: usize) -> SlotState {
    if w == UNINITIALIZED {
        SlotState::Empty
    } else if w == INITIALIZING {
        SlotState::Initializing
    } else {
        SlotState::Ready
    }
}

/// Encodes an arena index as a slot word, past the two reserved words.
pub fn encode_index(i: usize) -> (w: usize)
    requires
        i <= usize::MAX - READY_BASE,
    ensures
        w == i + READY_BASE,
        is_ready_word(w),
        state_of_word(w) is Ready,
{
    i + READY_BASE
}

/// Decodes a published slot word back to the arena index it encodes.
pub fn decode_word(w: usize) -> (i: usize)
    requires
        is_ready_word(w),
    ensures
        i == w - READY_BASE,
        w == i + READY_BASE,
{
    w - READY_BASE
}

/// A single word-sized slot: one memory location through which a resource
/// reference is published. All access goes through `load`, `store`, `swap`
/// and `compare_and_swap`, the operations of a sequentially consistent
/// atomic word; the registry that owns the slot holds it exclusively, which
/// makes each of these operations indivisible.
pub struct SlotCell {
    word: usize,
}

impl View for SlotCell {
    type V = usize;

    closed spec fn view(&self) -> usize {
        self.word
    }
}

impl SlotCell {
    /// A fresh slot, never claimed.
    pub fn new() -> (c: SlotCell)
        ensures
            c@ == UNINITIALIZED,
    {
        SlotCell { word: UNINITIALIZED }
    }

    /// Reads the slot's word.
    pub fn load(&self) -> (w: usize)
        ensures
            w == self@,
    {
        self.word
    }

    /// Overwrites the slot's word.
    pub fn store(&mut self, w: usize)
        ensures
            final(self)@ == w,
    {
        self.word = w;
    }

    /// Replaces the slot's word, returning the previous one.
    pub fn swap(&mut self, w: usize) -> (prev: usize)
        ensures
            prev == old(self)@,
            final(self)@ == w,
    {
        let prev = self.word;
        self.word = w;
        prev
    }

    /// Writes `new` only if the slot currently holds `expected`; either way
    /// returns the word observed before the operation, so the caller can
    /// tell whether it won the exchange.
    pub fn compare_and_swap(&mut self, expected: usize, new: usize) -> (prev: usize)
        ensures
            prev == old(self)@,
            old(self)@ == expected ==> final(self)@ == new,
            old(self)@ != expected ==> final(self)@ == old(self)@,
    {
        let prev = self.word;
        if prev == expected {
            self.word = new;
        }
        prev
    }
}

} // verus!
