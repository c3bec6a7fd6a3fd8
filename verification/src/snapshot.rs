//! The single-slot mailbox between the poll scheduler and the network side.
//!
//! The slot is one atomic 32-bit word that holds the latest snapshot in the
//! form that [`AggregateState::to_word`] gives it. The scheduler overwrites
//! it once per cycle; any number of readers load it. Neither side blocks, and
//! because the whole snapshot lies in one word a reader gets what one single
//! store wrote, or the initial value, and never parts of two stores.
//!
//! What a load returns depends on what other threads have stored, so the
//! contract of [`SharedSnapshot::read`] says nothing of the value read; what
//! is made of the loaded word is stated with [`AggregateState::from_word`].
//! A slot does know what it was made with ([`SharedSnapshot::initial`]).
//! What happens from there is said of the slot as a sequence of stores and
//! loads that take effect one at a time, which is how an atomic word
//! behaves: every load then decodes to the snapshot published last before
//! it, or to the initial one ([`read_returns_latest_published`]).

use vstd::prelude::*;
use std::sync::atomic::AtomicU32;
use std::sync::atomic::Ordering;
use crate::aggregate::{word_round_trip, AggregateState, WireMode};

verus! {

/// The most recently published snapshot.
pub struct SharedSnapshot {
    cell: AtomicU32,
    /// The snapshot whose word the cell was made with.
    first: Ghost<AggregateState>,
}

impl SharedSnapshot {
    /// A slot that holds the initial snapshot of `mode`: no channel pressed,
    /// or a reading of zero.
    pub fn new(mode: WireMode) -> (snapshot: SharedSnapshot)
        ensures
            snapshot.initial() == AggregateState::initial_spec(mode),
    {
        let first: AggregateState = AggregateState::initial(mode);
        SharedSnapshot { cell: AtomicU32::new(first.to_word()), first: Ghost(first) }
    }

    /// Overwrites the slot with `value`.
    pub fn publish(&self, value: AggregateState) {
        let word: u32 = value.to_word();
        self.cell.store(word, Ordering::Relaxed);
    }

    /// The snapshot that the slot holds at the moment of the call.
    pub fn read(&self) -> (value: AggregateState) {
        let word: u32 = self.cell.load(Ordering::Relaxed);
        AggregateState::from_word(word)
    }

    /// The snapshot that the slot was made with, which it holds until the
    /// first publish takes effect.
    pub closed spec fn initial(&self) -> AggregateState {
        self.first@
    }
}

/// One operation on the slot, at the moment it takes effect.
pub enum SlotOp {
    /// The store of a published snapshot.
    Publish(AggregateState),
    /// The load of a reader.
    Read,
}

/// The word in the slot after the operations `ops` have taken effect one
/// after the other, on a slot that first held `start`.
pub open spec fn word_after(start: u32, ops: Seq<SlotOp>) -> u32
    decreases ops.len(),
{
    if ops.len() == 0 {
        start
    } else {
        match ops.last() {
            SlotOp::Publish(state) => state.word(),
            SlotOp::Read => word_after(start, ops.drop_last()),
        }
    }
}

/// The snapshot published last among `ops`, or `initial` if none was.
pub open spec fn latest_published(initial: AggregateState, ops: Seq<SlotOp>) -> AggregateState
    decreases ops.len(),
{
    if ops.len() == 0 {
        initial
    } else {
        match ops.last() {
            SlotOp::Publish(state) => state,
            SlotOp::Read => latest_published(initial, ops.drop_last()),
        }
    }
}

/// Last writer wins, and nothing is torn. However the stores of the writer
/// and the loads of the readers fall into line, a load that takes effect
/// after `ops` finds a word that decodes to one whole snapshot: the one
/// published last before it, or the initial one if nothing was published yet.
pub proof fn read_returns_latest_published(initial: AggregateState, ops: Seq<SlotOp>)
    ensures
        AggregateState::of_word(word_after(initial.word(), ops)) == latest_published(
            initial,
            ops,
        ),
        latest_published(initial, ops) == initial || exists|i: int|
            0 <= i < ops.len() && #[trigger] ops[i] == SlotOp::Publish(
                latest_published(initial, ops),
            ),
    decreases ops.len(),
{
    if ops.len() == 0 {
        word_round_trip(initial);
    } else {
        match ops.last() {
            SlotOp::Publish(state) => {
                word_round_trip(state);
                assert(ops[ops.len() - 1] == SlotOp::Publish(state));
            },
            SlotOp::Read => {
                let earlier = ops.drop_last();
                read_returns_latest_published(initial, earlier);
                let latest = latest_published(initial, earlier);
                if latest != initial {
                    let i = choose|i: int|
                        0 <= i < earlier.len() && #[trigger] earlier[i] == SlotOp::Publish(latest);
                    assert(ops[i] == SlotOp::Publish(latest));
                }
            },
        }
    }
}

} // verus!
