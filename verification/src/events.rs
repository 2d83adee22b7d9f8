//! What the ledger delivers: events, and the batch of events of one block.

use vstd::prelude::*;

verus! {

/// The account of a relayer, as its twenty bytes.
#[derive(Clone, Copy, Debug, PartialEq, Eq)]
pub struct Address {
    pub bytes: [u8; 20],
}

/// The number of a round, as four 64-bit limbs, least significant first.
#[derive(Clone, Copy, Debug, PartialEq, Eq)]
pub struct RoundNumber {
    pub limbs: [u64; 4],
}

/// One event of the ledger, as far as the outbound handler reads it.
#[derive(Clone, Debug, PartialEq, Eq)]
pub enum LedgerEvent {
    /// An unsigned settlement transaction was submitted; `psbt` is its
    /// binary encoding.
    UnsignedPsbtSubmitted { psbt: Vec<u8> },
    /// Any other event.
    Other,
}

impl LedgerEvent {
    /// Whether the event carries a settlement transaction.
    pub open spec fn is_submission(self) -> bool {
        self is UnsignedPsbtSubmitted
    }

    /// The bytes that the event carries; none for an event of another kind.
    pub open spec fn blob(self) -> Seq<u8> {
        match self {
            LedgerEvent::UnsignedPsbtSubmitted { psbt } => psbt@,
            LedgerEvent::Other => Seq::empty(),
        }
    }

    /// A copy of the bytes of a submitted transaction; `None` for an event of
    /// another kind.
    pub fn submitted_blob(&self) -> (blob: Option<Vec<u8>>)
        ensures
            blob is Some <==> self.is_submission(),
            blob matches Some(bytes) ==> bytes@ == self.blob(),
    {
        match self {
            LedgerEvent::UnsignedPsbtSubmitted { psbt } => Some(copy_bytes(psbt)),
            LedgerEvent::Other => None,
        }
    }
}

/// A copy of `bytes`.
pub fn copy_bytes(bytes: &Vec<u8>) -> (copy: Vec<u8>)
    ensures
        copy@ == bytes@,
{
    let mut copy: Vec<u8> = Vec::with_capacity(bytes.len());
    let mut i: usize = 0;
    while i < bytes.len()
        invariant
            i <= bytes@.len(),
            copy@ == bytes@.subrange(0, i as int),
        decreases bytes@.len() - i,
    {
        copy.push(bytes[i]);
        assert(copy@ =~= bytes@.subrange(0, i + 1));
        i = i + 1;
    }
    assert(bytes@.subrange(0, i as int) =~= bytes@);
    copy
}

/// The events of one imported block, in ledger order.
#[derive(Clone, Debug, PartialEq, Eq)]
pub struct EventMessage {
    pub block_number: u64,
    pub events: Vec<LedgerEvent>,
}

impl EventMessage {
    /// The batch of `events` found in block `block_number`.
    pub fn new(block_number: u64, events: Vec<LedgerEvent>) -> (message: Self)
        ensures
            message.block_number == block_number,
            message.events == events,
    {
        EventMessage { block_number, events }
    }
}

/// The position of the first submission at or after `from`, or the number of
/// events where none is left.
pub open spec fn first_submission(events: Seq<LedgerEvent>, from: int) -> int
    decreases events.len() - from,
{
    if from < 0 || from >= events.len() {
        events.len() as int
    } else if events[from].is_submission() {
        from
    } else {
        first_submission(events, from + 1)
    }
}

/// `first_submission` skips exactly the events of other kinds: every event
/// between `from` and the position it gives is no submission, and the event
/// at that position is one.
pub proof fn lemma_first_submission(events: Seq<LedgerEvent>, from: int)
    requires
        0 <= from <= events.len(),
    ensures
        from <= first_submission(events, from) <= events.len(),
        first_submission(events, from) < events.len() ==> events[first_submission(
            events,
            from,
        )].is_submission(),
        forall|k: int| from <= k < first_submission(events, from) ==> !events[k].is_submission(),
    decreases events.len() - from,
{
    if from < events.len() && !events[from].is_submission() {
        lemma_first_submission(events, from + 1);
    }
}

} // verus!
