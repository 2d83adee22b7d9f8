//! What passes between the handler and whoever drives it: the things the
//! handler asks for, the replies to them, and the stages in between.

use crate::barrier::Phase;
use crate::chains::RoundSource;
use crate::events::Address;
use crate::events::EventMessage;
use crate::events::LedgerEvent;
use crate::events::RoundNumber;
use bitcoincore_rpc::bitcoin::psbt::Psbt;
use vstd::prelude::*;

verus! {

/// The conditions that end a handler.
#[derive(Clone, Copy, Debug, PartialEq, Eq, Structural)]
pub enum FatalError {
    /// No chain is native, so there is no reference clock for the replay.
    InvalidNativeness,
    /// The live stream of events has ended.
    StreamClosed,
    /// The destination refused a signed transaction.
    SubmissionFailed,
    /// A reply came that answers nothing the handler had asked.
    UnexpectedReply,
}

/// What the handler is waiting for.
#[derive(Debug, PartialEq, Eq)]
pub enum Stage {
    /// The phase of the shared start-up states.
    Polling,
    /// The end of the pause between two looks at the phase.
    Pausing,
    /// The number of blocks that the configured rounds amount to.
    ResolvingOffset,
    /// The number of the latest block.
    FetchingLatestBlock { offset_height: u64 },
    /// The events of the replay window.
    QueryingHistory,
    /// The next batch of the live stream.
    AwaitingBatch,
    /// The diagnostic sink taking a decoding failure.
    Reporting,
    /// The latest round, for the transaction held here.
    AwaitingRound { artifact: Psbt },
    /// Whether this relayer was selected in that round.
    AwaitingSelection { artifact: Psbt },
    /// The destination taking a signed transaction.
    Submitting,
    /// The barrier taking this handler's completion report.
    Signalling,
    /// Nothing any more.
    Halted(FatalError),
}

/// The reply to what the handler asked last.
#[derive(Clone, Debug, PartialEq, Eq)]
pub enum Event {
    /// The phase read off the shared start-up states.
    Phase(Phase),
    /// The pause is over.
    Resumed,
    /// The number of blocks that the configured rounds amount to.
    OffsetHeight(u64),
    /// The number of the latest block.
    LatestBlock(u64),
    /// The events of the replay window, in ledger order.
    History(Vec<LedgerEvent>),
    /// The next batch of the live stream.
    Batch(EventMessage),
    /// The live stream has ended.
    StreamClosed,
    /// The decoding failure was handed to the diagnostic sink.
    Reported,
    /// The latest round.
    LatestRound(RoundNumber),
    /// Whether this relayer was selected in the round asked about.
    RelayerSelection(bool),
    /// Whether the destination took the signed transaction.
    Submitted(bool),
    /// The barrier has taken the completion report.
    CompletionRecorded,
}

/// What the handler asks for next.
#[derive(Debug, PartialEq, Eq)]
pub enum Action {
    /// Read the phase off the shared start-up states.
    ReadPhase,
    /// Wait for this many milliseconds.
    Pause { millis: u64 },
    /// Read the round timing from `source` and convert `round_offset` rounds
    /// into a number of blocks.
    ResolveOffsetHeight { source: RoundSource, round_offset: u32 },
    /// Read the number of the latest block.
    FetchLatestBlock,
    /// Fetch the events of the blocks `from_block` to `to_block`, both
    /// included.
    QueryHistory { from_block: u64, to_block: u64 },
    /// Wait for the next batch of the live stream.
    AwaitBatch,
    /// Hand a blob that would not decode to the diagnostic sink.
    ReportDecodeFailure { blob: Vec<u8>, reason: String },
    /// Ask the registry for the latest round; where `announce` is set, the
    /// detection of the transaction in `blob` is to be logged first.
    QueryLatestRound { announce: bool, blob: Vec<u8> },
    /// Ask the registry whether `relayer` was selected in `round`.
    QueryRelayerSelection { round: RoundNumber, relayer: Address, is_initial: bool },
    /// Sign `artifact` and submit it to the destination in the name of `from`.
    Submit { from: Address, artifact: Psbt },
    /// Report to the barrier that this handler has finished its replay.
    SignalCompletion,
    /// Stop: the handler cannot go on.
    Halt(FatalError),
}

/// An action as the contracts speak of it: byte vectors and strings by their
/// content.
pub ghost enum ActionView {
    ReadPhase,
    Pause { millis: u64 },
    ResolveOffsetHeight { source: RoundSource, round_offset: u32 },
    FetchLatestBlock,
    QueryHistory { from_block: u64, to_block: u64 },
    AwaitBatch,
    ReportDecodeFailure { blob: Seq<u8>, reason: Seq<char> },
    QueryLatestRound { announce: bool, blob: Seq<u8> },
    QueryRelayerSelection { round: RoundNumber, relayer: Address, is_initial: bool },
    Submit { from: Address, artifact: Psbt },
    SignalCompletion,
    Halt(FatalError),
}

impl View for Action {
    type V = ActionView;

    open spec fn view(&self) -> ActionView {
        match *self {
            Action::ReadPhase => ActionView::ReadPhase,
            Action::Pause { millis } => ActionView::Pause { millis },
            Action::ResolveOffsetHeight { source, round_offset } => ActionView::ResolveOffsetHeight {
                source,
                round_offset,
            },
            Action::FetchLatestBlock => ActionView::FetchLatestBlock,
            Action::QueryHistory { from_block, to_block } => ActionView::QueryHistory {
                from_block,
                to_block,
            },
            Action::AwaitBatch => ActionView::AwaitBatch,
            Action::ReportDecodeFailure { blob, reason } => ActionView::ReportDecodeFailure {
                blob: blob@,
                reason: reason@,
            },
            Action::QueryLatestRound { announce, blob } => ActionView::QueryLatestRound {
                announce,
                blob: blob@,
            },
            Action::QueryRelayerSelection {
                round,
                relayer,
                is_initial,
            } => ActionView::QueryRelayerSelection { round, relayer, is_initial },
            Action::Submit { from, artifact } => ActionView::Submit { from, artifact },
            Action::SignalCompletion => ActionView::SignalCompletion,
            Action::Halt(error) => ActionView::Halt(error),
        }
    }
}

} // verus!
