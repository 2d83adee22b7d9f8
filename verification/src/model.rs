//! The handler as a mathematical state machine, and what holds of it.
//!
//! [`HandlerModel::next`] says for every state and every reply what state
//! follows and what is asked for next. The proof functions below it state
//! what that means for whoever relies on the handler: events are taken up in
//! ledger order, a blob that does not decode stops nothing, nothing is
//! submitted for a relayer that was not selected, and completion of the
//! replay is reported once.

use crate::artifact::decoded;
use crate::barrier::Phase;
use crate::chains::round_source;
use crate::chains::ChainInfo;
use crate::events::first_submission;
use crate::events::lemma_first_submission;
use crate::events::Address;
use crate::events::LedgerEvent;
use crate::protocol::ActionView;
use crate::protocol::Event;
use crate::protocol::FatalError;
use crate::protocol::Stage;
use crate::window::window_start;
use crate::window::BootstrapConfig;
use bitcoincore_rpc::bitcoin::psbt::Psbt;
use vstd::prelude::*;

verus! {

/// Whether a transaction may be submitted: the relayer has to be selected
/// for the round, and the destination side has to agree.
pub open spec fn authorized(relayer_selected: bool, socket_selected: bool) -> bool {
    relayer_selected && socket_selected
}

/// The verdict of the destination side. It has no say yet and always
/// agrees.
pub open spec fn socket_selected() -> bool {
    true
}

/// The state of a handler as the contracts speak of it.
pub ghost struct HandlerModel {
    pub relayer: Address,
    pub is_native: bool,
    pub call_interval: u64,
    pub bootstrap_config: Option<BootstrapConfig>,
    pub chains: Seq<ChainInfo>,
    pub stage: Stage,
    /// The replay is over and reported, or about to be reported.
    pub replayed: bool,
    /// The batch in hand comes from the replay, not from the live stream.
    pub replaying: bool,
    /// The batch in hand.
    pub pending: Seq<LedgerEvent>,
    /// The position in `pending` of the first event not yet taken up.
    pub cursor: int,
}

impl HandlerModel {
    /// The handler in another stage, asking for `action`.
    pub open spec fn goto(self, stage: Stage, action: ActionView) -> (HandlerModel, ActionView) {
        (HandlerModel { stage, ..self }, action)
    }

    /// The handler brought to a stop.
    pub open spec fn halt(self, error: FatalError) -> (HandlerModel, ActionView) {
        self.goto(Stage::Halted(error), ActionView::Halt(error))
    }

    /// The handler taking up a new batch.
    pub open spec fn load(self, events: Seq<LedgerEvent>, replaying: bool) -> HandlerModel {
        HandlerModel { pending: events, cursor: 0, replaying, ..self }
    }

    /// The start of the replay. Without a configuration there is nothing to
    /// replay and completion is reported at once; with one, the reference
    /// clock is chosen, and the handler stops where there is none.
    pub open spec fn begin_replay(self) -> (HandlerModel, ActionView) {
        match self.bootstrap_config {
            None => (
                HandlerModel { replayed: true, stage: Stage::Signalling, ..self },
                ActionView::SignalCompletion,
            ),
            Some(config) => match round_source(self.is_native, self.chains) {
                None => self.halt(FatalError::InvalidNativeness),
                Some(source) => self.goto(
                    Stage::ResolvingOffset,
                    ActionView::ResolveOffsetHeight {
                        source,
                        round_offset: config.spec_round_offset(),
                    },
                ),
            },
        }
    }

    /// The handler moving on in its batch. Events of other kinds are passed
    /// over; the first submission from the cursor on is decoded, and either
    /// goes on to the authorization check or, where it does not decode, to
    /// the diagnostic sink. Where no submission is left the batch is done: a
    /// replayed batch ends in the completion report, a live one in the next
    /// look at the phase.
    pub open spec fn advance(self) -> (HandlerModel, ActionView) {
        let at = first_submission(self.pending, self.cursor);
        if at >= self.pending.len() {
            if self.replaying {
                (
                    HandlerModel {
                        cursor: self.pending.len() as int,
                        replayed: true,
                        stage: Stage::Signalling,
                        ..self
                    },
                    ActionView::SignalCompletion,
                )
            } else {
                (
                    HandlerModel {
                        cursor: self.pending.len() as int,
                        stage: Stage::Polling,
                        ..self
                    },
                    ActionView::ReadPhase,
                )
            }
        } else {
            let blob = self.pending[at].blob();
            match decoded(blob) {
                Ok(artifact) => (
                    HandlerModel { cursor: at + 1, stage: Stage::AwaitingRound { artifact }, ..self },
                    ActionView::QueryLatestRound { announce: !self.replaying, blob },
                ),
                Err(reason) => (
                    HandlerModel { cursor: at + 1, stage: Stage::Reporting, ..self },
                    ActionView::ReportDecodeFailure { blob, reason },
                ),
            }
        }
    }

    /// The handler after the reply `event`, and what it asks for next.
    pub open spec fn next(self, event: Event) -> (HandlerModel, ActionView) {
        match (self.stage, event) {
            (Stage::Halted(error), _) => self.halt(error),
            (Stage::Polling, Event::Phase(Phase::CatchUp)) => if self.replayed {
                self.goto(Stage::Pausing, ActionView::Pause { millis: self.call_interval })
            } else {
                self.begin_replay()
            },
            (Stage::Polling, Event::Phase(Phase::Streaming)) => self.goto(
                Stage::AwaitingBatch,
                ActionView::AwaitBatch,
            ),
            (Stage::Polling, Event::Phase(Phase::Standby)) => self.goto(
                Stage::Polling,
                ActionView::ReadPhase,
            ),
            (Stage::Pausing, Event::Resumed) => self.goto(Stage::Polling, ActionView::ReadPhase),
            (Stage::ResolvingOffset, Event::OffsetHeight(offset_height)) => self.goto(
                Stage::FetchingLatestBlock { offset_height },
                ActionView::FetchLatestBlock,
            ),
            (Stage::FetchingLatestBlock { offset_height }, Event::LatestBlock(latest)) => self.goto(
                Stage::QueryingHistory,
                ActionView::QueryHistory {
                    from_block: window_start(latest, offset_height),
                    to_block: latest,
                },
            ),
            (Stage::QueryingHistory, Event::History(events)) => self.load(events@, true).advance(),
            (Stage::AwaitingBatch, Event::Batch(message)) => self.load(
                message.events@,
                false,
            ).advance(),
            (Stage::AwaitingBatch, Event::StreamClosed) => self.halt(FatalError::StreamClosed),
            (Stage::Reporting, Event::Reported) => self.advance(),
            (Stage::AwaitingRound { artifact }, Event::LatestRound(round)) => self.goto(
                Stage::AwaitingSelection { artifact },
                ActionView::QueryRelayerSelection {
                    round,
                    relayer: self.relayer,
                    is_initial: false,
                },
            ),
            (Stage::AwaitingSelection { artifact }, Event::RelayerSelection(selected)) => if authorized(
                selected,
                socket_selected(),
            ) {
                self.goto(Stage::Submitting, ActionView::Submit { from: self.relayer, artifact })
            } else {
                self.advance()
            },
            (Stage::Submitting, Event::Submitted(true)) => self.advance(),
            (Stage::Submitting, Event::Submitted(false)) => self.halt(FatalError::SubmissionFailed),
            (Stage::Signalling, Event::CompletionRecorded) => self.goto(
                Stage::Pausing,
                ActionView::Pause { millis: self.call_interval },
            ),
            _ => self.halt(FatalError::UnexpectedReply),
        }
    }
}

impl HandlerModel {
    /// The handler is at work on an event of the batch in hand.
    pub open spec fn in_batch(self) -> bool {
        self.stage is Reporting || self.stage is AwaitingRound || self.stage is AwaitingSelection
            || self.stage is Submitting
    }

    /// The handler is working out the replay window.
    pub open spec fn in_window_setup(self) -> bool {
        self.stage is ResolvingOffset || self.stage is FetchingLatestBlock
            || self.stage is QueryingHistory
    }

    /// What holds of a handler in every state it can reach: the cursor is
    /// within the batch; a replay is under way only where a window is
    /// configured and completion is not yet reported; completion is marked
    /// once its report is out; and the event that the handler is at work on
    /// is the submission just before the cursor, held decoded where the
    /// stage holds a transaction.
    pub open spec fn wf(self) -> bool {
        &&& 0 <= self.cursor <= self.pending.len()
        &&& self.in_window_setup() ==> self.bootstrap_config is Some && !self.replayed
        &&& self.in_batch() && self.replaying ==> self.bootstrap_config is Some && !self.replayed
        &&& self.stage is Signalling ==> self.replayed
        &&& self.in_batch() ==> self.cursor >= 1 && self.pending[self.cursor - 1].is_submission()
        &&& self.stage is Reporting ==> decoded(self.pending[self.cursor - 1].blob()) is Err
        &&& self.stage matches Stage::AwaitingRound { artifact } ==> decoded(
            self.pending[self.cursor - 1].blob(),
        ) == Ok::<Psbt, Seq<char>>(artifact)
        &&& self.stage matches Stage::AwaitingSelection { artifact } ==> decoded(
            self.pending[self.cursor - 1].blob(),
        ) == Ok::<Psbt, Seq<char>>(artifact)
    }

    /// What the handler asks for, one after the other, as the replies
    /// `replies` come in.
    pub open spec fn asked(self, replies: Seq<Event>) -> Seq<ActionView>
        decreases replies.len(),
    {
        if replies.len() == 0 {
            Seq::empty()
        } else {
            seq![self.next(replies[0]).1] + self.next(replies[0]).0.asked(replies.drop_first())
        }
    }

    /// Moving on in a batch keeps the handler well formed, takes up the
    /// first submission from the cursor on, and never stops the handler.
    pub proof fn lemma_advance(self)
        requires
            0 <= self.cursor <= self.pending.len(),
            self.replaying ==> self.bootstrap_config is Some && !self.replayed,
        ensures
            self.advance().0.wf(),
            !(self.advance().1 is Halt),
            self.advance().0.pending == self.pending,
            self.advance().0.bootstrap_config == self.bootstrap_config,
            self.advance().0.in_batch() ==> {
                &&& self.cursor <= self.advance().0.cursor - 1 < self.pending.len()
                &&& self.advance().0.cursor - 1 == first_submission(self.pending, self.cursor)
                &&& forall|k: int|
                    self.cursor <= k < self.advance().0.cursor - 1
                        ==> !self.pending[k].is_submission()
            },
            !self.advance().0.in_batch() ==> forall|k: int|
                self.cursor <= k < self.pending.len() ==> !self.pending[k].is_submission(),
            self.advance().1 is SignalCompletion <==> self.replaying && !self.advance().0.in_batch(),
            self.advance().1 is SignalCompletion ==> self.advance().0.replayed,
            !(self.advance().1 is SignalCompletion) ==> self.advance().0.replayed == self.replayed,
    {
        lemma_first_submission(self.pending, self.cursor);
    }

    /// Every step keeps a well-formed handler well formed.
    pub proof fn lemma_next_preserves_wf(self, event: Event)
        requires
            self.wf(),
        ensures
            self.next(event).0.wf(),
    {
        match (self.stage, event) {
            (Stage::QueryingHistory, Event::History(events)) => {
                self.load(events@, true).lemma_advance();
            },
            (Stage::AwaitingBatch, Event::Batch(message)) => {
                self.load(message.events@, false).lemma_advance();
            },
            (Stage::Reporting, Event::Reported) => {
                self.lemma_advance();
            },
            (Stage::AwaitingSelection { artifact }, Event::RelayerSelection(selected)) => {
                self.lemma_advance();
            },
            (Stage::Submitting, Event::Submitted(true)) => {
                self.lemma_advance();
            },
            _ => {},
        }
    }

    /// Events are taken up in ledger order, one at a time. Whenever the
    /// handler turns to an event, the last one is done with: a batch has just
    /// come in, or the failure of the last event is reported, or the relayer
    /// was not selected for it, or its transaction is submitted. The event it
    /// turns to is the first submission after the last one, so only events of
    /// other kinds are passed over, and the bytes it speaks of are that
    /// event's.
    pub proof fn lemma_events_taken_in_order(self, event: Event)
        requires
            self.wf(),
        ensures
            ({
                let (after, action) = self.next(event);
                let fresh = event is History || event is Batch;
                let from = if fresh {
                    0
                } else {
                    self.cursor
                };
                &&& !fresh ==> after.pending == self.pending && after.cursor >= self.cursor
                &&& action is QueryLatestRound || action is ReportDecodeFailure ==> {
                    &&& fresh || (self.stage is Reporting && event is Reported) || (self.stage
                        is AwaitingSelection && event == Event::RelayerSelection(false)) || (
                    self.stage is Submitting && event == Event::Submitted(true))
                    &&& from <= after.cursor - 1 < after.pending.len()
                    &&& after.pending[after.cursor - 1].is_submission()
                    &&& forall|k: int|
                        from <= k < after.cursor - 1 ==> !after.pending[k].is_submission()
                    &&& action matches ActionView::QueryLatestRound { blob, .. } ==> blob
                        == after.pending[after.cursor - 1].blob()
                    &&& action matches ActionView::ReportDecodeFailure { blob, .. } ==> blob
                        == after.pending[after.cursor - 1].blob()
                }
            }),
    {
        match (self.stage, event) {
            (Stage::QueryingHistory, Event::History(events)) => {
                self.load(events@, true).lemma_advance();
            },
            (Stage::AwaitingBatch, Event::Batch(message)) => {
                self.load(message.events@, false).lemma_advance();
            },
            (Stage::Reporting, Event::Reported) => {
                self.lemma_advance();
            },
            (Stage::AwaitingSelection { artifact }, Event::RelayerSelection(selected)) => {
                self.lemma_advance();
            },
            (Stage::Submitting, Event::Submitted(true)) => {
                self.lemma_advance();
            },
            _ => {},
        }
    }

    /// A blob that does not decode is reported and nothing more: the handler
    /// hands it to the diagnostic sink, and once the sink has it the handler
    /// goes on with the rest of the batch instead of stopping.
    pub proof fn lemma_decode_failure_is_isolated(self, event: Event)
        requires
            self.wf(),
        ensures
            self.next(event).1 matches ActionView::ReportDecodeFailure { blob, reason } ==> {
                &&& self.next(event).0.stage is Reporting
                &&& decoded(blob) == Err::<Psbt, Seq<char>>(reason)
            },
            self.stage is Reporting && event is Reported ==> {
                &&& self.next(event) == self.advance()
                &&& !(self.next(event).1 is Halt)
                &&& self.next(event).0.pending == self.pending
            },
    {
        self.lemma_events_taken_in_order(event);
        self.lemma_next_preserves_wf(event);
        if self.stage is Reporting && event is Reported {
            self.lemma_advance();
        }
    }

    /// Nothing is submitted unless the relayer was selected: a submission is
    /// asked for only in reply to the registry saying that this relayer was
    /// selected for the round, and then for the decoded transaction of the
    /// event in hand, in this relayer's name.
    pub proof fn lemma_submission_needs_selection(self, event: Event)
        requires
            self.wf(),
        ensures
            self.next(event).1 matches ActionView::Submit { from, artifact } ==> {
                &&& self.stage is AwaitingSelection
                &&& event == Event::RelayerSelection(true)
                &&& from == self.relayer
                &&& decoded(self.pending[self.cursor - 1].blob()) == Ok::<Psbt, Seq<char>>(
                    artifact,
                )
            },
            self.stage is AwaitingSelection && event == Event::RelayerSelection(false) ==> !(
            self.next(event).1 is Submit),
    {
        if self.stage is AwaitingSelection && event is RelayerSelection {
            self.lemma_advance();
        }
        match (self.stage, event) {
            (Stage::QueryingHistory, Event::History(events)) => {
                self.load(events@, true).lemma_advance();
            },
            (Stage::AwaitingBatch, Event::Batch(message)) => {
                self.load(message.events@, false).lemma_advance();
            },
            _ => {},
        }
    }

    /// A handler without a replay window never asks for history, nor for
    /// anything that leads up to it; and where it has not reported yet, its
    /// first look at a phase of catch-up is answered with the completion
    /// report.
    pub proof fn lemma_no_window_no_history(self, event: Event)
        requires
            self.wf(),
            self.bootstrap_config is None,
        ensures
            !(self.next(event).1 is QueryHistory),
            !(self.next(event).1 is ResolveOffsetHeight),
            !(self.next(event).1 is FetchLatestBlock),
            self.next(event).0.bootstrap_config is None,
            self.stage is Polling && !self.replayed && event == Event::Phase(Phase::CatchUp)
                ==> self.next(event).1 is SignalCompletion,
    {
        match (self.stage, event) {
            (Stage::AwaitingBatch, Event::Batch(message)) => {
                self.load(message.events@, false).lemma_advance();
            },
            _ => {
                if self.in_batch() {
                    self.lemma_advance();
                }
            },
        }
    }

    /// Completion is reported once: the step that reports it marks the
    /// replay as over, and a handler whose replay is over never reports
    /// again.
    pub proof fn lemma_completion_marks_replayed(self, event: Event)
        requires
            self.wf(),
        ensures
            self.next(event).1 is SignalCompletion ==> !self.replayed && self.next(
                event,
            ).0.replayed,
            self.replayed ==> self.next(event).0.replayed,
    {
        match (self.stage, event) {
            (Stage::QueryingHistory, Event::History(events)) => {
                self.load(events@, true).lemma_advance();
            },
            (Stage::AwaitingBatch, Event::Batch(message)) => {
                self.load(message.events@, false).lemma_advance();
            },
            _ => {
                if self.in_batch() {
                    self.lemma_advance();
                }
            },
        }
    }

    /// Whatever replies come in, and however many: a handler reports
    /// completion at most once, not at all where its replay is already over,
    /// and without a replay window it never asks for history.
    pub proof fn lemma_one_completion_report(self, replies: Seq<Event>)
        requires
            self.wf(),
        ensures
            completion_reports(self.asked(replies)) <= 1,
            self.replayed ==> completion_reports(self.asked(replies)) == 0,
            self.bootstrap_config is None ==> forall|i: int|
                0 <= i < self.asked(replies).len() ==> !(#[trigger] self.asked(replies)[i]
                    is QueryHistory),
        decreases replies.len(),
    {
        if replies.len() > 0 {
            let (after, action) = self.next(replies[0]);
            let rest = after.asked(replies.drop_first());
            self.lemma_next_preserves_wf(replies[0]);
            self.lemma_completion_marks_replayed(replies[0]);
            after.lemma_one_completion_report(replies.drop_first());
            assert(self.asked(replies) == seq![action] + rest);
            assert((seq![action] + rest).drop_first() =~= rest);
            if self.bootstrap_config is None {
                self.lemma_no_window_no_history(replies[0]);
                assert forall|i: int| 0 <= i < self.asked(replies).len() implies !(
                #[trigger] self.asked(replies)[i] is QueryHistory) by {
                    if i > 0 {
                        assert(self.asked(replies)[i] == rest[i - 1]);
                    }
                }
            }
        }
    }
}

/// The number of completion reports among `actions`.
pub open spec fn completion_reports(actions: Seq<ActionView>) -> nat
    decreases actions.len(),
{
    if actions.len() == 0 {
        0
    } else {
        let head: nat = if actions[0] is SignalCompletion {
            1
        } else {
            0
        };
        head + completion_reports(actions.drop_first())
    }
}

/// An unselected relayer is never authorized, whatever the destination side
/// says.
pub proof fn lemma_unselected_relayer_is_not_authorized(socket_selected: bool)
    ensures
        !authorized(false, socket_selected),
{
}

} // verus!
