//! The outbound handler.
//!
//! The handler never waits and never talks to a chain. Each call of
//! [`BtcOutboundHandler::step`] takes the reply to what was asked last and
//! answers with the next thing to do; whoever drives the handler performs
//! that and comes back with the reply.

use crate::artifact::decode_artifact;
use crate::barrier::Phase;
use crate::chains::select_round_source;
use crate::chains::ManagedChains;
use crate::events::first_submission;
use crate::events::Address;
use crate::events::LedgerEvent;
use crate::model::socket_selected;
use crate::model::HandlerModel;
use crate::protocol::Action;
use crate::protocol::Event;
use crate::protocol::FatalError;
use crate::protocol::Stage;
use crate::window::bootstrap_block_range;
use crate::window::BootstrapConfig;
use vstd::prelude::*;

verus! {

/// The task that forwards unsigned settlement transactions to the
/// destination.
#[derive(Debug)]
pub struct BtcOutboundHandler {
    relayer: Address,
    is_native: bool,
    call_interval: u64,
    bootstrap_config: Option<BootstrapConfig>,
    system_clients: ManagedChains,
    stage: Stage,
    replayed: bool,
    replaying: bool,
    pending: Vec<LedgerEvent>,
    cursor: usize,
}

impl View for BtcOutboundHandler {
    type V = HandlerModel;

    closed spec fn view(&self) -> HandlerModel {
        HandlerModel {
            relayer: self.relayer,
            is_native: self.is_native,
            call_interval: self.call_interval,
            bootstrap_config: self.bootstrap_config,
            chains: self.system_clients@,
            stage: self.stage,
            replayed: self.replayed,
            replaying: self.replaying,
            pending: self.pending@,
            cursor: self.cursor as int,
        }
    }
}

impl BtcOutboundHandler {
    /// The handler is in a state that it can reach.
    pub open spec fn wf(&self) -> bool {
        self@.wf()
    }

    /// A handler for the relayer `relayer`, about to look at the phase for the
    /// first time: the first thing to do for it is [`Action::ReadPhase`].
    ///
    /// `is_native` says whether the handler's own chain is the native one,
    /// `call_interval` is the pause between two looks at the phase in
    /// milliseconds, and `bootstrap_config` the replay window, if any.
    pub fn new(
        relayer: Address,
        is_native: bool,
        call_interval: u64,
        bootstrap_config: Option<BootstrapConfig>,
        system_clients: ManagedChains,
    ) -> (handler: Self)
        ensures
            handler@ == (HandlerModel {
                relayer,
                is_native,
                call_interval,
                bootstrap_config,
                chains: system_clients@,
                stage: Stage::Polling,
                replayed: false,
                replaying: false,
                pending: Seq::empty(),
                cursor: 0,
            }),
            handler.wf(),
    {
        BtcOutboundHandler {
            relayer,
            is_native,
            call_interval,
            bootstrap_config,
            system_clients,
            stage: Stage::Polling,
            replayed: false,
            replaying: false,
            pending: Vec::new(),
            cursor: 0,
        }
    }

    /// What the handler is waiting for.
    pub fn stage(&self) -> (stage: &Stage)
        ensures
            *stage == self@.stage,
    {
        &self.stage
    }

    /// Whether the handler has stopped, and why.
    pub fn halted(&self) -> (error: Option<FatalError>)
        ensures
            error == match self@.stage {
                Stage::Halted(error) => Some(error),
                _ => None,
            },
    {
        match self.stage {
            Stage::Halted(error) => Some(error),
            _ => None,
        }
    }

    /// Whether the replay is over and its completion reported or on its way
    /// to the barrier.
    pub fn has_replayed(&self) -> (replayed: bool)
        ensures
            replayed == self@.replayed,
    {
        self.replayed
    }

    /// Whether the destination side agrees to a submission. It has no say
    /// yet and always agrees.
    pub fn is_selected_socket(&self) -> (selected: bool)
        ensures
            selected == socket_selected(),
    {
        true
    }

    /// Brings the handler to a stop.
    fn halt(&mut self, error: FatalError) -> (action: Action)
        ensures
            (final(self)@, action@) == old(self)@.halt(error),
    {
        self.stage = Stage::Halted(error);
        Action::Halt(error)
    }

    /// Starts the replay, or reports completion where there is nothing to
    /// replay.
    fn get_bootstrap_events(&mut self) -> (action: Action)
        ensures
            (final(self)@, action@) == old(self)@.begin_replay(),
    {
        match self.bootstrap_config {
            None => {
                self.replayed = true;
                self.stage = Stage::Signalling;
                Action::SignalCompletion
            },
            Some(config) => match select_round_source(self.is_native, &self.system_clients) {
                None => self.halt(FatalError::InvalidNativeness),
                Some(source) => {
                    self.stage = Stage::ResolvingOffset;
                    Action::ResolveOffsetHeight {
                        source,
                        round_offset: config.effective_round_offset(),
                    }
                },
            },
        }
    }

    /// Takes up the next submission of the batch in hand, or ends the batch.
    fn process_confirmed_event(&mut self) -> (action: Action)
        ensures
            (final(self)@, action@) == old(self)@.advance(),
    {
        let count: usize = self.pending.len();
        let mut at: usize = self.cursor;
        while at < count
            invariant
                *self == *old(self),
                count == self.pending@.len(),
                first_submission(self.pending@, at as int) == first_submission(
                    self.pending@,
                    self.cursor as int,
                ),
            decreases count - at,
        {
            match self.pending[at].submitted_blob() {
                None => {
                    at = at + 1;
                },
                Some(blob) => {
                    self.cursor = at + 1;
                    match decode_artifact(&blob) {
                        Ok(artifact) => {
                            self.stage = Stage::AwaitingRound { artifact };
                            return Action::QueryLatestRound { announce: !self.replaying, blob };
                        },
                        Err(failure) => {
                            self.stage = Stage::Reporting;
                            return Action::ReportDecodeFailure { blob, reason: failure.reason };
                        },
                    }
                },
            }
        }
        self.cursor = count;
        if self.replaying {
            self.replayed = true;
            self.stage = Stage::Signalling;
            Action::SignalCompletion
        } else {
            self.stage = Stage::Polling;
            Action::ReadPhase
        }
    }

    /// Takes up a new batch and its first submission.
    fn process_batch(&mut self, events: Vec<LedgerEvent>, replaying: bool) -> (action: Action)
        ensures
            (final(self)@, action@) == old(self)@.load(events@, replaying).advance(),
    {
        self.pending = events;
        self.cursor = 0;
        self.replaying = replaying;
        self.process_confirmed_event()
    }

    /// Takes the reply to what the handler asked last, and says what is to
    /// be done next.
    pub fn step(&mut self, event: Event) -> (action: Action)
        ensures
            (final(self)@, action@) == old(self)@.next(event),
            old(self).wf() ==> final(self).wf(),
    {
        proof {
            if self@.wf() {
                self@.lemma_next_preserves_wf(event);
            }
        }
        let mut stage = Stage::Polling;
        core::mem::swap(&mut self.stage, &mut stage);
        match (stage, event) {
            (Stage::Halted(error), _) => self.halt(error),
            (Stage::Polling, Event::Phase(Phase::CatchUp)) => {
                if self.replayed {
                    self.stage = Stage::Pausing;
                    Action::Pause { millis: self.call_interval }
                } else {
                    self.get_bootstrap_events()
                }
            },
            (Stage::Polling, Event::Phase(Phase::Streaming)) => {
                self.stage = Stage::AwaitingBatch;
                Action::AwaitBatch
            },
            (Stage::Polling, Event::Phase(Phase::Standby)) => Action::ReadPhase,
            (Stage::Pausing, Event::Resumed) => Action::ReadPhase,
            (Stage::ResolvingOffset, Event::OffsetHeight(offset_height)) => {
                self.stage = Stage::FetchingLatestBlock { offset_height };
                Action::FetchLatestBlock
            },
            (Stage::FetchingLatestBlock { offset_height }, Event::LatestBlock(latest)) => {
                let range = bootstrap_block_range(latest, offset_height);
                self.stage = Stage::QueryingHistory;
                Action::QueryHistory { from_block: range.0, to_block: range.1 }
            },
            (Stage::QueryingHistory, Event::History(events)) => self.process_batch(events, true),
            (Stage::AwaitingBatch, Event::Batch(message)) => self.process_batch(message.events, false),
            (Stage::AwaitingBatch, Event::StreamClosed) => self.halt(FatalError::StreamClosed),
            (Stage::Reporting, Event::Reported) => self.process_confirmed_event(),
            (Stage::AwaitingRound { artifact }, Event::LatestRound(round)) => {
                self.stage = Stage::AwaitingSelection { artifact };
                Action::QueryRelayerSelection { round, relayer: self.relayer, is_initial: false }
            },
            (Stage::AwaitingSelection { artifact }, Event::RelayerSelection(selected)) => {
                let socket = self.is_selected_socket();
                if selected && socket {
                    self.stage = Stage::Submitting;
                    Action::Submit { from: self.relayer, artifact }
                } else {
                    self.process_confirmed_event()
                }
            },
            (Stage::Submitting, Event::Submitted(true)) => self.process_confirmed_event(),
            (Stage::Submitting, Event::Submitted(false)) => self.halt(FatalError::SubmissionFailed),
            (Stage::Signalling, Event::CompletionRecorded) => {
                self.stage = Stage::Pausing;
                Action::Pause { millis: self.call_interval }
            },
            _ => self.halt(FatalError::UnexpectedReply),
        }
    }
}

} // verus!
