//! The barrier between historical replay and live streaming.
//!
//! Every managed chain has one entry in a shared collection of start-up
//! states. A handler that has finished its replay reports so; the report that
//! completes the count moves every entry to [`BootstrapState::NormalStart`] in
//! one step.

use vstd::prelude::*;

verus! {

/// The start-up state of one managed chain.
///
/// Only `BootstrapBtcOutbound` and `NormalStart` matter to the outbound handler;
/// the earlier states belong to other tasks and are carried unchanged.
#[derive(Clone, Copy, Debug, PartialEq, Eq, Structural)]
pub enum BootstrapState {
    NodeSyncing,
    BootstrapRoundUpPhase1,
    BootstrapRoundUpPhase2,
    BootstrapSocketRelay,
    BootstrapBtcOutbound,
    NormalStart,
}

/// What a handler has to do, as read off the shared states.
#[derive(Clone, Copy, Debug, PartialEq, Eq, Structural)]
pub enum Phase {
    /// Every chain is waiting for the outbound replay.
    CatchUp,
    /// Every chain has started normally: events come from the live stream.
    Streaming,
    /// The chains are in some other state, or disagree: nothing to do yet.
    Standby,
}

/// The mathematical content of a barrier: one state per chain and the number
/// of completion reports taken so far.
pub ghost struct BarrierModel {
    pub states: Seq<BootstrapState>,
    pub completed: nat,
}

impl BarrierModel {
    /// A barrier over `chains` chains that all wait for the outbound replay.
    pub open spec fn fresh(chains: nat) -> BarrierModel {
        BarrierModel {
            states: Seq::new(chains, |i: int| BootstrapState::BootstrapBtcOutbound),
            completed: 0,
        }
    }

    /// The number of managed chains.
    pub open spec fn chains(self) -> nat {
        self.states.len()
    }

    /// The count never passes the number of chains, and a full count over at
    /// least one chain means that every chain has started normally.
    pub open spec fn wf(self) -> bool {
        &&& self.completed <= self.states.len()
        &&& self.completed == self.states.len() && self.states.len() > 0 ==> self.synced_as(
            BootstrapState::NormalStart,
        )
    }

    /// The states once the barrier has opened.
    pub open spec fn opened(self) -> BarrierModel {
        BarrierModel {
            states: Seq::new(self.states.len(), |i: int| BootstrapState::NormalStart),
            completed: self.states.len(),
        }
    }

    /// Every chain is in state `state`.
    pub open spec fn synced_as(self, state: BootstrapState) -> bool {
        forall|i: int| 0 <= i < self.states.len() ==> self.states[i] == state
    }

    /// The phase that the states stand for. Catch-up is tested first, so a
    /// barrier over no chain at all stays in catch-up.
    pub open spec fn phase(self) -> Phase {
        if self.synced_as(BootstrapState::BootstrapBtcOutbound) {
            Phase::CatchUp
        } else if self.synced_as(BootstrapState::NormalStart) {
            Phase::Streaming
        } else {
            Phase::Standby
        }
    }

    /// The next report is the one that completes the count.
    pub open spec fn flips_next(self) -> bool {
        self.completed + 1 == self.states.len()
    }

    /// The barrier after one more completion report. A report that comes when
    /// the count is already full changes nothing.
    pub open spec fn report_done(self) -> BarrierModel {
        if self.completed >= self.states.len() {
            self
        } else if self.flips_next() {
            self.opened()
        } else {
            BarrierModel { states: self.states, completed: self.completed + 1 }
        }
    }

    /// The barrier after `reports` completion reports.
    pub open spec fn after(self, reports: nat) -> BarrierModel
        decreases reports,
    {
        if reports == 0 {
            self
        } else {
            self.after((reports - 1) as nat).report_done()
        }
    }

    /// What any number of reports makes of a barrier: short of the full count
    /// only the count moves, and from the full count on the barrier is open.
    pub proof fn lemma_after(self, reports: nat)
        requires
            self.wf(),
        ensures
            self.after(reports).wf(),
            self.completed + reports < self.chains() ==> self.after(reports) == (BarrierModel {
                states: self.states,
                completed: self.completed + reports,
            }),
            self.completed < self.chains() <= self.completed + reports ==> self.after(reports)
                == self.opened(),
            self.completed == self.chains() ==> self.after(reports) == self,
        decreases reports,
    {
        if reports > 0 {
            let before = self.after((reports - 1) as nat);
            self.lemma_after((reports - 1) as nat);
            if self.completed < self.chains() <= self.completed + reports {
                assert(before.report_done() == self.opened());
            }
        }
    }

    /// The barrier holds until the last report: a barrier in catch-up over at
    /// least one chain, with `missing` reports still to come, is in catch-up
    /// after fewer reports than that, and is streaming for every chain at once
    /// after exactly that many.
    pub proof fn lemma_barrier_opens_on_last_report(self, reports: nat)
        requires
            self.wf(),
            self.chains() >= 1,
            self.completed < self.chains(),
            self.phase() == Phase::CatchUp,
        ensures
            reports < self.chains() - self.completed ==> self.after(reports).phase()
                == Phase::CatchUp && self.after(reports).states == self.states,
            reports == self.chains() - self.completed ==> self.after(reports).phase()
                == Phase::Streaming && self.after(reports).synced_as(BootstrapState::NormalStart),
    {
        self.lemma_after(reports);
        if reports == self.chains() - self.completed {
            let open = self.after(reports);
            assert(open.states[0] == BootstrapState::NormalStart);
            assert(!open.synced_as(BootstrapState::BootstrapBtcOutbound));
        }
    }

    /// Reports beyond the full count are harmless: once every chain has
    /// reported, any number of further reports leaves the barrier as it is.
    pub proof fn lemma_surplus_reports_change_nothing(self, surplus: nat)
        requires
            self.wf(),
            self.completed == self.chains(),
        ensures
            self.after(surplus) == self,
            self.report_done() == self,
    {
        self.lemma_after(surplus);
    }

    /// The count only grows, by at most one with each report, and never
    /// passes the number of chains, which stays what it was.
    pub proof fn lemma_count_only_grows(self, reports: nat)
        requires
            self.wf(),
        ensures
            self.after(reports).chains() == self.chains(),
            self.completed <= self.after(reports).completed <= self.chains(),
            self.after(reports).completed <= self.completed + reports,
            self.after(reports).completed <= self.after(reports + 1).completed,
    {
        self.lemma_after(reports);
        self.lemma_after(reports + 1);
    }

    /// The states move all at once: after any number of reports they are the
    /// states the barrier began with, or every chain has started normally.
    pub proof fn lemma_no_partial_flip(self, reports: nat)
        requires
            self.wf(),
        ensures
            self.after(reports).states == self.states || self.after(reports).synced_as(
                BootstrapState::NormalStart,
            ),
    {
        self.lemma_after(reports);
    }
}

/// The shared start-up states of the managed chains together with the count of
/// handlers that have finished their replay.
#[derive(Clone, Debug)]
pub struct BootstrapBarrier {
    states: Vec<BootstrapState>,
    completed: usize,
}

impl View for BootstrapBarrier {
    type V = BarrierModel;

    closed spec fn view(&self) -> BarrierModel {
        BarrierModel { states: self.states@, completed: self.completed as nat }
    }
}

impl BootstrapBarrier {
    /// The count is within the number of chains.
    pub open spec fn wf(&self) -> bool {
        self@.wf()
    }

    /// A barrier over `chains` chains, each waiting for the outbound replay.
    pub fn new(chains: usize) -> (barrier: Self)
        ensures
            barrier@ == BarrierModel::fresh(chains as nat),
            barrier.wf(),
    {
        let mut states: Vec<BootstrapState> = Vec::new();
        let mut i: usize = 0;
        while i < chains
            invariant
                i <= chains,
                states@.len() == i,
                forall|j: int| 0 <= j < i ==> states@[j] == BootstrapState::BootstrapBtcOutbound,
            decreases chains - i,
        {
            states.push(BootstrapState::BootstrapBtcOutbound);
            i = i + 1;
        }
        assert(states@ =~= BarrierModel::fresh(chains as nat).states);
        BootstrapBarrier { states, completed: 0 }
    }

    /// A barrier over chains that are in the given states, with no report
    /// taken yet.
    pub fn with_states(states: Vec<BootstrapState>) -> (barrier: Self)
        ensures
            barrier@ == (BarrierModel { states: states@, completed: 0 }),
            barrier.wf(),
    {
        BootstrapBarrier { states, completed: 0 }
    }

    /// The number of managed chains.
    pub fn managed_chains(&self) -> (n: usize)
        ensures
            n == self@.chains(),
    {
        self.states.len()
    }

    /// The number of completion reports that counted.
    pub fn completed(&self) -> (n: usize)
        ensures
            n == self@.completed,
    {
        self.completed
    }

    /// The state of the chain at `index`, if there is one.
    pub fn state_of(&self, index: usize) -> (state: Option<BootstrapState>)
        ensures
            state == if index < self@.chains() {
                Some(self@.states[index as int])
            } else {
                None
            },
    {
        if index < self.states.len() {
            Some(self.states[index])
        } else {
            None
        }
    }

    /// Whether every chain is in state `state`.
    pub fn is_bootstrap_state_synced_as(&self, state: BootstrapState) -> (synced: bool)
        ensures
            synced == self@.synced_as(state),
    {
        let mut i: usize = 0;
        while i < self.states.len()
            invariant
                i <= self.states@.len(),
                forall|j: int| 0 <= j < i ==> self.states@[j] == state,
            decreases self.states@.len() - i,
        {
            if self.states[i] != state {
                assert(self@.states[i as int] != state);
                return false;
            }
            i = i + 1;
        }
        true
    }

    /// The phase that the handlers are in.
    pub fn phase(&self) -> (phase: Phase)
        ensures
            phase == self@.phase(),
    {
        if self.is_bootstrap_state_synced_as(BootstrapState::BootstrapBtcOutbound) {
            Phase::CatchUp
        } else if self.is_bootstrap_state_synced_as(BootstrapState::NormalStart) {
            Phase::Streaming
        } else {
            Phase::Standby
        }
    }

    /// Whether the live stream is to be served.
    pub fn is_streaming(&self) -> (streaming: bool)
        ensures
            streaming == (self@.phase() == Phase::Streaming),
    {
        self.phase() == Phase::Streaming
    }

    /// Takes the report of one handler that has finished its replay.
    ///
    /// The report that completes the count moves every chain to
    /// `NormalStart`, and the call then returns `true`. Reports that come after
    /// the count is full are ignored.
    pub fn report_done(&mut self) -> (flipped: bool)
        ensures
            final(self)@ == old(self)@.report_done(),
            flipped == (old(self)@.completed < old(self)@.chains() && old(self)@.flips_next()),
            old(self).wf() ==> final(self).wf(),
    {
        let chains: usize = self.states.len();
        if self.completed >= chains {
            return false;
        }
        self.completed = self.completed + 1;
        if self.completed != chains {
            return false;
        }
        let mut i: usize = 0;
        while i < chains
            invariant
                i <= chains,
                self.states@.len() == chains,
                self.completed == chains,
                forall|j: int| 0 <= j < i ==> self.states@[j] == BootstrapState::NormalStart,
            decreases chains - i,
        {
            self.states.set(i, BootstrapState::NormalStart);
            i = i + 1;
        }
        assert(self.states@ =~= old(self)@.opened().states);
        true
    }
}

} // verus!
