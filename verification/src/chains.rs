//! The chains that the relayer manages, and the choice of the one whose
//! registry serves as the reference clock.

use vstd::prelude::*;

verus! {

/// Identifies a ledger.
pub type ChainID = u32;

/// What the handler needs to know of one managed chain.
#[derive(Clone, Copy, Debug, PartialEq, Eq)]
pub struct ChainInfo {
    pub id: ChainID,
    /// Whether this chain is the canonical source of round timing.
    pub is_native: bool,
}

/// Where round timing is read from.
#[derive(Clone, Copy, Debug, PartialEq, Eq, Structural)]
pub enum RoundSource {
    /// The handler's own chain.
    Local,
    /// The managed chain with this identifier.
    Managed(ChainID),
}

/// The entries are in strictly ascending order of identifier, so that no
/// chain occurs twice.
pub open spec fn strictly_ascending(entries: Seq<ChainInfo>) -> bool {
    forall|i: int, j: int| 0 <= i < j < entries.len() ==> entries[i].id < entries[j].id
}

/// The position of the first native chain at or after `from`, or the number
/// of entries where there is none.
pub open spec fn first_native(entries: Seq<ChainInfo>, from: int) -> int
    decreases entries.len() - from,
{
    if from < 0 || from >= entries.len() {
        entries.len() as int
    } else if entries[from].is_native {
        from
    } else {
        first_native(entries, from + 1)
    }
}

/// `first_native` finds the least position of a native chain: every entry
/// before it, from `from` on, is not native.
pub proof fn lemma_first_native(entries: Seq<ChainInfo>, from: int)
    requires
        0 <= from <= entries.len(),
    ensures
        from <= first_native(entries, from) <= entries.len(),
        first_native(entries, from) < entries.len() ==> entries[first_native(
            entries,
            from,
        )].is_native,
        forall|k: int| from <= k < first_native(entries, from) ==> !entries[k].is_native,
    decreases entries.len() - from,
{
    if from < entries.len() && !entries[from].is_native {
        lemma_first_native(entries, from + 1);
    }
}

/// The position at which the chain `id` stands or would have to stand: that
/// of the first entry at or after `from` whose identifier is not below `id`,
/// or the number of entries where there is none.
pub open spec fn slot(entries: Seq<ChainInfo>, id: ChainID, from: int) -> int
    decreases entries.len() - from,
{
    if from < 0 || from >= entries.len() {
        entries.len() as int
    } else if entries[from].id >= id {
        from
    } else {
        slot(entries, id, from + 1)
    }
}

/// `slot` parts the entries: those before it, from `from` on, have lesser
/// identifiers, and the entry at it has none lesser.
pub proof fn lemma_slot(entries: Seq<ChainInfo>, id: ChainID, from: int)
    requires
        0 <= from <= entries.len(),
    ensures
        from <= slot(entries, id, from) <= entries.len(),
        slot(entries, id, from) < entries.len() ==> entries[slot(entries, id, from)].id >= id,
        forall|k: int| from <= k < slot(entries, id, from) ==> entries[k].id < id,
    decreases entries.len() - from,
{
    if from < entries.len() && entries[from].id < id {
        lemma_slot(entries, id, from + 1);
    }
}

/// Whether the chain `id` is among the entries.
pub open spec fn has_chain(entries: Seq<ChainInfo>, id: ChainID) -> bool {
    slot(entries, id, 0) < entries.len() && entries[slot(entries, id, 0)].id == id
}

/// The entries with the chain `id` set to `is_native`: in place where the
/// chain is among them, else put in where the order asks for it.
pub open spec fn with_chain(entries: Seq<ChainInfo>, id: ChainID, is_native: bool) -> Seq<
    ChainInfo,
> {
    let at = slot(entries, id, 0);
    let entry = ChainInfo { id, is_native };
    if has_chain(entries, id) {
        entries.update(at, entry)
    } else {
        entries.insert(at, entry)
    }
}

/// Among ascending entries a chain is found by `has_chain` exactly where it
/// occurs, and setting a chain keeps the entries ascending.
pub proof fn lemma_with_chain(entries: Seq<ChainInfo>, id: ChainID, is_native: bool)
    requires
        strictly_ascending(entries),
    ensures
        has_chain(entries, id) <==> exists|i: int| 0 <= i < entries.len() && entries[i].id == id,
        strictly_ascending(with_chain(entries, id, is_native)),
        has_chain(with_chain(entries, id, is_native), id),
        with_chain(entries, id, is_native).len() == entries.len() + if has_chain(entries, id) {
            0int
        } else {
            1int
        },
{
    let at = slot(entries, id, 0);
    let after = with_chain(entries, id, is_native);
    lemma_slot(entries, id, 0);
    if exists|i: int| 0 <= i < entries.len() && entries[i].id == id {
        let i = choose|i: int| 0 <= i < entries.len() && entries[i].id == id;
        if i < at {
            assert(entries[i].id < id);
        } else if i > at {
            assert(entries[at].id < entries[i].id);
        }
    }
    assert forall|i: int, j: int| 0 <= i < j < after.len() implies after[i].id < after[j].id by {
        if has_chain(entries, id) {
            assert(after[i].id == entries[i].id);
            assert(after[j].id == entries[j].id);
        } else {
            let a = if i < at {
                i
            } else {
                i - 1
            };
            let b = if j < at {
                j
            } else {
                j - 1
            };
            if i != at && j != at {
                assert(after[i] == entries[a]);
                assert(after[j] == entries[b]);
            } else if i == at {
                assert(after[j] == entries[b]);
                assert(at < entries.len());
                if b > at {
                    assert(entries[at].id < entries[b].id);
                }
            } else {
                assert(after[i] == entries[a]);
            }
        }
    }
    lemma_slot(after, id, 0);
    assert(after[at].id == id);
    if slot(after, id, 0) < at {
        let k = slot(after, id, 0);
        assert(after[k].id < after[at].id);
    }
}

/// The reference clock for a handler: its own chain where that is native,
/// else the native managed chain with the least identifier, else none.
pub open spec fn round_source(is_native: bool, entries: Seq<ChainInfo>) -> Option<RoundSource> {
    if is_native {
        Some(RoundSource::Local)
    } else if first_native(entries, 0) < entries.len() {
        Some(RoundSource::Managed(entries[first_native(entries, 0)].id))
    } else {
        None
    }
}

/// The managed chains, in ascending order of identifier.
#[derive(Clone, Debug)]
pub struct ManagedChains {
    entries: Vec<ChainInfo>,
}

impl View for ManagedChains {
    type V = Seq<ChainInfo>;

    closed spec fn view(&self) -> Seq<ChainInfo> {
        self.entries@
    }
}

impl ManagedChains {
    /// The identifiers ascend strictly.
    pub open spec fn wf(&self) -> bool {
        strictly_ascending(self@)
    }

    /// No chain at all.
    pub fn new() -> (chains: Self)
        ensures
            chains@ == Seq::<ChainInfo>::empty(),
            chains.wf(),
    {
        ManagedChains { entries: Vec::new() }
    }

    /// The chains of `entries`, which must come in strictly ascending order of
    /// identifier; `None` where they do not.
    pub fn from_entries(entries: Vec<ChainInfo>) -> (chains: Option<Self>)
        ensures
            chains is Some <==> strictly_ascending(entries@),
            chains matches Some(c) ==> c@ == entries@ && c.wf(),
    {
        let mut i: usize = 1;
        while i < entries.len()
            invariant
                1 <= i,
                forall|a: int, b: int| 0 <= a < b < i && b < entries@.len() ==> entries@[a].id < entries@[b].id,
            decreases entries@.len() - i,
        {
            if entries[i - 1].id >= entries[i].id {
                return None;
            }
            i = i + 1;
        }
        Some(ManagedChains { entries })
    }

    /// Sets the chain `id` to `is_native`, adding the chain where it is not
    /// yet managed. Returns what the chain was set to before, if anything.
    pub fn insert(&mut self, id: ChainID, is_native: bool) -> (previous: Option<bool>)
        ensures
            final(self)@ == with_chain(old(self)@, id, is_native),
            previous == if has_chain(old(self)@, id) {
                Some(old(self)@[slot(old(self)@, id, 0)].is_native)
            } else {
                None
            },
            old(self).wf() ==> final(self).wf(),
    {
        proof {
            if self.wf() {
                lemma_with_chain(self@, id, is_native);
            }
        }
        let mut at: usize = 0;
        while at < self.entries.len() && self.entries[at].id < id
            invariant
                at <= self.entries@.len(),
                slot(self.entries@, id, 0) == slot(self.entries@, id, at as int),
            decreases self.entries@.len() - at,
        {
            at = at + 1;
        }
        let entry = ChainInfo { id, is_native };
        if at < self.entries.len() && self.entries[at].id == id {
            let previous = self.entries[at].is_native;
            self.entries.set(at, entry);
            Some(previous)
        } else {
            self.entries.insert(at, entry);
            None
        }
    }

    /// Whether the chain `id` is native; `None` where it is not managed.
    pub fn get(&self, id: ChainID) -> (found: Option<bool>)
        ensures
            found == if has_chain(self@, id) {
                Some(self@[slot(self@, id, 0)].is_native)
            } else {
                None
            },
    {
        let mut at: usize = 0;
        while at < self.entries.len() && self.entries[at].id < id
            invariant
                at <= self.entries@.len(),
                slot(self.entries@, id, 0) == slot(self.entries@, id, at as int),
            decreases self.entries@.len() - at,
        {
            at = at + 1;
        }
        if at < self.entries.len() && self.entries[at].id == id {
            Some(self.entries[at].is_native)
        } else {
            None
        }
    }

    /// The number of managed chains.
    pub fn len(&self) -> (n: usize)
        ensures
            n == self@.len(),
    {
        self.entries.len()
    }

    /// The native chain with the least identifier, if any chain is native.
    pub fn native_chain(&self) -> (found: Option<ChainID>)
        ensures
            found == if first_native(self@, 0) < self@.len() {
                Some(self@[first_native(self@, 0)].id)
            } else {
                None
            },
    {
        let mut i: usize = 0;
        while i < self.entries.len()
            invariant
                i <= self.entries@.len(),
                first_native(self.entries@, 0) == first_native(self.entries@, i as int),
            decreases self.entries@.len() - i,
        {
            if self.entries[i].is_native {
                return Some(self.entries[i].id);
            }
            i = i + 1;
        }
        None
    }
}

/// Picks the registry that round timing is read from: the handler's own
/// where its chain is native, else that of the first native managed chain.
/// `None` where no chain is native.
pub fn select_round_source(is_native: bool, chains: &ManagedChains) -> (source: Option<RoundSource>)
    ensures
        source == round_source(is_native, chains@),
{
    if is_native {
        Some(RoundSource::Local)
    } else {
        match chains.native_chain() {
            Some(id) => Some(RoundSource::Managed(id)),
            None => None,
        }
    }
}

} // verus!
