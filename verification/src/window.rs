//! The window of blocks that a handler replays before it goes live.

use vstd::prelude::*;

verus! {

/// The number of rounds that are replayed where the configuration names none.
pub const DEFAULT_BOOTSTRAP_ROUND_OFFSET: u32 = 3;

/// How far back a handler replays the ledger on start-up.
#[derive(Clone, Copy, Debug, PartialEq, Eq)]
pub struct BootstrapConfig {
    /// The number of rounds to go back; `None` asks for the default.
    pub round_offset: Option<u32>,
}

impl BootstrapConfig {
    /// The number of rounds to go back, with the default filled in.
    pub open spec fn spec_round_offset(self) -> u32 {
        match self.round_offset {
            Some(rounds) => rounds,
            None => DEFAULT_BOOTSTRAP_ROUND_OFFSET,
        }
    }

    /// The number of rounds to go back, with the default filled in.
    pub fn effective_round_offset(&self) -> (rounds: u32)
        ensures
            rounds == self.spec_round_offset(),
    {
        self.round_offset.unwrap_or(DEFAULT_BOOTSTRAP_ROUND_OFFSET)
    }
}

/// The first block of the replay window: `offset_height` blocks before
/// `latest_block`, and block zero where the ledger is shorter than that.
pub open spec fn window_start(latest_block: u64, offset_height: u64) -> u64 {
    if offset_height >= latest_block {
        0
    } else {
        (latest_block - offset_height) as u64
    }
}

/// The inclusive range of blocks to replay, given the latest block and the
/// number of blocks to go back.
pub fn bootstrap_block_range(latest_block: u64, offset_height: u64) -> (range: (u64, u64))
    ensures
        range.0 == window_start(latest_block, offset_height),
        range.1 == latest_block,
        range.0 <= range.1,
        range.1 - range.0 <= offset_height,
{
    (latest_block.saturating_sub(offset_height), latest_block)
}

} // verus!
