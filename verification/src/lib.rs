//! Outbound leg of a cross-chain bridge relayer.
//!
//! The crate holds the decisions of a handler that watches a ledger for
//! unsigned settlement transactions and forwards them to a destination
//! contract: the barrier that keeps every handler in catch-up until all of them
//! have replayed their history, the choice of the chain that serves as the
//! reference clock, the replay window, and the state machine that turns the
//! replies of the outside world into the next thing to do.

pub mod artifact;
pub mod barrier;
pub mod chains;
pub mod events;
pub mod handler;
pub mod model;
pub mod protocol;
pub mod window;

pub use barrier::BootstrapBarrier;
pub use barrier::BootstrapState;
pub use barrier::Phase;
pub use handler::BtcOutboundHandler;
pub use protocol::Action;
pub use protocol::Event;
