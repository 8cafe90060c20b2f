//! Block-synchronization core of a ledger-side Bitcoin view: a tick-driven
//! driver that drains block-fetch responses from a bounded adapter queue,
//! extends a tree of unstable blocks, maintains an unspent-output index, and
//! issues at most one incremental fetch request at a time.

pub mod blocktree;
pub mod chain;
pub mod encode;
pub mod hash;
pub mod heartbeat;
pub mod queues;
pub mod state;
pub mod store;
pub mod translate;
pub mod utxoset;
pub mod wire;
