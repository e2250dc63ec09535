//! Verified core of a mining-node process supervisor.
//!
//! The crate models the lifecycle of a single supervised node process, the
//! derivation of structured events and metadata from its log output, the
//! safe-mode state machine that reacts to heavy block ranges, and the
//! status-polling bookkeeping that republishes a consolidated snapshot only
//! when it changes. All I/O (spawning the process, WebSocket sessions,
//! signals, the file system) lives outside this crate; the functions here are
//! the decision core, specified and verified with Verus.

pub mod account;
pub mod config;
pub mod meta;
pub mod node_key;
pub mod parse;
pub mod rpc;
pub mod safe_mode;
pub mod status;
pub mod supervisor;
pub mod text;
