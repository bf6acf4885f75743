//! Startup and shutdown orchestration for an embedded peer-to-peer conductor.
//!
//! The library decides; the host performs. What stands here are decisions
//! over plain values: which progress signal comes next, which key becomes
//! the node's identity, whether an application must be installed, which port
//! the application's interface ends up on, and when the runtime may be torn
//! down. The host owns the conductor, the keystore, the file system and the
//! channels, hands the library what it observed and carries out the action
//! it gets back.
//!
//! The one thing the library keeps to itself is the keystore's passphrase:
//! it goes into locked memory byte by byte and leaves it in no other form.

pub mod config;
pub mod error;
pub mod identity;
pub mod install;
pub mod interface;
pub mod laws;
pub mod locked_memory;
pub mod model;
pub mod orchestrator;
pub mod pass_laws;
pub mod passphrase;
pub mod signal;
pub mod supervisor;
