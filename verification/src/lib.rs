//! A mail-forwarding orchestrator: polls mailbox accounts, forwards newly
//! discovered messages to a single destination, optionally deletes forwarded
//! messages from the source, and emits side-channel notifications.
//!
//! The crate contains the decision logic of the forwarder: the per-account
//! polling loop as an explicit state machine, the per-session deduplication
//! set, the forward/delete/notify sequencing with its failure isolation, the
//! configuration model, and the pure helpers used by the protocol adapters.
//! Network and file I/O live outside the library and drive these machines.

pub mod account;
pub mod config;
pub mod digits;
pub mod imap_receiver;
pub mod message;
pub mod notifications;
pub mod orchestrator;
pub mod pop3_receiver;
pub mod seen;
