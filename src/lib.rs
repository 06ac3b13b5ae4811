//! A small on-chain program with two entry points: one records that a chat
//! room was created, the other moves a donation from a payer to a recipient
//! through a token contract and records that it arrived.
//!
//! The decisions of a donation are a verified state machine
//! ([`donation::Donation`]); the entry points in [`contract`] drive it against
//! the host through the thin wrappers of [`host`], whose contracts keep a
//! record of every transfer made and every event published.
pub mod contract;
pub mod donation;
pub mod host;

pub use contract::{topic_names, transfer_outcome, ChatSupportContract, EventKind};
pub use host::{EventPayload, Host, HostCall};
pub use donation::{Action, Donation, DonationError, Report, Stage, TransferFailure};
