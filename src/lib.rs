//! Core of an interchain messaging endpoint: message codec and identity,
//! outbound dispatch, inbound processing with deduplication, and a
//! two-phase ownership registry that gates configuration changes.

pub mod address;
pub mod bytes;
pub mod digest;
pub mod error;
pub mod mailbox;
pub mod message;
pub mod ownable;
pub mod warp_cw20;
