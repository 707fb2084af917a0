//! Message routing and archiving for a two-party peer-to-peer chat node.
//!
//! The [`router::Router`] owns the archive of conversations and the live
//! channel slot; it takes decoded inbound events and returns the actions the
//! transport must perform.

pub mod archive;
pub mod events;
pub mod laws;
pub mod live;
pub mod router;
