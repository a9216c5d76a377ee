//! DropLink: peer-to-peer file transfer on a local network.
//!
//! The verified core of the application: file-name safety, the wire
//! messages, the checksum, the sender and receiver sides of a transfer,
//! and the bookkeeping of discovered peers.

pub mod text;
pub mod filename;
pub mod checksum;
pub mod protocol;
pub mod transfer;
pub mod discovery;
pub mod devices;
pub mod pending;
