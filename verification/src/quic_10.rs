//! Event vocabulary of the QUIC transport protocol.

pub mod data;
pub mod events;
