//! Event vocabulary of the media-over-QUIC transfer protocol.

pub mod data;
pub mod events;
