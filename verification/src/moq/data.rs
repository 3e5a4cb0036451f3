//! Payload vocabulary for media-over-QUIC transfer-protocol events.

use vstd::prelude::*;

use crate::moq::events::{
    Announce, AnnouncePlease, Fetch, FetchUpdate, Frame, Group, Info, InfoPlease, SessionClient,
    SessionServer, SessionUpdate, Stream, Subscribe, SubscribeGap, SubscribeUpdate,
};

verus! {

/// The payload of one media-over-QUIC event, a closed variant set.
pub enum MoqEventData {
    StreamCreated(Stream),
    StreamParsed(Stream),
    SessionStarted(SessionMessage),
    SessionUpdateCreated(SessionUpdate),
    SessionUpdateParsed(SessionUpdate),
    AnnouncePleaseCreated(AnnouncePlease),
    AnnouncePleaseParsed(AnnouncePlease),
    AnnounceCreated(Announce),
    AnnounceParsed(Announce),
    SubscriptionStarted(Subscribe),
    SubscriptionUpdateCreated(SubscribeUpdate),
    SubscriptionUpdateParsed(SubscribeUpdate),
    SubscriptionGapCreated(SubscribeGap),
    SubscriptionGapParsed(SubscribeGap),
    InfoCreated(Info),
    InfoParsed(Info),
    InfoPleaseCreated(InfoPlease),
    InfoPleaseParsed(InfoPlease),
    FetchCreated(Fetch),
    FetchParsed(Fetch),
    FetchUpdateCreated(FetchUpdate),
    FetchUpdateParsed(FetchUpdate),
    GroupCreated(Group),
    GroupParsed(Group),
    FrameCreated(Frame),
    FrameParsed(Frame),
}

/// The role of a stream within a media-over-QUIC session.
#[derive(Clone, Copy, Debug, PartialEq, Eq, Structural)]
pub enum StreamType {
    Session,
    Announced,
    Subscribe,
    Fetch,
    Info,
    Group,
}

/// A session-negotiation message, from whichever side sent it.
pub enum SessionMessage {
    SessionClient(SessionClient),
    SessionServer(SessionServer),
}

/// The availability state carried by an announce message.
#[derive(Clone, Copy, Debug, PartialEq, Eq, Structural)]
pub enum AnnounceStatus {
    /// Path is no longer available
    Ended,
    /// Path is now available
    Active,
    /// All active paths have been sent
    Live,
}

} // verus!
