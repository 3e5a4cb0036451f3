//! The event envelope: a timestamped, named record around an opaque
//! protocol payload, with the optional path, group id and custom fields
//! that the trace format allows.

use vstd::prelude::*;
use vstd::slice::slice_subrange;

use crate::logfile::TimeFormat;
use crate::moq::data::{AnnounceStatus, MoqEventData, SessionMessage};
use crate::moq::data::StreamType as MoqStreamType;
use crate::moq::events::{
    Announce, AnnouncePlease, Fetch, FetchUpdate, Frame, Group, Info, InfoPlease, SessionClient,
    SessionServer, SessionUpdate, Stream, Subscribe, SubscribeGap, SubscribeUpdate,
};
use crate::quic_10::data::{
    ApplicationError, ConnectionCloseTrigger, ConnectionError, ConnectionId, ConnectionState,
    DataLocation, DataMovedAdditionalInfo, Ecn, EcnState, Error, EventType, IpAddress,
    KeyDiscardTrigger, KeyType, KeyUpdateTrigger, MigrationState, Owner, PacketBufferedTrigger,
    PacketDroppedTrigger, PacketHeader, PacketLostTrigger, PacketNumberSpace,
    PacketReceivedTrigger, PacketSentTrigger, PathEndpointInfo, PreferredAddress, Quic10EventData,
    QuicFrame, QuicVersion, StatelessResetToken, StreamSide, StreamState, TimerType,
    TransportError, UnknownParameter,
};
use crate::quic_10::data::StreamType as QuicStreamType;
use crate::quic_10::events::{
    AlpnInformation, ConnectionClosed, ConnectionIdUpdated, ConnectionStarted,
    ConnectionStateUpdated, CongestionStateUpdated, DatagramDataMoved, EcnStateUpdated,
    FramesProcessed, KeyDiscarded, KeyUpdated, LossTimerUpdated, MarkedForRetransmit,
    MigrationStateUpdated, MtuUpdated, PacketBuffered, PacketDropped, PacketLost, PacketReceived,
    PacketSent, PacketsAcked, ParametersRestored, ParametersSet, PathAssigned,
    RecoveryMetricsUpdated, RecoveryParametersSet, ServerListening, SpinBitUpdated,
    StreamDataMoved, StreamStateUpdated, UdpDatagramDropped, UdpDatagramsReceived,
    UdpDatagramsSent, VersionInformation,
};
use crate::quic_10::data::AlpnIdentifier;
use crate::util::{
    bytes_to_hexstring, dec_str, hex_of, u64_to_dec_string, GroupId, HexString, PathId,
    MAX_LOG_DATA_LEN,
};

verus! {

/// A raw byte payload: its full length, its payload length, and its
/// contents as hexadecimal text, truncated to [`MAX_LOG_DATA_LEN`] bytes.
pub struct RawInfo {
    /// The full byte length
    pub length: Option<u64>,
    /// The byte length of the payload
    pub payload_length: Option<u64>,
    /// The (potentially truncated) contents, including headers and
    /// possibly trailers
    pub data: Option<HexString>,
}

/// What [`RawInfo::new`] builds from a length and an optional payload:
/// the payload length recorded exactly, and the contents rendered in hex,
/// truncated to the first [`MAX_LOG_DATA_LEN`] bytes.
pub open spec fn raw_info_of(r: RawInfo, length: Option<u64>, data: Option<Seq<u8>>) -> bool {
    &&& r.length == length
    &&& match data {
        Some(payload) => {
            &&& r.payload_length == Some(payload.len() as u64)
            &&& (r.data matches Some(h) && h@ == hex_of(
                if payload.len() > MAX_LOG_DATA_LEN {
                    payload.subrange(0, MAX_LOG_DATA_LEN as int)
                } else {
                    payload
                },
            ))
        },
        None => r.payload_length is None && r.data is None,
    }
}

impl RawInfo {
    pub fn new(length: Option<u64>, data: Option<&[u8]>) -> (r: Self)
        ensures
            raw_info_of(
                r,
                length,
                match data {
                    Some(payload) => Some(payload@),
                    None => None,
                },
            ),
    {
        match data {
            Some(payload) => {
                let payload_length = payload.len();
                // Only log the first MAX_LOG_DATA_LEN bytes
                if payload_length > MAX_LOG_DATA_LEN {
                    let truncated = slice_subrange(payload, 0, MAX_LOG_DATA_LEN);
                    Self {
                        length,
                        payload_length: Some(payload_length as u64),
                        data: Some(bytes_to_hexstring(truncated)),
                    }
                } else {
                    Self {
                        length,
                        payload_length: Some(payload_length as u64),
                        data: Some(bytes_to_hexstring(payload)),
                    }
                }
            },
            None => Self { length, payload_length: None, data: None },
        }
    }
}

/// Identifies the system an event was recorded on.
pub struct SystemInformation {
    pub processor_id: Option<u32>,
    pub process_id: Option<u32>,
    pub thread_id: Option<u32>,
}

/// The payload of an event, from whichever protocol vocabulary it uses.
pub enum ProtocolEventData {
    MoqEventData(MoqEventData),
    Quic10EventData(Quic10EventData),
}

/// One trace event: an envelope around an opaque payload. Name and payload
/// are set at construction and never change; the group id may be patched
/// once, by the correlation engine, before emission.
pub struct Event {
    pub time: i64,
    pub name: String,
    pub data: ProtocolEventData,
    pub path: Option<PathId>,
    pub time_format: Option<TimeFormat>,
    pub group_id: Option<GroupId>,
    pub system_info: Option<SystemInformation>,
    pub custom_fields: Vec<(String, String)>,
}

/// The view of an optional string.
pub open spec fn opt_str_view(o: Option<String>) -> Option<Seq<char>> {
    match o {
        Some(s) => Some(s@),
        None => None,
    }
}

/// The envelope fields every freshly constructed event carries: the given
/// name and group id, an empty path, no time format, no system info and no
/// custom fields.
pub open spec fn fresh_event_fields(e: Event, name: Seq<char>, gid: Option<Seq<char>>) -> bool {
    &&& e.name@ == name
    &&& (e.path matches Some(p) && p@.len() == 0)
    &&& e.time_format is None
    &&& (match (e.group_id, gid) {
        (Some(g), Some(s)) => g@ == s,
        (None, None) => true,
        _ => false,
    })
    &&& e.system_info is None
    &&& e.custom_fields@.len() == 0
}

/// A freshly constructed event with the given name, payload, group id
/// and timestamp.
pub open spec fn fresh_event(
    e: Event,
    name: Seq<char>,
    data: ProtocolEventData,
    gid: Option<Seq<char>>,
    time: i64,
) -> bool {
    &&& fresh_event_fields(e, name, gid)
    &&& e.data == data
    &&& e.time == time
}

/// A freshly constructed event whose timestamp was taken from the wall
/// clock at the moment of construction: some timestamp, not a known one.
pub open spec fn fresh_event_some_time(
    e: Event,
    name: Seq<char>,
    data: ProtocolEventData,
    gid: Option<Seq<char>>,
) -> bool {
    exists|t: i64| fresh_event(e, name, data, gid, t)
}

/// True of events whose payload is the client half of session negotiation:
/// the events that resolve a buffered control-stream event's group id.
pub open spec fn is_session_started_client(e: Event) -> bool {
    match e.data {
        ProtocolEventData::MoqEventData(m) => match m {
            MoqEventData::SessionStarted(sm) => match sm {
                SessionMessage::SessionClient(_) => true,
                _ => false,
            },
            _ => false,
        },
        _ => false,
    }
}

/// The stream role carried by a stream-created or stream-parsed payload.
pub open spec fn moq_stream_type_of(e: Event) -> Option<MoqStreamType> {
    match e.data {
        ProtocolEventData::MoqEventData(m) => match m {
            MoqEventData::StreamCreated(s) => Some(s.stream_type),
            MoqEventData::StreamParsed(s) => Some(s.stream_type),
            _ => None,
        },
        _ => None,
    }
}

/// Relies on chrono::Utc::now for the event timestamp: the wall-clock
/// moment of observation, in milliseconds since the Unix epoch. Nothing
/// is assumed of the returned value.
#[verifier::external_body]
pub(crate) fn now_timestamp_millis() -> i64 {
    chrono::Utc::now().timestamp_millis()
}

impl Event {
    /// Builds an event with an explicit timestamp.
    pub fn new_at(
        event_name: &str,
        event_data: ProtocolEventData,
        group_id: Option<String>,
        time: i64,
    ) -> (r: Self)
        ensures
            fresh_event(r, event_name@, event_data, opt_str_view(group_id), time),
    {
        Self {
            time,
            name: event_name.to_owned(),
            data: event_data,
            path: Some(String::new()),
            time_format: None,
            group_id,
            system_info: None,
            custom_fields: Vec::new(),
        }
    }

    /// Builds an event stamped with the wall-clock time of this call.
    pub fn new(event_name: &str, event_data: ProtocolEventData, group_id: Option<String>) -> (r:
        Self)
        ensures
            fresh_event_some_time(r, event_name@, event_data, opt_str_view(group_id)),
    {
        let time = now_timestamp_millis();
        let r = Self::new_at(event_name, event_data, group_id, time);
        proof {
            assert(fresh_event(r, event_name@, event_data, opt_str_view(group_id), time));
        }
        r
    }

    pub fn get_name(&self) -> (r: &String)
        ensures
            *r == self.name,
    {
        &self.name
    }

    pub fn get_group_id(&self) -> (r: Option<&String>)
        ensures
            match r {
                Some(g) => self.group_id == Some(*g),
                None => self.group_id is None,
            },
    {
        self.group_id.as_ref()
    }

    /// Patches the correlation id; every other field is kept.
    pub fn set_group_id(&mut self, group_id: Option<&String>)
        ensures
            final(self).group_id == match group_id {
                Some(g) => Some(*g),
                None => None::<GroupId>,
            },
            final(self).time == old(self).time,
            final(self).name == old(self).name,
            final(self).data == old(self).data,
            final(self).path == old(self).path,
            final(self).time_format == old(self).time_format,
            final(self).system_info == old(self).system_info,
            final(self).custom_fields == old(self).custom_fields,
    {
        self.group_id = match group_id {
            Some(g) => Some(g.clone()),
            None => None,
        };
    }

    /// The stream role of a stream-created or stream-parsed event.
    pub fn moq_get_stream_type(&self) -> (r: Option<&MoqStreamType>)
        ensures
            match r {
                Some(st) => moq_stream_type_of(*self) == Some(*st),
                None => moq_stream_type_of(*self) is None,
            },
    {
        match &self.data {
            ProtocolEventData::MoqEventData(moq_event) => match moq_event {
                MoqEventData::StreamCreated(stream) => Some(stream.get_stream_type()),
                MoqEventData::StreamParsed(stream) => Some(stream.get_stream_type()),
                _ => None,
            },
            _ => None,
        }
    }

    /// True of the locally initiated session-negotiation event.
    pub fn moq_is_session_started_client(&self) -> (r: bool)
        ensures
            r == is_session_started_client(*self),
    {
        match &self.data {
            ProtocolEventData::MoqEventData(moq_event) => match moq_event {
                MoqEventData::SessionStarted(session_message) => match session_message {
                    SessionMessage::SessionClient(_) => true,
                    _ => false,
                },
                _ => false,
            },
            _ => false,
        }
    }
}

impl Event {
    /// Builds a media-over-QUIC event; its group id is the tracing id in
    /// decimal text.
    pub fn new_moq(event_name: &str, event_data: MoqEventData, tracing_id: u64) -> (r: Self)
        ensures
            fresh_event_some_time(
                r,
                event_name@,
                ProtocolEventData::MoqEventData(event_data),
                Some(dec_str(tracing_id as nat)),
            ),
    {
        let group_id = u64_to_dec_string(tracing_id);
        Self::new(event_name, ProtocolEventData::MoqEventData(event_data), Some(group_id))
    }

    pub fn moq_stream_created(stream_type: MoqStreamType, tracing_id: u64) -> (r: Self)
        ensures
            fresh_event_some_time(
                r,
                "moq-transfork-03:stream_created"@,
                ProtocolEventData::MoqEventData(MoqEventData::StreamCreated((Stream { stream_type }))),
                Some(dec_str(tracing_id as nat)),
            ),
    {
        Self::new_moq(
            "moq-transfork-03:stream_created",
            MoqEventData::StreamCreated(Stream::new(stream_type)),
            tracing_id,
        )
    }

    pub fn moq_stream_parsed(stream_type: MoqStreamType, tracing_id: u64) -> (r: Self)
        ensures
            fresh_event_some_time(
                r,
                "moq-transfork-03:stream_parsed"@,
                ProtocolEventData::MoqEventData(MoqEventData::StreamParsed((Stream { stream_type }))),
                Some(dec_str(tracing_id as nat)),
            ),
    {
        Self::new_moq(
            "moq-transfork-03:stream_parsed",
            MoqEventData::StreamParsed(Stream::new(stream_type)),
            tracing_id,
        )
    }

    pub fn moq_session_started_client_created(
        supported_versions: Vec<u64>,
        extension_ids: Option<Vec<u64>>,
        tracing_id: u64,
    ) -> (r: Self)
        ensures
            fresh_event_fields(
                r,
                "moq-transfork-03:session_started_created"@,
                Some(dec_str(tracing_id as nat)),
            ),
            r.data matches ProtocolEventData::MoqEventData(
                MoqEventData::SessionStarted(SessionMessage::SessionClient(sc)),
            ) && sc.supported_versions == supported_versions && sc.extension_ids@ == (match extension_ids {
                Some(ids) => ids@,
                None => Seq::<u64>::empty(),
            }) && sc.tracing_id == tracing_id,
    {
        Self::new_moq(
            "moq-transfork-03:session_started_created",
            MoqEventData::SessionStarted(
                SessionMessage::SessionClient(
                    SessionClient::new(supported_versions, extension_ids, tracing_id),
                ),
            ),
            tracing_id,
        )
    }

    pub fn moq_session_started_client_parsed(
        supported_versions: Vec<u64>,
        extension_ids: Option<Vec<u64>>,
        tracing_id: u64,
    ) -> (r: Self)
        ensures
            fresh_event_fields(
                r,
                "moq-transfork-03:session_started_parsed"@,
                Some(dec_str(tracing_id as nat)),
            ),
            r.data matches ProtocolEventData::MoqEventData(
                MoqEventData::SessionStarted(SessionMessage::SessionClient(sc)),
            ) && sc.supported_versions == supported_versions && sc.extension_ids@ == (match extension_ids {
                Some(ids) => ids@,
                None => Seq::<u64>::empty(),
            }) && sc.tracing_id == tracing_id,
    {
        Self::new_moq(
            "moq-transfork-03:session_started_parsed",
            MoqEventData::SessionStarted(
                SessionMessage::SessionClient(
                    SessionClient::new(supported_versions, extension_ids, tracing_id),
                ),
            ),
            tracing_id,
        )
    }

    pub fn moq_session_started_server_created(
        selected_version: u64,
        extension_ids: Option<Vec<u64>>,
        tracing_id: u64,
    ) -> (r: Self)
        ensures
            fresh_event_fields(
                r,
                "moq-transfork-03:session_started_created"@,
                Some(dec_str(tracing_id as nat)),
            ),
            r.data matches ProtocolEventData::MoqEventData(
                MoqEventData::SessionStarted(SessionMessage::SessionServer(ss)),
            ) && ss.selected_version == selected_version && ss.extension_ids@ == (match extension_ids {
                Some(ids) => ids@,
                None => Seq::<u64>::empty(),
            }),
    {
        Self::new_moq(
            "moq-transfork-03:session_started_created",
            MoqEventData::SessionStarted(
                SessionMessage::SessionServer(SessionServer::new(selected_version, extension_ids)),
            ),
            tracing_id,
        )
    }

    pub fn moq_session_started_server_parsed(
        selected_version: u64,
        extension_ids: Option<Vec<u64>>,
        tracing_id: u64,
    ) -> (r: Self)
        ensures
            fresh_event_fields(
                r,
                "moq-transfork-03:session_started_parsed"@,
                Some(dec_str(tracing_id as nat)),
            ),
            r.data matches ProtocolEventData::MoqEventData(
                MoqEventData::SessionStarted(SessionMessage::SessionServer(ss)),
            ) && ss.selected_version == selected_version && ss.extension_ids@ == (match extension_ids {
                Some(ids) => ids@,
                None => Seq::<u64>::empty(),
            }),
    {
        Self::new_moq(
            "moq-transfork-03:session_started_parsed",
            MoqEventData::SessionStarted(
                SessionMessage::SessionServer(SessionServer::new(selected_version, extension_ids)),
            ),
            tracing_id,
        )
    }

    pub fn moq_session_update_created(session_bitrate: u64, tracing_id: u64) -> (r: Self)
        ensures
            fresh_event_some_time(
                r,
                "moq-transfork-03:session_update_created"@,
                ProtocolEventData::MoqEventData(
                    MoqEventData::SessionUpdateCreated((SessionUpdate { session_bitrate })),
                ),
                Some(dec_str(tracing_id as nat)),
            ),
    {
        Self::new_moq(
            "moq-transfork-03:session_update_created",
            MoqEventData::SessionUpdateCreated(SessionUpdate::new(session_bitrate)),
            tracing_id,
        )
    }

    pub fn moq_session_update_parsed(session_bitrate: u64, tracing_id: u64) -> (r: Self)
        ensures
            fresh_event_some_time(
                r,
                "moq-transfork-03:session_update_parsed"@,
                ProtocolEventData::MoqEventData(
                    MoqEventData::SessionUpdateParsed((SessionUpdate { session_bitrate })),
                ),
                Some(dec_str(tracing_id as nat)),
            ),
    {
        Self::new_moq(
            "moq-transfork-03:session_update_parsed",
            MoqEventData::SessionUpdateParsed(SessionUpdate::new(session_bitrate)),
            tracing_id,
        )
    }

    pub fn moq_announce_please_created(track_prefix_parts: Vec<String>, tracing_id: u64) -> (r:
        Self)
        ensures
            fresh_event_some_time(
                r,
                "moq-transfork-03:announce_please_created"@,
                ProtocolEventData::MoqEventData(
                    MoqEventData::AnnouncePleaseCreated((AnnouncePlease { track_prefix_parts })),
                ),
                Some(dec_str(tracing_id as nat)),
            ),
    {
        Self::new_moq(
            "moq-transfork-03:announce_please_created",
            MoqEventData::AnnouncePleaseCreated(AnnouncePlease::new(track_prefix_parts)),
            tracing_id,
        )
    }

    pub fn moq_announce_please_parsed(track_prefix_parts: Vec<String>, tracing_id: u64) -> (r: Self)
        ensures
            fresh_event_some_time(
                r,
                "moq-transfork-03:announce_please_parsed"@,
                ProtocolEventData::MoqEventData(
                    MoqEventData::AnnouncePleaseParsed((AnnouncePlease { track_prefix_parts })),
                ),
                Some(dec_str(tracing_id as nat)),
            ),
    {
        Self::new_moq(
            "moq-transfork-03:announce_please_parsed",
            MoqEventData::AnnouncePleaseParsed(AnnouncePlease::new(track_prefix_parts)),
            tracing_id,
        )
    }

    pub fn moq_announce_created(
        announce_status: AnnounceStatus,
        track_suffix_parts: Vec<Vec<String>>,
        tracing_id: u64,
    ) -> (r: Self)
        ensures
            fresh_event_some_time(
                r,
                "moq-transfork-03:announce_created"@,
                ProtocolEventData::MoqEventData(
                    MoqEventData::AnnounceCreated((Announce { announce_status, track_suffix_parts })),
                ),
                Some(dec_str(tracing_id as nat)),
            ),
    {
        Self::new_moq(
            "moq-transfork-03:announce_created",
            MoqEventData::AnnounceCreated(Announce::new(announce_status, track_suffix_parts)),
            tracing_id,
        )
    }

    pub fn moq_announce_parsed(
        announce_status: AnnounceStatus,
        track_suffix_parts: Vec<Vec<String>>,
        tracing_id: u64,
    ) -> (r: Self)
        ensures
            fresh_event_some_time(
                r,
                "moq-transfork-03:announce_parsed"@,
                ProtocolEventData::MoqEventData(
                    MoqEventData::AnnounceParsed((Announce { announce_status, track_suffix_parts })),
                ),
                Some(dec_str(tracing_id as nat)),
            ),
    {
        Self::new_moq(
            "moq-transfork-03:announce_parsed",
            MoqEventData::AnnounceParsed(Announce::new(announce_status, track_suffix_parts)),
            tracing_id,
        )
    }

    pub fn moq_subscription_started_created(
        subscribe_id: u64,
        track_path_parts: Vec<String>,
        track_priority: u64,
        group_order: u64,
        group_min: Option<u64>,
        group_max: Option<u64>,
        tracing_id: u64,
    ) -> (r: Self)
        ensures
            fresh_event_some_time(
                r,
                "moq-transfork-03:subscription_started_created"@,
                ProtocolEventData::MoqEventData(
                    MoqEventData::SubscriptionStarted(
                        (Subscribe {
                            subscribe_id,
                            track_path_parts,
                            track_priority,
                            group_order,
                            group_min: group_min.unwrap_or(0),
                            group_max: group_max.unwrap_or(0),
                        }),
                    ),
                ),
                Some(dec_str(tracing_id as nat)),
            ),
    {
        let group_min = group_min.unwrap_or(0);
        let group_max = group_max.unwrap_or(0);
        Self::new_moq(
            "moq-transfork-03:subscription_started_created",
            MoqEventData::SubscriptionStarted(
                Subscribe::new(
                    subscribe_id,
                    track_path_parts,
                    track_priority,
                    group_order,
                    group_min,
                    group_max,
                ),
            ),
            tracing_id,
        )
    }

    pub fn moq_subscription_started_parsed(
        subscribe_id: u64,
        track_path_parts: Vec<String>,
        track_priority: u64,
        group_order: u64,
        group_min: Option<u64>,
        group_max: Option<u64>,
        tracing_id: u64,
    ) -> (r: Self)
        ensures
            fresh_event_some_time(
                r,
                "moq-transfork-03:subscription_started_parsed"@,
                ProtocolEventData::MoqEventData(
                    MoqEventData::SubscriptionStarted(
                        (Subscribe {
                            subscribe_id,
                            track_path_parts,
                            track_priority,
                            group_order,
                            group_min: group_min.unwrap_or(0),
                            group_max: group_max.unwrap_or(0),
                        }),
                    ),
                ),
                Some(dec_str(tracing_id as nat)),
            ),
    {
        let group_min = group_min.unwrap_or(0);
        let group_max = group_max.unwrap_or(0);
        Self::new_moq(
            "moq-transfork-03:subscription_started_parsed",
            MoqEventData::SubscriptionStarted(
                Subscribe::new(
                    subscribe_id,
                    track_path_parts,
                    track_priority,
                    group_order,
                    group_min,
                    group_max,
                ),
            ),
            tracing_id,
        )
    }

    pub fn moq_subscription_update_created(
        track_priority: u64,
        group_order: u64,
        group_min: Option<u64>,
        group_max: Option<u64>,
        tracing_id: u64,
    ) -> (r: Self)
        ensures
            fresh_event_some_time(
                r,
                "moq-transfork-03:subscription_update_created"@,
                ProtocolEventData::MoqEventData(
                    MoqEventData::SubscriptionUpdateCreated(
                        (SubscribeUpdate {
                            track_priority,
                            group_order,
                            group_min: group_min.unwrap_or(0),
                            group_max: group_max.unwrap_or(0),
                        }),
                    ),
                ),
                Some(dec_str(tracing_id as nat)),
            ),
    {
        let group_min = group_min.unwrap_or(0);
        let group_max = group_max.unwrap_or(0);
        Self::new_moq(
            "moq-transfork-03:subscription_update_created",
            MoqEventData::SubscriptionUpdateCreated(
                SubscribeUpdate::new(track_priority, group_order, group_min, group_max),
            ),
            tracing_id,
        )
    }

    pub fn moq_subscription_update_parsed(
        track_priority: u64,
        group_order: u64,
        group_min: Option<u64>,
        group_max: Option<u64>,
        tracing_id: u64,
    ) -> (r: Self)
        ensures
            fresh_event_some_time(
                r,
                "moq-transfork-03:subscription_update_parsed"@,
                ProtocolEventData::MoqEventData(
                    MoqEventData::SubscriptionUpdateParsed(
                        (SubscribeUpdate {
                            track_priority,
                            group_order,
                            group_min: group_min.unwrap_or(0),
                            group_max: group_max.unwrap_or(0),
                        }),
                    ),
                ),
                Some(dec_str(tracing_id as nat)),
            ),
    {
        let group_min = group_min.unwrap_or(0);
        let group_max = group_max.unwrap_or(0);
        Self::new_moq(
            "moq-transfork-03:subscription_update_parsed",
            MoqEventData::SubscriptionUpdateParsed(
                SubscribeUpdate::new(track_priority, group_order, group_min, group_max),
            ),
            tracing_id,
        )
    }

    pub fn moq_subscription_gap_created(
        group_start: u64,
        group_count: u64,
        group_error_code: u64,
        tracing_id: u64,
    ) -> (r: Self)
        ensures
            fresh_event_some_time(
                r,
                "moq-transfork-03:subscription_gap_created"@,
                ProtocolEventData::MoqEventData(
                    MoqEventData::SubscriptionGapCreated(
                        (SubscribeGap { group_start, group_count, group_error_code }),
                    ),
                ),
                Some(dec_str(tracing_id as nat)),
            ),
    {
        Self::new_moq(
            "moq-transfork-03:subscription_gap_created",
            MoqEventData::SubscriptionGapCreated(
                SubscribeGap::new(group_start, group_count, group_error_code),
            ),
            tracing_id,
        )
    }

    pub fn moq_subscription_gap_parsed(
        group_start: u64,
        group_count: u64,
        group_error_code: u64,
        tracing_id: u64,
    ) -> (r: Self)
        ensures
            fresh_event_some_time(
                r,
                "moq-transfork-03:subscription_gap_parsed"@,
                ProtocolEventData::MoqEventData(
                    MoqEventData::SubscriptionGapParsed(
                        (SubscribeGap { group_start, group_count, group_error_code }),
                    ),
                ),
                Some(dec_str(tracing_id as nat)),
            ),
    {
        Self::new_moq(
            "moq-transfork-03:subscription_gap_parsed",
            MoqEventData::SubscriptionGapParsed(
                SubscribeGap::new(group_start, group_count, group_error_code),
            ),
            tracing_id,
        )
    }

    pub fn moq_info_created(
        track_priority: u64,
        group_latest: u64,
        group_order: u64,
        tracing_id: u64,
    ) -> (r: Self)
        ensures
            fresh_event_some_time(
                r,
                "moq-transfork-03:info_created"@,
                ProtocolEventData::MoqEventData(
                    MoqEventData::InfoCreated((Info { track_priority, group_latest, group_order })),
                ),
                Some(dec_str(tracing_id as nat)),
            ),
    {
        Self::new_moq(
            "moq-transfork-03:info_created",
            MoqEventData::InfoCreated(Info::new(track_priority, group_latest, group_order)),
            tracing_id,
        )
    }

    pub fn moq_info_parsed(
        track_priority: u64,
        group_latest: u64,
        group_order: u64,
        tracing_id: u64,
    ) -> (r: Self)
        ensures
            fresh_event_some_time(
                r,
                "moq-transfork-03:info_parsed"@,
                ProtocolEventData::MoqEventData(
                    MoqEventData::InfoParsed((Info { track_priority, group_latest, group_order })),
                ),
                Some(dec_str(tracing_id as nat)),
            ),
    {
        Self::new_moq(
            "moq-transfork-03:info_parsed",
            MoqEventData::InfoParsed(Info::new(track_priority, group_latest, group_order)),
            tracing_id,
        )
    }

    pub fn moq_info_please_created(track_path_parts: Vec<String>, tracing_id: u64) -> (r: Self)
        ensures
            fresh_event_some_time(
                r,
                "moq-transfork-03:info_please_created"@,
                ProtocolEventData::MoqEventData(
                    MoqEventData::InfoPleaseCreated((InfoPlease { track_path_parts })),
                ),
                Some(dec_str(tracing_id as nat)),
            ),
    {
        Self::new_moq(
            "moq-transfork-03:info_please_created",
            MoqEventData::InfoPleaseCreated(InfoPlease::new(track_path_parts)),
            tracing_id,
        )
    }

    pub fn moq_info_please_parsed(track_path_parts: Vec<String>, tracing_id: u64) -> (r: Self)
        ensures
            fresh_event_some_time(
                r,
                "moq-transfork-03:info_please_parsed"@,
                ProtocolEventData::MoqEventData(
                    MoqEventData::InfoPleaseParsed((InfoPlease { track_path_parts })),
                ),
                Some(dec_str(tracing_id as nat)),
            ),
    {
        Self::new_moq(
            "moq-transfork-03:info_please_parsed",
            MoqEventData::InfoPleaseParsed(InfoPlease::new(track_path_parts)),
            tracing_id,
        )
    }

    pub fn moq_fetch_created(
        track_path_parts: Vec<String>,
        track_priority: u64,
        group_sequence: u64,
        frame_sequence: u64,
        tracing_id: u64,
    ) -> (r: Self)
        ensures
            fresh_event_some_time(
                r,
                "moq-transfork-03:fetch_created"@,
                ProtocolEventData::MoqEventData(
                    MoqEventData::FetchCreated(
                        (Fetch { track_path_parts, track_priority, group_sequence, frame_sequence }),
                    ),
                ),
                Some(dec_str(tracing_id as nat)),
            ),
    {
        Self::new_moq(
            "moq-transfork-03:fetch_created",
            MoqEventData::FetchCreated(
                Fetch::new(track_path_parts, track_priority, group_sequence, frame_sequence),
            ),
            tracing_id,
        )
    }

    pub fn moq_fetch_parsed(
        track_path_parts: Vec<String>,
        track_priority: u64,
        group_sequence: u64,
        frame_sequence: u64,
        tracing_id: u64,
    ) -> (r: Self)
        ensures
            fresh_event_some_time(
                r,
                "moq-transfork-03:fetch_parsed"@,
                ProtocolEventData::MoqEventData(
                    MoqEventData::FetchParsed(
                        (Fetch { track_path_parts, track_priority, group_sequence, frame_sequence }),
                    ),
                ),
                Some(dec_str(tracing_id as nat)),
            ),
    {
        Self::new_moq(
            "moq-transfork-03:fetch_parsed",
            MoqEventData::FetchParsed(
                Fetch::new(track_path_parts, track_priority, group_sequence, frame_sequence),
            ),
            tracing_id,
        )
    }

    pub fn moq_fetch_update_created(track_priority: u64, tracing_id: u64) -> (r: Self)
        ensures
            fresh_event_some_time(
                r,
                "moq-transfork-03:fetch_update_created"@,
                ProtocolEventData::MoqEventData(
                    MoqEventData::FetchUpdateCreated((FetchUpdate { track_priority })),
                ),
                Some(dec_str(tracing_id as nat)),
            ),
    {
        Self::new_moq(
            "moq-transfork-03:fetch_update_created",
            MoqEventData::FetchUpdateCreated(FetchUpdate::new(track_priority)),
            tracing_id,
        )
    }

    pub fn moq_fetch_update_parsed(track_priority: u64, tracing_id: u64) -> (r: Self)
        ensures
            fresh_event_some_time(
                r,
                "moq-transfork-03:fetch_update_parsed"@,
                ProtocolEventData::MoqEventData(
                    MoqEventData::FetchUpdateParsed((FetchUpdate { track_priority })),
                ),
                Some(dec_str(tracing_id as nat)),
            ),
    {
        Self::new_moq(
            "moq-transfork-03:fetch_update_parsed",
            MoqEventData::FetchUpdateParsed(FetchUpdate::new(track_priority)),
            tracing_id,
        )
    }

    pub fn moq_group_created(subscribe_id: u64, group_sequence: u64, tracing_id: u64) -> (r: Self)
        ensures
            fresh_event_some_time(
                r,
                "moq-transfork-03:group_created"@,
                ProtocolEventData::MoqEventData(
                    MoqEventData::GroupCreated((Group { subscribe_id, group_sequence })),
                ),
                Some(dec_str(tracing_id as nat)),
            ),
    {
        Self::new_moq(
            "moq-transfork-03:group_created",
            MoqEventData::GroupCreated(Group::new(subscribe_id, group_sequence)),
            tracing_id,
        )
    }

    pub fn moq_group_parsed(subscribe_id: u64, group_sequence: u64, tracing_id: u64) -> (r: Self)
        ensures
            fresh_event_some_time(
                r,
                "moq-transfork-03:group_parsed"@,
                ProtocolEventData::MoqEventData(
                    MoqEventData::GroupParsed((Group { subscribe_id, group_sequence })),
                ),
                Some(dec_str(tracing_id as nat)),
            ),
    {
        Self::new_moq(
            "moq-transfork-03:group_parsed",
            MoqEventData::GroupParsed(Group::new(subscribe_id, group_sequence)),
            tracing_id,
        )
    }

    pub fn moq_frame_created(
        payload_length: Option<u64>,
        payload: Option<&[u8]>,
        tracing_id: u64,
    ) -> (r: Self)
        ensures
            fresh_event_fields(
                r,
                "moq-transfork-03:frame_created"@,
                Some(dec_str(tracing_id as nat)),
            ),
            r.data matches ProtocolEventData::MoqEventData(MoqEventData::FrameCreated(f))
                && raw_info_of(
                f.payload,
                payload_length,
                match payload {
                    Some(p) => Some(p@),
                    None => None,
                },
            ),
    {
        Self::new_moq(
            "moq-transfork-03:frame_created",
            MoqEventData::FrameCreated(Frame::new(RawInfo::new(payload_length, payload))),
            tracing_id,
        )
    }

    pub fn moq_frame_parsed(
        payload_length: Option<u64>,
        payload: Option<&[u8]>,
        tracing_id: u64,
    ) -> (r: Self)
        ensures
            fresh_event_fields(
                r,
                "moq-transfork-03:frame_parsed"@,
                Some(dec_str(tracing_id as nat)),
            ),
            r.data matches ProtocolEventData::MoqEventData(MoqEventData::FrameParsed(f))
                && raw_info_of(
                f.payload,
                payload_length,
                match payload {
                    Some(p) => Some(p@),
                    None => None,
                },
            ),
    {
        Self::new_moq(
            "moq-transfork-03:frame_parsed",
            MoqEventData::FrameParsed(Frame::new(RawInfo::new(payload_length, payload))),
            tracing_id,
        )
    }
}

impl Event {
    /// Builds a QUIC transport event; its group id is the connection id.
    pub fn new_quic_10(event_name: &str, event_data: Quic10EventData, group_id: Option<
        String,
    >) -> (r: Self)
        ensures
            fresh_event_some_time(
                r,
                event_name@,
                ProtocolEventData::Quic10EventData(event_data),
                opt_str_view(group_id),
            ),
    {
        Self::new(event_name, ProtocolEventData::Quic10EventData(event_data), group_id)
    }

    /// Builds a QUIC transport event with an explicit timestamp, for
    /// records whose time was captured earlier than their completion.
    pub fn new_quic_10_with_time(
        event_name: &str,
        event_data: Quic10EventData,
        group_id: Option<String>,
        time: i64,
    ) -> (r: Self)
        ensures
            fresh_event(
                r,
                event_name@,
                ProtocolEventData::Quic10EventData(event_data),
                opt_str_view(group_id),
                time,
            ),
    {
        Self::new_at(event_name, ProtocolEventData::Quic10EventData(event_data), group_id, time)
    }

    pub fn quic_10_server_listening(
        ip_v4: Option<IpAddress>,
        port_v4: Option<u16>,
        ip_v6: Option<IpAddress>,
        port_v6: Option<u16>,
        retry_required: Option<bool>,
        cid: Option<String>,
    ) -> (r: Self)
        ensures
            fresh_event_some_time(
                r,
                "quic-10:server_listening"@,
                ProtocolEventData::Quic10EventData(
                    Quic10EventData::ServerListening(
                        (ServerListening { ip_v4, port_v4, ip_v6, port_v6, retry_required }),
                    ),
                ),
                opt_str_view(cid),
            ),
    {
        Self::new_quic_10(
            "quic-10:server_listening",
            Quic10EventData::ServerListening(
                ServerListening::new(ip_v4, port_v4, ip_v6, port_v6, retry_required),
            ),
            cid,
        )
    }

    pub fn quic_10_connection_started(
        local: PathEndpointInfo,
        remote: PathEndpointInfo,
        cid: Option<String>,
    ) -> (r: Self)
        ensures
            fresh_event_some_time(
                r,
                "quic-10:connection_started"@,
                ProtocolEventData::Quic10EventData(
                    Quic10EventData::ConnectionStarted((ConnectionStarted { local, remote })),
                ),
                opt_str_view(cid),
            ),
    {
        Self::new_quic_10(
            "quic-10:connection_started",
            Quic10EventData::ConnectionStarted(ConnectionStarted::new(local, remote)),
            cid,
        )
    }

    pub fn quic_10_connection_closed(
        owner: Option<Owner>,
        connection_code: Option<ConnectionError>,
        application_code: Option<ApplicationError>,
        code_bytes: Option<u32>,
        internal_code: Option<u32>,
        reason: Option<String>,
        trigger: Option<ConnectionCloseTrigger>,
        cid: Option<String>,
    ) -> (r: Self)
        requires
            (connection_code == Some(ConnectionError::TransportError(TransportError::Unknown))
                && application_code == Some(ApplicationError::Unknown)) ==> code_bytes is Some,
        ensures
            fresh_event_some_time(
                r,
                "quic-10:connection_closed"@,
                ProtocolEventData::Quic10EventData(
                    Quic10EventData::ConnectionClosed(
                        (ConnectionClosed {
                            owner,
                            connection_code,
                            application_code,
                            code_bytes,
                            internal_code,
                            reason,
                            trigger,
                        }),
                    ),
                ),
                opt_str_view(cid),
            ),
    {
        Self::new_quic_10(
            "quic-10:connection_closed",
            Quic10EventData::ConnectionClosed(
                ConnectionClosed::new(
                    owner,
                    connection_code,
                    application_code,
                    code_bytes,
                    internal_code,
                    reason,
                    trigger,
                ),
            ),
            cid,
        )
    }

    pub fn quic_10_connection_id_updated(
        owner: Owner,
        old_cid: Option<ConnectionId>,
        new_cid: Option<ConnectionId>,
        cid: Option<String>,
    ) -> (r: Self)
        ensures
            fresh_event_some_time(
                r,
                "quic-10:connection_id_updated"@,
                ProtocolEventData::Quic10EventData(
                    Quic10EventData::ConnectionIdUpdated(
                        (ConnectionIdUpdated { owner, old: old_cid, new: new_cid }),
                    ),
                ),
                opt_str_view(cid),
            ),
    {
        Self::new_quic_10(
            "quic-10:connection_id_updated",
            Quic10EventData::ConnectionIdUpdated(ConnectionIdUpdated::new(owner, old_cid, new_cid)),
            cid,
        )
    }

    pub fn quic_10_spin_bit_updated(state: bool, cid: Option<String>) -> (r: Self)
        ensures
            fresh_event_some_time(
                r,
                "quic-10:spin_bit_updated"@,
                ProtocolEventData::Quic10EventData(
                    Quic10EventData::SpinBitUpdated((SpinBitUpdated { state })),
                ),
                opt_str_view(cid),
            ),
    {
        Self::new_quic_10(
            "quic-10:spin_bit_updated",
            Quic10EventData::SpinBitUpdated(SpinBitUpdated::new(state)),
            cid,
        )
    }

    pub fn quic_10_connection_state_updated(
        old_state: Option<ConnectionState>,
        new_state: ConnectionState,
        cid: Option<String>,
    ) -> (r: Self)
        ensures
            fresh_event_some_time(
                r,
                "quic-10:connection_state_updated"@,
                ProtocolEventData::Quic10EventData(
                    Quic10EventData::ConnectionStateUpdated(
                        (ConnectionStateUpdated { old: old_state, new: new_state }),
                    ),
                ),
                opt_str_view(cid),
            ),
    {
        Self::new_quic_10(
            "quic-10:connection_state_updated",
            Quic10EventData::ConnectionStateUpdated(
                ConnectionStateUpdated::new(old_state, new_state),
            ),
            cid,
        )
    }

    pub fn quic_10_path_assigned(
        path_id: PathId,
        path_remote: Option<PathEndpointInfo>,
        path_local: Option<PathEndpointInfo>,
        cid: Option<String>,
    ) -> (r: Self)
        ensures
            fresh_event_some_time(
                r,
                "quic-10:path_assigned"@,
                ProtocolEventData::Quic10EventData(
                    Quic10EventData::PathAssigned((PathAssigned { path_id, path_remote, path_local })),
                ),
                opt_str_view(cid),
            ),
    {
        Self::new_quic_10(
            "quic-10:path_assigned",
            Quic10EventData::PathAssigned(PathAssigned::new(path_id, path_remote, path_local)),
            cid,
        )
    }

    pub fn quic_10_mtu_updated(
        old_mtu: Option<u32>,
        new_mtu: u32,
        done: Option<bool>,
        cid: Option<String>,
    ) -> (r: Self)
        ensures
            fresh_event_some_time(
                r,
                "quic-10:mtu_updated"@,
                ProtocolEventData::Quic10EventData(
                    Quic10EventData::MtuUpdated(
                        (MtuUpdated { old: old_mtu, new: new_mtu, done: done.unwrap_or(false) }),
                    ),
                ),
                opt_str_view(cid),
            ),
    {
        Self::new_quic_10(
            "quic-10:mtu_updated",
            Quic10EventData::MtuUpdated(MtuUpdated::new(old_mtu, new_mtu, done)),
            cid,
        )
    }

    pub fn quic_10_version_information(
        server_versions: Option<Vec<QuicVersion>>,
        client_versions: Option<Vec<QuicVersion>>,
        chosen_version: Option<QuicVersion>,
        cid: Option<String>,
    ) -> (r: Self)
        ensures
            fresh_event_some_time(
                r,
                "quic-10:version_information"@,
                ProtocolEventData::Quic10EventData(
                    Quic10EventData::VersionInformation(
                        (VersionInformation { server_versions, client_versions, chosen_version }),
                    ),
                ),
                opt_str_view(cid),
            ),
    {
        Self::new_quic_10(
            "quic-10:version_information",
            Quic10EventData::VersionInformation(
                VersionInformation::new(server_versions, client_versions, chosen_version),
            ),
            cid,
        )
    }

    pub fn quic_10_alpn_information(
        server_alpns: Option<Vec<AlpnIdentifier>>,
        client_alpns: Option<Vec<AlpnIdentifier>>,
        chosen_alpn: Option<AlpnIdentifier>,
        cid: Option<String>,
    ) -> (r: Self)
        ensures
            fresh_event_some_time(
                r,
                "quic-10:alpn_information"@,
                ProtocolEventData::Quic10EventData(
                    Quic10EventData::AlpnInformation(
                        (AlpnInformation { server_alpns, client_alpns, chosen_alpn }),
                    ),
                ),
                opt_str_view(cid),
            ),
    {
        Self::new_quic_10(
            "quic-10:alpn_information",
            Quic10EventData::AlpnInformation(
                AlpnInformation::new(server_alpns, client_alpns, chosen_alpn),
            ),
            cid,
        )
    }

    pub fn quic_10_parameters_set(
        owner: Option<Owner>,
        resumption_allowed: Option<bool>,
        early_data_enabled: Option<bool>,
        tls_cipher: Option<String>,
        original_destination_connection_id: Option<ConnectionId>,
        initial_source_connection_id: Option<ConnectionId>,
        retry_source_connection_id: Option<ConnectionId>,
        stateless_reset_token: Option<StatelessResetToken>,
        disable_active_migration: Option<bool>,
        max_idle_timeout: Option<u64>,
        max_udp_payload_size: Option<u32>,
        ack_delay_exponent: Option<u16>,
        max_ack_delay: Option<u16>,
        active_connection_id_limit: Option<u32>,
        initial_max_data: Option<u64>,
        initial_max_stream_data_bidi_local: Option<u64>,
        initial_max_stream_data_bidi_remote: Option<u64>,
        initial_max_stream_data_uni: Option<u64>,
        initial_max_streams_bidi: Option<u64>,
        initial_max_streams_uni: Option<u64>,
        preferred_address: Option<PreferredAddress>,
        unknown_parameters: Option<Vec<UnknownParameter>>,
        max_datagram_frame_size: Option<u64>,
        grease_quic_bit: Option<bool>,
        cid: Option<String>,
    ) -> (r: Self)
        ensures
            fresh_event_some_time(
                r,
                "quic-10:parameters_set"@,
                ProtocolEventData::Quic10EventData(
                    Quic10EventData::ParametersSet(
                        (ParametersSet {
                            owner,
                            resumption_allowed,
                            early_data_enabled,
                            tls_cipher,
                            original_destination_connection_id,
                            initial_source_connection_id,
                            retry_source_connection_id,
                            stateless_reset_token,
                            disable_active_migration,
                            max_idle_timeout,
                            max_udp_payload_size,
                            ack_delay_exponent,
                            max_ack_delay,
                            active_connection_id_limit,
                            initial_max_data,
                            initial_max_stream_data_bidi_local,
                            initial_max_stream_data_bidi_remote,
                            initial_max_stream_data_uni,
                            initial_max_streams_bidi,
                            initial_max_streams_uni,
                            preferred_address,
                            unknown_parameters,
                            max_datagram_frame_size,
                            grease_quic_bit,
                        }),
                    ),
                ),
                opt_str_view(cid),
            ),
    {
        Self::new_quic_10(
            "quic-10:parameters_set",
            Quic10EventData::ParametersSet(
                ParametersSet::new(
                    owner,
                    resumption_allowed,
                    early_data_enabled,
                    tls_cipher,
                    original_destination_connection_id,
                    initial_source_connection_id,
                    retry_source_connection_id,
                    stateless_reset_token,
                    disable_active_migration,
                    max_idle_timeout,
                    max_udp_payload_size,
                    ack_delay_exponent,
                    max_ack_delay,
                    active_connection_id_limit,
                    initial_max_data,
                    initial_max_stream_data_bidi_local,
                    initial_max_stream_data_bidi_remote,
                    initial_max_stream_data_uni,
                    initial_max_streams_bidi,
                    initial_max_streams_uni,
                    preferred_address,
                    unknown_parameters,
                    max_datagram_frame_size,
                    grease_quic_bit,
                ),
            ),
            cid,
        )
    }

    pub fn quic_10_parameters_restored(
        disable_active_migration: Option<bool>,
        max_idle_timeout: Option<u64>,
        max_udp_payload_size: Option<u32>,
        active_connection_id_limit: Option<u32>,
        initial_max_data: Option<u64>,
        initial_max_stream_data_bidi_local: Option<u64>,
        initial_max_stream_data_bidi_remote: Option<u64>,
        initial_max_stream_data_uni: Option<u64>,
        initial_max_streams_bidi: Option<u64>,
        initial_max_streams_uni: Option<u64>,
        max_datagram_frame_size: Option<u64>,
        grease_quic_bit: Option<bool>,
        cid: Option<String>,
    ) -> (r: Self)
        ensures
            fresh_event_some_time(
                r,
                "quic-10:parameters_restored"@,
                ProtocolEventData::Quic10EventData(
                    Quic10EventData::ParametersRestored(
                        (ParametersRestored {
                            disable_active_migration,
                            max_idle_timeout,
                            max_udp_payload_size,
                            active_connection_id_limit,
                            initial_max_data,
                            initial_max_stream_data_bidi_local,
                            initial_max_stream_data_bidi_remote,
                            initial_max_stream_data_uni,
                            initial_max_streams_bidi,
                            initial_max_streams_uni,
                            max_datagram_frame_size,
                            grease_quic_bit,
                        }),
                    ),
                ),
                opt_str_view(cid),
            ),
    {
        Self::new_quic_10(
            "quic-10:parameters_restored",
            Quic10EventData::ParametersRestored(
                ParametersRestored::new(
                    disable_active_migration,
                    max_idle_timeout,
                    max_udp_payload_size,
                    active_connection_id_limit,
                    initial_max_data,
                    initial_max_stream_data_bidi_local,
                    initial_max_stream_data_bidi_remote,
                    initial_max_stream_data_uni,
                    initial_max_streams_bidi,
                    initial_max_streams_uni,
                    max_datagram_frame_size,
                    grease_quic_bit,
                ),
            ),
            cid,
        )
    }

    pub fn quic_10_packet_sent(
        header: PacketHeader,
        frames: Option<Vec<QuicFrame>>,
        stateless_reset_token: Option<StatelessResetToken>,
        supported_versions: Option<Vec<QuicVersion>>,
        raw: Option<RawInfo>,
        datagram_id: Option<u32>,
        is_mtu_probe_packet: Option<bool>,
        trigger: Option<PacketSentTrigger>,
        cid: Option<String>,
    ) -> (r: Self)
        ensures
            fresh_event_some_time(
                r,
                "quic-10:packet_sent"@,
                ProtocolEventData::Quic10EventData(
                    Quic10EventData::PacketSent(
                        (PacketSent {
                            header,
                            frames,
                            stateless_reset_token,
                            supported_versions,
                            raw,
                            datagram_id,
                            is_mtu_probe_packet: is_mtu_probe_packet.unwrap_or(false),
                            trigger,
                        }),
                    ),
                ),
                opt_str_view(cid),
            ),
    {
        Self::new_quic_10(
            "quic-10:packet_sent",
            Quic10EventData::PacketSent(
                PacketSent::new(
                    header,
                    frames,
                    stateless_reset_token,
                    supported_versions,
                    raw,
                    datagram_id,
                    is_mtu_probe_packet,
                    trigger,
                ),
            ),
            cid,
        )
    }

    pub fn quic_10_packet_received(
        header: PacketHeader,
        frames: Option<Vec<QuicFrame>>,
        stateless_reset_token: Option<StatelessResetToken>,
        supported_versions: Option<Vec<QuicVersion>>,
        raw: Option<RawInfo>,
        datagram_id: Option<u32>,
        trigger: Option<PacketReceivedTrigger>,
        cid: Option<String>,
    ) -> (r: Self)
        ensures
            fresh_event_some_time(
                r,
                "quic-10:packet_received"@,
                ProtocolEventData::Quic10EventData(
                    Quic10EventData::PacketReceived(
                        (PacketReceived {
                            header,
                            frames,
                            stateless_reset_token,
                            supported_versions,
                            raw,
                            datagram_id,
                            trigger,
                        }),
                    ),
                ),
                opt_str_view(cid),
            ),
    {
        Self::new_quic_10(
            "quic-10:packet_received",
            Quic10EventData::PacketReceived(
                PacketReceived::new(
                    header,
                    frames,
                    stateless_reset_token,
                    supported_versions,
                    raw,
                    datagram_id,
                    trigger,
                ),
            ),
            cid,
        )
    }

    pub fn quic_10_packet_dropped(
        header: Option<PacketHeader>,
        raw: Option<RawInfo>,
        datagram_id: Option<u32>,
        details: Vec<(String, Vec<u8>)>,
        trigger: Option<PacketDroppedTrigger>,
        cid: Option<String>,
    ) -> (r: Self)
        ensures
            fresh_event_some_time(
                r,
                "quic-10:packet_dropped"@,
                ProtocolEventData::Quic10EventData(
                    Quic10EventData::PacketDropped(
                        (PacketDropped { header, raw, datagram_id, details, trigger }),
                    ),
                ),
                opt_str_view(cid),
            ),
    {
        Self::new_quic_10(
            "quic-10:packet_dropped",
            Quic10EventData::PacketDropped(
                PacketDropped::new(header, raw, datagram_id, details, trigger),
            ),
            cid,
        )
    }

    pub fn quic_10_packet_buffered(
        header: Option<PacketHeader>,
        raw: Option<RawInfo>,
        datagram_id: Option<u32>,
        trigger: Option<PacketBufferedTrigger>,
        cid: Option<String>,
    ) -> (r: Self)
        ensures
            fresh_event_some_time(
                r,
                "quic-10:packet_buffered"@,
                ProtocolEventData::Quic10EventData(
                    Quic10EventData::PacketBuffered(
                        (PacketBuffered { header, raw, datagram_id, trigger }),
                    ),
                ),
                opt_str_view(cid),
            ),
    {
        Self::new_quic_10(
            "quic-10:packet_buffered",
            Quic10EventData::PacketBuffered(PacketBuffered::new(header, raw, datagram_id, trigger)),
            cid,
        )
    }

    pub fn quic_10_packets_acked(
        packet_number_space: Option<PacketNumberSpace>,
        packet_numbers: Option<Vec<u64>>,
        cid: Option<String>,
    ) -> (r: Self)
        ensures
            fresh_event_some_time(
                r,
                "quic-10:packets_acked"@,
                ProtocolEventData::Quic10EventData(
                    Quic10EventData::PacketsAcked(
                        (PacketsAcked { packet_number_space, packet_numbers }),
                    ),
                ),
                opt_str_view(cid),
            ),
    {
        Self::new_quic_10(
            "quic-10:packets_acked",
            Quic10EventData::PacketsAcked(PacketsAcked::new(packet_number_space, packet_numbers)),
            cid,
        )
    }

    pub fn quic_10_udp_datagrams_sent(
        count: Option<u16>,
        raw: Option<Vec<RawInfo>>,
        ecn: Option<Vec<Ecn>>,
        datagram_ids: Option<Vec<u32>>,
        cid: Option<String>,
    ) -> (r: Self)
        ensures
            fresh_event_some_time(
                r,
                "quic-10:udp_datagrams_sent"@,
                ProtocolEventData::Quic10EventData(
                    Quic10EventData::UdpDatagramsSent(
                        (UdpDatagramsSent { count, raw, ecn, datagram_ids }),
                    ),
                ),
                opt_str_view(cid),
            ),
    {
        Self::new_quic_10(
            "quic-10:udp_datagrams_sent",
            Quic10EventData::UdpDatagramsSent(UdpDatagramsSent::new(count, raw, ecn, datagram_ids)),
            cid,
        )
    }

    pub fn quic_10_udp_datagrams_received(
        count: Option<u16>,
        raw: Option<Vec<RawInfo>>,
        ecn: Option<Vec<Ecn>>,
        datagram_ids: Option<Vec<u32>>,
        cid: Option<String>,
    ) -> (r: Self)
        ensures
            fresh_event_some_time(
                r,
                "quic-10:udp_datagrams_received"@,
                ProtocolEventData::Quic10EventData(
                    Quic10EventData::UdpDatagramsReceived(
                        (UdpDatagramsReceived { count, raw, ecn, datagram_ids }),
                    ),
                ),
                opt_str_view(cid),
            ),
    {
        Self::new_quic_10(
            "quic-10:udp_datagrams_received",
            Quic10EventData::UdpDatagramsReceived(
                UdpDatagramsReceived::new(count, raw, ecn, datagram_ids),
            ),
            cid,
        )
    }

    pub fn quic_10_udp_datagram_dropped(raw: Option<RawInfo>, cid: Option<String>) -> (r: Self)
        ensures
            fresh_event_some_time(
                r,
                "quic-10:udp_datagram_dropped"@,
                ProtocolEventData::Quic10EventData(
                    Quic10EventData::UdpDatagramDropped((UdpDatagramDropped { raw })),
                ),
                opt_str_view(cid),
            ),
    {
        Self::new_quic_10(
            "quic-10:udp_datagram_dropped",
            Quic10EventData::UdpDatagramDropped(UdpDatagramDropped::new(raw)),
            cid,
        )
    }

    pub fn quic_10_stream_state_updated(
        stream_id: u64,
        stream_type: Option<QuicStreamType>,
        old_state: Option<StreamState>,
        new_state: StreamState,
        stream_side: Option<StreamSide>,
        cid: Option<String>,
    ) -> (r: Self)
        ensures
            fresh_event_some_time(
                r,
                "quic-10:stream_state_updated"@,
                ProtocolEventData::Quic10EventData(
                    Quic10EventData::StreamStateUpdated(
                        (StreamStateUpdated {
                            stream_id,
                            stream_type,
                            old: old_state,
                            new: new_state,
                            stream_side,
                        }),
                    ),
                ),
                opt_str_view(cid),
            ),
    {
        Self::new_quic_10(
            "quic-10:stream_state_updated",
            Quic10EventData::StreamStateUpdated(
                StreamStateUpdated::new(stream_id, stream_type, old_state, new_state, stream_side),
            ),
            cid,
        )
    }

    pub fn quic_10_frames_processed(
        frames: Vec<QuicFrame>,
        packet_numbers: Option<Vec<u64>>,
        cid: Option<String>,
    ) -> (r: Self)
        ensures
            fresh_event_some_time(
                r,
                "quic-10:frames_processed"@,
                ProtocolEventData::Quic10EventData(
                    Quic10EventData::FramesProcessed((FramesProcessed { frames, packet_numbers })),
                ),
                opt_str_view(cid),
            ),
    {
        Self::new_quic_10(
            "quic-10:frames_processed",
            Quic10EventData::FramesProcessed(FramesProcessed::new(frames, packet_numbers)),
            cid,
        )
    }

    pub fn quic_10_stream_data_moved(
        stream_id: Option<u64>,
        offset: Option<u64>,
        length: Option<u64>,
        from: Option<DataLocation>,
        to: Option<DataLocation>,
        additional_info: Option<DataMovedAdditionalInfo>,
        raw: Option<RawInfo>,
        cid: Option<String>,
    ) -> (r: Self)
        ensures
            fresh_event_some_time(
                r,
                "quic-10:stream_data_moved"@,
                ProtocolEventData::Quic10EventData(
                    Quic10EventData::StreamDataMoved(
                        (StreamDataMoved {
                            stream_id,
                            offset,
                            length,
                            from,
                            to,
                            additional_info,
                            raw,
                        }),
                    ),
                ),
                opt_str_view(cid),
            ),
    {
        Self::new_quic_10(
            "quic-10:stream_data_moved",
            Quic10EventData::StreamDataMoved(
                StreamDataMoved::new(stream_id, offset, length, from, to, additional_info, raw),
            ),
            cid,
        )
    }

    pub fn quic_10_datagram_data_moved(
        length: Option<u64>,
        from: Option<DataLocation>,
        to: Option<DataLocation>,
        raw: Option<RawInfo>,
        cid: Option<String>,
    ) -> (r: Self)
        ensures
            fresh_event_some_time(
                r,
                "quic-10:datagram_data_moved"@,
                ProtocolEventData::Quic10EventData(
                    Quic10EventData::DatagramDataMoved((DatagramDataMoved { length, from, to, raw })),
                ),
                opt_str_view(cid),
            ),
    {
        Self::new_quic_10(
            "quic-10:datagram_data_moved",
            Quic10EventData::DatagramDataMoved(DatagramDataMoved::new(length, from, to, raw)),
            cid,
        )
    }

    pub fn quic_10_migration_state_updated(
        old_state: Option<MigrationState>,
        new_state: MigrationState,
        path_id: Option<PathId>,
        path_remote: Option<PathEndpointInfo>,
        path_local: Option<PathEndpointInfo>,
        cid: Option<String>,
    ) -> (r: Self)
        ensures
            fresh_event_some_time(
                r,
                "quic-10:migration_state_updated"@,
                ProtocolEventData::Quic10EventData(
                    Quic10EventData::MigrationStateUpdated(
                        (MigrationStateUpdated {
                            old: old_state,
                            new: new_state,
                            path_id,
                            path_remote,
                            path_local,
                        }),
                    ),
                ),
                opt_str_view(cid),
            ),
    {
        Self::new_quic_10(
            "quic-10:migration_state_updated",
            Quic10EventData::MigrationStateUpdated(
                MigrationStateUpdated::new(old_state, new_state, path_id, path_remote, path_local),
            ),
            cid,
        )
    }

    pub fn quic_10_key_updated(
        key_type: KeyType,
        old_key: Option<HexString>,
        new_key: Option<HexString>,
        key_phase: Option<u64>,
        trigger: Option<KeyUpdateTrigger>,
        cid: Option<String>,
    ) -> (r: Self)
        ensures
            fresh_event_some_time(
                r,
                "quic-10:key_updated"@,
                ProtocolEventData::Quic10EventData(
                    Quic10EventData::KeyUpdated(
                        (KeyUpdated { key_type, old: old_key, new: new_key, key_phase, trigger }),
                    ),
                ),
                opt_str_view(cid),
            ),
    {
        Self::new_quic_10(
            "quic-10:key_updated",
            Quic10EventData::KeyUpdated(
                KeyUpdated::new(key_type, old_key, new_key, key_phase, trigger),
            ),
            cid,
        )
    }

    pub fn quic_10_key_discarded(
        key_type: KeyType,
        key: Option<HexString>,
        key_phase: Option<u64>,
        trigger: Option<KeyDiscardTrigger>,
        cid: Option<String>,
    ) -> (r: Self)
        ensures
            fresh_event_some_time(
                r,
                "quic-10:key_discarded"@,
                ProtocolEventData::Quic10EventData(
                    Quic10EventData::KeyDiscarded((KeyDiscarded { key_type, key, key_phase, trigger })),
                ),
                opt_str_view(cid),
            ),
    {
        Self::new_quic_10(
            "quic-10:key_discarded",
            Quic10EventData::KeyDiscarded(KeyDiscarded::new(key_type, key, key_phase, trigger)),
            cid,
        )
    }

    pub fn quic_10_recovery_parameters_set(
        reordering_threshold: Option<u16>,
        time_threshold: Option<u32>,
        timer_granularity: u16,
        initial_rtt: Option<u32>,
        max_datagram_size: Option<u32>,
        initial_congestion_window: Option<u64>,
        minimum_congestion_window: Option<u64>,
        loss_reduction_factor: Option<u32>,
        persistent_congestion_threshold: Option<u16>,
        cid: Option<String>,
    ) -> (r: Self)
        ensures
            fresh_event_some_time(
                r,
                "quic-10:recovery_parameters_set"@,
                ProtocolEventData::Quic10EventData(
                    Quic10EventData::RecoveryParametersSet(
                        (RecoveryParametersSet {
                            reordering_threshold,
                            time_threshold,
                            timer_granularity,
                            initial_rtt,
                            max_datagram_size,
                            initial_congestion_window,
                            minimum_congestion_window,
                            loss_reduction_factor,
                            persistent_congestion_threshold,
                        }),
                    ),
                ),
                opt_str_view(cid),
            ),
    {
        Self::new_quic_10(
            "quic-10:recovery_parameters_set",
            Quic10EventData::RecoveryParametersSet(
                RecoveryParametersSet::new(
                    reordering_threshold,
                    time_threshold,
                    timer_granularity,
                    initial_rtt,
                    max_datagram_size,
                    initial_congestion_window,
                    minimum_congestion_window,
                    loss_reduction_factor,
                    persistent_congestion_threshold,
                ),
            ),
            cid,
        )
    }

    pub fn quic_10_recovery_metrics_updated(
        min_rtt: Option<u32>,
        smoothed_rtt: Option<u32>,
        latest_rtt: Option<u32>,
        rtt_variance: Option<u32>,
        pto_count: Option<u16>,
        congestion_window: Option<u64>,
        bytes_in_flight: Option<u64>,
        ssthresh: Option<u64>,
        packets_in_flight: Option<u64>,
        pacing_rate: Option<u64>,
        cid: Option<String>,
    ) -> (r: Self)
        ensures
            fresh_event_some_time(
                r,
                "quic-10:recovery_metrics_updated"@,
                ProtocolEventData::Quic10EventData(
                    Quic10EventData::RecoveryMetricsUpdated(
                        (RecoveryMetricsUpdated {
                            min_rtt,
                            smoothed_rtt,
                            latest_rtt,
                            rtt_variance,
                            pto_count,
                            congestion_window,
                            bytes_in_flight,
                            ssthresh,
                            packets_in_flight,
                            pacing_rate,
                        }),
                    ),
                ),
                opt_str_view(cid),
            ),
    {
        Self::new_quic_10(
            "quic-10:recovery_metrics_updated",
            Quic10EventData::RecoveryMetricsUpdated(
                RecoveryMetricsUpdated::new(
                    min_rtt,
                    smoothed_rtt,
                    latest_rtt,
                    rtt_variance,
                    pto_count,
                    congestion_window,
                    bytes_in_flight,
                    ssthresh,
                    packets_in_flight,
                    pacing_rate,
                ),
            ),
            cid,
        )
    }

    pub fn quic_10_congestion_state_updated(
        old_state: Option<String>,
        new_state: String,
        trigger: Option<String>,
        cid: Option<String>,
    ) -> (r: Self)
        ensures
            fresh_event_some_time(
                r,
                "quic-10:congestion_state_updated"@,
                ProtocolEventData::Quic10EventData(
                    Quic10EventData::CongestionStateUpdated(
                        (CongestionStateUpdated { old: old_state, new: new_state, trigger }),
                    ),
                ),
                opt_str_view(cid),
            ),
    {
        Self::new_quic_10(
            "quic-10:congestion_state_updated",
            Quic10EventData::CongestionStateUpdated(
                CongestionStateUpdated::new(old_state, new_state, trigger),
            ),
            cid,
        )
    }

    pub fn quic_10_loss_timer_updated(
        timer_type: Option<TimerType>,
        packet_number_space: Option<PacketNumberSpace>,
        event_type: EventType,
        delta: Option<u32>,
        cid: Option<String>,
    ) -> (r: Self)
        ensures
            fresh_event_some_time(
                r,
                "quic-10:loss_timer_updated"@,
                ProtocolEventData::Quic10EventData(
                    Quic10EventData::LossTimerUpdated(
                        (LossTimerUpdated { timer_type, packet_number_space, event_type, delta }),
                    ),
                ),
                opt_str_view(cid),
            ),
    {
        Self::new_quic_10(
            "quic-10:loss_timer_updated",
            Quic10EventData::LossTimerUpdated(
                LossTimerUpdated::new(timer_type, packet_number_space, event_type, delta),
            ),
            cid,
        )
    }

    pub fn quic_10_packet_lost(
        header: Option<PacketHeader>,
        frames: Option<Vec<QuicFrame>>,
        is_mtu_probe_packet: Option<bool>,
        trigger: Option<PacketLostTrigger>,
        cid: Option<String>,
    ) -> (r: Self)
        ensures
            fresh_event_some_time(
                r,
                "quic-10:packet_lost"@,
                ProtocolEventData::Quic10EventData(
                    Quic10EventData::PacketLost(
                        (PacketLost {
                            header,
                            frames,
                            is_mtu_probe_packet: is_mtu_probe_packet.unwrap_or(false),
                            trigger,
                        }),
                    ),
                ),
                opt_str_view(cid),
            ),
    {
        Self::new_quic_10(
            "quic-10:packet_lost",
            Quic10EventData::PacketLost(
                PacketLost::new(header, frames, is_mtu_probe_packet, trigger),
            ),
            cid,
        )
    }

    pub fn quic_10_marked_for_retransmit(frames: Vec<QuicFrame>, cid: Option<String>) -> (r: Self)
        ensures
            fresh_event_some_time(
                r,
                "quic-10:marked_for_retransmit"@,
                ProtocolEventData::Quic10EventData(
                    Quic10EventData::MarkedForRetransmit((MarkedForRetransmit { frames })),
                ),
                opt_str_view(cid),
            ),
    {
        Self::new_quic_10(
            "quic-10:marked_for_retransmit",
            Quic10EventData::MarkedForRetransmit(MarkedForRetransmit::new(frames)),
            cid,
        )
    }

    pub fn quic_10_ecn_state_updated(
        old_state: Option<EcnState>,
        new_state: EcnState,
        cid: Option<String>,
    ) -> (r: Self)
        ensures
            fresh_event_some_time(
                r,
                "quic-10:ecn_state_updated"@,
                ProtocolEventData::Quic10EventData(
                    Quic10EventData::EcnStateUpdated((EcnStateUpdated { old: old_state, new: new_state })),
                ),
                opt_str_view(cid),
            ),
    {
        Self::new_quic_10(
            "quic-10:ecn_state_updated",
            Quic10EventData::EcnStateUpdated(EcnStateUpdated::new(old_state, new_state)),
            cid,
        )
    }
}

} // verus!
