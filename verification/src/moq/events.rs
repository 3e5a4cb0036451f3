//! Event payload records for the media-over-QUIC transfer protocol.

use vstd::prelude::*;

use crate::events::RawInfo;
use crate::moq::data::{AnnounceStatus, StreamType};

verus! {

/// A stream creation or parse record: carries only the stream's role.
pub struct Stream {
    pub stream_type: StreamType,
}

impl Stream {
    pub fn new(stream_type: StreamType) -> (r: Self)
        ensures
            r.stream_type == stream_type,
    {
        Self { stream_type }
    }

    pub fn get_stream_type(&self) -> (r: &StreamType)
        ensures
            *r == self.stream_type,
    {
        &self.stream_type
    }
}

/// The client half of session negotiation.
pub struct SessionClient {
    pub supported_versions: Vec<u64>,
    pub extension_ids: Vec<u64>,
    pub tracing_id: u64,
}

impl SessionClient {
    pub fn new(supported_versions: Vec<u64>, extension_ids: Option<Vec<u64>>, tracing_id: u64) -> (r:
        Self)
        ensures
            r.supported_versions == supported_versions,
            r.extension_ids@ == match extension_ids {
                Some(ids) => ids@,
                None => Seq::<u64>::empty(),
            },
            r.tracing_id == tracing_id,
    {
        let extension_ids = match extension_ids {
            Some(ids) => ids,
            None => Vec::new(),
        };
        Self { supported_versions, extension_ids, tracing_id }
    }
}

/// The server half of session negotiation.
pub struct SessionServer {
    pub selected_version: u64,
    pub extension_ids: Vec<u64>,
}

impl SessionServer {
    pub fn new(selected_version: u64, extension_ids: Option<Vec<u64>>) -> (r: Self)
        ensures
            r.selected_version == selected_version,
            r.extension_ids@ == match extension_ids {
                Some(ids) => ids@,
                None => Seq::<u64>::empty(),
            },
    {
        let extension_ids = match extension_ids {
            Some(ids) => ids,
            None => Vec::new(),
        };
        Self { selected_version, extension_ids }
    }
}

/// A mid-session bitrate update.
pub struct SessionUpdate {
    pub session_bitrate: u64,
}

impl SessionUpdate {
    pub fn new(session_bitrate: u64) -> (r: Self)
        ensures
            r.session_bitrate == session_bitrate,
    {
        Self { session_bitrate }
    }
}

/// A request to be told about tracks under a path prefix.
pub struct AnnouncePlease {
    pub track_prefix_parts: Vec<String>,
}

impl AnnouncePlease {
    pub fn new(track_prefix_parts: Vec<String>) -> (r: Self)
        ensures
            r.track_prefix_parts == track_prefix_parts,
    {
        Self { track_prefix_parts }
    }
}

/// An announcement of track availability.
pub struct Announce {
    pub announce_status: AnnounceStatus,
    pub track_suffix_parts: Vec<Vec<String>>,
}

impl Announce {
    pub fn new(announce_status: AnnounceStatus, track_suffix_parts: Vec<Vec<String>>) -> (r: Self)
        ensures
            r.announce_status == announce_status,
            r.track_suffix_parts == track_suffix_parts,
    {
        Self { announce_status, track_suffix_parts }
    }
}

/// The opening message of a subscription.
pub struct Subscribe {
    pub subscribe_id: u64,
    pub track_path_parts: Vec<String>,
    pub track_priority: u64,
    pub group_order: u64,
    pub group_min: u64,
    pub group_max: u64,
}

impl Subscribe {
    pub fn new(
        subscribe_id: u64,
        track_path_parts: Vec<String>,
        track_priority: u64,
        group_order: u64,
        group_min: u64,
        group_max: u64,
    ) -> (r: Self)
        ensures
            r.subscribe_id == subscribe_id,
            r.track_path_parts == track_path_parts,
            r.track_priority == track_priority,
            r.group_order == group_order,
            r.group_min == group_min,
            r.group_max == group_max,
    {
        Self { subscribe_id, track_path_parts, track_priority, group_order, group_min, group_max }
    }
}

/// A change to the parameters of a live subscription.
pub struct SubscribeUpdate {
    pub track_priority: u64,
    pub group_order: u64,
    pub group_min: u64,
    pub group_max: u64,
}

impl SubscribeUpdate {
    pub fn new(track_priority: u64, group_order: u64, group_min: u64, group_max: u64) -> (r: Self)
        ensures
            r.track_priority == track_priority,
            r.group_order == group_order,
            r.group_min == group_min,
            r.group_max == group_max,
    {
        Self { track_priority, group_order, group_min, group_max }
    }
}

/// A gap in the groups of a subscription.
pub struct SubscribeGap {
    pub group_start: u64,
    pub group_count: u64,
    pub group_error_code: u64,
}

impl SubscribeGap {
    pub fn new(group_start: u64, group_count: u64, group_error_code: u64) -> (r: Self)
        ensures
            r.group_start == group_start,
            r.group_count == group_count,
            r.group_error_code == group_error_code,
    {
        Self { group_start, group_count, group_error_code }
    }
}

/// Track information sent in answer to an information request.
pub struct Info {
    pub track_priority: u64,
    pub group_latest: u64,
    pub group_order: u64,
}

impl Info {
    pub fn new(track_priority: u64, group_latest: u64, group_order: u64) -> (r: Self)
        ensures
            r.track_priority == track_priority,
            r.group_latest == group_latest,
            r.group_order == group_order,
    {
        Self { track_priority, group_latest, group_order }
    }
}

/// A request for track information.
pub struct InfoPlease {
    pub track_path_parts: Vec<String>,
}

impl InfoPlease {
    pub fn new(track_path_parts: Vec<String>) -> (r: Self)
        ensures
            r.track_path_parts == track_path_parts,
    {
        Self { track_path_parts }
    }
}

/// The opening message of a fetch.
pub struct Fetch {
    pub track_path_parts: Vec<String>,
    pub track_priority: u64,
    pub group_sequence: u64,
    pub frame_sequence: u64,
}

impl Fetch {
    pub fn new(
        track_path_parts: Vec<String>,
        track_priority: u64,
        group_sequence: u64,
        frame_sequence: u64,
    ) -> (r: Self)
        ensures
            r.track_path_parts == track_path_parts,
            r.track_priority == track_priority,
            r.group_sequence == group_sequence,
            r.frame_sequence == frame_sequence,
    {
        Self { track_path_parts, track_priority, group_sequence, frame_sequence }
    }
}

/// A change to the priority of a live fetch.
pub struct FetchUpdate {
    pub track_priority: u64,
}

impl FetchUpdate {
    pub fn new(track_priority: u64) -> (r: Self)
        ensures
            r.track_priority == track_priority,
    {
        Self { track_priority }
    }
}

/// A group header within a subscription.
pub struct Group {
    pub subscribe_id: u64,
    pub group_sequence: u64,
}

impl Group {
    pub fn new(subscribe_id: u64, group_sequence: u64) -> (r: Self)
        ensures
            r.subscribe_id == subscribe_id,
            r.group_sequence == group_sequence,
    {
        Self { subscribe_id, group_sequence }
    }
}

/// A media frame, carrying its (possibly truncated) payload bytes.
pub struct Frame {
    pub payload: RawInfo,
}

impl Frame {
    pub fn new(payload: RawInfo) -> (r: Self)
        ensures
            r.payload == payload,
    {
        Self { payload }
    }
}

} // verus!
