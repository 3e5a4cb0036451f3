//! The trace-file header record: schema identifiers, trace descriptor,
//! common fields, reference time and vantage point.

use vstd::prelude::*;

use crate::util::{GroupId, PathId};

verus! {

/// The first record of a trace: file details plus one trace descriptor.
pub struct QlogFileSeq {
    pub log_file_details: LogFile,
    pub trace: TraceSeq,
}

impl QlogFileSeq {
    pub fn new(log_file_details: LogFile, trace: TraceSeq) -> (r: QlogFileSeq)
        ensures
            r.log_file_details == log_file_details,
            r.trace == trace,
    {
        QlogFileSeq { log_file_details, trace }
    }
}

/// File-level details identifying the log file schema and serialization.
pub struct LogFile {
    /// Identifies the concrete log file schema
    pub file_schema: String,
    /// Indicates the serialization format using a media type
    pub serialization_format: String,
    pub title: Option<String>,
    pub description: Option<String>,
}

impl LogFile {
    pub fn new(title: Option<String>, description: Option<String>) -> (r: LogFile)
        ensures
            r.file_schema@ == "urn:ietf:params:qlog:file:sequential"@,
            r.serialization_format@ == "application/qlog+json-seq"@,
            r.title == title,
            r.description == description,
    {
        LogFile {
            file_schema: String::from_str("urn:ietf:params:qlog:file:sequential"),
            serialization_format: String::from_str("application/qlog+json-seq"),
            title,
            description,
        }
    }
}

/// One trace descriptor within a sequential log file.
pub struct TraceSeq {
    pub title: Option<String>,
    pub description: Option<String>,
    pub common_fields: Option<CommonFields>,
    pub vantage_point: Option<VantagePoint>,
    /// Identifies concrete event namespaces and their associated types
    pub event_schemas: Vec<String>,
}

impl TraceSeq {
    pub fn new(
        title: Option<String>,
        description: Option<String>,
        common_fields: Option<CommonFields>,
        vantage_point: Option<VantagePoint>,
    ) -> (r: TraceSeq)
        ensures
            r.title == title,
            r.description == description,
            r.common_fields == common_fields,
            r.vantage_point == vantage_point,
            r.event_schemas@.len() == 2,
            r.event_schemas@[0]@ == "urn:ietf:params:qlog:events:moq-transfork-03"@,
            r.event_schemas@[1]@ == "urn:ietf:params:qlog:events:quic-10"@,
    {
        let mut event_schemas: Vec<String> = Vec::new();
        event_schemas.push(String::from_str("urn:ietf:params:qlog:events:moq-transfork-03"));
        event_schemas.push(String::from_str("urn:ietf:params:qlog:events:quic-10"));
        TraceSeq { title, description, common_fields, vantage_point, event_schemas }
    }
}

/// Field values shared by every event of a trace.
pub struct CommonFields {
    pub path: Option<PathId>,
    pub time_format: Option<TimeFormat>,
    pub reference_time: Option<ReferenceTime>,
    pub group_id: Option<GroupId>,
    /// Open-ended custom fields, flattened into the record when serialized.
    pub custom_fields: Vec<(String, String)>,
}

impl CommonFields {
    pub fn new(
        path: Option<PathId>,
        time_format: Option<TimeFormat>,
        reference_time: Option<ReferenceTime>,
        group_id: Option<GroupId>,
        custom_fields: Option<Vec<(String, String)>>,
    ) -> (r: CommonFields)
        ensures
            r.path == path,
            r.time_format == time_format,
            r.reference_time == reference_time,
            r.group_id == group_id,
            r.custom_fields@ == match custom_fields {
                Some(fields) => fields@,
                None => Seq::<(String, String)>::empty(),
            },
    {
        let custom_fields = match custom_fields {
            Some(fields) => fields,
            None => Vec::new(),
        };
        CommonFields { path, time_format, reference_time, group_id, custom_fields }
    }
}

impl Default for CommonFields {
    /// The common fields of a trace nothing was configured for: an empty
    /// path, epoch-relative times, the default reference time, no group id
    /// and no custom fields.
    fn default() -> (r: Self)
        ensures
            r.path matches Some(p) && p@.len() == 0,
            r.time_format == Some(TimeFormat::RelativeToEpoch),
            r.reference_time matches Some(t) && t.clock_type == ClockType::System
                && t.wall_clock_time is None && (t.epoch matches Epoch::Rfc3339DateTime(e) && e@
                == "1970-01-01T00:00:00.000Z"@),
            r.group_id is None,
            r.custom_fields@.len() == 0,
    {
        Self {
            path: Some(String::new()),
            time_format: Some(TimeFormat::default()),
            reference_time: Some(ReferenceTime::default()),
            group_id: None,
            custom_fields: Vec::new(),
        }
    }
}

/// How event timestamps relate to the reference time.
#[derive(Clone, Copy, Debug, PartialEq, Eq, Structural)]
pub enum TimeFormat {
    /// Relative to the reference time's epoch field
    RelativeToEpoch,
    /// Delta-encoded relative to the previously logged value
    RelativeToPreviousEvent,
}

impl Default for TimeFormat {
    fn default() -> (r: Self)
        ensures
            r == TimeFormat::RelativeToEpoch,
    {
        TimeFormat::RelativeToEpoch
    }
}

/// The clock and epoch that event timestamps are measured against.
pub struct ReferenceTime {
    pub clock_type: ClockType,
    pub epoch: Epoch,
    /// A wall-clock time in RFC 3339 text form.
    pub wall_clock_time: Option<String>,
}

impl ReferenceTime {
    /// The clock type defaults to the system clock and the epoch to
    /// "1970-01-01T00:00:00.000Z" when absent. A monotonic clock admits no
    /// epoch, so it demands the explicit value `Epoch::Unknown`.
    pub fn new(clock_type: Option<ClockType>, epoch: Option<Epoch>, wall_clock_time: Option<
        String,
    >) -> (r: ReferenceTime)
        requires
            (clock_type matches Some(c) && c is Monotonic) ==> (epoch matches Some(e) && e
                is Unknown),
        ensures
            r.clock_type == match clock_type {
                Some(c) => c,
                None => ClockType::System,
            },
            match epoch {
                Some(e) => r.epoch == e,
                None => r.epoch matches Epoch::Rfc3339DateTime(s) && s@
                    == "1970-01-01T00:00:00.000Z"@,
            },
            r.wall_clock_time == wall_clock_time,
    {
        let clock_type = match clock_type {
            Some(c) => c,
            None => ClockType::System,
        };
        let epoch = match epoch {
            Some(e) => e,
            None => Epoch::default(),
        };
        ReferenceTime { clock_type, epoch, wall_clock_time }
    }
}

impl Default for ReferenceTime {
    fn default() -> (r: Self)
        ensures
            r.clock_type == ClockType::System,
            r.epoch matches Epoch::Rfc3339DateTime(s) && s@ == "1970-01-01T00:00:00.000Z"@,
            r.wall_clock_time is None,
    {
        ReferenceTime {
            clock_type: ClockType::System,
            epoch: Epoch::default(),
            wall_clock_time: None,
        }
    }
}

/// The kind of clock timestamps were taken from.
pub enum ClockType {
    System,
    Monotonic,
    Other(String),
}

impl Default for ClockType {
    fn default() -> (r: Self)
        ensures
            r == ClockType::System,
    {
        ClockType::System
    }
}

/// The moment a time format's relative values are measured from: an
/// RFC 3339 date-time text, or unknown for a monotonic clock.
pub enum Epoch {
    Rfc3339DateTime(String),
    Unknown,
}

impl Default for Epoch {
    fn default() -> (r: Self)
        ensures
            r matches Epoch::Rfc3339DateTime(s) && s@ == "1970-01-01T00:00:00.000Z"@,
    {
        Epoch::Rfc3339DateTime(String::from_str("1970-01-01T00:00:00.000Z"))
    }
}

/// Vantage point from which a trace originates.
pub struct VantagePoint {
    pub name: Option<String>,
    pub vp_type: VantagePointType,
    /// The direction of the data flow, required for a network observer:
    /// it says which endpoint's perspective "sent" and "received" take.
    pub flow: Option<VantagePointType>,
}

impl VantagePoint {
    pub fn new(name: Option<String>, vp_type: VantagePointType, flow: Option<
        VantagePointType,
    >) -> (r: VantagePoint)
        requires
            vp_type == VantagePointType::Network ==> flow is Some,
        ensures
            r.name == name,
            r.vp_type == vp_type,
            r.flow == flow,
    {
        VantagePoint { name, vp_type, flow }
    }
}

/// The role a vantage point plays in the connection.
#[derive(Clone, Copy, Debug, PartialEq, Eq, Structural)]
pub enum VantagePointType {
    /// Initiates the connection
    Client,
    /// Accepts the connection
    Server,
    /// Observer in between client and server
    Network,
    Unknown,
}

} // verus!
