//! The correlation engine: the in-memory core of the trace writer.
//!
//! The engine decides, per incoming event, whether to buffer it, patch and
//! emit it, or emit it directly; it owns the packet-assembly caches for
//! sent and received traffic and the queue of control-stream events still
//! waiting for their correlation id. Every operation returns the events
//! that are to be appended to the trace, in order; the caller serializes
//! them and hands them to the output channel.

use std::collections::VecDeque;

use vstd::prelude::*;

use crate::events::{
    fresh_event, is_session_started_client, moq_stream_type_of, now_timestamp_millis, Event,
    ProtocolEventData,
};
use crate::logfile::{
    CommonFields, Epoch, LogFile, QlogFileSeq, ReferenceTime, TimeFormat, TraceSeq, VantagePoint,
};
use crate::moq::data::StreamType as MoqStreamType;
use crate::quic_10::data::{Quic10EventData, QuicFrame};
use crate::quic_10::events::{PacketReceived, PacketSent};
use crate::util::{dec_str, u64_to_dec_string};

verus! {

/// An operation was called out of order: a fatal precondition violation
/// in the instrumenting code, never a data problem.
#[derive(Clone, Copy, Debug, PartialEq, Eq, Structural)]
pub enum WriterError {
    /// An event was submitted before the trace header was written.
    HeaderNotWritten,
    /// A frame was appended at a packet key that holds no record.
    UnknownPacketKey,
}

/// A QUIC packet number space as the packet caches key it.
#[derive(Clone, Copy, Debug, PartialEq, Eq, Structural)]
pub enum PacketNumSpace {
    Initial,
    Handshake,
    Data,
}

impl PacketNumSpace {
    /// The text of this space within a cache-key label.
    pub open spec fn label_spec(self) -> Seq<char> {
        match self {
            PacketNumSpace::Initial => "Initial"@,
            PacketNumSpace::Handshake => "Handshake"@,
            PacketNumSpace::Data => "Data"@,
        }
    }

    /// Renders the space as text.
    pub fn label(&self) -> (r: String)
        ensures
            r@ == self.label_spec(),
    {
        match self {
            PacketNumSpace::Initial => String::from_str("Initial"),
            PacketNumSpace::Handshake => String::from_str("Handshake"),
            PacketNumSpace::Data => String::from_str("Data"),
        }
    }
}

/// The packet-number half of a packet cache key: a space-qualified
/// sequence number, or one of the special non-numbered packet kinds.
#[derive(Clone, Copy, Debug, PartialEq, Eq, Structural)]
pub enum PacketNum {
    Number(PacketNumSpace, u64),
    Retry,
    StatelessReset,
    VersionNegotiation,
    Unknown,
}

impl PacketNum {
    /// The text of this packet number within a cache-key label.
    pub open spec fn label_spec(self) -> Seq<char> {
        match self {
            PacketNum::Number(space, n) => space.label_spec() + ":"@ + dec_str(n as nat),
            PacketNum::Retry => "Retry"@,
            PacketNum::StatelessReset => "StatelessReset"@,
            PacketNum::VersionNegotiation => "VersionNegotiation"@,
            PacketNum::Unknown => "Unknown"@,
        }
    }

    /// Renders the packet number as text, for diagnostics.
    pub fn label(&self) -> (r: String)
        ensures
            r@ == self.label_spec(),
    {
        match self {
            PacketNum::Number(space, n) => {
                let mut out = space.label();
                out.append(":");
                let digits = u64_to_dec_string(*n);
                out.append(digits.as_str());
                out
            },
            PacketNum::Retry => String::from_str("Retry"),
            PacketNum::StatelessReset => String::from_str("StatelessReset"),
            PacketNum::VersionNegotiation => String::from_str("VersionNegotiation"),
            PacketNum::Unknown => String::from_str("Unknown"),
        }
    }
}

/// One in-progress sent-packet record, keyed by connection id and packet
/// number.
pub struct SentEntry {
    pub cid: String,
    pub packet_num: PacketNum,
    pub packet: PacketSent,
}

/// One in-progress received-packet record, with the wall-clock time
/// captured when it was first buffered.
pub struct ReceivedEntry {
    pub cid: String,
    pub packet_num: PacketNum,
    pub packet: PacketReceived,
    pub time: i64,
}

/// True when the entry is stored under the given key.
pub open spec fn sent_matches(e: SentEntry, cid: Seq<char>, num: PacketNum) -> bool {
    e.cid@ == cid && e.packet_num == num
}

/// True when some entry of the cache is stored under the given key.
pub open spec fn sent_has_key(s: Seq<SentEntry>, cid: Seq<char>, num: PacketNum) -> bool {
    exists|i: int| 0 <= i < s.len() && sent_matches(s[i], cid, num)
}

/// The position of the first entry stored under the given key, or the
/// cache's length when there is none.
pub open spec fn sent_index_of(s: Seq<SentEntry>, cid: Seq<char>, num: PacketNum) -> int
    decreases s.len(),
{
    if s.len() == 0 {
        0
    } else if sent_matches(s[0], cid, num) {
        0
    } else {
        1 + sent_index_of(s.drop_first(), cid, num)
    }
}

/// No two entries of the cache share a key.
pub open spec fn sent_keys_unique(s: Seq<SentEntry>) -> bool {
    forall|i: int, j: int|
        0 <= i < j < s.len() ==> !(s[i].cid@ == s[j].cid@ && s[i].packet_num == s[j].packet_num)
}

pub proof fn lemma_sent_index_of(s: Seq<SentEntry>, cid: Seq<char>, num: PacketNum)
    ensures
        0 <= sent_index_of(s, cid, num) <= s.len(),
        sent_has_key(s, cid, num) <==> sent_index_of(s, cid, num) < s.len(),
        sent_index_of(s, cid, num) < s.len() ==> sent_matches(s[sent_index_of(s, cid, num)], cid, num),
        forall|j: int| 0 <= j < sent_index_of(s, cid, num) ==> !sent_matches(s[j], cid, num),
    decreases s.len(),
{
    if s.len() == 0 {
    } else if sent_matches(s[0], cid, num) {
    } else {
        lemma_sent_index_of(s.drop_first(), cid, num);
        let idx = sent_index_of(s, cid, num);
        assert forall|j: int| 0 <= j < idx implies !sent_matches(s[j], cid, num) by {
            if j > 0 {
                assert(s.drop_first()[j - 1] == s[j]);
            }
        }
        if sent_has_key(s, cid, num) {
            let i = choose|i: int| 0 <= i < s.len() && sent_matches(s[i], cid, num);
            assert(s.drop_first()[i - 1] == s[i]);
            assert(sent_has_key(s.drop_first(), cid, num));
        }
        if sent_has_key(s.drop_first(), cid, num) {
            let i = choose|i: int|
                0 <= i < s.drop_first().len() && sent_matches(s.drop_first()[i], cid, num);
            assert(s[i + 1] == s.drop_first()[i]);
            assert(sent_has_key(s, cid, num));
        }
    }
}

/// Removing an entry keeps the remaining keys unique.
pub proof fn lemma_sent_unique_remove(s: Seq<SentEntry>, i: int)
    requires
        sent_keys_unique(s),
        0 <= i < s.len(),
    ensures
        sent_keys_unique(s.remove(i)),
{
    let t = s.remove(i);
    assert forall|a: int, b: int|
        0 <= a < b < t.len() implies !(t[a].cid@ == t[b].cid@ && t[a].packet_num
        == t[b].packet_num) by {
        let a0: int = if a < i {
            a
        } else {
            a + 1
        };
        let b0: int = if b < i {
            b
        } else {
            b + 1
        };
        assert(t[a] == s[a0]);
        assert(t[b] == s[b0]);
    }
}

/// True when the entry is stored under the given key.
pub open spec fn recv_matches(e: ReceivedEntry, cid: Seq<char>, num: PacketNum) -> bool {
    e.cid@ == cid && e.packet_num == num
}

/// True when some entry of the cache is stored under the given key.
pub open spec fn recv_has_key(s: Seq<ReceivedEntry>, cid: Seq<char>, num: PacketNum) -> bool {
    exists|i: int| 0 <= i < s.len() && recv_matches(s[i], cid, num)
}

/// The position of the first entry stored under the given key, or the
/// cache's length when there is none.
pub open spec fn recv_index_of(s: Seq<ReceivedEntry>, cid: Seq<char>, num: PacketNum) -> int
    decreases s.len(),
{
    if s.len() == 0 {
        0
    } else if recv_matches(s[0], cid, num) {
        0
    } else {
        1 + recv_index_of(s.drop_first(), cid, num)
    }
}

/// No two entries of the cache share a key.
pub open spec fn recv_keys_unique(s: Seq<ReceivedEntry>) -> bool {
    forall|i: int, j: int|
        0 <= i < j < s.len() ==> !(s[i].cid@ == s[j].cid@ && s[i].packet_num == s[j].packet_num)
}

pub proof fn lemma_recv_index_of(s: Seq<ReceivedEntry>, cid: Seq<char>, num: PacketNum)
    ensures
        0 <= recv_index_of(s, cid, num) <= s.len(),
        recv_has_key(s, cid, num) <==> recv_index_of(s, cid, num) < s.len(),
        recv_index_of(s, cid, num) < s.len() ==> recv_matches(s[recv_index_of(s, cid, num)], cid, num),
        forall|j: int| 0 <= j < recv_index_of(s, cid, num) ==> !recv_matches(s[j], cid, num),
    decreases s.len(),
{
    if s.len() == 0 {
    } else if recv_matches(s[0], cid, num) {
    } else {
        lemma_recv_index_of(s.drop_first(), cid, num);
        let idx = recv_index_of(s, cid, num);
        assert forall|j: int| 0 <= j < idx implies !recv_matches(s[j], cid, num) by {
            if j > 0 {
                assert(s.drop_first()[j - 1] == s[j]);
            }
        }
        if recv_has_key(s, cid, num) {
            let i = choose|i: int| 0 <= i < s.len() && recv_matches(s[i], cid, num);
            assert(s.drop_first()[i - 1] == s[i]);
            assert(recv_has_key(s.drop_first(), cid, num));
        }
        if recv_has_key(s.drop_first(), cid, num) {
            let i = choose|i: int|
                0 <= i < s.drop_first().len() && recv_matches(s.drop_first()[i], cid, num);
            assert(s[i + 1] == s.drop_first()[i]);
            assert(recv_has_key(s, cid, num));
        }
    }
}

/// Removing an entry keeps the remaining keys unique.
pub proof fn lemma_recv_unique_remove(s: Seq<ReceivedEntry>, i: int)
    requires
        recv_keys_unique(s),
        0 <= i < s.len(),
    ensures
        recv_keys_unique(s.remove(i)),
{
    let t = s.remove(i);
    assert forall|a: int, b: int|
        0 <= a < b < t.len() implies !(t[a].cid@ == t[b].cid@ && t[a].packet_num
        == t[b].packet_num) by {
        let a0: int = if a < i {
            a
        } else {
            a + 1
        };
        let b0: int = if b < i {
            b
        } else {
            b + 1
        };
        assert(t[a] == s[a0]);
        assert(t[b] == s[b0]);
    }
}

/// The abstract state of the engine.
pub ghost struct WriterModel {
    /// Whether an output path was configured; absent output means every
    /// submission is accepted and silently discarded.
    pub enabled: bool,
    /// Whether the header record has been written (vacuously true when
    /// output is disabled).
    pub header_written: bool,
    /// Control-stream events still waiting for their correlation id,
    /// oldest first.
    pub pending: Seq<Event>,
    /// The in-progress sent-packet records, in insertion order.
    pub sent: Seq<SentEntry>,
    /// The in-progress received-packet records, in insertion order.
    pub received: Seq<ReceivedEntry>,
}

/// The engine's invariant: with output disabled the header counts as
/// written and nothing is ever buffered, and each cache holds at most one
/// record per key.
pub open spec fn model_wf(m: WriterModel) -> bool {
    &&& (!m.enabled ==> m.header_written && m.pending.len() == 0)
    &&& sent_keys_unique(m.sent)
    &&& recv_keys_unique(m.received)
}

/// True of a control-stream creation or parse event that still carries the
/// placeholder correlation id: such an event is buffered until the session
/// event that knows the real id arrives.
pub open spec fn is_pending_session_stream(e: Event) -> bool {
    &&& (e.name@ == "moq-transfork-03:stream_created"@ || e.name@
        == "moq-transfork-03:stream_parsed"@)
    &&& (e.group_id matches Some(g) && g@ == "0"@)
    &&& moq_stream_type_of(e) == Some(MoqStreamType::Session)
}

/// The buffered event with its correlation id patched from the session
/// event that resolved it.
pub open spec fn patched_with_group_id(stream_event: Event, session_event: Event) -> Event {
    Event { group_id: session_event.group_id, ..stream_event }
}

/// What a submission appends to the trace: nothing while output is
/// disabled or the event is buffered; the patched stream event followed by
/// the session event when a buffered entry is resolved; the event alone
/// otherwise.
pub open spec fn submit_emits(m: WriterModel, e: Event) -> Seq<Event> {
    if !m.enabled {
        Seq::<Event>::empty()
    } else if is_pending_session_stream(e) {
        Seq::<Event>::empty()
    } else if is_session_started_client(e) {
        if m.pending.len() > 0 {
            seq![patched_with_group_id(m.pending[0], e), e]
        } else {
            seq![e]
        }
    } else {
        seq![e]
    }
}

/// The pending-stream queue after a submission.
pub open spec fn submit_pending_after(m: WriterModel, e: Event) -> Seq<Event> {
    if !m.enabled {
        m.pending
    } else if is_pending_session_stream(e) {
        m.pending.push(e)
    } else if is_session_started_client(e) {
        if m.pending.len() > 0 {
            m.pending.drop_first()
        } else {
            m.pending
        }
    } else {
        m.pending
    }
}

/// The engine state after a submission.
pub open spec fn submit_model_after(m: WriterModel, e: Event) -> WriterModel {
    WriterModel { pending: submit_pending_after(m, e), ..m }
}

/// The streaming writer and correlation engine. It holds no file and no
/// channel: every operation reports the events to append to the trace,
/// and the surrounding process performs the output.
pub struct QlogWriter {
    enabled: bool,
    file_details_written: bool,
    cached_events: VecDeque<Event>,
    cached_sent_quic_packets: Vec<SentEntry>,
    cached_received_quic_packets: Vec<ReceivedEntry>,
}

impl View for QlogWriter {
    type V = WriterModel;

    closed spec fn view(&self) -> WriterModel {
        WriterModel {
            enabled: self.enabled,
            header_written: self.file_details_written,
            pending: self.cached_events@,
            sent: self.cached_sent_quic_packets@,
            received: self.cached_received_quic_packets@,
        }
    }
}

impl QlogWriter {
    pub open spec fn wf(self) -> bool {
        model_wf(self@)
    }

    /// Builds the engine. With output enabled the header record is owed
    /// before the first event; with output disabled the engine starts in
    /// its silently discarding mode.
    pub fn new(enabled: bool) -> (r: Self)
        ensures
            r.wf(),
            r@.enabled == enabled,
            r@.header_written == !enabled,
            r@.pending.len() == 0,
            r@.sent.len() == 0,
            r@.received.len() == 0,
    {
        QlogWriter {
            enabled,
            file_details_written: !enabled,
            cached_events: VecDeque::new(),
            cached_sent_quic_packets: Vec::new(),
            cached_received_quic_packets: Vec::new(),
        }
    }

    /// Builds the header record that lets trace readers interpret the
    /// events, marks the header as written, and returns the record to
    /// emit; with output disabled nothing is built and nothing is owed.
    pub fn log_file_details(
        &mut self,
        file_title: Option<String>,
        file_description: Option<String>,
        trace_title: Option<String>,
        trace_description: Option<String>,
        vantage_point: Option<VantagePoint>,
        custom_fields: Option<Vec<(String, String)>>,
    ) -> (r: Option<QlogFileSeq>)
        requires
            old(self).wf(),
        ensures
            final(self).wf(),
            final(self)@.header_written,
            final(self)@.enabled == old(self)@.enabled,
            final(self)@.pending == old(self)@.pending,
            final(self)@.sent == old(self)@.sent,
            final(self)@.received == old(self)@.received,
            r is Some <==> old(self)@.enabled,
            r matches Some(q) ==> {
                &&& q.log_file_details.file_schema@ == "urn:ietf:params:qlog:file:sequential"@
                &&& q.log_file_details.serialization_format@ == "application/qlog+json-seq"@
                &&& q.log_file_details.title == file_title
                &&& q.log_file_details.description == file_description
                &&& q.trace.title == trace_title
                &&& q.trace.description == trace_description
                &&& q.trace.vantage_point == vantage_point
                &&& q.trace.event_schemas@.len() == 2
                &&& q.trace.event_schemas@[0]@ == "urn:ietf:params:qlog:events:moq-transfork-03"@
                &&& q.trace.event_schemas@[1]@ == "urn:ietf:params:qlog:events:quic-10"@
                &&& (q.trace.common_fields matches Some(cf) && {
                    &&& (cf.path matches Some(p) && p@.len() == 0)
                    &&& cf.time_format == Some(TimeFormat::RelativeToEpoch)
                    &&& (cf.reference_time matches Some(t) && t.clock_type is System
                        && t.wall_clock_time is None && (t.epoch matches Epoch::Rfc3339DateTime(e)
                        && e@ == "1970-01-01T00:00:00.000Z"@))
                    &&& cf.group_id is None
                    &&& cf.custom_fields@ == (match custom_fields {
                        Some(fields) => fields@,
                        None => Seq::<(String, String)>::empty(),
                    })
                })
            },
    {
        if self.enabled {
            let log_file_details = LogFile::new(file_title, file_description);
            let common_fields = match custom_fields {
                Some(fields) => CommonFields::new(
                    Some(String::new()),
                    Some(TimeFormat::default()),
                    Some(ReferenceTime::default()),
                    None,
                    Some(fields),
                ),
                None => CommonFields::default(),
            };
            let trace = TraceSeq::new(
                trace_title,
                trace_description,
                Some(common_fields),
                vantage_point,
            );
            let qlog_file_seq = QlogFileSeq::new(log_file_details, trace);
            self.file_details_written = true;
            Some(qlog_file_seq)
        } else {
            None
        }
    }

    /// True of a control-stream creation or parse event still carrying the
    /// placeholder correlation id.
    fn is_session_stream_without_id(event: &Event) -> (r: bool)
        ensures
            r == is_pending_session_stream(*event),
    {
        let created = String::from_str("moq-transfork-03:stream_created");
        let parsed = String::from_str("moq-transfork-03:stream_parsed");
        if !(*event.get_name() == created) && !(*event.get_name() == parsed) {
            return false;
        }
        let placeholder = String::from_str("0");
        let id_is_placeholder = match event.get_group_id() {
            Some(group_id) => *group_id == placeholder,
            None => false,
        };
        if !id_is_placeholder {
            return false;
        }
        match event.moq_get_stream_type() {
            Some(stream_type) => *stream_type == MoqStreamType::Session,
            None => false,
        }
    }

    /// The sole entry point for ordinary events. An event submitted before
    /// the header record is a startup-ordering bug and is refused; a
    /// pending control-stream event is buffered; a locally initiated
    /// session event resolves the oldest buffered entry, patches its id
    /// and emits both, stream record first; anything else is emitted
    /// directly. The returned events are what the trace receives, in
    /// order.
    pub fn log_event(&mut self, event: Event) -> (r: Result<Vec<Event>, WriterError>)
        requires
            old(self).wf(),
        ensures
            final(self).wf(),
            match r {
                Ok(es) => {
                    &&& old(self)@.header_written
                    &&& es@ == submit_emits(old(self)@, event)
                    &&& final(self)@ == submit_model_after(old(self)@, event)
                },
                Err(e) => {
                    &&& e == WriterError::HeaderNotWritten
                    &&& !old(self)@.header_written
                    &&& final(self)@ == old(self)@
                },
            },
    {
        if !self.file_details_written {
            return Err(WriterError::HeaderNotWritten);
        }
        let is_session_started_event = event.moq_is_session_started_client();
        let mut session_stream_event_option: Option<Event> = None;
        if is_session_started_event {
            session_stream_event_option = self.cached_events.pop_front();
        }
        let mut emitted: Vec<Event> = Vec::new();
        if self.enabled {
            if Self::is_session_stream_without_id(&event) {
                self.cached_events.push_back(event);
            } else if is_session_started_event {
                match session_stream_event_option {
                    Some(mut session_stream_event) => {
                        session_stream_event.set_group_id(event.get_group_id());
                        proof {
                            assert(session_stream_event =~= patched_with_group_id(
                                old(self)@.pending[0],
                                event,
                            ));
                        }
                        emitted.push(session_stream_event);
                        emitted.push(event);
                    },
                    None => {
                        // No stream-creation record is waiting to pair
                        // with: the session event goes out alone.
                        emitted.push(event);
                    },
                }
            } else {
                emitted.push(event);
            }
        } else {
        }
        Ok(emitted)
    }
}

/// A sent-packet record extended by one frame, every other field kept.
pub open spec fn packet_sent_with_frame(after: PacketSent, before: PacketSent, frame: QuicFrame) -> bool {
    &&& (after.frames matches Some(fs) && fs@ == (match before.frames {
        Some(o) => o@,
        None => Seq::<QuicFrame>::empty(),
    }).push(frame))
    &&& after.header == before.header
    &&& after.stateless_reset_token == before.stateless_reset_token
    &&& after.supported_versions == before.supported_versions
    &&& after.raw == before.raw
    &&& after.datagram_id == before.datagram_id
    &&& after.is_mtu_probe_packet == before.is_mtu_probe_packet
    &&& after.trigger == before.trigger
}

/// A received-packet record extended by one frame, every other field kept.
pub open spec fn packet_received_with_frame(
    after: PacketReceived,
    before: PacketReceived,
    frame: QuicFrame,
) -> bool {
    &&& (after.frames matches Some(fs) && fs@ == (match before.frames {
        Some(o) => o@,
        None => Seq::<QuicFrame>::empty(),
    }).push(frame))
    &&& after.header == before.header
    &&& after.stateless_reset_token == before.stateless_reset_token
    &&& after.supported_versions == before.supported_versions
    &&& after.raw == before.raw
    &&& after.datagram_id == before.datagram_id
    &&& after.trigger == before.trigger
}

impl QlogWriter {
    /// The position of the record stored under the given key, if any.
    fn sent_find(cache: &Vec<SentEntry>, cid: &String, packet_num: PacketNum) -> (r: Option<usize>)
        ensures
            match r {
                Some(i) => i < cache@.len() && sent_matches(cache@[i as int], cid@, packet_num) && i
                    == sent_index_of(cache@, cid@, packet_num),
                None => !sent_has_key(cache@, cid@, packet_num),
            },
    {
        let mut i: usize = 0;
        while i < cache.len()
            invariant
                i <= cache@.len(),
                forall|j: int| 0 <= j < i ==> !sent_matches(cache@[j], cid@, packet_num),
            decreases cache@.len() - i,
        {
            let e = &cache[i];
            if e.packet_num == packet_num && e.cid == *cid {
                proof {
                    lemma_sent_index_of(cache@, cid@, packet_num);
                }
                return Some(i);
            }
            i = i + 1;
        }
        proof {
            if sent_has_key(cache@, cid@, packet_num) {
                let w = choose|w: int|
                    0 <= w < cache@.len() && sent_matches(cache@[w], cid@, packet_num);
                assert(!sent_matches(cache@[w], cid@, packet_num));
            }
        }
        None
    }

    /// The position of the record stored under the given key, if any.
    fn recv_find(cache: &Vec<ReceivedEntry>, cid: &String, packet_num: PacketNum) -> (r: Option<
        usize,
    >)
        ensures
            match r {
                Some(i) => i < cache@.len() && recv_matches(cache@[i as int], cid@, packet_num) && i
                    == recv_index_of(cache@, cid@, packet_num),
                None => !recv_has_key(cache@, cid@, packet_num),
            },
    {
        let mut i: usize = 0;
        while i < cache.len()
            invariant
                i <= cache@.len(),
                forall|j: int| 0 <= j < i ==> !recv_matches(cache@[j], cid@, packet_num),
            decreases cache@.len() - i,
        {
            let e = &cache[i];
            if e.packet_num == packet_num && e.cid == *cid {
                proof {
                    lemma_recv_index_of(cache@, cid@, packet_num);
                }
                return Some(i);
            }
            i = i + 1;
        }
        proof {
            if recv_has_key(cache@, cid@, packet_num) {
                let w = choose|w: int|
                    0 <= w < cache@.len() && recv_matches(cache@[w], cid@, packet_num);
                assert(!recv_matches(cache@[w], cid@, packet_num));
            }
        }
        None
    }

    /// Inserts a new in-progress sent-packet record. A live record already
    /// under that key is overwritten, and the overwrite is reported: it
    /// signals a retransmission-key collision or a packet that was never
    /// finalized, a correctness smell rather than an error.
    pub fn cache_quic_packet_sent(&mut self, cid: String, packet_num: PacketNum, packet: PacketSent) -> (overwrote: bool)
        requires
            old(self).wf(),
        ensures
            final(self).wf(),
            final(self)@.enabled == old(self)@.enabled,
            final(self)@.header_written == old(self)@.header_written,
            final(self)@.pending == old(self)@.pending,
            final(self)@.received == old(self)@.received,
            overwrote == sent_has_key(old(self)@.sent, cid@, packet_num),
            overwrote ==> final(self)@.sent == old(self)@.sent.update(
                sent_index_of(old(self)@.sent, cid@, packet_num),
                (SentEntry { cid, packet_num, packet }),
            ),
            !overwrote ==> final(self)@.sent == old(self)@.sent.push(
                (SentEntry { cid, packet_num, packet }),
            ),
    {
        let ghost pre = self.cached_sent_quic_packets@;
        match Self::sent_find(&self.cached_sent_quic_packets, &cid, packet_num) {
            Some(i) => {
                self.cached_sent_quic_packets[i] = SentEntry { cid, packet_num, packet };
                proof {
                    let t = self.cached_sent_quic_packets@;
                    assert forall|a: int, b: int|
                        0 <= a < b < t.len() implies !(t[a].cid@ == t[b].cid@ && t[a].packet_num
                        == t[b].packet_num) by {
                        assert(pre[a].cid@ == t[a].cid@ && pre[a].packet_num == t[a].packet_num);
                        assert(pre[b].cid@ == t[b].cid@ && pre[b].packet_num == t[b].packet_num);
                    }
                }
                true
            },
            None => {
                self.cached_sent_quic_packets.push(SentEntry { cid, packet_num, packet });
                proof {
                    let t = self.cached_sent_quic_packets@;
                    assert forall|a: int, b: int|
                        0 <= a < b < t.len() implies !(t[a].cid@ == t[b].cid@ && t[a].packet_num
                        == t[b].packet_num) by {
                        if b == t.len() - 1 {
                            assert(!sent_matches(pre[a], t[b].cid@, t[b].packet_num));
                        }
                    }
                }
                false
            },
        }
    }

    /// Inserts a new in-progress received-packet record together with the
    /// wall-clock time of the call: a finalized received packet is stamped
    /// with this buffering time, not with the finalize time. Reports an
    /// overwrite like the sent variant.
    pub fn cache_quic_packet_received_at(
        &mut self,
        cid: String,
        packet_num: PacketNum,
        packet: PacketReceived,
        time: i64,
    ) -> (overwrote: bool)
        requires
            old(self).wf(),
        ensures
            final(self).wf(),
            final(self)@.enabled == old(self)@.enabled,
            final(self)@.header_written == old(self)@.header_written,
            final(self)@.pending == old(self)@.pending,
            final(self)@.sent == old(self)@.sent,
            overwrote == recv_has_key(old(self)@.received, cid@, packet_num),
            overwrote ==> final(self)@.received == old(self)@.received.update(
                recv_index_of(old(self)@.received, cid@, packet_num),
                (ReceivedEntry { cid, packet_num, packet, time }),
            ),
            !overwrote ==> final(self)@.received == old(self)@.received.push(
                (ReceivedEntry { cid, packet_num, packet, time }),
            ),
    {
        let ghost pre = self.cached_received_quic_packets@;
        match Self::recv_find(&self.cached_received_quic_packets, &cid, packet_num) {
            Some(i) => {
                self.cached_received_quic_packets[i] = ReceivedEntry {
                    cid,
                    packet_num,
                    packet,
                    time,
                };
                proof {
                    let t = self.cached_received_quic_packets@;
                    assert forall|a: int, b: int|
                        0 <= a < b < t.len() implies !(t[a].cid@ == t[b].cid@ && t[a].packet_num
                        == t[b].packet_num) by {
                        assert(pre[a].cid@ == t[a].cid@ && pre[a].packet_num == t[a].packet_num);
                        assert(pre[b].cid@ == t[b].cid@ && pre[b].packet_num == t[b].packet_num);
                    }
                }
                true
            },
            None => {
                self.cached_received_quic_packets.push(
                    ReceivedEntry { cid, packet_num, packet, time },
                );
                proof {
                    let t = self.cached_received_quic_packets@;
                    assert forall|a: int, b: int|
                        0 <= a < b < t.len() implies !(t[a].cid@ == t[b].cid@ && t[a].packet_num
                        == t[b].packet_num) by {
                        if b == t.len() - 1 {
                            assert(!recv_matches(pre[a], t[b].cid@, t[b].packet_num));
                        }
                    }
                }
                false
            },
        }
    }

    /// Inserts a received-packet record stamped with the wall-clock time
    /// of this call.
    pub fn cache_quic_packet_received(
        &mut self,
        cid: String,
        packet_num: PacketNum,
        packet: PacketReceived,
    ) -> (overwrote: bool)
        requires
            old(self).wf(),
        ensures
            final(self).wf(),
            final(self)@.enabled == old(self)@.enabled,
            final(self)@.header_written == old(self)@.header_written,
            final(self)@.pending == old(self)@.pending,
            final(self)@.sent == old(self)@.sent,
            overwrote == recv_has_key(old(self)@.received, cid@, packet_num),
            overwrote ==> exists|t: i64|
                final(self)@.received == old(self)@.received.update(
                    recv_index_of(old(self)@.received, cid@, packet_num),
                    (ReceivedEntry { cid, packet_num, packet, time: t }),
                ),
            !overwrote ==> exists|t: i64|
                final(self)@.received == old(self)@.received.push(
                    (ReceivedEntry { cid, packet_num, packet, time: t }),
                ),
    {
        let time = now_timestamp_millis();
        self.cache_quic_packet_received_at(cid, packet_num, packet, time)
    }

    /// Appends a frame to the in-progress sent-packet record under the
    /// given key. A frame observed before its packet was cached is a
    /// programmer error and is refused.
    pub fn quic_packet_sent_add_frame(
        &mut self,
        cid: String,
        packet_num: PacketNum,
        frame: QuicFrame,
    ) -> (r: Result<(), WriterError>)
        requires
            old(self).wf(),
        ensures
            final(self).wf(),
            final(self)@.enabled == old(self)@.enabled,
            final(self)@.header_written == old(self)@.header_written,
            final(self)@.pending == old(self)@.pending,
            final(self)@.received == old(self)@.received,
            match r {
                Ok(_) => {
                    let i = sent_index_of(old(self)@.sent, cid@, packet_num);
                    &&& sent_has_key(old(self)@.sent, cid@, packet_num)
                    &&& final(self)@.sent.len() == old(self)@.sent.len()
                    &&& (forall|j: int|
                        0 <= j < old(self)@.sent.len() && j != i ==> final(self)@.sent[j] == old(
                            self,
                        )@.sent[j])
                    &&& final(self)@.sent[i].cid == old(self)@.sent[i].cid
                    &&& final(self)@.sent[i].packet_num == old(self)@.sent[i].packet_num
                    &&& packet_sent_with_frame(
                        final(self)@.sent[i].packet,
                        old(self)@.sent[i].packet,
                        frame,
                    )
                },
                Err(e) => {
                    &&& e == WriterError::UnknownPacketKey
                    &&& !sent_has_key(old(self)@.sent, cid@, packet_num)
                    &&& final(self)@ == old(self)@
                },
            },
    {
        match Self::sent_find(&self.cached_sent_quic_packets, &cid, packet_num) {
            Some(i) => {
                let ghost pre = self.cached_sent_quic_packets@;
                let entry = &mut self.cached_sent_quic_packets[i];
                entry.packet.add_frame(frame);
                proof {
                    let t = self.cached_sent_quic_packets@;
                    assert forall|a: int, b: int|
                        0 <= a < b < t.len() implies !(t[a].cid@ == t[b].cid@ && t[a].packet_num
                        == t[b].packet_num) by {
                        assert(pre[a].cid@ == t[a].cid@ && pre[a].packet_num == t[a].packet_num);
                        assert(pre[b].cid@ == t[b].cid@ && pre[b].packet_num == t[b].packet_num);
                    }
                }
                Ok(())
            },
            None => Err(WriterError::UnknownPacketKey),
        }
    }

    /// Appends a frame to the in-progress received-packet record under the
    /// given key. A frame observed before its packet was cached is a
    /// programmer error and is refused.
    pub fn quic_packet_received_add_frame(
        &mut self,
        cid: String,
        packet_num: PacketNum,
        frame: QuicFrame,
    ) -> (r: Result<(), WriterError>)
        requires
            old(self).wf(),
        ensures
            final(self).wf(),
            final(self)@.enabled == old(self)@.enabled,
            final(self)@.header_written == old(self)@.header_written,
            final(self)@.pending == old(self)@.pending,
            final(self)@.sent == old(self)@.sent,
            match r {
                Ok(_) => {
                    let i = recv_index_of(old(self)@.received, cid@, packet_num);
                    &&& recv_has_key(old(self)@.received, cid@, packet_num)
                    &&& final(self)@.received.len() == old(self)@.received.len()
                    &&& (forall|j: int|
                        0 <= j < old(self)@.received.len() && j != i ==> final(self)@.received[j]
                            == old(self)@.received[j])
                    &&& final(self)@.received[i].cid == old(self)@.received[i].cid
                    &&& final(self)@.received[i].packet_num == old(self)@.received[i].packet_num
                    &&& final(self)@.received[i].time == old(self)@.received[i].time
                    &&& packet_received_with_frame(
                        final(self)@.received[i].packet,
                        old(self)@.received[i].packet,
                        frame,
                    )
                },
                Err(e) => {
                    &&& e == WriterError::UnknownPacketKey
                    &&& !recv_has_key(old(self)@.received, cid@, packet_num)
                    &&& final(self)@ == old(self)@
                },
            },
    {
        match Self::recv_find(&self.cached_received_quic_packets, &cid, packet_num) {
            Some(i) => {
                let ghost pre = self.cached_received_quic_packets@;
                let entry = &mut self.cached_received_quic_packets[i];
                entry.packet.add_frame(frame);
                proof {
                    let t = self.cached_received_quic_packets@;
                    assert forall|a: int, b: int|
                        0 <= a < b < t.len() implies !(t[a].cid@ == t[b].cid@ && t[a].packet_num
                        == t[b].packet_num) by {
                        assert(pre[a].cid@ == t[a].cid@ && pre[a].packet_num == t[a].packet_num);
                        assert(pre[b].cid@ == t[b].cid@ && pre[b].packet_num == t[b].packet_num);
                    }
                }
                Ok(())
            },
            None => Err(WriterError::UnknownPacketKey),
        }
    }

    /// Adds a late-known payload length to a cached sent packet's recorded
    /// length. An absent record, an absent length value, or a sum beyond
    /// the field's range each leave the cache unchanged: an unknown length
    /// is a legitimate state, not an error. Reports whether a record was
    /// found.
    pub fn update_packet_length(&mut self, cid: String, packet_num: PacketNum, payload_length: u16) -> (found: bool)
        requires
            old(self).wf(),
        ensures
            final(self).wf(),
            final(self)@.enabled == old(self)@.enabled,
            final(self)@.header_written == old(self)@.header_written,
            final(self)@.pending == old(self)@.pending,
            final(self)@.received == old(self)@.received,
            found == sent_has_key(old(self)@.sent, cid@, packet_num),
            !found ==> final(self)@.sent == old(self)@.sent,
            found ==> {
                let i = sent_index_of(old(self)@.sent, cid@, packet_num);
                &&& final(self)@.sent.len() == old(self)@.sent.len()
                &&& (forall|j: int|
                    0 <= j < old(self)@.sent.len() && j != i ==> final(self)@.sent[j] == old(
                        self,
                    )@.sent[j])
                &&& final(self)@.sent[i].cid == old(self)@.sent[i].cid
                &&& final(self)@.sent[i].packet_num == old(self)@.sent[i].packet_num
                &&& final(self)@.sent[i].packet.header.length == (match old(
                    self,
                )@.sent[i].packet.header.length {
                    Some(l) => if l + payload_length <= u16::MAX {
                        Some((l + payload_length) as u16)
                    } else {
                        Some(l)
                    },
                    None => None::<u16>,
                })
                &&& final(self)@.sent[i].packet.frames == old(self)@.sent[i].packet.frames
                &&& final(self)@.sent[i].packet.header.packet_number == old(
                    self,
                )@.sent[i].packet.header.packet_number
            },
    {
        match Self::sent_find(&self.cached_sent_quic_packets, &cid, packet_num) {
            Some(i) => {
                let ghost pre = self.cached_sent_quic_packets@;
                let entry = &mut self.cached_sent_quic_packets[i];
                entry.packet.update_packet_length(payload_length);
                proof {
                    let t = self.cached_sent_quic_packets@;
                    assert forall|a: int, b: int|
                        0 <= a < b < t.len() implies !(t[a].cid@ == t[b].cid@ && t[a].packet_num
                        == t[b].packet_num) by {
                        assert(pre[a].cid@ == t[a].cid@ && pre[a].packet_num == t[a].packet_num);
                        assert(pre[b].cid@ == t[b].cid@ && pre[b].packet_num == t[b].packet_num);
                    }
                }
                true
            },
            None => false,
        }
    }
}

/// A finalized sent packet as it reaches the trace: a fresh packet-sent
/// event around the accumulated record, grouped under the connection id
/// and stamped with the finalize time.
pub open spec fn is_packet_sent_event(e: Event, p: PacketSent, cid: Seq<char>, t: i64) -> bool {
    fresh_event(
        e,
        "quic-10:packet_sent"@,
        ProtocolEventData::Quic10EventData(Quic10EventData::PacketSent(p)),
        Some(cid),
        t,
    )
}

/// A finalized received packet as it reaches the trace: a fresh
/// packet-received event around the accumulated record, grouped under the
/// connection id and stamped with the buffering time.
pub open spec fn is_packet_received_event(e: Event, p: PacketReceived, cid: Seq<char>, t: i64) -> bool {
    fresh_event(
        e,
        "quic-10:packet_received"@,
        ProtocolEventData::Quic10EventData(Quic10EventData::PacketReceived(p)),
        Some(cid),
        t,
    )
}

/// What finalizing a batch of keys leaves and yields.
pub ghost struct FinalizeSentOutcome {
    /// The sent-packet cache afterwards.
    pub cache: Seq<SentEntry>,
    /// The completed records, in key order.
    pub emitted: Seq<PacketSent>,
    /// The keys that held no record, in key order: each is a recoverable
    /// diagnostic, and the batch goes on past it.
    pub missing: Seq<PacketNum>,
}

/// Folds the finalization of `nums[k..]` over the cache: each present key
/// is removed and its record completed, each absent key is reported
/// missing, in order.
pub open spec fn finalize_sent_from(
    cache: Seq<SentEntry>,
    cid: Seq<char>,
    nums: Seq<PacketNum>,
    k: int,
) -> FinalizeSentOutcome
    decreases nums.len() - k,
{
    if k < 0 || k >= nums.len() {
        FinalizeSentOutcome {
            cache,
            emitted: Seq::<PacketSent>::empty(),
            missing: Seq::<PacketNum>::empty(),
        }
    } else {
        if sent_has_key(cache, cid, nums[k]) {
            let i = sent_index_of(cache, cid, nums[k]);
            let rest = finalize_sent_from(cache.remove(i), cid, nums, k + 1);
            FinalizeSentOutcome {
                cache: rest.cache,
                emitted: seq![cache[i].packet] + rest.emitted,
                missing: rest.missing,
            }
        } else {
            let rest = finalize_sent_from(cache, cid, nums, k + 1);
            FinalizeSentOutcome {
                cache: rest.cache,
                emitted: rest.emitted,
                missing: seq![nums[k]] + rest.missing,
            }
        }
    }
}

/// The full contract of finalizing a batch of sent-packet keys, given the
/// timestamp the batch is stamped with.
pub open spec fn finalize_sent_post(
    pre: WriterModel,
    post: WriterModel,
    cid: Seq<char>,
    nums: Seq<PacketNum>,
    r: Result<(Vec<Event>, Vec<PacketNum>), WriterError>,
    t: i64,
) -> bool {
    &&& post.enabled == pre.enabled
    &&& post.header_written == pre.header_written
    &&& post.pending == pre.pending
    &&& post.received == pre.received
    &&& match r {
        Ok(out) => {
            let fin = finalize_sent_from(pre.sent, cid, nums, 0);
            &&& pre.header_written
            &&& post.sent == fin.cache
            &&& out.1@ == fin.missing
            &&& (pre.enabled ==> out.0@.len() == fin.emitted.len() && (forall|i: int|
                0 <= i < out.0@.len() ==> is_packet_sent_event(out.0@[i], fin.emitted[i], cid, t)))
            &&& (!pre.enabled ==> out.0@.len() == 0)
        },
        Err(e) => {
            &&& e == WriterError::HeaderNotWritten
            &&& !pre.header_written
            &&& post == pre
        },
    }
}

impl QlogWriter {
    /// Finalizes a batch of sent packets at the given timestamp: each key
    /// with a record has the record removed and emitted as a complete
    /// packet-sent event; each key without one is reported back, and the
    /// batch continues past it. Requires the header to have been written,
    /// as every emission does.
    pub fn log_quic_packets_sent_at(
        &mut self,
        cid: String,
        packet_nums: Vec<PacketNum>,
        now: i64,
    ) -> (r: Result<(Vec<Event>, Vec<PacketNum>), WriterError>)
        requires
            old(self).wf(),
        ensures
            final(self).wf(),
            finalize_sent_post(old(self)@, final(self)@, cid@, packet_nums@, r, now),
    {
        if !self.file_details_written {
            return Err(WriterError::HeaderNotWritten);
        }
        let ghost pre = self@;
        let ghost total = finalize_sent_from(pre.sent, cid@, packet_nums@, 0);
        let mut events: Vec<Event> = Vec::new();
        let mut missing: Vec<PacketNum> = Vec::new();
        let ghost mut done: int = 0;
        let mut k: usize = 0;
        while k < packet_nums.len()
            invariant
                self.wf(),
                k <= packet_nums@.len(),
                self@.enabled == pre.enabled,
                self@.header_written == pre.header_written,
                self@.pending == pre.pending,
                self@.received == pre.received,
                pre.header_written,
                0 <= done,
                ({
                    let rest = finalize_sent_from(self@.sent, cid@, packet_nums@, k as int);
                    &&& total.cache == rest.cache
                    &&& total.missing == missing@ + rest.missing
                    &&& total.emitted.len() == done + rest.emitted.len()
                    &&& (forall|i: int|
                        0 <= i < rest.emitted.len() ==> total.emitted[done + i]
                            == #[trigger] rest.emitted[i])
                }),
                pre.enabled ==> events@.len() == done && (forall|i: int|
                    0 <= i < done ==> is_packet_sent_event(events@[i], total.emitted[i], cid@, now)),
                !pre.enabled ==> events@.len() == 0,
            decreases packet_nums@.len() - k,
        {
            let n = packet_nums[k];
            let ghost cache_before = self@.sent;
            let ghost rest_before = finalize_sent_from(cache_before, cid@, packet_nums@, k as int);
            match Self::sent_find(&self.cached_sent_quic_packets, &cid, n) {
                Some(i) => {
                    let entry = self.cached_sent_quic_packets.remove(i);
                    let ghost rest_after = finalize_sent_from(
                        self@.sent,
                        cid@,
                        packet_nums@,
                        k + 1,
                    );
                    proof {
                        lemma_sent_unique_remove(cache_before, i as int);
                        assert(sent_has_key(cache_before, cid@, n));
                        assert(rest_before.cache == rest_after.cache);
                        assert(rest_before.missing == rest_after.missing);
                        assert(rest_before.emitted == seq![cache_before[i as int].packet]
                            + rest_after.emitted);
                        assert(rest_before.emitted[0] == entry.packet);
                        assert(total.emitted[done + 0] == rest_before.emitted[0]);
                        assert forall|j: int|
                            0 <= j < rest_after.emitted.len() implies total.emitted[(done + 1) + j]
                            == rest_after.emitted[j] by {
                            assert(rest_before.emitted[j + 1] == rest_after.emitted[j]);
                            assert(total.emitted[done + (j + 1)] == rest_before.emitted[j + 1]);
                        }
                    }
                    if self.enabled {
                        let event = Event::new_quic_10_with_time(
                            "quic-10:packet_sent",
                            Quic10EventData::PacketSent(entry.packet),
                            Some(cid.clone()),
                            now,
                        );
                        events.push(event);
                        proof {
                            assert(events@[done] == event);
                            assert(is_packet_sent_event(event, total.emitted[done], cid@, now));
                        }
                    }
                    proof {
                        done = done + 1;
                    }
                },
                None => {
                    missing.push(n);
                    let ghost rest_after = finalize_sent_from(
                        self@.sent,
                        cid@,
                        packet_nums@,
                        k + 1,
                    );
                    proof {
                        assert(rest_before.cache == rest_after.cache);
                        assert(rest_before.emitted == rest_after.emitted);
                        assert(rest_before.missing == seq![n] + rest_after.missing);
                        assert(missing@ + rest_after.missing =~= total.missing);
                        assert forall|j: int|
                            0 <= j < rest_after.emitted.len() implies total.emitted[done + j]
                            == rest_after.emitted[j] by {
                            assert(total.emitted[done + j] == rest_before.emitted[j]);
                        }
                    }
                },
            }
            k = k + 1;
        }
        proof {
            let rest = finalize_sent_from(self@.sent, cid@, packet_nums@, k as int);
            assert(rest.cache == self@.sent);
            assert(missing@ + rest.missing =~= missing@);
            assert(total.missing == missing@);
        }
        Ok((events, missing))
    }

    /// Finalizes a batch of sent packets, stamping the emitted events with
    /// the wall-clock time of this call.
    pub fn log_quic_packets_sent(&mut self, cid: String, packet_nums: Vec<PacketNum>) -> (r: Result<
        (Vec<Event>, Vec<PacketNum>),
        WriterError,
    >)
        requires
            old(self).wf(),
        ensures
            final(self).wf(),
            exists|t: i64|
                finalize_sent_post(old(self)@, final(self)@, cid@, packet_nums@, r, t),
    {
        let now = now_timestamp_millis();
        let ghost nums = packet_nums@;
        let r = self.log_quic_packets_sent_at(cid, packet_nums, now);
        proof {
            assert(finalize_sent_post(old(self)@, final(self)@, cid@, nums, r, now));
        }
        r
    }

    /// Finalizes one received packet: if a record is cached under the key
    /// it is removed and emitted as a complete packet-received event,
    /// stamped with the wall-clock time captured when it was first
    /// buffered — not with the finalize time. An absent key is a
    /// recoverable diagnostic: nothing is emitted and nothing changes.
    pub fn log_quic_packets_received(&mut self, cid: String, packet_num: PacketNum) -> (r: Result<
        Option<Event>,
        WriterError,
    >)
        requires
            old(self).wf(),
        ensures
            final(self).wf(),
            final(self)@.enabled == old(self)@.enabled,
            final(self)@.header_written == old(self)@.header_written,
            final(self)@.pending == old(self)@.pending,
            final(self)@.sent == old(self)@.sent,
            match r {
                Ok(opt) => {
                    &&& old(self)@.header_written
                    &&& if recv_has_key(old(self)@.received, cid@, packet_num) {
                        let i = recv_index_of(old(self)@.received, cid@, packet_num);
                        &&& final(self)@.received == old(self)@.received.remove(i)
                        &&& (old(self)@.enabled ==> (opt matches Some(e)
                            && is_packet_received_event(
                            e,
                            old(self)@.received[i].packet,
                            cid@,
                            old(self)@.received[i].time,
                        )))
                        &&& (!old(self)@.enabled ==> opt is None)
                    } else {
                        &&& final(self)@.received == old(self)@.received
                        &&& opt is None
                    }
                },
                Err(e) => {
                    &&& e == WriterError::HeaderNotWritten
                    &&& !old(self)@.header_written
                    &&& final(self)@ == old(self)@
                },
            },
    {
        if !self.file_details_written {
            return Err(WriterError::HeaderNotWritten);
        }
        match Self::recv_find(&self.cached_received_quic_packets, &cid, packet_num) {
            Some(i) => {
                let ghost pre = self.cached_received_quic_packets@;
                let entry = self.cached_received_quic_packets.remove(i);
                proof {
                    lemma_recv_unique_remove(pre, i as int);
                }
                if self.enabled {
                    let event = Event::new_quic_10_with_time(
                        "quic-10:packet_received",
                        Quic10EventData::PacketReceived(entry.packet),
                        Some(cid),
                        entry.time,
                    );
                    Ok(Some(event))
                } else {
                    Ok(None)
                }
            },
            None => Ok(None),
        }
    }
}

} // verus!
