//! Payload vocabulary for QUIC transport events: packet headers, frames,
//! errors, state machines and trigger enumerations.

use vstd::prelude::*;

use crate::events::RawInfo;
use crate::util::HexString;

verus! {

/// A QUIC version, rendered as hexadecimal text.
pub type QuicVersion = HexString;

/// A connection id, rendered as hexadecimal text.
pub type ConnectionId = HexString;

/// An IP address in human-readable, raw-byte, hashed or redacted form.
pub type IpAddress = String;

/// The stateless reset token carried in stateless reset packets,
/// transport parameters and NEW_CONNECTION_ID frames.
pub type StatelessResetToken = HexString;

/// All strings from "crypto_error_0x100" to "crypto_error_0x1ff".
pub type CryptoError = String;

/// The payload of one QUIC transport event, a closed variant set.
pub enum Quic10EventData {
    ServerListening(crate::quic_10::events::ServerListening),
    ConnectionStarted(crate::quic_10::events::ConnectionStarted),
    ConnectionClosed(crate::quic_10::events::ConnectionClosed),
    ConnectionIdUpdated(crate::quic_10::events::ConnectionIdUpdated),
    SpinBitUpdated(crate::quic_10::events::SpinBitUpdated),
    ConnectionStateUpdated(crate::quic_10::events::ConnectionStateUpdated),
    PathAssigned(crate::quic_10::events::PathAssigned),
    MtuUpdated(crate::quic_10::events::MtuUpdated),
    VersionInformation(crate::quic_10::events::VersionInformation),
    AlpnInformation(crate::quic_10::events::AlpnInformation),
    ParametersSet(crate::quic_10::events::ParametersSet),
    ParametersRestored(crate::quic_10::events::ParametersRestored),
    PacketSent(crate::quic_10::events::PacketSent),
    PacketReceived(crate::quic_10::events::PacketReceived),
    PacketDropped(crate::quic_10::events::PacketDropped),
    PacketBuffered(crate::quic_10::events::PacketBuffered),
    PacketsAcked(crate::quic_10::events::PacketsAcked),
    UdpDatagramsSent(crate::quic_10::events::UdpDatagramsSent),
    UdpDatagramsReceived(crate::quic_10::events::UdpDatagramsReceived),
    UdpDatagramDropped(crate::quic_10::events::UdpDatagramDropped),
    StreamStateUpdated(crate::quic_10::events::StreamStateUpdated),
    FramesProcessed(crate::quic_10::events::FramesProcessed),
    StreamDataMoved(crate::quic_10::events::StreamDataMoved),
    DatagramDataMoved(crate::quic_10::events::DatagramDataMoved),
    MigrationStateUpdated(crate::quic_10::events::MigrationStateUpdated),
    KeyUpdated(crate::quic_10::events::KeyUpdated),
    KeyDiscarded(crate::quic_10::events::KeyDiscarded),
    RecoveryParametersSet(crate::quic_10::events::RecoveryParametersSet),
    RecoveryMetricsUpdated(crate::quic_10::events::RecoveryMetricsUpdated),
    CongestionStateUpdated(crate::quic_10::events::CongestionStateUpdated),
    LossTimerUpdated(crate::quic_10::events::LossTimerUpdated),
    PacketLost(crate::quic_10::events::PacketLost),
    MarkedForRetransmit(crate::quic_10::events::MarkedForRetransmit),
    EcnStateUpdated(crate::quic_10::events::EcnStateUpdated),
}

/// Which side of the connection an item belongs to.
#[derive(Clone, Copy, Debug, PartialEq, Eq, Structural)]
pub enum Owner {
    Local,
    Remote,
}

/// Single half/direction of a path: addresses and the connection ids
/// associated with it.
pub struct PathEndpointInfo {
    pub ip_v4: Option<IpAddress>,
    pub port_v4: Option<u16>,
    pub ip_v6: Option<IpAddress>,
    pub port_v6: Option<u16>,
    pub connection_ids: Vec<ConnectionId>,
}

impl PathEndpointInfo {
    pub fn new(
        ip_v4: Option<IpAddress>,
        port_v4: Option<u16>,
        ip_v6: Option<IpAddress>,
        port_v6: Option<u16>,
        connection_ids: Vec<ConnectionId>,
    ) -> (r: Self)
        ensures
            r.ip_v4 == ip_v4,
            r.port_v4 == port_v4,
            r.ip_v6 == ip_v6,
            r.port_v6 == port_v6,
            r.connection_ids == connection_ids,
    {
        Self { ip_v4, port_v4, ip_v6, port_v6, connection_ids }
    }
}

/// The wire type of a packet.
#[derive(Clone, Copy, Debug, PartialEq, Eq, Structural)]
pub enum PacketType {
    Initial,
    Handshake,
    ZeroRtt,
    OneRtt,
    Retry,
    VersionNegotiation,
    StatelessReset,
    Unknown,
}

/// A QUIC packet number space.
#[derive(Clone, Copy, Debug, PartialEq, Eq, Structural)]
pub enum PacketNumberSpace {
    Initial,
    Handshake,
    ApplicationData,
}

/// A packet header; which optional fields must be present depends on the
/// packet type, as the constructor's preconditions state.
pub struct PacketHeader {
    pub quic_bit: bool,
    pub packet_type: PacketType,
    pub packet_type_bytes: Option<u64>,
    pub packet_number: Option<u64>,
    /// The bit flags of the packet headers, up to and including the packet
    /// number length bits if present.
    pub flags: Option<u8>,
    pub token: Option<Token>,
    /// Length of the packet number plus the payload.
    pub length: Option<u16>,
    pub version: Option<QuicVersion>,
    pub scil: Option<u8>,
    pub dcil: Option<u8>,
    pub scid: Option<ConnectionId>,
    pub dcid: Option<ConnectionId>,
}

impl PacketHeader {
    pub fn new(
        quic_bit: Option<bool>,
        packet_type: PacketType,
        packet_type_bytes: Option<u64>,
        packet_number: Option<u64>,
        flags: Option<u8>,
        token: Option<Token>,
        length: Option<u16>,
        version: Option<QuicVersion>,
        scil: Option<u8>,
        dcil: Option<u8>,
        scid: Option<ConnectionId>,
        dcid: Option<ConnectionId>,
    ) -> (r: Self)
        requires
            packet_type == PacketType::Unknown ==> packet_type_bytes is Some,
            (packet_type == PacketType::Initial || packet_type == PacketType::Handshake
                || packet_type == PacketType::ZeroRtt || packet_type == PacketType::OneRtt)
                ==> packet_number is Some,
            (packet_type == PacketType::Initial || packet_type == PacketType::Retry)
                ==> token is Some,
            (packet_type == PacketType::Initial || packet_type == PacketType::Handshake
                || packet_type == PacketType::ZeroRtt) ==> length is Some,
        ensures
            r.quic_bit == match quic_bit {
                Some(b) => b,
                None => true,
            },
            r.packet_type == packet_type,
            r.packet_type_bytes == packet_type_bytes,
            r.packet_number == packet_number,
            r.flags == flags,
            r.token == token,
            r.length == length,
            r.version == version,
            r.scil == scil,
            r.dcil == dcil,
            r.scid == scid,
            r.dcid == dcid,
    {
        let quic_bit = match quic_bit {
            Some(b) => b,
            None => true,
        };
        Self {
            quic_bit,
            packet_type,
            packet_type_bytes,
            packet_number,
            flags,
            token,
            length,
            version,
            scil,
            dcil,
            scid,
            dcid,
        }
    }

    /// Adds a payload length to the recorded packet-number length, leaving
    /// the header unchanged when no length was recorded or the sum would not
    /// fit the field.
    pub fn update_packet_length(&mut self, payload_length: u16)
        ensures
            final(self).length == match old(self).length {
                Some(l) => if l + payload_length <= u16::MAX {
                    Some((l + payload_length) as u16)
                } else {
                    old(self).length
                },
                None => old(self).length,
            },
            final(self).quic_bit == old(self).quic_bit,
            final(self).packet_type == old(self).packet_type,
            final(self).packet_type_bytes == old(self).packet_type_bytes,
            final(self).packet_number == old(self).packet_number,
            final(self).flags == old(self).flags,
            final(self).token == old(self).token,
            final(self).version == old(self).version,
            final(self).scil == old(self).scil,
            final(self).dcil == old(self).dcil,
            final(self).scid == old(self).scid,
            final(self).dcid == old(self).dcid,
    {
        let packet_num_length = match self.length {
            Some(length) => length,
            // No recorded length means an unknown length: nothing to update.
            None => { return; },
        };
        if packet_num_length as u32 + payload_length as u32 <= 0xFFFF {
            self.length = Some(packet_num_length + payload_length);
        }
    }
}

/// The address-validation token carried in an Initial packet, with its
/// implementation-specific decoded fields.
pub struct Token {
    pub token_type: Option<TokenType>,
    /// Decoded fields included in the token, as key/value text pairs.
    pub details: Vec<(String, String)>,
    pub raw: Option<RawInfo>,
}

impl Token {
    pub fn new(
        token_type: Option<TokenType>,
        details: Option<Vec<(String, String)>>,
        raw: Option<RawInfo>,
    ) -> (r: Self)
        ensures
            r.token_type == token_type,
            r.details@ == match details {
                Some(d) => d@,
                None => Seq::<(String, String)>::empty(),
            },
            r.raw == raw,
    {
        let details = match details {
            Some(d) => d,
            None => Vec::new(),
        };
        Self { token_type, details, raw }
    }
}

/// How a token came to exist.
#[derive(Clone, Copy, Debug, PartialEq, Eq, Structural)]
pub enum TokenType {
    Retry,
    Resumption,
}

/// Which secret a key event concerns.
#[derive(Clone, Copy, Debug, PartialEq, Eq, Structural)]
pub enum KeyType {
    ServerInitialSecret,
    ClientInitialSecret,
    ServerHandshakeSecret,
    ClientHandshakeSecret,
    ServerZeroRttSecret,
    ClientZeroRttSecret,
    ServerOneRttSecret,
    ClientOneRttSecret,
}

/// Explicit congestion notification bits.
#[derive(Clone, Copy, Debug, PartialEq, Eq, Structural)]
pub enum Ecn {
    NotEct,
    EctOne,
    EctZero,
    Ce,
}

/// A frame carried in a packet.
pub enum QuicFrame {
    QuicBaseFrame(QuicBaseFrame),
}

/// The base catalogue of QUIC frames.
pub enum QuicBaseFrame {
    PaddingFrame(PaddingFrame),
    PingFrame(PingFrame),
    AckFrame(AckFrame),
    ResetStreamFrame(ResetStreamFrame),
    StopSendingFrame(StopSendingFrame),
    CryptoFrame(CryptoFrame),
    NewTokenFrame(NewTokenFrame),
    StreamFrame(StreamFrame),
    MaxDataFrame(MaxDataFrame),
    MaxStreamDataFrame(MaxStreamDataFrame),
    MaxStreamsFrame(MaxStreamsFrame),
    DataBlockedFrame(DataBlockedFrame),
    StreamDataBlockedFrame(StreamDataBlockedFrame),
    StreamsBlockedFrame(StreamsBlockedFrame),
    NewConnectionIdFrame(NewConnectionIdFrame),
    RetireConnectionIdFrame(RetireConnectionIdFrame),
    PathChallengeFrame(PathChallengeFrame),
    PathResponseFrame(PathResponseFrame),
    ConnectionCloseFrame(ConnectionCloseFrame),
    HandshakeDoneFrame(HandshakeDoneFrame),
    UnknownFrame(UnknownFrame),
    DatagramFrame(DatagramFrame),
}

impl QuicBaseFrame {
    /// The name of this frame's variant, as diagnostics print it.
    pub open spec fn variant_label_spec(self) -> Seq<char> {
        match self {
            QuicBaseFrame::PaddingFrame(_) => "PaddingFrame"@,
            QuicBaseFrame::PingFrame(_) => "PingFrame"@,
            QuicBaseFrame::AckFrame(_) => "AckFrame"@,
            QuicBaseFrame::ResetStreamFrame(_) => "ResetStreamFrame"@,
            QuicBaseFrame::StopSendingFrame(_) => "StopSendingFrame"@,
            QuicBaseFrame::CryptoFrame(_) => "CryptoFrame"@,
            QuicBaseFrame::NewTokenFrame(_) => "NewTokenFrame"@,
            QuicBaseFrame::StreamFrame(_) => "StreamFrame"@,
            QuicBaseFrame::MaxDataFrame(_) => "MaxDataFrame"@,
            QuicBaseFrame::MaxStreamDataFrame(_) => "MaxStreamDataFrame"@,
            QuicBaseFrame::MaxStreamsFrame(_) => "MaxStreamsFrame"@,
            QuicBaseFrame::DataBlockedFrame(_) => "DataBlockedFrame"@,
            QuicBaseFrame::StreamDataBlockedFrame(_) => "StreamDataBlockedFrame"@,
            QuicBaseFrame::StreamsBlockedFrame(_) => "StreamsBlockedFrame"@,
            QuicBaseFrame::NewConnectionIdFrame(_) => "NewConnectionIdFrame"@,
            QuicBaseFrame::RetireConnectionIdFrame(_) => "RetireConnectionIdFrame"@,
            QuicBaseFrame::PathChallengeFrame(_) => "PathChallengeFrame"@,
            QuicBaseFrame::PathResponseFrame(_) => "PathResponseFrame"@,
            QuicBaseFrame::ConnectionCloseFrame(_) => "ConnectionCloseFrame"@,
            QuicBaseFrame::HandshakeDoneFrame(_) => "HandshakeDoneFrame"@,
            QuicBaseFrame::UnknownFrame(_) => "UnknownFrame"@,
            QuicBaseFrame::DatagramFrame(_) => "DatagramFrame"@,
        }
    }

    /// Renders the variant's name, for diagnostics.
    pub fn variant_label(&self) -> (r: String)
        ensures
            r@ == self.variant_label_spec(),
    {
        match self {
            QuicBaseFrame::PaddingFrame(_) => String::from_str("PaddingFrame"),
            QuicBaseFrame::PingFrame(_) => String::from_str("PingFrame"),
            QuicBaseFrame::AckFrame(_) => String::from_str("AckFrame"),
            QuicBaseFrame::ResetStreamFrame(_) => String::from_str("ResetStreamFrame"),
            QuicBaseFrame::StopSendingFrame(_) => String::from_str("StopSendingFrame"),
            QuicBaseFrame::CryptoFrame(_) => String::from_str("CryptoFrame"),
            QuicBaseFrame::NewTokenFrame(_) => String::from_str("NewTokenFrame"),
            QuicBaseFrame::StreamFrame(_) => String::from_str("StreamFrame"),
            QuicBaseFrame::MaxDataFrame(_) => String::from_str("MaxDataFrame"),
            QuicBaseFrame::MaxStreamDataFrame(_) => String::from_str("MaxStreamDataFrame"),
            QuicBaseFrame::MaxStreamsFrame(_) => String::from_str("MaxStreamsFrame"),
            QuicBaseFrame::DataBlockedFrame(_) => String::from_str("DataBlockedFrame"),
            QuicBaseFrame::StreamDataBlockedFrame(_) => String::from_str("StreamDataBlockedFrame"),
            QuicBaseFrame::StreamsBlockedFrame(_) => String::from_str("StreamsBlockedFrame"),
            QuicBaseFrame::NewConnectionIdFrame(_) => String::from_str("NewConnectionIdFrame"),
            QuicBaseFrame::RetireConnectionIdFrame(_) => String::from_str(
                "RetireConnectionIdFrame",
            ),
            QuicBaseFrame::PathChallengeFrame(_) => String::from_str("PathChallengeFrame"),
            QuicBaseFrame::PathResponseFrame(_) => String::from_str("PathResponseFrame"),
            QuicBaseFrame::ConnectionCloseFrame(_) => String::from_str("ConnectionCloseFrame"),
            QuicBaseFrame::HandshakeDoneFrame(_) => String::from_str("HandshakeDoneFrame"),
            QuicBaseFrame::UnknownFrame(_) => String::from_str("UnknownFrame"),
            QuicBaseFrame::DatagramFrame(_) => String::from_str("DatagramFrame"),
        }
    }
}

/// The discriminator written into each frame record.
#[derive(Clone, Copy, Debug, PartialEq, Eq, Structural)]
pub enum FrameType {
    Padding,
    Ping,
    Ack,
    ResetStream,
    StopSending,
    Crypto,
    NewToken,
    Stream,
    MaxData,
    MaxStreamData,
    MaxStreams,
    DataBlocked,
    StreamDataBlocked,
    StreamsBlocked,
    NewConnectionId,
    RetireConnectionId,
    PathChallenge,
    PathResponse,
    ConnectionClose,
    HandshakeDone,
    Unknown,
    Datagram,
}

/// A run of PADDING bytes, logged as a single frame whose raw payload
/// length carries the byte count.
pub struct PaddingFrame {
    pub frame_type: FrameType,
    pub raw: Option<RawInfo>,
}

impl PaddingFrame {
    pub fn new(raw: Option<RawInfo>) -> (r: Self)
        ensures
            r.frame_type == FrameType::Padding,
            r.raw == raw,
    {
        Self { frame_type: FrameType::Padding, raw }
    }
}

pub struct PingFrame {
    pub frame_type: FrameType,
    pub raw: Option<RawInfo>,
}

impl PingFrame {
    pub fn new(raw: Option<RawInfo>) -> (r: Self)
        ensures
            r.frame_type == FrameType::Ping,
            r.raw == raw,
    {
        Self { frame_type: FrameType::Ping, raw }
    }
}

/// A run of acknowledged packet numbers: one or two values, the range ends.
pub type AckRange = Vec<u64>;

/// An ACK frame. The acknowledgment delay is kept as the IEEE-754 bit
/// pattern of the millisecond value, so the record stays within plain
/// integer arithmetic.
pub struct AckFrame {
    pub frame_type: FrameType,
    /// Bit pattern of the delay in milliseconds (single precision).
    pub ack_delay: Option<u32>,
    pub acked_ranges: Option<Vec<AckRange>>,
    pub ect1: Option<u64>,
    pub ect0: Option<u64>,
    pub ce: Option<u64>,
    pub raw: Option<RawInfo>,
}

impl AckFrame {
    pub fn new(
        ack_delay: Option<u32>,
        acked_ranges: Option<Vec<AckRange>>,
        ect1: Option<u64>,
        ect0: Option<u64>,
        ce: Option<u64>,
        raw: Option<RawInfo>,
    ) -> (r: Self)
        ensures
            r.frame_type == FrameType::Ack,
            r.ack_delay == ack_delay,
            r.acked_ranges == acked_ranges,
            r.ect1 == ect1,
            r.ect0 == ect0,
            r.ce == ce,
            r.raw == raw,
    {
        Self { frame_type: FrameType::Ack, ack_delay, acked_ranges, ect1, ect0, ce, raw }
    }
}

pub struct ResetStreamFrame {
    pub frame_type: FrameType,
    pub stream_id: u64,
    pub error_code: ApplicationError,
    pub error_code_bytes: Option<u64>,
    /// In bytes
    pub final_size: u64,
    pub raw: Option<RawInfo>,
}

impl ResetStreamFrame {
    pub fn new(
        stream_id: u64,
        error_code: ApplicationError,
        error_code_bytes: Option<u64>,
        final_size: u64,
        raw: Option<RawInfo>,
    ) -> (r: Self)
        requires
            error_code == ApplicationError::Unknown ==> error_code_bytes is Some,
        ensures
            r.frame_type == FrameType::ResetStream,
            r.stream_id == stream_id,
            r.error_code == error_code,
            r.error_code_bytes == error_code_bytes,
            r.final_size == final_size,
            r.raw == raw,
    {
        Self {
            frame_type: FrameType::ResetStream,
            stream_id,
            error_code,
            error_code_bytes,
            final_size,
            raw,
        }
    }
}

pub struct StopSendingFrame {
    pub frame_type: FrameType,
    pub stream_id: u64,
    pub error_code: ApplicationError,
    pub error_code_bytes: Option<u64>,
    pub raw: Option<RawInfo>,
}

impl StopSendingFrame {
    pub fn new(
        stream_id: u64,
        error_code: ApplicationError,
        error_code_bytes: Option<u64>,
        raw: Option<RawInfo>,
    ) -> (r: Self)
        requires
            error_code == ApplicationError::Unknown ==> error_code_bytes is Some,
        ensures
            r.frame_type == FrameType::StopSending,
            r.stream_id == stream_id,
            r.error_code == error_code,
            r.error_code_bytes == error_code_bytes,
            r.raw == raw,
    {
        Self { frame_type: FrameType::StopSending, stream_id, error_code, error_code_bytes, raw }
    }
}

pub struct CryptoFrame {
    pub frame_type: FrameType,
    pub offset: u64,
    pub length: u64,
    pub raw: Option<RawInfo>,
}

impl CryptoFrame {
    pub fn new(offset: u64, length: u64, raw: Option<RawInfo>) -> (r: Self)
        ensures
            r.frame_type == FrameType::Crypto,
            r.offset == offset,
            r.length == length,
            r.raw == raw,
    {
        Self { frame_type: FrameType::Crypto, offset, length, raw }
    }
}

pub struct NewTokenFrame {
    pub frame_type: FrameType,
    pub token: Token,
    pub raw: Option<RawInfo>,
}

impl NewTokenFrame {
    pub fn new(token: Token, raw: Option<RawInfo>) -> (r: Self)
        ensures
            r.frame_type == FrameType::NewToken,
            r.token == token,
            r.raw == raw,
    {
        Self { frame_type: FrameType::NewToken, token, raw }
    }
}

pub struct StreamFrame {
    pub frame_type: FrameType,
    pub stream_id: u64,
    pub offset: u64,
    pub length: u64,
    /// Absent on the wire means false.
    pub fin: bool,
    pub raw: Option<RawInfo>,
}

impl StreamFrame {
    pub fn new(stream_id: u64, offset: u64, length: u64, fin: Option<bool>, raw: Option<
        RawInfo,
    >) -> (r: Self)
        ensures
            r.frame_type == FrameType::Stream,
            r.stream_id == stream_id,
            r.offset == offset,
            r.length == length,
            r.fin == match fin {
                Some(b) => b,
                None => false,
            },
            r.raw == raw,
    {
        let fin = match fin {
            Some(b) => b,
            None => false,
        };
        Self { frame_type: FrameType::Stream, stream_id, offset, length, fin, raw }
    }
}

pub struct MaxDataFrame {
    pub frame_type: FrameType,
    pub maximum: u64,
    pub raw: Option<RawInfo>,
}

impl MaxDataFrame {
    pub fn new(maximum: u64, raw: Option<RawInfo>) -> (r: Self)
        ensures
            r.frame_type == FrameType::MaxData,
            r.maximum == maximum,
            r.raw == raw,
    {
        Self { frame_type: FrameType::MaxData, maximum, raw }
    }
}

pub struct MaxStreamDataFrame {
    pub frame_type: FrameType,
    pub stream_id: u64,
    pub maximum: u64,
    pub raw: Option<RawInfo>,
}

impl MaxStreamDataFrame {
    pub fn new(stream_id: u64, maximum: u64, raw: Option<RawInfo>) -> (r: Self)
        ensures
            r.frame_type == FrameType::MaxStreamData,
            r.stream_id == stream_id,
            r.maximum == maximum,
            r.raw == raw,
    {
        Self { frame_type: FrameType::MaxStreamData, stream_id, maximum, raw }
    }
}

pub struct MaxStreamsFrame {
    pub frame_type: FrameType,
    pub stream_type: StreamType,
    pub maximum: u64,
    pub raw: Option<RawInfo>,
}

impl MaxStreamsFrame {
    pub fn new(stream_type: StreamType, maximum: u64, raw: Option<RawInfo>) -> (r: Self)
        ensures
            r.frame_type == FrameType::MaxStreams,
            r.stream_type == stream_type,
            r.maximum == maximum,
            r.raw == raw,
    {
        Self { frame_type: FrameType::MaxStreams, stream_type, maximum, raw }
    }
}

pub struct DataBlockedFrame {
    pub frame_type: FrameType,
    pub limit: u64,
    pub raw: Option<RawInfo>,
}

impl DataBlockedFrame {
    pub fn new(limit: u64, raw: Option<RawInfo>) -> (r: Self)
        ensures
            r.frame_type == FrameType::DataBlocked,
            r.limit == limit,
            r.raw == raw,
    {
        Self { frame_type: FrameType::DataBlocked, limit, raw }
    }
}

pub struct StreamDataBlockedFrame {
    pub frame_type: FrameType,
    pub stream_id: u64,
    pub limit: u64,
    pub raw: Option<RawInfo>,
}

impl StreamDataBlockedFrame {
    pub fn new(stream_id: u64, limit: u64, raw: Option<RawInfo>) -> (r: Self)
        ensures
            r.frame_type == FrameType::StreamDataBlocked,
            r.stream_id == stream_id,
            r.limit == limit,
            r.raw == raw,
    {
        Self { frame_type: FrameType::StreamDataBlocked, stream_id, limit, raw }
    }
}

pub struct StreamsBlockedFrame {
    pub frame_type: FrameType,
    pub stream_type: StreamType,
    pub limit: u64,
    pub raw: Option<RawInfo>,
}

impl StreamsBlockedFrame {
    pub fn new(stream_type: StreamType, limit: u64, raw: Option<RawInfo>) -> (r: Self)
        ensures
            r.frame_type == FrameType::StreamsBlocked,
            r.stream_type == stream_type,
            r.limit == limit,
            r.raw == raw,
    {
        Self { frame_type: FrameType::StreamsBlocked, stream_type, limit, raw }
    }
}

pub struct NewConnectionIdFrame {
    pub frame_type: FrameType,
    pub sequence_number: u32,
    pub retire_prior_to: u32,
    /// Used if e.g. for privacy reasons the full connection id cannot be logged.
    pub connection_id_length: Option<u8>,
    pub connection_id: ConnectionId,
    pub stateless_reset_token: Option<StatelessResetToken>,
    pub raw: Option<RawInfo>,
}

impl NewConnectionIdFrame {
    pub fn new(
        sequence_number: u32,
        retire_prior_to: u32,
        connection_id_length: Option<u8>,
        connection_id: ConnectionId,
        stateless_reset_token: Option<StatelessResetToken>,
        raw: Option<RawInfo>,
    ) -> (r: Self)
        ensures
            r.frame_type == FrameType::NewConnectionId,
            r.sequence_number == sequence_number,
            r.retire_prior_to == retire_prior_to,
            r.connection_id_length == connection_id_length,
            r.connection_id == connection_id,
            r.stateless_reset_token == stateless_reset_token,
            r.raw == raw,
    {
        Self {
            frame_type: FrameType::NewConnectionId,
            sequence_number,
            retire_prior_to,
            connection_id_length,
            connection_id,
            stateless_reset_token,
            raw,
        }
    }
}

pub struct RetireConnectionIdFrame {
    pub frame_type: FrameType,
    pub sequence_number: u32,
    pub raw: Option<RawInfo>,
}

impl RetireConnectionIdFrame {
    pub fn new(sequence_number: u32, raw: Option<RawInfo>) -> (r: Self)
        ensures
            r.frame_type == FrameType::RetireConnectionId,
            r.sequence_number == sequence_number,
            r.raw == raw,
    {
        Self { frame_type: FrameType::RetireConnectionId, sequence_number, raw }
    }
}

pub struct PathChallengeFrame {
    pub frame_type: FrameType,
    /// Always 64 bits
    pub data: Option<HexString>,
    pub raw: Option<RawInfo>,
}

impl PathChallengeFrame {
    pub fn new(data: Option<HexString>, raw: Option<RawInfo>) -> (r: Self)
        ensures
            r.frame_type == FrameType::PathChallenge,
            r.data == data,
            r.raw == raw,
    {
        Self { frame_type: FrameType::PathChallenge, data, raw }
    }
}

pub struct PathResponseFrame {
    pub frame_type: FrameType,
    /// Always 64 bits
    pub data: Option<HexString>,
    pub raw: Option<RawInfo>,
}

impl PathResponseFrame {
    pub fn new(data: Option<HexString>, raw: Option<RawInfo>) -> (r: Self)
        ensures
            r.frame_type == FrameType::PathResponse,
            r.data == data,
            r.raw == raw,
    {
        Self { frame_type: FrameType::PathResponse, data, raw }
    }
}

/// Which error namespace a close code belongs to.
#[derive(Clone, Copy, Debug, PartialEq, Eq, Structural)]
pub enum ErrorSpace {
    Transport,
    Application,
}

pub struct ConnectionCloseFrame {
    pub frame_type: FrameType,
    pub error_space: Option<ErrorSpace>,
    pub error_code: Option<Error>,
    pub error_code_bytes: Option<u64>,
    pub reason: Option<String>,
    pub reason_bytes: Option<HexString>,
    pub trigger_frame_type: Option<TriggerFrameType>,
    pub raw: Option<RawInfo>,
}

impl ConnectionCloseFrame {
    pub fn new(
        error_space: Option<ErrorSpace>,
        error_code: Option<Error>,
        error_code_bytes: Option<u64>,
        reason: Option<String>,
        reason_bytes: Option<HexString>,
        trigger_frame_type: Option<TriggerFrameType>,
        raw: Option<RawInfo>,
    ) -> (r: Self)
        requires
            (error_code == Some(Error::ApplicationError(ApplicationError::Unknown)) || error_code
                == Some(Error::TransportError(TransportError::Unknown)))
                ==> error_code_bytes is Some,
            error_space == Some(ErrorSpace::Transport) ==> trigger_frame_type is Some,
        ensures
            r.frame_type == FrameType::ConnectionClose,
            r.error_space == error_space,
            r.error_code == error_code,
            r.error_code_bytes == error_code_bytes,
            r.reason == reason,
            r.reason_bytes == reason_bytes,
            r.trigger_frame_type == trigger_frame_type,
            r.raw == raw,
    {
        Self {
            frame_type: FrameType::ConnectionClose,
            error_space,
            error_code,
            error_code_bytes,
            reason,
            reason_bytes,
            trigger_frame_type,
            raw,
        }
    }
}

/// The frame type that triggered a transport close, numeric or textual.
pub enum TriggerFrameType {
    U64(u64),
    Text(String),
}

pub struct HandshakeDoneFrame {
    pub frame_type: FrameType,
    pub raw: Option<RawInfo>,
}

impl HandshakeDoneFrame {
    pub fn new(raw: Option<RawInfo>) -> (r: Self)
        ensures
            r.frame_type == FrameType::HandshakeDone,
            r.raw == raw,
    {
        Self { frame_type: FrameType::HandshakeDone, raw }
    }
}

pub struct UnknownFrame {
    pub frame_type: FrameType,
    pub frame_type_bytes: u64,
    pub raw: Option<RawInfo>,
}

impl UnknownFrame {
    pub fn new(frame_type_bytes: u64, raw: Option<RawInfo>) -> (r: Self)
        ensures
            r.frame_type == FrameType::Unknown,
            r.frame_type_bytes == frame_type_bytes,
            r.raw == raw,
    {
        Self { frame_type: FrameType::Unknown, frame_type_bytes, raw }
    }
}

pub struct DatagramFrame {
    pub frame_type: FrameType,
    pub length: Option<u64>,
    pub raw: Option<RawInfo>,
}

impl DatagramFrame {
    pub fn new(length: Option<u64>, raw: Option<RawInfo>) -> (r: Self)
        ensures
            r.frame_type == FrameType::Datagram,
            r.length == length,
            r.raw == raw,
    {
        Self { frame_type: FrameType::Datagram, length, raw }
    }
}

/// The direction shape of a stream.
#[derive(Clone, Copy, Debug, PartialEq, Eq, Structural)]
pub enum StreamType {
    Unidirectional,
    Bidirectional,
}

/// Transport-level error codes.
#[derive(Clone, Copy, Debug, PartialEq, Eq, Structural)]
pub enum TransportError {
    NoError,
    InternalError,
    ConnectionRefused,
    FlowControlError,
    StreamLimitError,
    StreamStateError,
    FinalSizeError,
    FrameEncodingError,
    TransportParameterError,
    ConnectionIdLimitError,
    ProtocolViolation,
    InvalidToken,
    ApplicationError,
    CryptoBufferExceeded,
    KeyUpdateError,
    AeadLimitReached,
    NoViablePath,
    Unknown,
}

/// Application-level error codes.
#[derive(Clone, Copy, Debug, PartialEq, Eq, Structural)]
pub enum ApplicationError {
    Unknown,
}

/// An error closing a connection: transport- or crypto-level.
pub enum ConnectionError {
    TransportError(TransportError),
    CryptoError(CryptoError),
}

/// Any error code carried in a CONNECTION_CLOSE frame.
pub enum Error {
    TransportError(TransportError),
    CryptoError(CryptoError),
    ApplicationError(ApplicationError),
}

/// A connection state, in base or fine-grained vocabulary.
pub enum ConnectionState {
    BaseConnectionState(BaseConnectionState),
    GranularConnectionState(GranularConnectionState),
}

/// The simplified connection states.
#[derive(Clone, Copy, Debug, PartialEq, Eq, Structural)]
pub enum BaseConnectionState {
    /// Initial packet sent/received.
    Attempted,
    /// Handshake packet sent/received.
    HandshakeStarted,
    /// Both sent a TLS Finished message and verified the peer's.
    HandshakeComplete,
    /// CONNECTION_CLOSE sent/received, stateless reset received or idle timeout.
    Closed,
}

/// The fine-grained connection states.
#[derive(Clone, Copy, Debug, PartialEq, Eq, Structural)]
pub enum GranularConnectionState {
    PeerValidated,
    EarlyWrite,
    HandshakeConfirmed,
    Closing,
    Draining,
    Closed,
}

/// A stream state, in base or fine-grained vocabulary.
pub enum StreamState {
    BaseStreamState(BaseStreamState),
    GranularStreamState(GranularStreamState),
}

/// The simplified stream states.
#[derive(Clone, Copy, Debug, PartialEq, Eq, Structural)]
pub enum BaseStreamState {
    Idle,
    Open,
    Closed,
}

/// The fine-grained stream states.
#[derive(Clone, Copy, Debug, PartialEq, Eq, Structural)]
pub enum GranularStreamState {
    HalfClosedLocal,
    HalfClosedRemote,
    Ready,
    Send,
    DataSent,
    ResetSent,
    ResetReceived,
    Receive,
    SizeKnown,
    DataRead,
    ResetRead,
    DataReceived,
    Destroyed,
}

/// Which side of a stream an update concerns.
#[derive(Clone, Copy, Debug, PartialEq, Eq, Structural)]
pub enum StreamSide {
    Sending,
    Receiving,
}

/// An application protocol name, in byte or text form.
pub struct AlpnIdentifier {
    pub byte_value: Option<HexString>,
    pub string_value: Option<String>,
}

impl AlpnIdentifier {
    pub fn new(byte_value: Option<HexString>, string_value: Option<String>) -> (r: Self)
        ensures
            r.byte_value == byte_value,
            r.string_value == string_value,
    {
        Self { byte_value, string_value }
    }
}

/// A server's preferred address transport parameter.
pub struct PreferredAddress {
    pub ip_v4: Option<IpAddress>,
    pub port_v4: Option<u16>,
    pub ip_v6: Option<IpAddress>,
    pub port_v6: Option<u16>,
    pub connection_id: ConnectionId,
    pub stateless_reset_token: StatelessResetToken,
}

impl PreferredAddress {
    pub fn new(
        ip_v4: Option<IpAddress>,
        port_v4: Option<u16>,
        ip_v6: Option<IpAddress>,
        port_v6: Option<u16>,
        connection_id: ConnectionId,
        stateless_reset_token: StatelessResetToken,
    ) -> (r: Self)
        ensures
            r.ip_v4 == ip_v4,
            r.port_v4 == port_v4,
            r.ip_v6 == ip_v6,
            r.port_v6 == port_v6,
            r.connection_id == connection_id,
            r.stateless_reset_token == stateless_reset_token,
    {
        Self { ip_v4, port_v4, ip_v6, port_v6, connection_id, stateless_reset_token }
    }
}

/// A transport parameter the stack did not recognize.
pub struct UnknownParameter {
    pub id: u64,
    pub value: Option<HexString>,
}

impl UnknownParameter {
    pub fn new(id: u64, value: Option<HexString>) -> (r: Self)
        ensures
            r.id == id,
            r.value == value,
    {
        Self { id, value }
    }
}

#[derive(Clone, Copy, Debug, PartialEq, Eq, Structural)]
pub enum ConnectionCloseTrigger {
    IdleTimeout,
    Application,
    Error,
    VersionMismatch,
    StatelessReset,
    Aborted,
    Unspecified,
}

#[derive(Clone, Copy, Debug, PartialEq, Eq, Structural)]
pub enum PacketSentTrigger {
    RetransmitReordered,
    RetransmitTimeout,
    PtoProbe,
    RetransmitCrypto,
    CcBandwidthProbe,
}

#[derive(Clone, Copy, Debug, PartialEq, Eq, Structural)]
pub enum PacketReceivedTrigger {
    KeysAvailable,
}

#[derive(Clone, Copy, Debug, PartialEq, Eq, Structural)]
pub enum PacketDroppedTrigger {
    InternalError,
    Rejected,
    Unsupported,
    Invalid,
    Duplicate,
    ConnectionUnknown,
    DecryptionFailure,
    KeyUnavailable,
    General,
}

#[derive(Clone, Copy, Debug, PartialEq, Eq, Structural)]
pub enum PacketBufferedTrigger {
    /// The parser cannot keep up and buffers the packet for later processing.
    Backpressure,
    /// The packet cannot be decrypted yet for want of keys.
    KeysUnavailable,
}

#[derive(Clone, Copy, Debug, PartialEq, Eq, Structural)]
pub enum KeyUpdateTrigger {
    Tls,
    RemoteUpdate,
    LocalUpdate,
}

#[derive(Clone, Copy, Debug, PartialEq, Eq, Structural)]
pub enum KeyDiscardTrigger {
    Tls,
    RemoteUpdate,
    LocalUpdate,
}

#[derive(Clone, Copy, Debug, PartialEq, Eq, Structural)]
pub enum PacketLostTrigger {
    ReorderingThreshold,
    TimeThreshold,
    PtoExpired,
}

#[derive(Clone, Copy, Debug, PartialEq, Eq, Structural)]
pub enum DataLocation {
    Application,
    Transport,
    Network,
}

#[derive(Clone, Copy, Debug, PartialEq, Eq, Structural)]
pub enum DataMovedAdditionalInfo {
    FinSet,
    StreamReset,
}

/// Waypoints of a connection migration attempt; not a full state machine.
#[derive(Clone, Copy, Debug, PartialEq, Eq, Structural)]
pub enum MigrationState {
    ProbingStarted,
    ProbingAbandoned,
    ProbingSuccessful,
    MigrationStarted,
    MigrationAbandoned,
    MigrationComplete,
}

#[derive(Clone, Copy, Debug, PartialEq, Eq, Structural)]
pub enum TimerType {
    Ack,
    Pto,
}

#[derive(Clone, Copy, Debug, PartialEq, Eq, Structural)]
pub enum EventType {
    /// The timer was set with a delta timeout (the wire value "set").
    TimerSet,
    Expired,
    Cancelled,
}

#[derive(Clone, Copy, Debug, PartialEq, Eq, Structural)]
pub enum EcnState {
    /// ECN testing in progress
    Testing,
    /// ECN state unknown, waiting for acknowledgments of testing packets
    Unknown,
    /// ECN testing failed
    Failed,
    /// Testing was successful; packets are sent with ECT(0) marking
    Capable,
}

} // verus!
