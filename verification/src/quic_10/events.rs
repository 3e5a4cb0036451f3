//! Event payload records for QUIC transport events.

use vstd::prelude::*;

use crate::events::RawInfo;
use crate::quic_10::data::{
    AlpnIdentifier, ApplicationError, ConnectionCloseTrigger, ConnectionError, ConnectionId,
    ConnectionState, DataLocation, DataMovedAdditionalInfo, Ecn, EcnState, EventType, IpAddress,
    KeyDiscardTrigger, KeyType, KeyUpdateTrigger, MigrationState, Owner, PacketBufferedTrigger,
    PacketDroppedTrigger, PacketHeader, PacketLostTrigger, PacketNumberSpace,
    PacketReceivedTrigger, PacketSentTrigger, PathEndpointInfo, PreferredAddress, QuicFrame,
    QuicVersion, StatelessResetToken, StreamSide, StreamState, StreamType, TimerType,
    TransportError, UnknownParameter,
};
use crate::util::{HexString, PathId};

verus! {

/// Emitted when the server starts accepting connections. Address values are
/// optional because some stacks do not handle sockets directly.
pub struct ServerListening {
    pub ip_v4: Option<IpAddress>,
    pub port_v4: Option<u16>,
    pub ip_v6: Option<IpAddress>,
    pub port_v6: Option<u16>,
    /// The server will always answer client initials with a retry.
    pub retry_required: Option<bool>,
}

impl ServerListening {
    pub fn new(
        ip_v4: Option<IpAddress>,
        port_v4: Option<u16>,
        ip_v6: Option<IpAddress>,
        port_v6: Option<u16>,
        retry_required: Option<bool>,
    ) -> (r: Self)
        ensures
            r.ip_v4 == ip_v4,
            r.port_v4 == port_v4,
            r.ip_v6 == ip_v6,
            r.port_v6 == port_v6,
            r.retry_required == retry_required,
    {
        Self { ip_v4, port_v4, ip_v6, port_v6, retry_required }
    }
}

/// Used both when attempting (client) and accepting (server) a connection.
pub struct ConnectionStarted {
    pub local: PathEndpointInfo,
    pub remote: PathEndpointInfo,
}

impl ConnectionStarted {
    pub fn new(local: PathEndpointInfo, remote: PathEndpointInfo) -> (r: Self)
        ensures
            r.local == local,
            r.remote == remote,
    {
        Self { local, remote }
    }
}

/// Logged when the connection is discarded, closed, drained or reset.
pub struct ConnectionClosed {
    /// Which side closed the connection
    pub owner: Option<Owner>,
    pub connection_code: Option<ConnectionError>,
    pub application_code: Option<ApplicationError>,
    pub code_bytes: Option<u32>,
    /// A more fine-grained internal error code
    pub internal_code: Option<u32>,
    pub reason: Option<String>,
    pub trigger: Option<ConnectionCloseTrigger>,
}

impl ConnectionClosed {
    pub fn new(
        owner: Option<Owner>,
        connection_code: Option<ConnectionError>,
        application_code: Option<ApplicationError>,
        code_bytes: Option<u32>,
        internal_code: Option<u32>,
        reason: Option<String>,
        trigger: Option<ConnectionCloseTrigger>,
    ) -> (r: Self)
        requires
            (connection_code == Some(ConnectionError::TransportError(TransportError::Unknown))
                && application_code == Some(ApplicationError::Unknown)) ==> code_bytes is Some,
        ensures
            r.owner == owner,
            r.connection_code == connection_code,
            r.application_code == application_code,
            r.code_bytes == code_bytes,
            r.internal_code == internal_code,
            r.reason == reason,
            r.trigger == trigger,
    {
        Self { owner, connection_code, application_code, code_bytes, internal_code, reason, trigger }
    }
}

/// A connection id was retired or issued, by either side.
pub struct ConnectionIdUpdated {
    pub owner: Owner,
    pub old: Option<ConnectionId>,
    pub new: Option<ConnectionId>,
}

impl ConnectionIdUpdated {
    pub fn new(owner: Owner, old: Option<ConnectionId>, new: Option<ConnectionId>) -> (r: Self)
        ensures
            r.owner == owner,
            r.old == old,
            r.new == new,
    {
        Self { owner, old, new }
    }
}

/// Emitted when the spin bit changes value.
pub struct SpinBitUpdated {
    pub state: bool,
}

impl SpinBitUpdated {
    pub fn new(state: bool) -> (r: Self)
        ensures
            r.state == state,
    {
        Self { state }
    }
}

/// A transition of the connection state machine.
pub struct ConnectionStateUpdated {
    pub old: Option<ConnectionState>,
    pub new: ConnectionState,
}

impl ConnectionStateUpdated {
    pub fn new(old: Option<ConnectionState>, new: ConnectionState) -> (r: Self)
        ensures
            r.old == old,
            r.new == new,
    {
        Self { old, new }
    }
}

/// A network path was given an identifier.
pub struct PathAssigned {
    pub path_id: PathId,
    /// Traffic going towards the remote receiver.
    pub path_remote: Option<PathEndpointInfo>,
    /// Traffic coming in at the local endpoint.
    pub path_local: Option<PathEndpointInfo>,
}

impl PathAssigned {
    pub fn new(
        path_id: PathId,
        path_remote: Option<PathEndpointInfo>,
        path_local: Option<PathEndpointInfo>,
    ) -> (r: Self)
        ensures
            r.path_id == path_id,
            r.path_remote == path_remote,
            r.path_local == path_local,
    {
        Self { path_id, path_remote, path_local }
    }
}

/// A step of MTU discovery.
pub struct MtuUpdated {
    pub old: Option<u32>,
    pub new: u32,
    /// Discovery stopped: a good enough packet size has been found.
    pub done: bool,
}

impl MtuUpdated {
    pub fn new(old: Option<u32>, new: u32, done: Option<bool>) -> (r: Self)
        ensures
            r.old == old,
            r.new == new,
            r.done == match done {
                Some(b) => b,
                None => false,
            },
    {
        let done = match done {
            Some(b) => b,
            None => false,
        };
        Self { old, new, done }
    }
}

/// The versions each side offers and the one that was chosen.
pub struct VersionInformation {
    pub server_versions: Option<Vec<QuicVersion>>,
    pub client_versions: Option<Vec<QuicVersion>>,
    pub chosen_version: Option<QuicVersion>,
}

impl VersionInformation {
    pub fn new(
        server_versions: Option<Vec<QuicVersion>>,
        client_versions: Option<Vec<QuicVersion>>,
        chosen_version: Option<QuicVersion>,
    ) -> (r: Self)
        ensures
            r.server_versions == server_versions,
            r.client_versions == client_versions,
            r.chosen_version == chosen_version,
    {
        Self { server_versions, client_versions, chosen_version }
    }
}

/// The application protocols each side offers and the one that was chosen.
pub struct AlpnInformation {
    pub server_alpns: Option<Vec<AlpnIdentifier>>,
    pub client_alpns: Option<Vec<AlpnIdentifier>>,
    pub chosen_alpn: Option<AlpnIdentifier>,
}

impl AlpnInformation {
    pub fn new(
        server_alpns: Option<Vec<AlpnIdentifier>>,
        client_alpns: Option<Vec<AlpnIdentifier>>,
        chosen_alpn: Option<AlpnIdentifier>,
    ) -> (r: Self)
        ensures
            r.server_alpns == server_alpns,
            r.client_alpns == client_alpns,
            r.chosen_alpn == chosen_alpn,
    {
        Self { server_alpns, client_alpns, chosen_alpn }
    }
}

/// Transport parameters as set by the local or remote endpoint.
pub struct ParametersSet {
    pub owner: Option<Owner>,
    /// True if a valid session ticket was received
    pub resumption_allowed: Option<bool>,
    /// True if the early data extension was enabled on the TLS layer
    pub early_data_enabled: Option<bool>,
    pub tls_cipher: Option<String>,
    pub original_destination_connection_id: Option<ConnectionId>,
    pub initial_source_connection_id: Option<ConnectionId>,
    pub retry_source_connection_id: Option<ConnectionId>,
    pub stateless_reset_token: Option<StatelessResetToken>,
    pub disable_active_migration: Option<bool>,
    pub max_idle_timeout: Option<u64>,
    pub max_udp_payload_size: Option<u32>,
    pub ack_delay_exponent: Option<u16>,
    pub max_ack_delay: Option<u16>,
    pub active_connection_id_limit: Option<u32>,
    pub initial_max_data: Option<u64>,
    pub initial_max_stream_data_bidi_local: Option<u64>,
    pub initial_max_stream_data_bidi_remote: Option<u64>,
    pub initial_max_stream_data_uni: Option<u64>,
    pub initial_max_streams_bidi: Option<u64>,
    pub initial_max_streams_uni: Option<u64>,
    pub preferred_address: Option<PreferredAddress>,
    pub unknown_parameters: Option<Vec<UnknownParameter>>,
    pub max_datagram_frame_size: Option<u64>,
    /// True if present; absent or false if the extension was not negotiated
    pub grease_quic_bit: Option<bool>,
}

impl ParametersSet {
    pub fn new(
        owner: Option<Owner>,
        resumption_allowed: Option<bool>,
        early_data_enabled: Option<bool>,
        tls_cipher: Option<String>,
        original_destination_connection_id: Option<ConnectionId>,
        initial_source_connection_id: Option<ConnectionId>,
        retry_source_connection_id: Option<ConnectionId>,
        stateless_reset_token: Option<StatelessResetToken>,
        disable_active_migration: Option<bool>,
        max_idle_timeout: Option<u64>,
        max_udp_payload_size: Option<u32>,
        ack_delay_exponent: Option<u16>,
        max_ack_delay: Option<u16>,
        active_connection_id_limit: Option<u32>,
        initial_max_data: Option<u64>,
        initial_max_stream_data_bidi_local: Option<u64>,
        initial_max_stream_data_bidi_remote: Option<u64>,
        initial_max_stream_data_uni: Option<u64>,
        initial_max_streams_bidi: Option<u64>,
        initial_max_streams_uni: Option<u64>,
        preferred_address: Option<PreferredAddress>,
        unknown_parameters: Option<Vec<UnknownParameter>>,
        max_datagram_frame_size: Option<u64>,
        grease_quic_bit: Option<bool>,
    ) -> (r: Self)
        ensures
            r.owner == owner,
            r.resumption_allowed == resumption_allowed,
            r.early_data_enabled == early_data_enabled,
            r.tls_cipher == tls_cipher,
            r.original_destination_connection_id == original_destination_connection_id,
            r.initial_source_connection_id == initial_source_connection_id,
            r.retry_source_connection_id == retry_source_connection_id,
            r.stateless_reset_token == stateless_reset_token,
            r.disable_active_migration == disable_active_migration,
            r.max_idle_timeout == max_idle_timeout,
            r.max_udp_payload_size == max_udp_payload_size,
            r.ack_delay_exponent == ack_delay_exponent,
            r.max_ack_delay == max_ack_delay,
            r.active_connection_id_limit == active_connection_id_limit,
            r.initial_max_data == initial_max_data,
            r.initial_max_stream_data_bidi_local == initial_max_stream_data_bidi_local,
            r.initial_max_stream_data_bidi_remote == initial_max_stream_data_bidi_remote,
            r.initial_max_stream_data_uni == initial_max_stream_data_uni,
            r.initial_max_streams_bidi == initial_max_streams_bidi,
            r.initial_max_streams_uni == initial_max_streams_uni,
            r.preferred_address == preferred_address,
            r.unknown_parameters == unknown_parameters,
            r.max_datagram_frame_size == max_datagram_frame_size,
            r.grease_quic_bit == grease_quic_bit,
    {
        Self {
            owner,
            resumption_allowed,
            early_data_enabled,
            tls_cipher,
            original_destination_connection_id,
            initial_source_connection_id,
            retry_source_connection_id,
            stateless_reset_token,
            disable_active_migration,
            max_idle_timeout,
            max_udp_payload_size,
            ack_delay_exponent,
            max_ack_delay,
            active_connection_id_limit,
            initial_max_data,
            initial_max_stream_data_bidi_local,
            initial_max_stream_data_bidi_remote,
            initial_max_stream_data_uni,
            initial_max_streams_bidi,
            initial_max_streams_uni,
            preferred_address,
            unknown_parameters,
            max_datagram_frame_size,
            grease_quic_bit,
        }
    }
}

/// Transport parameters restored from a previous connection for 0-RTT.
pub struct ParametersRestored {
    pub disable_active_migration: Option<bool>,
    pub max_idle_timeout: Option<u64>,
    pub max_udp_payload_size: Option<u32>,
    pub active_connection_id_limit: Option<u32>,
    pub initial_max_data: Option<u64>,
    pub initial_max_stream_data_bidi_local: Option<u64>,
    pub initial_max_stream_data_bidi_remote: Option<u64>,
    pub initial_max_stream_data_uni: Option<u64>,
    pub initial_max_streams_bidi: Option<u64>,
    pub initial_max_streams_uni: Option<u64>,
    pub max_datagram_frame_size: Option<u64>,
    /// Can only be restored at the client.
    pub grease_quic_bit: Option<bool>,
}

impl ParametersRestored {
    pub fn new(
        disable_active_migration: Option<bool>,
        max_idle_timeout: Option<u64>,
        max_udp_payload_size: Option<u32>,
        active_connection_id_limit: Option<u32>,
        initial_max_data: Option<u64>,
        initial_max_stream_data_bidi_local: Option<u64>,
        initial_max_stream_data_bidi_remote: Option<u64>,
        initial_max_stream_data_uni: Option<u64>,
        initial_max_streams_bidi: Option<u64>,
        initial_max_streams_uni: Option<u64>,
        max_datagram_frame_size: Option<u64>,
        grease_quic_bit: Option<bool>,
    ) -> (r: Self)
        ensures
            r.disable_active_migration == disable_active_migration,
            r.max_idle_timeout == max_idle_timeout,
            r.max_udp_payload_size == max_udp_payload_size,
            r.active_connection_id_limit == active_connection_id_limit,
            r.initial_max_data == initial_max_data,
            r.initial_max_stream_data_bidi_local == initial_max_stream_data_bidi_local,
            r.initial_max_stream_data_bidi_remote == initial_max_stream_data_bidi_remote,
            r.initial_max_stream_data_uni == initial_max_stream_data_uni,
            r.initial_max_streams_bidi == initial_max_streams_bidi,
            r.initial_max_streams_uni == initial_max_streams_uni,
            r.max_datagram_frame_size == max_datagram_frame_size,
            r.grease_quic_bit == grease_quic_bit,
    {
        Self {
            disable_active_migration,
            max_idle_timeout,
            max_udp_payload_size,
            active_connection_id_limit,
            initial_max_data,
            initial_max_stream_data_bidi_local,
            initial_max_stream_data_bidi_remote,
            initial_max_stream_data_uni,
            initial_max_streams_bidi,
            initial_max_streams_uni,
            max_datagram_frame_size,
            grease_quic_bit,
        }
    }
}

/// A packet was handed to the network: the assembled record a sent-packet
/// cache entry accumulates before finalization.
pub struct PacketSent {
    pub header: PacketHeader,
    pub frames: Option<Vec<QuicFrame>>,
    /// Only if the header's packet type is a stateless reset; 128 bits.
    pub stateless_reset_token: Option<StatelessResetToken>,
    /// Only if the header's packet type is version negotiation.
    pub supported_versions: Option<Vec<QuicVersion>>,
    pub raw: Option<RawInfo>,
    pub datagram_id: Option<u32>,
    pub is_mtu_probe_packet: bool,
    pub trigger: Option<PacketSentTrigger>,
}

impl PacketSent {
    pub fn new(
        header: PacketHeader,
        frames: Option<Vec<QuicFrame>>,
        stateless_reset_token: Option<StatelessResetToken>,
        supported_versions: Option<Vec<QuicVersion>>,
        raw: Option<RawInfo>,
        datagram_id: Option<u32>,
        is_mtu_probe_packet: Option<bool>,
        trigger: Option<PacketSentTrigger>,
    ) -> (r: Self)
        ensures
            r.header == header,
            r.frames == frames,
            r.stateless_reset_token == stateless_reset_token,
            r.supported_versions == supported_versions,
            r.raw == raw,
            r.datagram_id == datagram_id,
            r.is_mtu_probe_packet == match is_mtu_probe_packet {
                Some(b) => b,
                None => false,
            },
            r.trigger == trigger,
    {
        let is_mtu_probe_packet = match is_mtu_probe_packet {
            Some(b) => b,
            None => false,
        };
        Self {
            header,
            frames,
            stateless_reset_token,
            supported_versions,
            raw,
            datagram_id,
            is_mtu_probe_packet,
            trigger,
        }
    }

    /// Appends one frame to the record's ordered frame list, starting the
    /// list when none has been recorded yet.
    pub fn add_frame(&mut self, frame: QuicFrame)
        ensures
            final(self).frames matches Some(fs) && fs@ == (match old(self).frames {
                Some(o) => o@,
                None => Seq::<QuicFrame>::empty(),
            }).push(frame),
            final(self).header == old(self).header,
            final(self).stateless_reset_token == old(self).stateless_reset_token,
            final(self).supported_versions == old(self).supported_versions,
            final(self).raw == old(self).raw,
            final(self).datagram_id == old(self).datagram_id,
            final(self).is_mtu_probe_packet == old(self).is_mtu_probe_packet,
            final(self).trigger == old(self).trigger,
    {
        match &mut self.frames {
            Some(fs) => {
                fs.push(frame);
            },
            None => {
                let mut fs: Vec<QuicFrame> = Vec::new();
                fs.push(frame);
                self.frames = Some(fs);
            },
        }
    }

    /// Adds a payload length to the header's recorded length field.
    pub fn update_packet_length(&mut self, payload_length: u16)
        ensures
            final(self).header.length == match old(self).header.length {
                Some(l) => if l + payload_length <= u16::MAX {
                    Some((l + payload_length) as u16)
                } else {
                    old(self).header.length
                },
                None => old(self).header.length,
            },
            final(self).header.quic_bit == old(self).header.quic_bit,
            final(self).header.packet_type == old(self).header.packet_type,
            final(self).header.packet_type_bytes == old(self).header.packet_type_bytes,
            final(self).header.packet_number == old(self).header.packet_number,
            final(self).header.flags == old(self).header.flags,
            final(self).header.token == old(self).header.token,
            final(self).header.version == old(self).header.version,
            final(self).header.scil == old(self).header.scil,
            final(self).header.dcil == old(self).header.dcil,
            final(self).header.scid == old(self).header.scid,
            final(self).header.dcid == old(self).header.dcid,
            final(self).frames == old(self).frames,
            final(self).stateless_reset_token == old(self).stateless_reset_token,
            final(self).supported_versions == old(self).supported_versions,
            final(self).raw == old(self).raw,
            final(self).datagram_id == old(self).datagram_id,
            final(self).is_mtu_probe_packet == old(self).is_mtu_probe_packet,
            final(self).trigger == old(self).trigger,
    {
        self.header.update_packet_length(payload_length);
    }
}

/// A packet was received from the network: the assembled record a
/// received-packet cache entry accumulates before finalization.
pub struct PacketReceived {
    pub header: PacketHeader,
    pub frames: Option<Vec<QuicFrame>>,
    /// Only if the header's packet type is a stateless reset; 128 bits.
    pub stateless_reset_token: Option<StatelessResetToken>,
    /// Only if the header's packet type is version negotiation.
    pub supported_versions: Option<Vec<QuicVersion>>,
    pub raw: Option<RawInfo>,
    pub datagram_id: Option<u32>,
    pub trigger: Option<PacketReceivedTrigger>,
}

impl PacketReceived {
    pub fn new(
        header: PacketHeader,
        frames: Option<Vec<QuicFrame>>,
        stateless_reset_token: Option<StatelessResetToken>,
        supported_versions: Option<Vec<QuicVersion>>,
        raw: Option<RawInfo>,
        datagram_id: Option<u32>,
        trigger: Option<PacketReceivedTrigger>,
    ) -> (r: Self)
        ensures
            r.header == header,
            r.frames == frames,
            r.stateless_reset_token == stateless_reset_token,
            r.supported_versions == supported_versions,
            r.raw == raw,
            r.datagram_id == datagram_id,
            r.trigger == trigger,
    {
        Self { header, frames, stateless_reset_token, supported_versions, raw, datagram_id, trigger }
    }

    /// Appends one frame to the record's ordered frame list, starting the
    /// list when none has been recorded yet.
    pub fn add_frame(&mut self, frame: QuicFrame)
        ensures
            final(self).frames matches Some(fs) && fs@ == (match old(self).frames {
                Some(o) => o@,
                None => Seq::<QuicFrame>::empty(),
            }).push(frame),
            final(self).header == old(self).header,
            final(self).stateless_reset_token == old(self).stateless_reset_token,
            final(self).supported_versions == old(self).supported_versions,
            final(self).raw == old(self).raw,
            final(self).datagram_id == old(self).datagram_id,
            final(self).trigger == old(self).trigger,
    {
        match &mut self.frames {
            Some(fs) => {
                fs.push(frame);
            },
            None => {
                let mut fs: Vec<QuicFrame> = Vec::new();
                fs.push(frame);
                self.frames = Some(fs);
            },
        }
    }
}

/// A packet was dropped before or during parsing.
pub struct PacketDropped {
    /// Primarily the packet type: other fields may not be parseable.
    pub header: Option<PacketHeader>,
    pub raw: Option<RawInfo>,
    pub datagram_id: Option<u32>,
    pub details: Vec<(String, Vec<u8>)>,
    pub trigger: Option<PacketDroppedTrigger>,
}

impl PacketDropped {
    pub fn new(
        header: Option<PacketHeader>,
        raw: Option<RawInfo>,
        datagram_id: Option<u32>,
        details: Vec<(String, Vec<u8>)>,
        trigger: Option<PacketDroppedTrigger>,
    ) -> (r: Self)
        ensures
            r.header == header,
            r.raw == raw,
            r.datagram_id == datagram_id,
            r.details == details,
            r.trigger == trigger,
    {
        Self { header, raw, datagram_id, details, trigger }
    }
}

/// A packet was set aside for later processing.
pub struct PacketBuffered {
    /// Primarily the packet type and number: the rest may not be known yet.
    pub header: Option<PacketHeader>,
    pub raw: Option<RawInfo>,
    pub datagram_id: Option<u32>,
    pub trigger: Option<PacketBufferedTrigger>,
}

impl PacketBuffered {
    pub fn new(
        header: Option<PacketHeader>,
        raw: Option<RawInfo>,
        datagram_id: Option<u32>,
        trigger: Option<PacketBufferedTrigger>,
    ) -> (r: Self)
        ensures
            r.header == header,
            r.raw == raw,
            r.datagram_id == datagram_id,
            r.trigger == trigger,
    {
        Self { header, raw, datagram_id, trigger }
    }
}

/// A group of sent packets was acknowledged for the first time.
pub struct PacketsAcked {
    pub packet_number_space: Option<PacketNumberSpace>,
    pub packet_numbers: Option<Vec<u64>>,
}

impl PacketsAcked {
    pub fn new(packet_number_space: Option<PacketNumberSpace>, packet_numbers: Option<Vec<u64>>) -> (r:
        Self)
        ensures
            r.packet_number_space == packet_number_space,
            r.packet_numbers == packet_numbers,
    {
        Self { packet_number_space, packet_numbers }
    }
}

/// UDP datagrams were passed to the network socket.
pub struct UdpDatagramsSent {
    pub count: Option<u16>,
    /// UDP payload only, headers excluded.
    pub raw: Option<Vec<RawInfo>>,
    /// ECN bits in the IP header
    pub ecn: Option<Vec<Ecn>>,
    pub datagram_ids: Option<Vec<u32>>,
}

impl UdpDatagramsSent {
    pub fn new(
        count: Option<u16>,
        raw: Option<Vec<RawInfo>>,
        ecn: Option<Vec<Ecn>>,
        datagram_ids: Option<Vec<u32>>,
    ) -> (r: Self)
        ensures
            r.count == count,
            r.raw == raw,
            r.ecn == ecn,
            r.datagram_ids == datagram_ids,
    {
        Self { count, raw, ecn, datagram_ids }
    }
}

/// UDP datagrams were received from the socket.
pub struct UdpDatagramsReceived {
    pub count: Option<u16>,
    /// UDP payload only, headers excluded.
    pub raw: Option<Vec<RawInfo>>,
    /// ECN bits in the IP header
    pub ecn: Option<Vec<Ecn>>,
    pub datagram_ids: Option<Vec<u32>>,
}

impl UdpDatagramsReceived {
    pub fn new(
        count: Option<u16>,
        raw: Option<Vec<RawInfo>>,
        ecn: Option<Vec<Ecn>>,
        datagram_ids: Option<Vec<u32>>,
    ) -> (r: Self)
        ensures
            r.count == count,
            r.raw == raw,
            r.ecn == ecn,
            r.datagram_ids == datagram_ids,
    {
        Self { count, raw, ecn, datagram_ids }
    }
}

/// A UDP datagram was dropped, typically for not holding a valid packet.
pub struct UdpDatagramDropped {
    /// UDP payload only, headers excluded.
    pub raw: Option<RawInfo>,
}

impl UdpDatagramDropped {
    pub fn new(raw: Option<RawInfo>) -> (r: Self)
        ensures
            r.raw == raw,
    {
        Self { raw }
    }
}

/// A transition of a stream's state machine.
pub struct StreamStateUpdated {
    pub stream_id: u64,
    /// Mainly useful when opening the stream
    pub stream_type: Option<StreamType>,
    pub old: Option<StreamState>,
    pub new: StreamState,
    pub stream_side: Option<StreamSide>,
}

impl StreamStateUpdated {
    pub fn new(
        stream_id: u64,
        stream_type: Option<StreamType>,
        old: Option<StreamState>,
        new: StreamState,
        stream_side: Option<StreamSide>,
    ) -> (r: Self)
        ensures
            r.stream_id == stream_id,
            r.stream_type == stream_type,
            r.old == old,
            r.new == new,
            r.stream_side == stream_side,
    {
        Self { stream_id, stream_type, old, new, stream_side }
    }
}

/// A catch-all record for frames handled without a more specific event.
pub struct FramesProcessed {
    pub frames: Vec<QuicFrame>,
    pub packet_numbers: Option<Vec<u64>>,
}

impl FramesProcessed {
    pub fn new(frames: Vec<QuicFrame>, packet_numbers: Option<Vec<u64>>) -> (r: Self)
        ensures
            r.frames == frames,
            r.packet_numbers == packet_numbers,
    {
        Self { frames, packet_numbers }
    }
}

/// Stream data moved between layers.
pub struct StreamDataMoved {
    pub stream_id: Option<u64>,
    pub offset: Option<u64>,
    /// Byte length of the moved data
    pub length: Option<u64>,
    pub from: Option<DataLocation>,
    pub to: Option<DataLocation>,
    pub additional_info: Option<DataMovedAdditionalInfo>,
    pub raw: Option<RawInfo>,
}

impl StreamDataMoved {
    pub fn new(
        stream_id: Option<u64>,
        offset: Option<u64>,
        length: Option<u64>,
        from: Option<DataLocation>,
        to: Option<DataLocation>,
        additional_info: Option<DataMovedAdditionalInfo>,
        raw: Option<RawInfo>,
    ) -> (r: Self)
        ensures
            r.stream_id == stream_id,
            r.offset == offset,
            r.length == length,
            r.from == from,
            r.to == to,
            r.additional_info == additional_info,
            r.raw == raw,
    {
        Self { stream_id, offset, length, from, to, additional_info, raw }
    }
}

/// Datagram-frame data moved between layers.
pub struct DatagramDataMoved {
    /// Byte length of the moved data
    pub length: Option<u64>,
    pub from: Option<DataLocation>,
    pub to: Option<DataLocation>,
    pub raw: Option<RawInfo>,
}

impl DatagramDataMoved {
    pub fn new(
        length: Option<u64>,
        from: Option<DataLocation>,
        to: Option<DataLocation>,
        raw: Option<RawInfo>,
    ) -> (r: Self)
        ensures
            r.length == length,
            r.from == from,
            r.to == to,
            r.raw == raw,
    {
        Self { length, from, to, raw }
    }
}

/// Progress of a client-side connection migration attempt.
pub struct MigrationStateUpdated {
    pub old: Option<MigrationState>,
    pub new: MigrationState,
    pub path_id: Option<PathId>,
    /// Traffic going towards the remote receiver
    pub path_remote: Option<PathEndpointInfo>,
    /// Traffic coming in at the local endpoint
    pub path_local: Option<PathEndpointInfo>,
}

impl MigrationStateUpdated {
    pub fn new(
        old: Option<MigrationState>,
        new: MigrationState,
        path_id: Option<PathId>,
        path_remote: Option<PathEndpointInfo>,
        path_local: Option<PathEndpointInfo>,
    ) -> (r: Self)
        ensures
            r.old == old,
            r.new == new,
            r.path_id == path_id,
            r.path_remote == path_remote,
            r.path_local == path_local,
    {
        Self { old, new, path_id, path_remote, path_local }
    }
}

/// A secret was installed or replaced.
pub struct KeyUpdated {
    pub key_type: KeyType,
    pub old: Option<HexString>,
    pub new: Option<HexString>,
    /// Needed for 1-RTT key updates
    pub key_phase: Option<u64>,
    pub trigger: Option<KeyUpdateTrigger>,
}

impl KeyUpdated {
    pub fn new(
        key_type: KeyType,
        old: Option<HexString>,
        new: Option<HexString>,
        key_phase: Option<u64>,
        trigger: Option<KeyUpdateTrigger>,
    ) -> (r: Self)
        ensures
            r.key_type == key_type,
            r.old == old,
            r.new == new,
            r.key_phase == key_phase,
            r.trigger == trigger,
    {
        Self { key_type, old, new, key_phase, trigger }
    }
}

/// A secret was discarded.
pub struct KeyDiscarded {
    pub key_type: KeyType,
    pub key: Option<HexString>,
    /// Needed for 1-RTT key updates
    pub key_phase: Option<u64>,
    pub trigger: Option<KeyDiscardTrigger>,
}

impl KeyDiscarded {
    pub fn new(
        key_type: KeyType,
        key: Option<HexString>,
        key_phase: Option<u64>,
        trigger: Option<KeyDiscardTrigger>,
    ) -> (r: Self)
        ensures
            r.key_type == key_type,
            r.key == key,
            r.key_phase == key_phase,
            r.trigger == trigger,
    {
        Self { key_type, key, key_phase, trigger }
    }
}

/// Loss-detection and congestion-control parameters. RTT multipliers and
/// millisecond values that the wire format renders as floating point are
/// kept as IEEE-754 single-precision bit patterns.
pub struct RecoveryParametersSet {
    /// In amount of packets
    pub reordering_threshold: Option<u16>,
    /// Bit pattern of the RTT multiplier (single precision)
    pub time_threshold: Option<u32>,
    /// In ms
    pub timer_granularity: u16,
    /// Bit pattern of the value in ms (single precision)
    pub initial_rtt: Option<u32>,
    /// In bytes; can be updated after path MTU discovery
    pub max_datagram_size: Option<u32>,
    /// In bytes
    pub initial_congestion_window: Option<u64>,
    /// In bytes; can change when the maximum datagram size changes
    pub minimum_congestion_window: Option<u64>,
    /// Bit pattern of the factor (single precision)
    pub loss_reduction_factor: Option<u32>,
    /// As a multiplier of the probe timeout
    pub persistent_congestion_threshold: Option<u16>,
}

impl RecoveryParametersSet {
    pub fn new(
        reordering_threshold: Option<u16>,
        time_threshold: Option<u32>,
        timer_granularity: u16,
        initial_rtt: Option<u32>,
        max_datagram_size: Option<u32>,
        initial_congestion_window: Option<u64>,
        minimum_congestion_window: Option<u64>,
        loss_reduction_factor: Option<u32>,
        persistent_congestion_threshold: Option<u16>,
    ) -> (r: Self)
        ensures
            r.reordering_threshold == reordering_threshold,
            r.time_threshold == time_threshold,
            r.timer_granularity == timer_granularity,
            r.initial_rtt == initial_rtt,
            r.max_datagram_size == max_datagram_size,
            r.initial_congestion_window == initial_congestion_window,
            r.minimum_congestion_window == minimum_congestion_window,
            r.loss_reduction_factor == loss_reduction_factor,
            r.persistent_congestion_threshold == persistent_congestion_threshold,
    {
        Self {
            reordering_threshold,
            time_threshold,
            timer_granularity,
            initial_rtt,
            max_datagram_size,
            initial_congestion_window,
            minimum_congestion_window,
            loss_reduction_factor,
            persistent_congestion_threshold,
        }
    }
}

/// Observable recovery metrics changed value. RTT values in milliseconds
/// are kept as IEEE-754 single-precision bit patterns.
pub struct RecoveryMetricsUpdated {
    /// Bit pattern of the value in ms (single precision)
    pub min_rtt: Option<u32>,
    /// Bit pattern of the value in ms (single precision)
    pub smoothed_rtt: Option<u32>,
    /// Bit pattern of the value in ms (single precision)
    pub latest_rtt: Option<u32>,
    /// Bit pattern of the value in ms (single precision)
    pub rtt_variance: Option<u32>,
    pub pto_count: Option<u16>,
    /// In bytes
    pub congestion_window: Option<u64>,
    pub bytes_in_flight: Option<u64>,
    /// In bytes
    pub ssthresh: Option<u64>,
    /// Sum over all packet number spaces
    pub packets_in_flight: Option<u64>,
    /// In bits per second
    pub pacing_rate: Option<u64>,
}

impl RecoveryMetricsUpdated {
    pub fn new(
        min_rtt: Option<u32>,
        smoothed_rtt: Option<u32>,
        latest_rtt: Option<u32>,
        rtt_variance: Option<u32>,
        pto_count: Option<u16>,
        congestion_window: Option<u64>,
        bytes_in_flight: Option<u64>,
        ssthresh: Option<u64>,
        packets_in_flight: Option<u64>,
        pacing_rate: Option<u64>,
    ) -> (r: Self)
        ensures
            r.min_rtt == min_rtt,
            r.smoothed_rtt == smoothed_rtt,
            r.latest_rtt == latest_rtt,
            r.rtt_variance == rtt_variance,
            r.pto_count == pto_count,
            r.congestion_window == congestion_window,
            r.bytes_in_flight == bytes_in_flight,
            r.ssthresh == ssthresh,
            r.packets_in_flight == packets_in_flight,
            r.pacing_rate == pacing_rate,
    {
        Self {
            min_rtt,
            smoothed_rtt,
            latest_rtt,
            rtt_variance,
            pto_count,
            congestion_window,
            bytes_in_flight,
            ssthresh,
            packets_in_flight,
            pacing_rate,
        }
    }
}

/// The congestion controller entered a significant new state.
pub struct CongestionStateUpdated {
    pub old: Option<String>,
    pub new: String,
    pub trigger: Option<String>,
}

impl CongestionStateUpdated {
    pub fn new(old: Option<String>, new: String, trigger: Option<String>) -> (r: Self)
        ensures
            r.old == old,
            r.new == new,
            r.trigger == trigger,
    {
        Self { old, new, trigger }
    }
}

/// A recovery loss timer was set, expired or was cancelled. The delta
/// timeout in milliseconds is kept as an IEEE-754 single-precision bit
/// pattern.
pub struct LossTimerUpdated {
    pub timer_type: Option<TimerType>,
    pub packet_number_space: Option<PacketNumberSpace>,
    pub event_type: EventType,
    /// Bit pattern of the delta in ms (single precision), for a set timer.
    pub delta: Option<u32>,
}

impl LossTimerUpdated {
    pub fn new(
        timer_type: Option<TimerType>,
        packet_number_space: Option<PacketNumberSpace>,
        event_type: EventType,
        delta: Option<u32>,
    ) -> (r: Self)
        ensures
            r.timer_type == timer_type,
            r.packet_number_space == packet_number_space,
            r.event_type == event_type,
            r.delta == delta,
    {
        Self { timer_type, packet_number_space, event_type, delta }
    }
}

/// A packet was deemed lost by loss detection.
pub struct PacketLost {
    /// Should include at least the packet type and number.
    pub header: Option<PacketHeader>,
    /// Not all stacks keep full packets around.
    pub frames: Option<Vec<QuicFrame>>,
    pub is_mtu_probe_packet: bool,
    pub trigger: Option<PacketLostTrigger>,
}

impl PacketLost {
    pub fn new(
        header: Option<PacketHeader>,
        frames: Option<Vec<QuicFrame>>,
        is_mtu_probe_packet: Option<bool>,
        trigger: Option<PacketLostTrigger>,
    ) -> (r: Self)
        ensures
            r.header == header,
            r.frames == frames,
            r.is_mtu_probe_packet == match is_mtu_probe_packet {
                Some(b) => b,
                None => false,
            },
            r.trigger == trigger,
    {
        let is_mtu_probe_packet = match is_mtu_probe_packet {
            Some(b) => b,
            None => false,
        };
        Self { header, frames, is_mtu_probe_packet, trigger }
    }
}

/// Data marked for retransmission after packet loss.
pub struct MarkedForRetransmit {
    pub frames: Vec<QuicFrame>,
}

impl MarkedForRetransmit {
    pub fn new(frames: Vec<QuicFrame>) -> (r: Self)
        ensures
            r.frames == frames,
    {
        Self { frames }
    }
}

/// A progression of the ECN state machine.
pub struct EcnStateUpdated {
    pub old: Option<EcnState>,
    pub new: EcnState,
}

impl EcnStateUpdated {
    pub fn new(old: Option<EcnState>, new: EcnState) -> (r: Self)
        ensures
            r.old == old,
            r.new == new,
    {
        Self { old, new }
    }
}

} // verus!
