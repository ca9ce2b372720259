//! What holds between encoding and decoding: a frame that was encoded
//! decodes, and to the message that it was encoded from.

use vstd::prelude::*;
use crate::uart::envelope::{covered, envelope_error, frame_end, FrameKind};
use crate::uart::node::request::{
    request_error, ConnectionDetailRecord, HeartbeatMessage, ReadLogs, ReadSessionInformation,
    Request, RequestMessage, SyncThermometer, SyncThermometerList,
};
use crate::wire::{lemma_u16_round_trip, lemma_u32_round_trip, u16_at, u16_le, u32_at, u32_le};

verus! {

/// Four bytes that were written for `x` read back as `x`, wherever they lie.
pub proof fn lemma_u32_placed(s: Seq<u8>, at: int, x: u32)
    requires
        0 <= at,
        at + 4 <= s.len(),
        s.subrange(at, at + 4) == u32_le(x),
    ensures
        u32_at(s, at) == x,
{
    lemma_u32_round_trip(x);
    let part = s.subrange(at, at + 4);
    assert(part[0] == s[at] && part[1] == s[at + 1] && part[2] == s[at + 2] && part[3] == s[at
        + 3]);
}

/// Two bytes that were written for `x` read back as `x`, wherever they lie.
pub proof fn lemma_u16_placed(s: Seq<u8>, at: int, x: u16)
    requires
        0 <= at,
        at + 2 <= s.len(),
        s.subrange(at, at + 2) == u16_le(x),
    ensures
        u16_at(s, at) == x,
{
    lemma_u16_round_trip(x);
    let part = s.subrange(at, at + 2);
    assert(part[0] == s[at] && part[1] == s[at + 1]);
}

/// An encoded connection record decodes to the record.
pub proof fn lemma_connection_record_round_trip(m: ConnectionDetailRecord, s: Seq<u8>, at: int)
    requires
        0 <= at,
        at + 13 <= s.len(),
        s.subrange(at, at + 13) == m.encoded(),
    ensures
        ConnectionDetailRecord::check(s, at) is None,
        m.decodes(s, at),
{
    let part = s.subrange(at, at + 13);
    assert(m.serial_number@.len() == 10);
    assert(part[10] == s[at + 10] && part[11] == s[at + 11] && part[12] == s[at + 12]);
    assert(s.subrange(at, at + 10) =~= part.subrange(0, 10));
    assert(part.subrange(0, 10) =~= m.serial_number@);
}

/// An encoded heartbeat decodes to the heartbeat.
pub proof fn lemma_heartbeat_round_trip(m: HeartbeatMessage, s: Seq<u8>, at: int)
    requires
        0 <= at,
        at + 71 <= s.len(),
        s.subrange(at, at + 71) == m.encoded(),
    ensures
        HeartbeatMessage::check(s, at) is None,
        m.decodes(s, at),
{
    let part = s.subrange(at, at + 71);
    assert(m.node_serial_number@.len() == 10);
    assert(m.mac_address.address@.len() == 6);
    assert(m.connection_details[0].encoded().len() == 13);
    assert(m.connection_details[1].encoded().len() == 13);
    assert(m.connection_details[2].encoded().len() == 13);
    assert(m.connection_details[3].encoded().len() == 13);
    assert(part[16] == s[at + 16] && part[17] == s[at + 17] && part[18] == s[at + 18]);
    assert(s.subrange(at, at + 10) =~= m.node_serial_number@) by {
        assert(s.subrange(at, at + 10) =~= part.subrange(0, 10));
    }
    assert(s.subrange(at + 10, at + 16) =~= m.mac_address.address@) by {
        assert(s.subrange(at + 10, at + 16) =~= part.subrange(10, 16));
    }
    assert(s.subrange(at + 19, at + 32) =~= m.connection_details[0].encoded()) by {
        assert(s.subrange(at + 19, at + 32) =~= part.subrange(19, 32));
    }
    assert(s.subrange(at + 32, at + 45) =~= m.connection_details[1].encoded()) by {
        assert(s.subrange(at + 32, at + 45) =~= part.subrange(32, 45));
    }
    assert(s.subrange(at + 45, at + 58) =~= m.connection_details[2].encoded()) by {
        assert(s.subrange(at + 45, at + 58) =~= part.subrange(45, 58));
    }
    assert(s.subrange(at + 58, at + 71) =~= m.connection_details[3].encoded()) by {
        assert(s.subrange(at + 58, at + 71) =~= part.subrange(58, 71));
    }
    lemma_connection_record_round_trip(m.connection_details[0], s, at + 19);
    lemma_connection_record_round_trip(m.connection_details[1], s, at + 32);
    lemma_connection_record_round_trip(m.connection_details[2], s, at + 45);
    lemma_connection_record_round_trip(m.connection_details[3], s, at + 58);
}

/// An encoded slot of a thermometer list decodes to the slot.
pub proof fn lemma_sync_thermometer_round_trip(m: SyncThermometer, s: Seq<u8>, at: int)
    requires
        0 <= at,
        at + 5 <= s.len(),
        s.subrange(at, at + 5) == m.encoded(),
    ensures
        SyncThermometer::check(s, at) is None,
        m.decodes(s, at),
{
    let part = s.subrange(at, at + 5);
    assert(part[0] == s[at]);
    assert(s.subrange(at + 1, at + 5) =~= u32_le(m.serial_number.number)) by {
        assert(s.subrange(at + 1, at + 5) =~= part.subrange(1, 5));
    }
    lemma_u32_placed(s, at + 1, m.serial_number.number);
}

/// An encoded thermometer list decodes to the list.
pub proof fn lemma_sync_list_round_trip(m: SyncThermometerList, s: Seq<u8>, at: int)
    requires
        0 <= at,
        at + 26 <= s.len(),
        s.subrange(at, at + 26) == m.encoded(),
    ensures
        SyncThermometerList::check(s, at) is None,
        m.decodes(s, at),
{
    let part = s.subrange(at, at + 26);
    assert(m.mac_address.address@.len() == 6);
    assert(s.subrange(at, at + 6) =~= m.mac_address.address@) by {
        assert(s.subrange(at, at + 6) =~= part.subrange(0, 6));
    }
    assert(s.subrange(at + 6, at + 11) =~= m.sync_thermometers[0].encoded()) by {
        assert(s.subrange(at + 6, at + 11) =~= part.subrange(6, 11));
    }
    assert(s.subrange(at + 11, at + 16) =~= m.sync_thermometers[1].encoded()) by {
        assert(s.subrange(at + 11, at + 16) =~= part.subrange(11, 16));
    }
    assert(s.subrange(at + 16, at + 21) =~= m.sync_thermometers[2].encoded()) by {
        assert(s.subrange(at + 16, at + 21) =~= part.subrange(16, 21));
    }
    assert(s.subrange(at + 21, at + 26) =~= m.sync_thermometers[3].encoded()) by {
        assert(s.subrange(at + 21, at + 26) =~= part.subrange(21, 26));
    }
    lemma_sync_thermometer_round_trip(m.sync_thermometers[0], s, at + 6);
    lemma_sync_thermometer_round_trip(m.sync_thermometers[1], s, at + 11);
    lemma_sync_thermometer_round_trip(m.sync_thermometers[2], s, at + 16);
    lemma_sync_thermometer_round_trip(m.sync_thermometers[3], s, at + 21);
}

/// An encoded request for logs decodes to the request.
pub proof fn lemma_read_logs_round_trip(m: ReadLogs, s: Seq<u8>, at: int)
    requires
        0 <= at,
        at + 12 <= s.len(),
        s.subrange(at, at + 12) == m.encoded(),
    ensures
        m.decodes(s, at),
{
    let part = s.subrange(at, at + 12);
    assert(s.subrange(at, at + 4) =~= u32_le(m.probe_serial_number.number)) by {
        assert(s.subrange(at, at + 4) =~= part.subrange(0, 4));
    }
    assert(s.subrange(at + 4, at + 8) =~= u32_le(m.sequence_number_start)) by {
        assert(s.subrange(at + 4, at + 8) =~= part.subrange(4, 8));
    }
    assert(s.subrange(at + 8, at + 12) =~= u32_le(m.sequence_number_end)) by {
        assert(s.subrange(at + 8, at + 12) =~= part.subrange(8, 12));
    }
    lemma_u32_placed(s, at, m.probe_serial_number.number);
    lemma_u32_placed(s, at + 4, m.sequence_number_start);
    lemma_u32_placed(s, at + 8, m.sequence_number_end);
}

/// The payload of a request that a client may send decodes to the request.
pub proof fn lemma_request_message_round_trip(m: RequestMessage, s: Seq<u8>, at: int)
    requires
        m.encodable(),
        0 <= at,
        at + m.encoded().len() <= s.len(),
        s.subrange(at, at + m.encoded().len() as int) == m.encoded(),
    ensures
        RequestMessage::check(m.discriminator(), s, at, m.encoded().len() as int) is None,
        m.decodes(m.discriminator(), s, at),
{
    match m {
        RequestMessage::SetProbeId(_) => {},
        RequestMessage::SetProbeColor(_) => {},
        RequestMessage::ReadSessionInformation(inner) => {
            lemma_u32_placed(s, at, inner.serial_number.number);
        },
        RequestMessage::ReadLogs(inner) => {
            lemma_read_logs_round_trip(inner, s, at);
        },
        RequestMessage::ProbeStatusMessage(_) => {},
        RequestMessage::HeartbeatMessage(inner) => {
            assert(inner.node_serial_number@.len() == 10);
            assert(inner.mac_address.address@.len() == 6);
            assert(inner.connection_details[0].serial_number@.len() == 10);
            assert(inner.connection_details[1].serial_number@.len() == 10);
            assert(inner.connection_details[2].serial_number@.len() == 10);
            assert(inner.connection_details[3].serial_number@.len() == 10);
            lemma_heartbeat_round_trip(inner, s, at);
        },
        RequestMessage::SyncThermometerList(inner) => {
            assert(inner.mac_address.address@.len() == 6);
            lemma_sync_list_round_trip(inner, s, at);
        },
    }
}

/// The frame of a request whose header belongs to its message decodes, to
/// that request, and leaves nothing over.
pub proof fn lemma_request_round_trip(request: Request)
    requires
        request.sound(),
    ensures
        request_error(request.encoded()) is None,
        request.decodes(request.encoded()),
        frame_end(request.encoded(), 10) == request.encoded().len(),
{
    let s = request.encoded();
    let m = request.message;
    let h = request.request_header;
    let body = request.body();
    lemma_request_message_round_trip_len(m);
    assert(s.len() == 10 + m.encoded().len());
    assert(s[4] == h.request_type);
    assert(s[9] == h.payload_length);
    assert(s.subrange(2, 4) =~= u16_le(h.crc));
    lemma_u16_placed(s, 2, h.crc);
    assert(s.subrange(5, 9) =~= u32_le(h.request_id));
    lemma_u32_placed(s, 5, h.request_id);
    assert(covered(s, 10) =~= body);
    assert(s.subrange(10, 10 + m.encoded().len() as int) =~= m.encoded());
    lemma_request_message_round_trip(m, s, 10);
    assert(envelope_error(s, 10, Some(FrameKind::Request)) is None);
}

/// The payload of a request has the length that its type says, and its type
/// byte has the top bit clear.
pub proof fn lemma_request_message_round_trip_len(m: RequestMessage)
    requires
        m.encodable(),
    ensures
        crate::uart::node::request::payload_len_of(m.discriminator()) == Some(
            m.encoded().len() as int,
        ),
        m.discriminator() < 0x80,
        m.encoded().len() <= 71,
{
    match m {
        RequestMessage::HeartbeatMessage(inner) => {
            assert(inner.node_serial_number@.len() == 10);
            assert(inner.mac_address.address@.len() == 6);
            assert(inner.connection_details[0].serial_number@.len() == 10);
            assert(inner.connection_details[1].serial_number@.len() == 10);
            assert(inner.connection_details[2].serial_number@.len() == 10);
            assert(inner.connection_details[3].serial_number@.len() == 10);
        },
        RequestMessage::SyncThermometerList(inner) => {
            assert(inner.mac_address.address@.len() == 6);
        },
        _ => {},
    }
}


/// The frame of a request to a probe whose header belongs to its message
/// decodes, to that request, and leaves nothing over.
pub proof fn lemma_probe_request_round_trip(request: crate::uart::probe::request::Request)
    requires
        request.sound(),
    ensures
        crate::uart::probe::request::request_error(request.encoded()) is None,
        request.decodes(request.encoded()),
        frame_end(request.encoded(), 6) == request.encoded().len(),
{
    let s = request.encoded();
    let m = request.message;
    let body = request.body();
    assert(s[4] == request.request_type);
    assert(s[5] == request.payload_length);
    assert(s.subrange(2, 4) =~= u16_le(request.crc));
    lemma_u16_placed(s, 2, request.crc);
    assert(covered(s, 6) =~= body);
    match m {
        crate::uart::probe::request::RequestType::ReadLogs(inner) => {
            assert(s.subrange(6, 10) =~= u32_le(inner.sequence_number_start));
            assert(s.subrange(10, 14) =~= u32_le(inner.sequence_number_end));
            lemma_u32_placed(s, 6, inner.sequence_number_start);
            lemma_u32_placed(s, 10, inner.sequence_number_end);
        },
        _ => {},
    }
    assert(envelope_error(s, 6, None) is None);
}


/// A frame says one thing: any two requests that it decodes to are the same
/// request.
pub proof fn lemma_request_decoding_is_unique(a: Request, b: Request, s: Seq<u8>)
    requires
        a.decodes(s),
        b.decodes(s),
    ensures
        a == b,
{
    assert(a.request_header == b.request_header);
    match (a.message, b.message) {
        (RequestMessage::ProbeStatusMessage(x), RequestMessage::ProbeStatusMessage(y)) => {
            assert(x.status.temperatures =~= y.status.temperatures);
            assert(x.status == y.status);
        },
        (RequestMessage::HeartbeatMessage(x), RequestMessage::HeartbeatMessage(y)) => {
            assert(x.node_serial_number =~= y.node_serial_number);
            assert(x.mac_address.address =~= y.mac_address.address);
            assert forall|i: int| 0 <= i < 4 implies x.connection_details[i]
                == y.connection_details[i] by {
                let at = 29 + 13 * i;
                assert(x.connection_details[i].decodes(s, at));
                assert(y.connection_details[i].decodes(s, at));
                assert(x.connection_details[i].serial_number
                    =~= y.connection_details[i].serial_number);
            }
            assert(x.connection_details =~= y.connection_details);
        },
        (RequestMessage::SyncThermometerList(x), RequestMessage::SyncThermometerList(y)) => {
            assert(x.mac_address.address =~= y.mac_address.address);
            assert forall|i: int| 0 <= i < 4 implies x.sync_thermometers[i]
                == y.sync_thermometers[i] by {
                let at = 16 + 5 * i;
                assert(x.sync_thermometers[i].decodes(s, at));
                assert(y.sync_thermometers[i].decodes(s, at));
            }
            assert(x.sync_thermometers =~= y.sync_thermometers);
        },
        _ => {},
    }
}

/// A frame says one thing: any two responses of a node that it decodes to
/// are the same response.
pub proof fn lemma_response_decoding_is_unique(
    a: crate::uart::node::response::Response,
    b: crate::uart::node::response::Response,
    s: Seq<u8>,
)
    requires
        a.decodes(s),
        b.decodes(s),
    ensures
        a == b,
{
    assert(a.header == b.header);
    match (a.message, b.message) {
        (
            crate::uart::node::response::ResponseMessage::ReadLogs(x),
            crate::uart::node::response::ResponseMessage::ReadLogs(y),
        ) => {
            assert(x.temperatures =~= y.temperatures);
            assert(x.virtual_sensors_and_state =~= y.virtual_sensors_and_state);
        },
        _ => {},
    }
}

/// A frame says one thing: any two responses of a probe that it decodes to
/// are the same response.
pub proof fn lemma_probe_response_decoding_is_unique(
    a: crate::uart::probe::response::Response,
    b: crate::uart::probe::response::Response,
    s: Seq<u8>,
)
    requires
        a.decodes(s),
        b.decodes(s),
    ensures
        a == b,
{
    match (a.message, b.message) {
        (
            crate::uart::probe::response::ResponseMessage::ReadLogs(x),
            crate::uart::probe::response::ResponseMessage::ReadLogs(y),
        ) => {
            assert(x.temperatures =~= y.temperatures);
            assert(x.virtual_sensors_and_state =~= y.virtual_sensors_and_state);
        },
        _ => {},
    }
}

} // verus!
