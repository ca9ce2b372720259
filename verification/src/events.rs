//! What the listener makes of the frames that arrive.
//!
//! Of all the messages only two matter beyond the codec: a log record that a
//! device hands out, and a status that tells which records it holds. The
//! listener turns them into events for whoever shows or stores readings, and
//! into messages for the synchronisation engine.

use vstd::prelude::*;
use crate::device::DeviceKind;
use crate::error::DecodeError;
use crate::status::ProbeStatus;
use crate::sync::SyncMessages;
use crate::temperature::Temperature;
use crate::types::SerialNumber;
use crate::uart::node::request::RequestMessage;
use crate::uart::node::response::ResponseMessage;
use crate::uart::node::MessageType;
use crate::uart::probe::response::{
    after_frames, decode_frames, frame_count, from_frame, Response,
};
use crate::uart::AnyRequest;

verus! {

/// Something that a device has told and that the layers above care about.
#[derive(Debug, Clone, Copy, PartialEq, Eq)]
pub enum DeviceEvent {
    /// The probe with this serial number has handed out the record with
    /// this sequence number, which holds these eight readings.
    LogAppended(SerialNumber, u32, [Temperature; 8]),
    /// The probe with this serial number has this status.
    StatusUpdated(SerialNumber, ProbeStatus),
}

impl DeviceEvent {
    /// The probe that the event is about.
    pub open spec fn serial(self) -> SerialNumber {
        match self {
            DeviceEvent::LogAppended(serial, _, _) => serial,
            DeviceEvent::StatusUpdated(serial, _) => serial,
        }
    }

    /// What the event means to the synchronisation engine: a record has
    /// arrived, or the window is known afresh.
    pub open spec fn sync_message(self) -> SyncMessages {
        match self {
            DeviceEvent::LogAppended(_, sequence_number, _) => SyncMessages::LogReceived(
                sequence_number,
            ),
            DeviceEvent::StatusUpdated(_, status) => SyncMessages::LogRangeAvailable(
                status.log_start,
                status.log_end,
            ),
        }
    }

    /// What the event means to an engine that follows the probe `target`:
    /// nothing, where the event is about another probe.
    pub fn sync_message_for(&self, target: SerialNumber) -> (message: Option<SyncMessages>)
        ensures
            message == if self.serial() == target {
                Some(self.sync_message())
            } else {
                None
            },
    {
        match self {
            DeviceEvent::LogAppended(serial, sequence_number, _) => {
                if serial.number == target.number {
                    Some(SyncMessages::LogReceived(*sequence_number))
                } else {
                    None
                }
            },
            DeviceEvent::StatusUpdated(serial, status) => {
                if serial.number == target.number {
                    Some(SyncMessages::LogRangeAvailable(status.log_start, status.log_end))
                } else {
                    None
                }
            },
        }
    }
}

/// The event in a frame of the node dialect, if there is one: a log record
/// in a response, or the status of a probe in a request of the node.
pub open spec fn node_event(message: MessageType) -> Option<DeviceEvent> {
    match message {
        MessageType::Response(response) => match response.message {
            ResponseMessage::ReadLogs(m) => Some(
                DeviceEvent::LogAppended(m.probe_serial_number, m.sequence_number, m.temperatures),
            ),
            _ => None,
        },
        MessageType::Request(request) => match request.message {
            RequestMessage::ProbeStatusMessage(m) => Some(
                DeviceEvent::StatusUpdated(m.probe_serial_number, m.status),
            ),
            _ => None,
        },
    }
}

/// The event in a frame of the node dialect, if there is one.
pub fn event_of_node_message(message: &MessageType) -> (event: Option<DeviceEvent>)
    ensures
        event == node_event(*message),
{
    match message {
        MessageType::Response(response) => match &response.message {
            ResponseMessage::ReadLogs(m) => Some(
                DeviceEvent::LogAppended(m.probe_serial_number, m.sequence_number, m.temperatures),
            ),
            _ => None,
        },
        MessageType::Request(request) => match &request.message {
            RequestMessage::ProbeStatusMessage(m) => Some(
                DeviceEvent::StatusUpdated(m.probe_serial_number, m.status),
            ),
            _ => None,
        },
    }
}

/// The event in a frame of the probe dialect, if there is one: a log record
/// of the probe `serial`, which is the one that is connected.
pub open spec fn probe_event(response: Response, serial: SerialNumber) -> Option<DeviceEvent> {
    match response.message {
        crate::uart::probe::response::ResponseMessage::ReadLogs(m) => Some(
            DeviceEvent::LogAppended(serial, m.sequence_number, m.temperatures),
        ),
        _ => None,
    }
}

/// The events in a run of frames of the probe dialect, in the order of the
/// frames.
pub open spec fn probe_events(frames: Seq<Response>, serial: SerialNumber) -> Seq<DeviceEvent>
    decreases frames.len(),
{
    if frames.len() == 0 {
        Seq::empty()
    } else {
        let before = probe_events(frames.drop_last(), serial);
        match probe_event(frames.last(), serial) {
            Some(event) => before.push(event),
            None => before,
        }
    }
}

/// What one notification of a probe held.
#[derive(Debug, PartialEq, Eq)]
pub struct ProbeNotification {
    /// The frames that were decoded, in their order.
    pub frames: Vec<Response>,
    /// The events in those frames, in their order.
    pub events: Vec<DeviceEvent>,
    /// How many bytes at the end of the buffer were not decoded.
    pub left_over: usize,
}

/// Decodes a notification of the probe `serial`: all the frames that the
/// buffer starts with, and the events in them. What does not decode is left
/// over, and is no error: the rest of a frame may yet arrive.
pub fn probe_notification(input: &[u8], serial: SerialNumber) -> (r: ProbeNotification)
    ensures
        r.frames@.len() == frame_count(input@),
        forall|i: int|
            0 <= i < r.frames@.len() ==> (#[trigger] r.frames@[i]).decodes(
                from_frame(input@, i as nat),
            ),
        r.events@ == probe_events(r.frames@, serial),
        r.left_over == after_frames(input@).len(),
{
    let (frames, rest) = decode_frames(input);
    let mut events: Vec<DeviceEvent> = Vec::new();
    let mut i: usize = 0;
    while i < frames.len()
        invariant
            i <= frames@.len(),
            events@ == probe_events(frames@.take(i as int), serial),
        decreases frames@.len() - i,
    {
        proof {
            let next = frames@.take(i + 1);
            assert(next.drop_last() =~= frames@.take(i as int));
            assert(next.last() == frames@[i as int]);
        }
        match &frames[i].message {
            crate::uart::probe::response::ResponseMessage::ReadLogs(m) => {
                events.push(DeviceEvent::LogAppended(serial, m.sequence_number, m.temperatures));
            },
            _ => {},
        }
        i += 1;
    }
    assert(frames@.take(i as int) =~= frames@);
    ProbeNotification { frames, events, left_over: rest.len() }
}

/// The event in a status record that was read from the probe `serial`.
/// Fails exactly where the bytes are too few for a record.
pub fn probe_status_event(input: &[u8], serial: SerialNumber) -> (r: Result<
    DeviceEvent,
    DecodeError,
>)
    ensures
        input@.len() < 48 ==> r == Err::<DeviceEvent, DecodeError>(DecodeError::Truncated),
        input@.len() >= 48 ==> (r matches Ok(DeviceEvent::StatusUpdated(s, status)) && s == serial
            && status.decodes(input@, 0) && status.wf()),
{
    match ProbeStatus::from_bytes(input) {
        Ok((_, status)) => Ok(DeviceEvent::StatusUpdated(serial, status)),
        Err(e) => Err(e),
    }
}


/// The request that asks a device for the log records of one batch, from
/// the first to the second sequence number, both included.
///
/// A node is asked for the records of the probe `serial`. A probe is asked
/// for its own, and `serial` goes unused.
pub open spec fn read_logs_for(
    kind: DeviceKind,
    serial: SerialNumber,
    batch: (u32, u32),
) -> AnyRequest {
    match kind {
        DeviceKind::Node => AnyRequest::Node(
            RequestMessage::ReadLogs(
                crate::uart::node::request::ReadLogs {
                    probe_serial_number: serial,
                    sequence_number_start: batch.0,
                    sequence_number_end: batch.1,
                },
            ),
        ),
        DeviceKind::Probe => AnyRequest::Probe(
            crate::uart::probe::request::RequestType::ReadLogs(
                crate::uart::probe::request::ReadLogs {
                    sequence_number_start: batch.0,
                    sequence_number_end: batch.1,
                },
            ),
        ),
    }
}

/// The request that asks a device for the log records of one batch.
pub fn read_logs_request(kind: DeviceKind, serial: SerialNumber, batch: (u32, u32)) -> (request:
    AnyRequest)
    ensures
        request == read_logs_for(kind, serial, batch),
{
    match kind {
        DeviceKind::Node => AnyRequest::Node(
            RequestMessage::ReadLogs(
                crate::uart::node::request::ReadLogs {
                    probe_serial_number: serial,
                    sequence_number_start: batch.0,
                    sequence_number_end: batch.1,
                },
            ),
        ),
        DeviceKind::Probe => AnyRequest::Probe(
            crate::uart::probe::request::RequestType::ReadLogs(
                crate::uart::probe::request::ReadLogs {
                    sequence_number_start: batch.0,
                    sequence_number_end: batch.1,
                },
            ),
        ),
    }
}

} // verus!
