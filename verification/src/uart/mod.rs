//! The UART-over-BLE frames of both dialects.
//!
//! A repeater node and a probe frame their messages alike:
//!
//! | bytes | field                                                   |
//! |-------|---------------------------------------------------------|
//! | 0..2  | magic, `0xca 0xfe`                                      |
//! | 2..4  | CRC-16/IBM-3740 of all that follows, little-endian      |
//! | 4     | type byte                                               |
//! | ...   | the rest of the header, which differs by dialect and    |
//! |       | direction and ends with the length of the payload       |
//! | ...   | payload                                                 |
//!
//! In the node dialect the top bit of the type byte tells a response from a
//! request, and the low seven bits select the message. In the probe dialect
//! the whole byte selects the message.

use vstd::prelude::*;
use crate::checksum::{checksum, crc16_ibm_3740};
use crate::error::FrameError;
use crate::uart::envelope::{frame_end, frame_with_checksum, sealed, MAGIC_0, MAGIC_1};
use crate::uart::request::Request;
use crate::uart::response::Response;
use crate::wire::{push_bytes, push_u32_le, u16_le, u32_le};

pub mod envelope;
pub mod laws;
pub mod node;
pub mod probe;
pub mod request;
pub mod response;

verus! {

/// The two framings that share the magic and the checksum.
#[derive(Debug, Clone, Copy, PartialEq, Eq, Structural)]
pub enum Dialect {
    /// What a repeater node speaks.
    Node,
    /// What a probe speaks when it is connected to directly.
    Probe,
}

/// A request in either dialect.
#[derive(Debug, Clone, Copy, PartialEq, Eq)]
pub enum AnyRequest {
    Node(node::request::RequestMessage),
    Probe(probe::request::RequestType),
}

impl AnyRequest {
    /// The dialect that the request is in.
    pub open spec fn dialect(self) -> Dialect {
        match self {
            AnyRequest::Node(_) => Dialect::Node,
            AnyRequest::Probe(_) => Dialect::Probe,
        }
    }
}

/// A decoded frame of either dialect. A client receives requests and
/// responses from a node, and only responses from a probe.
#[derive(Debug, Clone, Copy, PartialEq, Eq)]
pub enum AnyMessage {
    NodeRequest(node::request::Request),
    NodeResponse(node::response::Response),
    ProbeResponse(probe::response::Response),
}

/// The frame of the request `message` with the id `request_id` in the node
/// dialect: type byte, request id, length of the payload and payload, under
/// the magic and their checksum.
pub open spec fn node_request_frame(
    message: node::request::RequestMessage,
    request_id: u32,
) -> Seq<u8> {
    sealed(node::request::Request::body_for(message, request_id))
}

/// The frame of the request `message` in the probe dialect: type byte,
/// length of the payload and payload, under the magic and their checksum.
pub open spec fn probe_request_frame(message: probe::request::RequestType) -> Seq<u8> {
    sealed(probe::request::Request::body_for(message))
}

/// Encodes a request as the frame to write to the device.
///
/// A request to a node carries an id: `request_id`, or one drawn at random
/// where none is given. A request to a probe carries none, and `request_id`
/// is not looked at. Fails, with `FrameError::Direction`, exactly for a
/// message that only a node may send.
pub fn encode_request(message: &AnyRequest, request_id: Option<u32>) -> (r: Result<
    Vec<u8>,
    FrameError,
>)
    ensures
        match *message {
            AnyRequest::Node(m) => if m.encodable() {
                &&& r is Ok
                &&& exists|id: u32| r->Ok_0@ == #[trigger] node_request_frame(m, id)
                &&& request_id matches Some(id) ==> r->Ok_0@ == node_request_frame(m, id)
            } else {
                r == Err::<Vec<u8>, FrameError>(FrameError::Direction)
            },
            AnyRequest::Probe(m) => r is Ok && r->Ok_0@ == probe_request_frame(m),
        },
{
    match message {
        AnyRequest::Node(m) => {
            let id: u32 = match request_id {
                Some(id) => id,
                None => crate::random::random_request_id(),
            };
            let request = match node::request::Request::new_with_id(*m, id) {
                Ok(request) => request,
                Err(e) => {
                    return Err(e);
                },
            };
            let r = request.to_bytes();
            proof {
                assert(request.encoded() =~= node_request_frame(*m, id));
            }
            r
        },
        AnyRequest::Probe(m) => {
            let request = probe::request::Request::new(*m);
            let r = request.to_bytes();
            proof {
                assert(request.encoded() =~= probe_request_frame(*m));
            }
            r
        },
    }
}

/// Decodes the frame at the head of `input` in the given dialect, and hands
/// back what follows the frame.
///
/// In the node dialect the top bit of the type byte decides whether the
/// frame is read as a request or as a response. In the probe dialect every
/// frame is read as a response.
pub fn decode(input: &[u8], dialect: Dialect) -> (r: Result<(&[u8], AnyMessage), FrameError>)
    ensures
        match r {
            Ok((rest, AnyMessage::NodeRequest(request))) => {
                &&& dialect == Dialect::Node
                &&& node::request::request_error(input@) is None
                &&& request.decodes(input@)
                &&& rest@ == input@.subrange(frame_end(input@, 10), input@.len() as int)
            },
            Ok((rest, AnyMessage::NodeResponse(response))) => {
                &&& dialect == Dialect::Node
                &&& node::response::response_error(input@) is None
                &&& response.decodes(input@)
                &&& rest@ == input@.subrange(frame_end(input@, 15), input@.len() as int)
            },
            Ok((rest, AnyMessage::ProbeResponse(response))) => {
                &&& dialect == Dialect::Probe
                &&& probe::response::response_error(input@) is None
                &&& response.decodes(input@)
                &&& rest@ == input@.subrange(frame_end(input@, 7), input@.len() as int)
            },
            Err(e) => match dialect {
                Dialect::Node => if node::request::request_error(input@) == Some(
                    FrameError::Direction,
                ) {
                    node::response::response_error(input@) == Some(e)
                } else {
                    node::request::request_error(input@) == Some(e)
                },
                Dialect::Probe => probe::response::response_error(input@) == Some(e),
            },
        },
{
    match dialect {
        Dialect::Node => match node::request::Request::from_bytes(input) {
            Ok((rest, request)) => Ok((rest, AnyMessage::NodeRequest(request))),
            Err(FrameError::Direction) => match node::response::Response::from_bytes(input) {
                Ok((rest, response)) => Ok((rest, AnyMessage::NodeResponse(response))),
                Err(e) => Err(e),
            },
            Err(e) => Err(e),
        },
        Dialect::Probe => match probe::response::Response::from_bytes(input) {
            Ok((rest, response)) => Ok((rest, AnyMessage::ProbeResponse(response))),
            Err(e) => Err(e),
        },
    }
}


/// What a node message carries: a request or a response.
#[derive(Debug, Clone, Copy, PartialEq, Eq)]
pub enum MessageType {
    Request(Request),
    Response(Response),
}

/// A frame of the node dialect in one piece: the checksum, the bit that
/// tells a response from a request, and what the frame carries.
///
/// The bit is the top bit of the type byte on the wire, above the seven bits
/// of the message type.
#[derive(Debug, Clone, Copy, PartialEq, Eq)]
pub struct NodeMessage {
    pub crc: u16,
    /// 0 for a request, 1 for a response.
    pub message_type_id: u8,
    pub message_type: MessageType,
}

impl NodeMessage {
    /// What the checksum of a node message that carries `request` covers:
    /// the type byte, the request id, the length of the payload, and the
    /// payload.
    pub open spec fn body_of(message_type_id: u8, request: Request) -> Seq<u8> {
        seq![(request.request_type + 128 * message_type_id) as u8] + u32_le(request.request_id)
            + seq![request.payload_length] + request.message.encoded()
    }

    /// The frame of this message, where it carries a request.
    pub open spec fn encoded(self) -> Seq<u8> {
        seq![MAGIC_0, MAGIC_1] + u16_le(self.crc) + NodeMessage::body_of(
            self.message_type_id,
            self.message_type->Request_0,
        )
    }

    /// Whether the message can be put on the wire as it is: it carries a
    /// request that a client may send, the bit says so, and the type fits
    /// seven bits.
    pub open spec fn encodable(self) -> bool {
        &&& self.message_type is Request
        &&& self.message_type_id == 0
        &&& self.message_type->Request_0.request_type < 0x80
        &&& self.message_type->Request_0.message.encodable()
    }

    /// Whether the checksum is that of what the message carries.
    pub open spec fn sound(self) -> bool {
        &&& self.message_type matches MessageType::Request(request)
        &&& self.message_type_id == 0
        &&& request.sound()
        &&& self.crc == crc16_ibm_3740(NodeMessage::body_of(0, request))
    }

    /// What the checksum of a node message for `request` is computed over:
    /// the type byte, which is the type of the message itself plus 128 times
    /// the selector `message_type_id`; the request id; the length of the
    /// payload of the message; and that payload.
    pub open spec fn checked_bytes(message_type_id: u8, request: Request) -> Seq<u8> {
        seq![(request.message.discriminator() + 128 * message_type_id) as u8] + u32_le(
            request.request_id,
        ) + seq![request.message.encoded().len() as u8] + request.message.encoded()
    }

    /// Puts `message_type` in a node message and computes the checksum for
    /// it, over the type and the payload of the message itself, whatever the
    /// type and length fields of the request say. Fails, with
    /// `FrameError::Direction`, for a response and for a request that a
    /// client may not send: neither is ever written.
    pub fn new(message_type: MessageType) -> (r: Result<NodeMessage, FrameError>)
        ensures
            match message_type {
                MessageType::Request(request) => if request.message.encodable() {
                    &&& r is Ok
                    &&& r->Ok_0.message_type == message_type
                    &&& r->Ok_0.message_type_id == 0
                    &&& r->Ok_0.crc == crc16_ibm_3740(NodeMessage::checked_bytes(0, request))
                    &&& request.sound() ==> r->Ok_0.sound()
                } else {
                    r == Err::<NodeMessage, FrameError>(FrameError::Direction)
                },
                MessageType::Response(_) => r == Err::<NodeMessage, FrameError>(
                    FrameError::Direction,
                ),
            },
    {
        let request: Request = match message_type {
            MessageType::Request(request) => request,
            MessageType::Response(_) => {
                return Err(FrameError::Direction);
            },
        };
        let payload: Vec<u8> = match request.message.to_bytes() {
            Ok(p) => p,
            Err(e) => {
                return Err(e);
            },
        };
        let message_type_id: u8 = 0;
        let type_byte: u8 = request.message.id() + 128 * message_type_id;
        let length: u8 = payload.len() as u8;
        let mut body: Vec<u8> = Vec::new();
        body.push(type_byte);
        push_u32_le(&mut body, request.request_id);
        body.push(length);
        push_bytes(&mut body, payload.as_slice());
        assert(body@ =~= NodeMessage::checked_bytes(message_type_id, request));
        let crc: u16 = checksum(body.as_slice());
        Ok(NodeMessage { crc, message_type_id, message_type })
    }

    /// The frame of this message, field by field as it holds them. Fails,
    /// with `FrameError::Direction`, exactly where the message cannot be put
    /// on the wire.
    pub fn to_bytes(&self) -> (r: Result<Vec<u8>, FrameError>)
        ensures
            self.encodable() ==> r is Ok && r->Ok_0@ == self.encoded(),
            !self.encodable() ==> r == Err::<Vec<u8>, FrameError>(FrameError::Direction),
    {
        let request: Request = match self.message_type {
            MessageType::Request(request) => request,
            MessageType::Response(_) => {
                return Err(FrameError::Direction);
            },
        };
        if self.message_type_id != 0 || request.request_type >= 0x80 {
            return Err(FrameError::Direction);
        }
        let payload: Vec<u8> = match request.message.to_bytes() {
            Ok(p) => p,
            Err(e) => {
                return Err(e);
            },
        };
        let mut body: Vec<u8> = Vec::new();
        body.push(request.request_type);
        push_u32_le(&mut body, request.request_id);
        body.push(request.payload_length);
        push_bytes(&mut body, payload.as_slice());
        assert(body@ =~= NodeMessage::body_of(self.message_type_id, request));
        Ok(frame_with_checksum(body.as_slice(), self.crc))
    }

    /// The request frame of the node dialect that says the same as this
    /// message, where it carries a request.
    pub open spec fn as_request(self) -> node::request::Request {
        node::request::Request {
            request_header: node::request::RequestHeader {
                crc: self.crc,
                request_type: self.message_type->Request_0.request_type,
                request_id: self.message_type->Request_0.request_id,
                payload_length: self.message_type->Request_0.payload_length,
            },
            message: self.message_type->Request_0.message,
        }
    }

    /// The response frame of the node dialect that says the same as this
    /// message, where it carries a response.
    pub open spec fn as_response(self) -> node::response::Response {
        node::response::Response {
            header: node::response::ResponseHeader {
                crc: self.crc,
                response_type: (self.message_type->Response_0.response_type + 128) as u8,
                request_id: self.message_type->Response_0.request_id,
                response_id: self.message_type->Response_0.response_id,
                success: self.message_type->Response_0.success,
                payload_length: self.message_type->Response_0.payload_length,
            },
            message: self.message_type->Response_0.message,
        }
    }

    /// Decodes the frame at the head of `input`, request or response as the
    /// top bit of its type byte says, and hands back what follows the frame.
    pub fn from_bytes(input: &[u8]) -> (r: Result<(&[u8], NodeMessage), FrameError>)
        ensures
            match r {
                Ok((rest, message)) => match message.message_type {
                    MessageType::Request(_) => {
                        &&& message.message_type_id == 0
                        &&& node::request::request_error(input@) is None
                        &&& message.as_request().decodes(input@)
                        &&& rest@ == input@.subrange(frame_end(input@, 10), input@.len() as int)
                    },
                    MessageType::Response(response) => {
                        &&& message.message_type_id == 1
                        &&& response.response_type < 0x80
                        &&& node::response::response_error(input@) is None
                        &&& message.as_response().decodes(input@)
                        &&& rest@ == input@.subrange(frame_end(input@, 15), input@.len() as int)
                    },
                },
                Err(e) => if node::request::request_error(input@) == Some(FrameError::Direction) {
                    node::response::response_error(input@) == Some(e)
                } else {
                    node::request::request_error(input@) == Some(e)
                },
            },
    {
        match decode(input, Dialect::Node) {
            Ok((rest, AnyMessage::NodeRequest(request))) => Ok(
                (
                    rest,
                    NodeMessage {
                        crc: request.request_header.crc,
                        message_type_id: 0,
                        message_type: MessageType::Request(
                            Request {
                                request_type: request.request_header.request_type,
                                request_id: request.request_header.request_id,
                                payload_length: request.request_header.payload_length,
                                message: request.message,
                            },
                        ),
                    },
                ),
            ),
            Ok((rest, AnyMessage::NodeResponse(response))) => {
                let message = NodeMessage {
                    crc: response.header.crc,
                    message_type_id: 1,
                    message_type: MessageType::Response(
                        Response {
                            response_type: response.header.response_type % 128,
                            request_id: response.header.request_id,
                            response_id: response.header.response_id,
                            success: response.header.success,
                            payload_length: response.header.payload_length,
                            message: response.message,
                        },
                    ),
                };
                proof {
                    assert(response.header.response_type >= 0x80);
                    assert(message.as_response() == response);
                }
                Ok((rest, message))
            },
            Ok((_, AnyMessage::ProbeResponse(_))) => Err(FrameError::Direction),
            Err(e) => Err(e),
        }
    }
}

} // verus!
