//! A request as it lies inside a node message: the seven bits of its type,
//! its id, the length of its payload, and the message.

use vstd::prelude::*;
use crate::error::FrameError;
use crate::random::random_request_id;
use crate::uart::node::request::RequestMessage;

verus! {

/// The catalog of requests of a node message: that of the node dialect.
pub type RequestType = RequestMessage;

/// A request inside a node message.
#[derive(Debug, Clone, Copy, PartialEq, Eq)]
pub struct Request {
    /// The message type, which takes the low seven bits of the type byte.
    pub request_type: u8,
    pub request_id: u32,
    pub payload_length: u8,
    pub message: RequestType,
}

impl Request {
    /// Whether type and length are those of the message.
    pub open spec fn sound(self) -> bool {
        &&& self.message.encodable()
        &&& self.request_type == self.message.discriminator()
        &&& self.payload_length == self.message.encoded().len()
    }

    /// Wraps `message` in a request with the id `request_id`. Fails, with
    /// `FrameError::Direction`, exactly for a message that a client may not
    /// send.
    pub fn new_with_id(message: RequestType, request_id: u32) -> (r: Result<Request, FrameError>)
        ensures
            message.encodable() ==> r is Ok && r->Ok_0.message == message && r->Ok_0.request_id
                == request_id && r->Ok_0.sound(),
            !message.encodable() ==> r == Err::<Request, FrameError>(FrameError::Direction),
    {
        let payload: Vec<u8> = match message.to_bytes() {
            Ok(p) => p,
            Err(e) => {
                return Err(e);
            },
        };
        Ok(
            Request {
                request_type: message.id(),
                request_id,
                payload_length: payload.len() as u8,
                message,
            },
        )
    }

    /// Wraps `message` in a request with an id drawn at random.
    pub fn new(message: RequestType) -> (r: Result<Request, FrameError>)
        ensures
            message.encodable() ==> r is Ok && r->Ok_0.message == message && r->Ok_0.sound(),
            !message.encodable() ==> r == Err::<Request, FrameError>(FrameError::Direction),
    {
        Request::new_with_id(message, random_request_id())
    }
}

} // verus!
