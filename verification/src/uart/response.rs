//! A response as it lies inside a node message: the seven bits of its type,
//! the ids, the success flag, the length of its payload, and the message.

use vstd::prelude::*;
use crate::uart::node::response::ResponseMessage;

verus! {

/// A response inside a node message.
#[derive(Debug, Clone, Copy, PartialEq, Eq)]
pub struct Response {
    /// The message type, which takes the low seven bits of the type byte.
    pub response_type: u8,
    pub request_id: u32,
    pub response_id: u32,
    pub success: bool,
    pub payload_length: u8,
    pub message: ResponseMessage,
}

} // verus!
