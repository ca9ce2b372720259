//! The dialect that a repeater node speaks.
//!
//! Requests and responses share the magic and the numbers of the message
//! types. What tells them apart is the top bit of the type byte, so a buffer
//! of unknown kind is tried as a request first and as a response after.

use vstd::prelude::*;
use crate::error::FrameError;
use crate::uart::node::request::{request_error, Request};
use crate::uart::node::response::{response_error, Response};

pub mod request;
pub mod response;

verus! {

/// A frame of either kind.
#[derive(Debug, Clone, Copy, PartialEq, Eq)]
pub enum MessageType {
    Request(Request),
    Response(Response),
}

/// Decodes a buffer that holds one frame, request or response, and nothing
/// else.
///
/// The buffer is tried as a request first. A request whose checksum is not
/// that of its contents is refused at once, with `FrameError::Integrity`.
/// Where the first try fails in any other way the buffer is tried as a
/// response, and where that fails too, the error is the one of the second
/// try.
pub fn try_request_or_response_from(input: &[u8]) -> (r: Result<MessageType, FrameError>)
    ensures
        request_error(input@) == Some(FrameError::Integrity) ==> r == Err::<
            MessageType,
            FrameError,
        >(FrameError::Integrity),
        match r {
            Ok(MessageType::Request(request)) => {
                &&& request_error(input@) is None
                &&& input@.len() == crate::uart::envelope::frame_end(input@, 10)
                &&& request.decodes(input@)
            },
            Ok(MessageType::Response(response)) => {
                &&& response_error(input@) is None
                &&& input@.len() == crate::uart::envelope::frame_end(input@, 15)
                &&& response.decodes(input@)
            },
            Err(e) => if request_error(input@) == Some(FrameError::Integrity) {
                e == FrameError::Integrity
            } else {
                &&& request_error(input@) is Some || input@.len()
                    > crate::uart::envelope::frame_end(input@, 10)
                &&& match response_error(input@) {
                    Some(cause) => e == cause,
                    None => e == FrameError::Structure(crate::error::DecodeError::TrailingBytes)
                        && input@.len() > crate::uart::envelope::frame_end(input@, 15),
                }
            },
        },
{
    match Request::try_from(input) {
        Ok(message) => Ok(MessageType::Request(message)),
        Err(FrameError::Integrity) => Err(FrameError::Integrity),
        Err(_) => match Response::try_from(input) {
            Ok(message) => Ok(MessageType::Response(message)),
            Err(e) => Err(e),
        },
    }
}

} // verus!
