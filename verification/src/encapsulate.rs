//! Wrapping a bare message in the request that carries it.

use vstd::prelude::*;
use crate::error::FrameError;
use crate::uart::node::request as node;
use crate::uart::probe::request as probe;

verus! {

/// A message that knows the request it travels in.
pub trait EncapsulatableMessage {
    /// What the message is wrapped in.
    type Encapsulation;

    /// Wraps the message.
    fn encapsulate(self) -> Self::Encapsulation;
}

impl EncapsulatableMessage for node::SetProbeId {
    type Encapsulation = Result<node::Request, FrameError>;

    fn encapsulate(self) -> (r: Result<node::Request, FrameError>)
        ensures
            r is Ok,
            r->Ok_0.message == node::RequestMessage::SetProbeId(self),
            r->Ok_0.sound(),
    {
        node::Request::new(node::RequestMessage::SetProbeId(self))
    }
}

impl EncapsulatableMessage for node::SetProbeColor {
    type Encapsulation = Result<node::Request, FrameError>;

    fn encapsulate(self) -> (r: Result<node::Request, FrameError>)
        ensures
            r is Ok,
            r->Ok_0.message == node::RequestMessage::SetProbeColor(self),
            r->Ok_0.sound(),
    {
        node::Request::new(node::RequestMessage::SetProbeColor(self))
    }
}

impl EncapsulatableMessage for node::ReadSessionInformation {
    type Encapsulation = Result<node::Request, FrameError>;

    fn encapsulate(self) -> (r: Result<node::Request, FrameError>)
        ensures
            r is Ok,
            r->Ok_0.message == node::RequestMessage::ReadSessionInformation(self),
            r->Ok_0.sound(),
    {
        node::Request::new(node::RequestMessage::ReadSessionInformation(self))
    }
}

impl EncapsulatableMessage for node::ReadLogs {
    type Encapsulation = Result<node::Request, FrameError>;

    fn encapsulate(self) -> (r: Result<node::Request, FrameError>)
        ensures
            r is Ok,
            r->Ok_0.message == node::RequestMessage::ReadLogs(self),
            r->Ok_0.sound(),
    {
        node::Request::new(node::RequestMessage::ReadLogs(self))
    }
}

impl EncapsulatableMessage for node::ProbeStatusMessage {
    type Encapsulation = Result<node::Request, FrameError>;

    /// A status message only ever comes from a node: there is no request
    /// for it.
    fn encapsulate(self) -> (r: Result<node::Request, FrameError>)
        ensures
            r == Err::<node::Request, FrameError>(FrameError::Direction),
    {
        node::Request::new(node::RequestMessage::ProbeStatusMessage(self))
    }
}

impl EncapsulatableMessage for node::HeartbeatMessage {
    type Encapsulation = Result<node::Request, FrameError>;

    fn encapsulate(self) -> (r: Result<node::Request, FrameError>)
        ensures
            r is Ok,
            r->Ok_0.message == node::RequestMessage::HeartbeatMessage(self),
            r->Ok_0.sound(),
    {
        node::Request::new(node::RequestMessage::HeartbeatMessage(self))
    }
}

impl EncapsulatableMessage for node::SyncThermometerList {
    type Encapsulation = Result<node::Request, FrameError>;

    fn encapsulate(self) -> (r: Result<node::Request, FrameError>)
        ensures
            r is Ok,
            r->Ok_0.message == node::RequestMessage::SyncThermometerList(self),
            r->Ok_0.sound(),
    {
        node::Request::new(node::RequestMessage::SyncThermometerList(self))
    }
}

impl EncapsulatableMessage for probe::SetProbeId {
    type Encapsulation = probe::Request;

    fn encapsulate(self) -> (r: probe::Request)
        ensures
            r.message == probe::RequestType::SetProbeId(self),
            r.sound(),
    {
        probe::Request::new(probe::RequestType::SetProbeId(self))
    }
}

impl EncapsulatableMessage for probe::SetProbeColor {
    type Encapsulation = probe::Request;

    fn encapsulate(self) -> (r: probe::Request)
        ensures
            r.message == probe::RequestType::SetProbeColor(self),
            r.sound(),
    {
        probe::Request::new(probe::RequestType::SetProbeColor(self))
    }
}

impl EncapsulatableMessage for probe::ReadSessionInformation {
    type Encapsulation = probe::Request;

    fn encapsulate(self) -> (r: probe::Request)
        ensures
            r.message == probe::RequestType::ReadSessionInformation(self),
            r.sound(),
    {
        probe::Request::new(probe::RequestType::ReadSessionInformation(self))
    }
}

impl EncapsulatableMessage for probe::ReadLogs {
    type Encapsulation = probe::Request;

    fn encapsulate(self) -> (r: probe::Request)
        ensures
            r.message == probe::RequestType::ReadLogs(self),
            r.sound(),
    {
        probe::Request::new(probe::RequestType::ReadLogs(self))
    }
}

} // verus!
