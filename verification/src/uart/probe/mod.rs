//! The dialect that a probe speaks when it is connected to directly.

pub mod request;
pub mod response;
