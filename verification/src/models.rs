use vstd::prelude::*;
use crate::errors::{ClientResult, Failure};
use crate::payload::{Json, Payload};

verus! {

/// The mathematical model of a frame, request or response.
pub ghost struct Frame {
    pub ver: u8,
    pub cmd: u8,
    pub seq: u64,
    pub opcode: u16,
    pub payload: Json,
}

/// A frame sent by the client.
#[derive(Debug, PartialEq, Eq)]
pub struct Request {
    pub ver: u8,
    pub cmd: u8,
    pub seq: u64,
    pub opcode: u16,
    pub payload: Payload,
}

/// A frame received from the server.
#[derive(Debug, PartialEq, Eq)]
pub struct Response {
    pub ver: u8,
    pub cmd: u8,
    pub seq: u64,
    pub opcode: u16,
    pub payload: Payload,
}

impl View for Request {
    type V = Frame;

    open spec fn view(&self) -> Frame {
        Frame {
            ver: self.ver,
            cmd: self.cmd,
            seq: self.seq,
            opcode: self.opcode,
            payload: self.payload@,
        }
    }
}

impl View for Response {
    type V = Frame;

    open spec fn view(&self) -> Frame {
        Frame {
            ver: self.ver,
            cmd: self.cmd,
            seq: self.seq,
            opcode: self.opcode,
            payload: self.payload@,
        }
    }
}

impl Clone for Request {
    fn clone(&self) -> (out: Self)
        ensures
            out@ == self@,
    {
        Request {
            ver: self.ver,
            cmd: self.cmd,
            seq: self.seq,
            opcode: self.opcode,
            payload: self.payload.clone(),
        }
    }
}

impl Clone for Response {
    fn clone(&self) -> (out: Self)
        ensures
            out@ == self@,
    {
        Response {
            ver: self.ver,
            cmd: self.cmd,
            seq: self.seq,
            opcode: self.opcode,
            payload: self.payload.clone(),
        }
    }
}

/// The model of a response or of the error in its place.
pub open spec fn response_view(r: ClientResult<Response>) -> Result<Frame, Failure> {
    match r {
        Ok(resp) => Ok(resp@),
        Err(e) => Err(e@),
    }
}

/// The model of what a transport reader hands out: a frame, the end of the
/// stream (`None`), or an error.
pub open spec fn message_view(r: ClientResult<Option<Response>>) -> Result<Option<Frame>, Failure> {
    match r {
        Ok(Some(resp)) => Ok(Some(resp@)),
        Ok(None) => Ok(None),
        Err(e) => Err(e@),
    }
}

} // verus!
