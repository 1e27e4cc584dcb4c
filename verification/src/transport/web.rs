use vstd::prelude::*;
use vstd::string::StringExecFns;
use crate::errors::{ClientResult, Error, Failure};
use crate::json::{from_json_bytes, json_parsed, json_text, to_json_text};
use crate::models::{message_view, response_view, Frame, Request, Response};
use crate::payload::{put, Json, Payload};
use crate::text::{decimal, u64_to_decimal};

verus! {

/// The payload that reports a frame that could not be read: an object with
/// the one member `error`.
pub open spec fn parse_failure_json(error: Seq<char>) -> Json {
    Json::Obj(Map::<Seq<char>, Json>::empty().insert("error"@, Json::Str(error)))
}

/// Builds the payload that reports a frame that could not be read.
pub fn parse_failure_payload(error: &str) -> (out: Payload)
    ensures
        out@ == parse_failure_json(error@),
{
    let mut entries: Vec<(String, Payload)> = Vec::new();
    put(&mut entries, "error", Payload::text(error));
    Payload::Object(entries)
}

/// The writing half of the web transport: it turns a request into the text
/// of one message.
pub struct WebWriter;

impl WebWriter {
    /// The text of a frame whose payload is already written as `payload`:
    /// a JSON object with the members `ver`, `cmd`, `seq`, `opcode` and
    /// `payload`, in this order and without spaces.
    pub open spec fn framed(req: Frame, payload: Seq<char>) -> Seq<char> {
        "{\"ver\":"@ + decimal(req.ver as nat) + ",\"cmd\":"@ + decimal(req.cmd as nat)
            + ",\"seq\":"@ + decimal(req.seq as nat) + ",\"opcode\":"@ + decimal(
            req.opcode as nat,
        ) + ",\"payload\":"@ + payload + "}"@
    }

    /// The text of the message for a request.
    pub open spec fn sent(req: Frame) -> Result<Seq<char>, Failure> {
        match json_text(req.payload) {
            Ok(payload) => Ok(Self::framed(req, payload)),
            Err(e) => Err(Failure::SendFailed("JSON serialization error: "@ + e)),
        }
    }

    /// Writes the frame around a payload that is already JSON text.
    pub fn frame(request: &Request, payload: &str) -> (out: String)
        ensures
            out@ == Self::framed(request@, payload@),
    {
        let mut out = "{\"ver\":".to_owned();
        out.append(u64_to_decimal(request.ver as u64).as_str());
        out.append(",\"cmd\":");
        out.append(u64_to_decimal(request.cmd as u64).as_str());
        out.append(",\"seq\":");
        out.append(u64_to_decimal(request.seq).as_str());
        out.append(",\"opcode\":");
        out.append(u64_to_decimal(request.opcode as u64).as_str());
        out.append(",\"payload\":");
        out.append(payload);
        out.append("}");
        out
    }

    /// Encodes a request as the text of one message.
    pub fn send(&self, request: &Request) -> (out: ClientResult<String>)
        ensures
            match out {
                Ok(text) => Self::sent(request@) == Ok::<Seq<char>, Failure>(text@),
                Err(e) => Self::sent(request@) == Err::<Seq<char>, Failure>(e@),
            },
    {
        match to_json_text(&request.payload) {
            Ok(payload) => Ok(Self::frame(request, payload.as_str())),
            Err(e) => {
                let mut msg = "JSON serialization error: ".to_owned();
                msg.append(e.as_str());
                Err(Error::SendFailed(msg))
            },
        }
    }
}

/// What the socket handed to the reader.
#[derive(Debug, PartialEq, Eq)]
pub enum WebEvent {
    /// A text message with its body.
    Text(Vec<u8>),
    Binary,
    Ping,
    Pong,
    Close,
    /// The socket reported an error.
    Failed,
    /// The stream of messages ended.
    End,
}

/// What the reader does with an event.
#[derive(Debug, PartialEq, Eq)]
pub enum WebStep {
    /// Nothing to hand out: wait for the next event.
    Skip,
    Message(ClientResult<Option<Response>>),
}

/// The reading half of the web transport: it turns the body of one message
/// into a response.
pub struct WebReader;

impl WebReader {
    /// The member `name` of a frame object as an integer of at most `max`.
    /// `Err` holds the reason why it is none.
    pub open spec fn number(tree: Json, name: Seq<char>, max: int) -> Result<int, Seq<char>> {
        match tree.member(name) {
            Some(Json::Int(n)) => if 0 <= n <= max {
                Ok(n)
            } else {
                Err("invalid value for field "@ + name)
            },
            Some(_) => Err("invalid type for field "@ + name),
            None => Err("missing field "@ + name),
        }
    }

    /// The frame that a JSON tree spells, or the reason why it spells none.
    /// A missing `cmd` counts as 0.
    pub open spec fn frame_of(tree: Json) -> Result<Frame, Seq<char>> {
        if !(tree is Obj) {
            Err("invalid type: expected a frame object"@)
        } else if Self::number(tree, "ver"@, 255) is Err {
            Err(Self::number(tree, "ver"@, 255)->Err_0)
        } else if tree.member("cmd"@) is Some && Self::number(tree, "cmd"@, 255) is Err {
            Err(Self::number(tree, "cmd"@, 255)->Err_0)
        } else if Self::number(tree, "seq"@, u64::MAX as int) is Err {
            Err(Self::number(tree, "seq"@, u64::MAX as int)->Err_0)
        } else if Self::number(tree, "opcode"@, 65535) is Err {
            Err(Self::number(tree, "opcode"@, 65535)->Err_0)
        } else if tree.member("payload"@) is None {
            Err("missing field payload"@)
        } else {
            Ok(
                Frame {
                    ver: Self::number(tree, "ver"@, 255)->Ok_0 as u8,
                    cmd: if tree.member("cmd"@) is Some {
                        Self::number(tree, "cmd"@, 255)->Ok_0 as u8
                    } else {
                        0
                    },
                    seq: Self::number(tree, "seq"@, u64::MAX as int)->Ok_0 as u64,
                    opcode: Self::number(tree, "opcode"@, 65535)->Ok_0 as u16,
                    payload: tree.member("payload"@)->Some_0,
                },
            )
        }
    }

    /// What a parsed message body makes of a frame: the response, or the
    /// report of why it is none.
    pub open spec fn responded(parsed: Result<Json, Seq<char>>) -> Result<Frame, Failure> {
        match parsed {
            Ok(tree) => match Self::frame_of(tree) {
                Ok(frame) => Ok(frame),
                Err(e) => Err(Failure::ApiResponse(parse_failure_json(e))),
            },
            Err(e) => Err(Failure::ApiResponse(parse_failure_json(e))),
        }
    }

    /// What the reader hands out for an event, if anything: a text message
    /// is decoded, a close, an error or the end of the stream end it, and
    /// everything else is passed over.
    pub open spec fn handled(event: WebEvent) -> Option<Result<Option<Frame>, Failure>> {
        match event {
            WebEvent::Text(body) => Some(
                match Self::responded(json_parsed(body@)) {
                    Ok(frame) => Ok(Some(frame)),
                    Err(e) => Err(e),
                },
            ),
            WebEvent::Close | WebEvent::Failed | WebEvent::End => Some(Ok(None)),
            WebEvent::Binary | WebEvent::Ping | WebEvent::Pong => None,
        }
    }

    fn read_number(tree: &Payload, name: &str, max: u64) -> (out: Result<u64, String>)
        ensures
            match out {
                Ok(n) => Self::number(tree@, name@, max as int) == Ok::<int, Seq<char>>(n as int),
                Err(e) => Self::number(tree@, name@, max as int) == Err::<int, Seq<char>>(e@),
            },
    {
        match tree.get(name) {
            Some(node) => match node {
                Payload::PosInt(n) => if *n <= max {
                    Ok(*n)
                } else {
                    Err(Self::reason("invalid value for field ", name))
                },
                Payload::NegInt(n) => if *n >= 0 && *n as u64 <= max {
                    Ok(*n as u64)
                } else {
                    Err(Self::reason("invalid value for field ", name))
                },
                Payload::Float(bits) => {
                    assert(node@ is Float || node@ is Null);
                    Err(Self::reason("invalid type for field ", name))
                },
                _ => Err(Self::reason("invalid type for field ", name)),
            },
            None => Err(Self::reason("missing field ", name)),
        }
    }

    fn reason(what: &str, name: &str) -> (out: String)
        ensures
            out@ == what@ + name@,
    {
        let mut out = what.to_owned();
        out.append(name);
        out
    }

    /// Reads a frame from a JSON tree.
    pub fn frame_from(tree: &Payload) -> (out: Result<Response, String>)
        ensures
            match out {
                Ok(resp) => Self::frame_of(tree@) == Ok::<Frame, Seq<char>>(resp@),
                Err(e) => Self::frame_of(tree@) == Err::<Frame, Seq<char>>(e@),
            },
    {
        match tree {
            Payload::Object(_) => {},
            _ => {
                return Err("invalid type: expected a frame object".to_owned());
            },
        }
        let ver = match Self::read_number(tree, "ver", 255) {
            Ok(n) => n as u8,
            Err(e) => {
                return Err(e);
            },
        };
        let cmd = match tree.get("cmd") {
            Some(_) => match Self::read_number(tree, "cmd", 255) {
                Ok(n) => n as u8,
                Err(e) => {
                    return Err(e);
                },
            },
            None => 0u8,
        };
        let seq = match Self::read_number(tree, "seq", u64::MAX) {
            Ok(n) => n,
            Err(e) => {
                return Err(e);
            },
        };
        let opcode = match Self::read_number(tree, "opcode", 65535) {
            Ok(n) => n as u16,
            Err(e) => {
                return Err(e);
            },
        };
        match tree.get("payload") {
            Some(payload) => Ok(Response { ver, cmd, seq, opcode, payload: payload.clone() }),
            None => Err("missing field payload".to_owned()),
        }
    }

    /// Finishes a message from its parsed body.
    pub fn respond(parsed: Result<Payload, String>) -> (out: ClientResult<Response>)
        ensures
            response_view(out) == Self::responded(
                match parsed {
                    Ok(tree) => Ok(tree@),
                    Err(e) => Err(e@),
                },
            ),
    {
        match parsed {
            Ok(tree) => match Self::frame_from(&tree) {
                Ok(resp) => Ok(resp),
                Err(e) => Err(Error::ApiResponse(parse_failure_payload(e.as_str()))),
            },
            Err(e) => Err(Error::ApiResponse(parse_failure_payload(e.as_str()))),
        }
    }

    /// Decides what an event from the socket means for the reader.
    pub fn next_message(&self, event: WebEvent) -> (out: WebStep)
        ensures
            match out {
                WebStep::Skip => Self::handled(event) is None,
                WebStep::Message(r) => Self::handled(event) == Some(message_view(r)),
            },
    {
        match event {
            WebEvent::Text(body) => {
                let parsed = from_json_bytes(body.as_slice());
                match Self::respond(parsed) {
                    Ok(resp) => WebStep::Message(Ok(Some(resp))),
                    Err(e) => WebStep::Message(Err(e)),
                }
            },
            WebEvent::Close => WebStep::Message(Ok(None)),
            WebEvent::Failed => WebStep::Message(Ok(None)),
            WebEvent::End => WebStep::Message(Ok(None)),
            WebEvent::Binary => WebStep::Skip,
            WebEvent::Ping => WebStep::Skip,
            WebEvent::Pong => WebStep::Skip,
        }
    }
}

} // verus!
