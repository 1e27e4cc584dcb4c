use vstd::prelude::*;
use vstd::string::StringExecFns;
use bytes::BufMut;
use crate::constants::Constants;
use crate::errors::{ClientResult, Error, Failure};
use crate::models::{message_view, response_view, Frame, Request, Response};
use crate::msgpack::{
    from_msgpack_bytes, msgpack_bytes, msgpack_parsed, msgpack_to_json, to_json,
    to_msgpack_bytes, MsgPack,
};
use crate::payload::{put, Json, Payload};

verus! {

/// `bytes::BytesMut`, known to the verifier by name only.
#[verifier::external_type_specification]
#[verifier::external_body]
pub struct ExBytesMut(bytes::BytesMut);

/// The bytes that a `BytesMut` holds, in order.
pub uninterp spec fn buffer_bytes(buf: bytes::BytesMut) -> Seq<u8>;

/// What LZ4 block decompression by `lz4_flex` makes of `input` when it may
/// write at most `max_size` bytes: the bytes, or the text of its error.
pub uninterp spec fn lz4_decompressed(input: Seq<u8>, max_size: usize) -> Result<
    Seq<u8>,
    Seq<char>,
>;

/// The two bytes of `n`, most significant first.
pub open spec fn be16(n: u16) -> Seq<u8> {
    seq![(n / 256) as u8, (n % 256) as u8]
}

/// The four bytes of `n`, most significant first.
pub open spec fn be32(n: u32) -> Seq<u8> {
    seq![
        (n / 0x100_0000) as u8,
        (n / 0x1_0000 % 256) as u8,
        (n / 256 % 256) as u8,
        (n % 256) as u8,
    ]
}

/// `BytesMut::with_capacity`: a buffer that holds nothing yet.
#[verifier::external_body]
fn buffer_with_capacity(capacity: usize) -> (buf: bytes::BytesMut)
    requires
        capacity <= 0x7FFF_FFFF,
    ensures
        buffer_bytes(buf) == Seq::<u8>::empty(),
{
    bytes::BytesMut::with_capacity(capacity)
}

/// `BufMut::put_u8` on a `BytesMut`: the byte is added at the end.
#[verifier::external_body]
fn buffer_put_u8(buf: &mut bytes::BytesMut, n: u8)
    requires
        buffer_bytes(*old(buf)).len() < 0x7FFF_FFFF,
    ensures
        buffer_bytes(*final(buf)) == buffer_bytes(*old(buf)).push(n),
{
    buf.put_u8(n)
}

/// `BufMut::put_u16` on a `BytesMut`: the two bytes of `n` are added at the
/// end, most significant first.
#[verifier::external_body]
fn buffer_put_u16(buf: &mut bytes::BytesMut, n: u16)
    requires
        buffer_bytes(*old(buf)).len() < 0x7FFF_FFFF,
    ensures
        buffer_bytes(*final(buf)) == buffer_bytes(*old(buf)) + be16(n),
{
    buf.put_u16(n)
}

/// `BufMut::put_u32` on a `BytesMut`: the four bytes of `n` are added at the
/// end, most significant first.
#[verifier::external_body]
fn buffer_put_u32(buf: &mut bytes::BytesMut, n: u32)
    requires
        buffer_bytes(*old(buf)).len() < 0x7FFF_FFFF,
    ensures
        buffer_bytes(*final(buf)) == buffer_bytes(*old(buf)) + be32(n),
{
    buf.put_u32(n)
}

/// `BufMut::put_slice` on a `BytesMut`: the bytes of `src` are added at the
/// end.
#[verifier::external_body]
fn buffer_put_slice(buf: &mut bytes::BytesMut, src: &[u8])
    requires
        buffer_bytes(*old(buf)).len() + src@.len() <= 0x7FFF_FFFF,
    ensures
        buffer_bytes(*final(buf)) == buffer_bytes(*old(buf)) + src@,
{
    buf.put_slice(src)
}

/// The bytes of a `BytesMut`, copied out with `to_vec`.
#[verifier::external_body]
fn buffer_to_vec(buf: &bytes::BytesMut) -> (out: Vec<u8>)
    ensures
        out@ == buffer_bytes(*buf),
{
    buf.to_vec()
}

/// `lz4_flex::block::decompress` with `max_size` as the size of its output
/// buffer. What comes out is never longer than that buffer. An error is
/// handed on as its text.
#[verifier::external_body]
fn lz4_decompress(input: &[u8], max_size: usize) -> (out: Result<Vec<u8>, String>)
    requires
        input@.len() <= 0xFF_FFFF,
        max_size <= 0x7FFF_FFFF,
    ensures
        match out {
            Ok(bytes) => lz4_decompressed(input@, max_size) == Ok::<Seq<u8>, Seq<char>>(bytes@)
                && bytes@.len() <= max_size,
            Err(e) => lz4_decompressed(input@, max_size) == Err::<Seq<u8>, Seq<char>>(e@),
        },
{
    lz4_flex::block::decompress(input, max_size).map_err(|e| e.to_string())
}

/// The fixed ten-byte header of a mobile frame.
#[derive(Clone, Copy, Debug, PartialEq, Eq)]
pub struct FrameHeader {
    pub ver: u8,
    pub cmd: u16,
    pub seq: u8,
    pub opcode: u16,
    /// Not zero when the payload block is LZ4-compressed.
    pub comp_flag: u8,
    /// The length of the payload block in bytes; at most `0xFFFFFF`.
    pub payload_len: u32,
}

/// The largest payload block that a frame can carry.
pub const MAX_PAYLOAD_LEN: usize = 0xFF_FFFF;

/// The largest limit that a reader accepts for decompressed payloads.
pub const MAX_OUTPUT_LIMIT: usize = 0x7FFF_FFFF;

impl FrameHeader {
    /// The length fits in the 24 bits that the header has for it.
    pub open spec fn wf(self) -> bool {
        self.payload_len <= 0xFF_FFFF
    }

    /// The last four bytes of the header as one number: the compression flag
    /// in the upper 8 bits, the length in the lower 24.
    pub open spec fn packed_len(self) -> u32 {
        (self.comp_flag as u32 * 0x100_0000 + self.payload_len) as u32
    }

    /// The ten bytes of the header on the wire.
    pub open spec fn bytes(self) -> Seq<u8> {
        seq![self.ver] + be16(self.cmd) + seq![self.seq] + be16(self.opcode) + be32(
            self.packed_len(),
        )
    }

    /// The header that ten bytes from the wire spell.
    pub open spec fn parsed(b: Seq<u8>) -> FrameHeader {
        FrameHeader {
            ver: b[0],
            cmd: (b[1] as u16 * 256 + b[2] as u16) as u16,
            seq: b[3],
            opcode: (b[4] as u16 * 256 + b[5] as u16) as u16,
            comp_flag: b[6],
            payload_len: (b[7] as u32 * 0x1_0000 + b[8] as u32 * 256 + b[9] as u32) as u32,
        }
    }

    /// The header of a request whose encoded payload has `len` bytes: `cmd`
    /// widened to 16 bits, the low 8 bits of `seq`, no compression.
    pub open spec fn of_request(req: Frame, len: nat) -> FrameHeader {
        FrameHeader {
            ver: req.ver,
            cmd: req.cmd as u16,
            seq: (req.seq % 256) as u8,
            opcode: req.opcode,
            comp_flag: 0,
            payload_len: len as u32,
        }
    }

    /// Reads the header from its ten bytes.
    pub fn parse(b: &[u8; 10]) -> (out: FrameHeader)
        ensures
            out == FrameHeader::parsed(b@),
            out.wf(),
    {
        FrameHeader {
            ver: b[0],
            cmd: b[1] as u16 * 256 + b[2] as u16,
            seq: b[3],
            opcode: b[4] as u16 * 256 + b[5] as u16,
            comp_flag: b[6],
            payload_len: b[7] as u32 * 0x1_0000 + b[8] as u32 * 256 + b[9] as u32,
        }
    }
}

/// The payload that reports a failed decoding step: an object with the
/// members `error` and `details`.
pub open spec fn failure_json(error: Seq<char>, details: Seq<char>) -> Json {
    Json::Obj(
        Map::<Seq<char>, Json>::empty().insert("error"@, Json::Str(error)).insert(
            "details"@,
            Json::Str(details),
        ),
    )
}

/// Builds the payload that reports a failed decoding step.
pub fn failure_payload(error: &str, details: &str) -> (out: Payload)
    ensures
        out@ == failure_json(error@, details@),
{
    let mut entries: Vec<(String, Payload)> = Vec::new();
    put(&mut entries, "error", Payload::text(error));
    put(&mut entries, "details", Payload::text(details));
    Payload::Object(entries)
}

/// The writing half of the mobile transport: it turns a request into the
/// bytes of one frame.
pub struct MobileWriter;

impl MobileWriter {
    /// The frame for a request whose payload is already encoded as `body`:
    /// the header and the body behind it, unless the body is too long for the
    /// 24 bits of the length.
    pub open spec fn framed(req: Frame, body: Seq<u8>) -> Result<Seq<u8>, Failure> {
        if body.len() > 0xFF_FFFF {
            Err(Failure::SendFailed("Payload too large"@))
        } else {
            Ok(FrameHeader::of_request(req, body.len()).bytes() + body)
        }
    }

    /// The frame for a request: its payload encoded as MessagePack, then
    /// framed.
    pub open spec fn sent(req: Frame) -> Result<Seq<u8>, Failure> {
        match msgpack_bytes(req.payload) {
            Ok(body) => Self::framed(req, body),
            Err(e) => Err(Failure::SendFailed("MsgPack encode error: "@ + e)),
        }
    }

    /// Puts the header in front of an encoded payload.
    pub fn frame(request: &Request, body: &Vec<u8>) -> (out: ClientResult<Vec<u8>>)
        ensures
            match out {
                Ok(bytes) => Self::framed(request@, body@) == Ok::<Seq<u8>, Failure>(bytes@),
                Err(e) => Self::framed(request@, body@) == Err::<Seq<u8>, Failure>(e@),
            },
    {
        let payload_len = body.len();
        if payload_len > MAX_PAYLOAD_LEN {
            return Err(Error::SendFailed("Payload too large".to_owned()));
        }
        let mut buffer = buffer_with_capacity(10 + payload_len);
        buffer_put_u8(&mut buffer, request.ver);
        buffer_put_u16(&mut buffer, request.cmd as u16);
        buffer_put_u8(&mut buffer, (request.seq % 256) as u8);
        buffer_put_u16(&mut buffer, request.opcode);
        let packed_len: u32 = payload_len as u32;
        buffer_put_u32(&mut buffer, packed_len);
        proof {
            let h = FrameHeader::of_request(request@, body@.len());
            assert(h.packed_len() == packed_len);
            assert(buffer_bytes(buffer) =~= h.bytes());
            assert(h.bytes().len() == 10);
        }
        buffer_put_slice(&mut buffer, body.as_slice());
        Ok(buffer_to_vec(&buffer))
    }

    /// Encodes a request as the bytes of one frame.
    pub fn send(&self, request: &Request) -> (out: ClientResult<Vec<u8>>)
        ensures
            match out {
                Ok(bytes) => Self::sent(request@) == Ok::<Seq<u8>, Failure>(bytes@),
                Err(e) => Self::sent(request@) == Err::<Seq<u8>, Failure>(e@),
            },
    {
        match to_msgpack_bytes(&request.payload) {
            Ok(body) => Self::frame(request, &body),
            Err(e) => {
                let mut msg = "MsgPack encode error: ".to_owned();
                msg.append(e.as_str());
                Err(Error::SendFailed(msg))
            },
        }
    }
}

/// How the read of the ten header bytes ended.
#[derive(Debug, PartialEq, Eq)]
pub enum HeaderRead {
    /// The stream ended before the header was complete.
    Eof,
    /// The read failed otherwise; the text of the error.
    Failed(String),
    Bytes([u8; 10]),
}

/// How the read of the payload block ended.
#[derive(Debug, PartialEq, Eq)]
pub enum BodyRead {
    /// The read failed or fell short; the text of the error.
    Failed(String),
    Bytes(Vec<u8>),
}

/// What the reader does after the header.
#[derive(Debug, PartialEq, Eq)]
pub enum HeaderStep {
    /// The message is complete without a payload block.
    Done(ClientResult<Option<Response>>),
    /// The payload block of the header's length is to be read next.
    NeedBody(FrameHeader),
}

/// The reading half of the mobile transport: it turns the bytes of one
/// frame into a response.
pub struct MobileReader {
    max_size: usize,
}

impl MobileReader {
    #[verifier::type_invariant]
    spec fn within_limit(self) -> bool {
        self.max_size <= MAX_OUTPUT_LIMIT
    }

    /// The largest size that a compressed payload may unpack to.
    pub closed spec fn limit(self) -> usize {
        self.max_size
    }

    /// The response that a header stands for, with a null payload.
    pub open spec fn bare(h: FrameHeader) -> Frame {
        Frame {
            ver: h.ver,
            cmd: (h.cmd % 256) as u8,
            seq: h.seq as u64,
            opcode: h.opcode,
            payload: Json::Null,
        }
    }

    /// What a decoded payload block makes of a frame: the response with the
    /// payload tree, or the report of the failed decoding.
    pub open spec fn responded(h: FrameHeader, parsed: Result<MsgPack, Seq<char>>) -> Result<
        Frame,
        Failure,
    > {
        match parsed {
            Ok(tree) => Ok(Frame { payload: to_json(tree), ..Self::bare(h) }),
            Err(e) => Err(
                Failure::ApiResponse(failure_json("MsgPack decode error (rmpv)"@, e)),
            ),
        }
    }

    /// What the payload bytes, after decompression, make of a frame: no
    /// bytes give a null payload.
    pub open spec fn unpacked(h: FrameHeader, bytes: Seq<u8>) -> Result<Frame, Failure> {
        if bytes.len() == 0 {
            Ok(Self::bare(h))
        } else {
            Self::responded(h, msgpack_parsed(bytes))
        }
    }

    /// What a payload block makes of a frame: it is decompressed first when
    /// the header's compression flag is not zero.
    pub open spec fn decoded(h: FrameHeader, body: Seq<u8>, max_size: usize) -> Result<
        Frame,
        Failure,
    > {
        if h.comp_flag != 0 {
            match lz4_decompressed(body, max_size) {
                Ok(bytes) => Self::unpacked(h, bytes),
                Err(e) => Err(Failure::ApiResponse(failure_json("LZ4 error"@, e))),
            }
        } else {
            Self::unpacked(h, body)
        }
    }

    /// What the reader hands out after the header alone, if anything.
    pub open spec fn after_header(read: HeaderRead) -> Option<Result<Option<Frame>, Failure>> {
        match read {
            HeaderRead::Eof => Some(Ok(None)),
            HeaderRead::Failed(e) => Some(Err(Failure::ConnectionFailed(e@))),
            HeaderRead::Bytes(b) => if FrameHeader::parsed(b@).payload_len == 0 {
                Some(Ok(Some(Self::bare(FrameHeader::parsed(b@)))))
            } else {
                None
            },
        }
    }

    /// A reader with the default limit of 5 MiB on decompressed payloads.
    pub fn new() -> (out: Self)
        ensures
            out.limit() == Constants::MAX_DECOMPRESSED,
    {
        MobileReader { max_size: Constants::MAX_DECOMPRESSED }
    }

    /// A reader with a limit of the caller's choice on decompressed payloads;
    /// none where the limit is above `MAX_OUTPUT_LIMIT`.
    pub fn with_max_size(max_size: usize) -> (out: Option<Self>)
        ensures
            match out {
                Some(reader) => max_size <= MAX_OUTPUT_LIMIT && reader.limit() == max_size,
                None => max_size > MAX_OUTPUT_LIMIT,
            },
    {
        if max_size <= MAX_OUTPUT_LIMIT {
            Some(MobileReader { max_size })
        } else {
            None
        }
    }

    /// The largest size that a compressed payload may unpack to.
    pub fn max_size(&self) -> (out: usize)
        ensures
            out == self.limit(),
            out <= MAX_OUTPUT_LIMIT,
    {
        proof {
            use_type_invariant(self);
        }
        self.max_size
    }

    fn bare_response(header: &FrameHeader) -> (out: Response)
        ensures
            out@ == Self::bare(*header),
    {
        Response {
            ver: header.ver,
            cmd: (header.cmd % 256) as u8,
            seq: header.seq as u64,
            opcode: header.opcode,
            payload: Payload::Null,
        }
    }

    /// Finishes a frame from its decoded payload block.
    pub fn respond(header: &FrameHeader, parsed: Result<MsgPack, String>) -> (out: ClientResult<
        Response,
    >)
        ensures
            response_view(out) == Self::responded(
                *header,
                match parsed {
                    Ok(tree) => Ok(tree),
                    Err(e) => Err(e@),
                },
            ),
    {
        match parsed {
            Ok(tree) => {
                let payload = msgpack_to_json(&tree);
                let mut resp = Self::bare_response(header);
                resp.payload = payload;
                Ok(resp)
            },
            Err(e) => Err(
                Error::ApiResponse(failure_payload("MsgPack decode error (rmpv)", e.as_str())),
            ),
        }
    }

    /// Decodes the payload bytes of a frame, after decompression.
    pub fn unpack(header: &FrameHeader, bytes: &[u8]) -> (out: ClientResult<Response>)
        ensures
            response_view(out) == Self::unpacked(*header, bytes@),
    {
        if bytes.len() == 0 {
            return Ok(Self::bare_response(header));
        }
        let parsed = from_msgpack_bytes(bytes);
        Self::respond(header, parsed)
    }

    /// Decodes the payload block of a frame. A block that is compressed and
    /// does not unpack within `max_size` bytes, or does not unpack at all,
    /// gives the report of an LZ4 error.
    pub fn decode(&self, header: &FrameHeader, body: &Vec<u8>) -> (out: ClientResult<Response>)
        requires
            body@.len() <= 0xFF_FFFF,
        ensures
            response_view(out) == Self::decoded(*header, body@, self.limit()),
            out is Ok && header.comp_flag != 0 ==> lz4_decompressed(body@, self.limit()) is Ok
                && lz4_decompressed(body@, self.limit())->Ok_0.len() <= self.limit(),
    {
        if header.comp_flag != 0 {
            match lz4_decompress(body.as_slice(), self.max_size()) {
                Ok(bytes) => Self::unpack(header, bytes.as_slice()),
                Err(e) => Err(Error::ApiResponse(failure_payload("LZ4 error", e.as_str()))),
            }
        } else {
            Self::unpack(header, body.as_slice())
        }
    }

    /// Decides what follows the read of the header: the end of the stream
    /// closes cleanly, another failure is a connection error, a header with
    /// no payload is a complete message with a null payload whatever its
    /// compression flag says, and any other header asks for its payload block.
    pub fn on_header(&self, read: HeaderRead) -> (out: HeaderStep)
        ensures
            match out {
                HeaderStep::Done(r) => Self::after_header(read) == Some(message_view(r)),
                HeaderStep::NeedBody(h) => Self::after_header(read) is None && read
                    is Bytes && h == FrameHeader::parsed(read->Bytes_0@) && h.wf(),
            },
    {
        match read {
            HeaderRead::Eof => HeaderStep::Done(Ok(None)),
            HeaderRead::Failed(e) => HeaderStep::Done(Err(Error::ConnectionFailed(e))),
            HeaderRead::Bytes(b) => {
                let header = FrameHeader::parse(&b);
                if header.payload_len == 0 {
                    HeaderStep::Done(Ok(Some(Self::bare_response(&header))))
                } else {
                    HeaderStep::NeedBody(header)
                }
            },
        }
    }

    /// Decides what follows the read of the payload block: a read that failed
    /// or fell short costs this frame only and is a parse error, and a block
    /// that was read is decoded.
    pub fn on_body(&self, header: &FrameHeader, read: BodyRead) -> (out: ClientResult<
        Option<Response>,
    >)
        requires
            read is Bytes ==> read->Bytes_0@.len() <= 0xFF_FFFF,
        ensures
            message_view(out) == (match read {
                BodyRead::Failed(e) => Err(Failure::ParseError("Payload read err: "@ + e@)),
                BodyRead::Bytes(body) => match Self::decoded(*header, body@, self.limit()) {
                    Ok(frame) => Ok(Some(frame)),
                    Err(e) => Err(e),
                },
            }),
    {
        match read {
            BodyRead::Failed(e) => {
                let mut msg = "Payload read err: ".to_owned();
                msg.append(e.as_str());
                Err(Error::ParseError(msg))
            },
            BodyRead::Bytes(body) => match self.decode(header, &body) {
                Ok(resp) => Ok(Some(resp)),
                Err(e) => Err(e),
            },
        }
    }
}

/// A header whose length fits in 24 bits is written as ten bytes that parse
/// back to the same header.
pub proof fn lemma_header_round_trip(h: FrameHeader)
    requires
        h.wf(),
    ensures
        h.bytes().len() == 10,
        FrameHeader::parsed(h.bytes()) == h,
{
    let b = h.bytes();
    assert(b.len() == 10);
    assert(b[0] == h.ver);
    assert(b[1] == (h.cmd / 256) as u8 && b[2] == (h.cmd % 256) as u8);
    assert(b[3] == h.seq);
    assert(b[4] == (h.opcode / 256) as u8 && b[5] == (h.opcode % 256) as u8);
    let packed = h.packed_len();
    assert(packed == h.comp_flag * 0x100_0000 + h.payload_len);
    assert(b[6] == (packed / 0x100_0000) as u8);
    assert(b[7] == (packed / 0x1_0000 % 256) as u8);
    assert(b[8] == (packed / 256 % 256) as u8);
    assert(b[9] == (packed % 256) as u8);
}

/// The frame of every request whose encoded payload fits starts with a
/// header that parses back to the request's `ver`, its `cmd` (which narrows
/// back to what it was), the low 8 bits of its `seq`, its `opcode` and the
/// length of the payload, with no compression; the payload follows the header
/// unchanged.
pub proof fn lemma_request_header_parses_back(req: Frame, body: Seq<u8>)
    requires
        body.len() <= 0xFF_FFFF,
    ensures
        MobileWriter::framed(req, body) is Ok,
        ({
            let frame = MobileWriter::framed(req, body)->Ok_0;
            let h = FrameHeader::parsed(frame.subrange(0, 10));
            &&& frame.len() == 10 + body.len()
            &&& h.ver == req.ver
            &&& h.cmd == req.cmd
            &&& (h.cmd % 256) as u8 == req.cmd
            &&& h.seq == req.seq % 256
            &&& h.opcode == req.opcode
            &&& h.comp_flag == 0
            &&& h.payload_len == body.len()
            &&& frame.subrange(10, frame.len() as int) == body
        }),
{
    let h = FrameHeader::of_request(req, body.len());
    lemma_header_round_trip(h);
    let frame = h.bytes() + body;
    assert(frame.subrange(0, 10) =~= h.bytes());
    assert(frame.subrange(10, frame.len() as int) =~= body);
}

/// A header whose length is zero stands for a complete message with a null
/// payload, whatever its compression flag says.
pub proof fn lemma_empty_payload_is_null(b: [u8; 10])
    requires
        FrameHeader::parsed(b@).payload_len == 0,
    ensures
        MobileReader::after_header(HeaderRead::Bytes(b)) == Some(
            Ok::<Option<Frame>, Failure>(Some(MobileReader::bare(FrameHeader::parsed(b@)))),
        ),
        MobileReader::bare(FrameHeader::parsed(b@)).payload == Json::Null,
{
}

/// A compressed payload block that does not unpack, or not within the
/// limit, gives the report of an LZ4 error, and one that unpacks is decoded
/// from what it unpacked to.
pub proof fn lemma_lz4_failure_is_reported(h: FrameHeader, body: Seq<u8>, max_size: usize)
    requires
        h.comp_flag != 0,
    ensures
        lz4_decompressed(body, max_size) is Err ==> MobileReader::decoded(h, body, max_size) == Err::<
            Frame,
            Failure,
        >(Failure::ApiResponse(failure_json("LZ4 error"@, lz4_decompressed(body, max_size)->Err_0))),
        lz4_decompressed(body, max_size) is Ok ==> MobileReader::decoded(h, body, max_size)
            == MobileReader::unpacked(h, lz4_decompressed(body, max_size)->Ok_0),
{
}

} // verus!
