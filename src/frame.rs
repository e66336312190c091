//! Frame codec: commands to wire bytes and wire bytes to responses.

use vstd::prelude::*;

use crate::bytes_le::{
    copy_range, le16_at, le32_at, lemma_u16_round_trip, push_u16_le, read_u16_le, u16_le, le64_at, lemma_u32_round_trip, lemma_u64_round_trip, push_all,
    push_u32_le, push_u64_le, read_u32_le, read_u64_le, u32_le, u64_le,
};
use crate::protocol::{
    lemma_status_byte_injective, opcode_byte, status_byte, OpCode, ProtocolError, StatusCode, PROTOCOL_V1, PROTOCOL_V2,
};

verus! {

/// Largest payload a response frame may declare (16 MiB).
pub const MAX_FRAME_SIZE: usize = 16 * 1024 * 1024;

/// Size of an encoded command header.
pub const COMMAND_HEADER_LEN: usize = 24;

/// The length of a response header under a declared protocol version:
/// 16 bytes for the current protocol, 20 for the legacy one.
pub open spec fn header_len(version: u8) -> nat {
    if version == PROTOCOL_V2 {
        16
    } else {
        20
    }
}

/// The current-protocol header with no flags that the command
/// constructors build.
pub open spec fn plain_header(
    opcode: OpCode,
    seq: u32,
    key_len: u32,
    value_len: u32,
    extra: u64,
) -> CommandHeader {
    CommandHeader {
        opcode: opcode_byte(opcode),
        flags: 0,
        version: PROTOCOL_V2,
        reserved: 0,
        seq,
        key_len,
        value_len,
        extra,
    }
}

/// Command header (24 bytes on the wire, little-endian).
#[derive(Debug, Clone, Copy, PartialEq, Eq, Structural)]
pub struct CommandHeader {
    /// Operation code
    pub opcode: u8,
    /// Command flags
    pub flags: u8,
    /// Protocol version (PROTOCOL_V1 or PROTOCOL_V2)
    pub version: u8,
    /// Reserved for future use
    pub reserved: u8,
    /// Client-local sequence ID
    pub seq: u32,
    /// Key length in bytes
    pub key_len: u32,
    /// Value length in bytes
    pub value_len: u32,
    /// Extra data (expected version for compare-and-swap, TTL, ...)
    pub extra: u64,
}

impl CommandHeader {
    /// A header for the current protocol with no flags, lengths or extra data.
    pub fn new(opcode: OpCode, seq: u32) -> (r: Self)
        ensures
            r == plain_header(opcode, seq, 0, 0, 0),
    {
        CommandHeader {
            opcode: opcode.as_byte(),
            flags: 0,
            version: PROTOCOL_V2,
            reserved: 0,
            seq,
            key_len: 0,
            value_len: 0,
            extra: 0,
        }
    }

    /// A header for the legacy protocol with no flags, lengths or extra data.
    pub fn new_v1(opcode: OpCode, seq: u32) -> (r: Self)
        ensures
            r == (CommandHeader {
                opcode: opcode_byte(opcode),
                flags: 0,
                version: PROTOCOL_V1,
                reserved: 0,
                seq,
                key_len: 0,
                value_len: 0,
                extra: 0,
            }),
    {
        CommandHeader {
            opcode: opcode.as_byte(),
            flags: 0,
            version: PROTOCOL_V1,
            reserved: 0,
            seq,
            key_len: 0,
            value_len: 0,
            extra: 0,
        }
    }

    /// The same header with the given key and value lengths.
    pub fn with_lengths(self, key_len: u32, value_len: u32) -> (r: Self)
        ensures
            r == (CommandHeader { key_len, value_len, ..self }),
    {
        CommandHeader { key_len, value_len, ..self }
    }

    /// The same header with the given extra data.
    pub fn with_extra(self, extra: u64) -> (r: Self)
        ensures
            r == (CommandHeader { extra, ..self }),
    {
        CommandHeader { extra, ..self }
    }

    /// The same header with the bits of `flag` set as well.
    pub fn with_flag(self, flag: u8) -> (r: Self)
        ensures
            r == (CommandHeader { flags: self.flags | flag, ..self }),
    {
        CommandHeader { flags: self.flags | flag, ..self }
    }

    /// Whether any bit of `flag` is set.
    pub fn has_flag(&self, flag: u8) -> (r: bool)
        ensures
            r == (self.flags & flag != 0),
    {
        (self.flags & flag) != 0
    }

    /// The number of key and value bytes that follow the header.
    pub fn total_payload_len(&self) -> (r: usize)
        requires
            self.key_len + self.value_len <= usize::MAX,
        ensures
            r == self.key_len + self.value_len,
    {
        self.key_len as usize + self.value_len as usize
    }
}

/// The 24 header bytes of a command: opcode, flags, version, reserved, then
/// sequence, key length, value length and extra data, little-endian.
pub open spec fn command_header_bytes(h: CommandHeader) -> Seq<u8> {
    seq![h.opcode, h.flags, h.version, h.reserved] + u32_le(h.seq) + u32_le(h.key_len) + u32_le(
        h.value_len,
    ) + u64_le(h.extra)
}

/// The wire bytes of a command: its header, then the key, then the value.
pub open spec fn command_bytes(h: CommandHeader, key: Seq<u8>, value: Seq<u8>) -> Seq<u8> {
    command_header_bytes(h) + key + value
}

/// The command header stored in the first 24 bytes of `b`.
pub open spec fn command_header_at(b: Seq<u8>) -> CommandHeader {
    CommandHeader {
        opcode: b[0],
        flags: b[1],
        version: b[2],
        reserved: b[3],
        seq: le32_at(b, 4),
        key_len: le32_at(b, 8),
        value_len: le32_at(b, 12),
        extra: le64_at(b, 16),
    }
}

/// What a command frame holds: its header, key and value, or `None` where
/// the bytes are fewer than the header and the lengths it declares.
pub open spec fn parse_command(b: Seq<u8>) -> Option<(CommandHeader, Seq<u8>, Seq<u8>)> {
    if b.len() < 24 {
        None
    } else {
        let h = command_header_at(b);
        let key_end = 24 + h.key_len;
        let value_end = key_end + h.value_len;
        if b.len() < value_end {
            None
        } else {
            Some((h, b.subrange(24, key_end), b.subrange(key_end, value_end)))
        }
    }
}

/// A command: header, key bytes and value bytes.
#[derive(Debug, Clone)]
pub struct Command {
    /// Command header
    pub header: CommandHeader,
    /// Key (if any)
    pub key: Vec<u8>,
    /// Value (if any)
    pub value: Vec<u8>,
}

impl Command {
    /// The header's lengths match the key and value attached.
    pub open spec fn wf(&self) -> bool {
        &&& self.header.key_len == self.key@.len()
        &&& self.header.value_len == self.value@.len()
    }

    /// A command with the given key and value; the header's lengths are set
    /// to theirs.
    pub fn new(header: CommandHeader, key: &[u8], value: &[u8]) -> (r: Self)
        requires
            key@.len() <= u32::MAX,
            value@.len() <= u32::MAX,
        ensures
            r.header == (CommandHeader {
                key_len: key@.len() as u32,
                value_len: value@.len() as u32,
                ..header
            }),
            r.key@ == key@,
            r.value@ == value@,
            r.wf(),
    {
        let mut k: Vec<u8> = Vec::new();
        push_all(&mut k, key);
        let mut v: Vec<u8> = Vec::new();
        push_all(&mut v, value);
        assert(k@ =~= key@);
        assert(v@ =~= value@);
        Command {
            header: header.with_lengths(key.len() as u32, value.len() as u32),
            key: k,
            value: v,
        }
    }

    /// A PING command.
    pub fn ping(seq: u32) -> (r: Self)
        ensures
            r.header == plain_header(OpCode::Ping, seq, 0, 0, 0),
            r.key@.len() == 0,
            r.value@.len() == 0,
            r.wf(),
    {
        Self::new(CommandHeader::new(OpCode::Ping, seq), &[], &[])
    }

    /// A SET command storing `value` under `key`.
    pub fn set(seq: u32, key: &[u8], value: &[u8]) -> (r: Self)
        requires
            key@.len() <= u32::MAX,
            value@.len() <= u32::MAX,
        ensures
            r.header == plain_header(OpCode::SetKey, seq, key@.len() as u32, value@.len() as u32, 0),
            r.key@ == key@,
            r.value@ == value@,
            r.wf(),
    {
        Self::new(CommandHeader::new(OpCode::SetKey, seq), key, value)
    }

    /// A GET command for `key`.
    pub fn get(seq: u32, key: &[u8]) -> (r: Self)
        requires
            key@.len() <= u32::MAX,
        ensures
            r.header == plain_header(OpCode::Get, seq, key@.len() as u32, 0, 0),
            r.key@ == key@,
            r.value@.len() == 0,
            r.wf(),
    {
        Self::new(CommandHeader::new(OpCode::Get, seq), key, &[])
    }

    /// A DELETE command for `key`.
    pub fn delete(seq: u32, key: &[u8]) -> (r: Self)
        requires
            key@.len() <= u32::MAX,
        ensures
            r.header == plain_header(OpCode::Delete, seq, key@.len() as u32, 0, 0),
            r.key@ == key@,
            r.value@.len() == 0,
            r.wf(),
    {
        Self::new(CommandHeader::new(OpCode::Delete, seq), key, &[])
    }

    /// A compare-and-swap command: the expected version travels in the
    /// header's extra field.
    pub fn cas(seq: u32, key: &[u8], expected_version: u64, value: &[u8]) -> (r: Self)
        requires
            key@.len() <= u32::MAX,
            value@.len() <= u32::MAX,
        ensures
            r.header == plain_header(
                OpCode::Cas,
                seq,
                key@.len() as u32,
                value@.len() as u32,
                expected_version,
            ),
            r.key@ == key@,
            r.value@ == value@,
            r.wf(),
    {
        Self::new(CommandHeader::new(OpCode::Cas, seq).with_extra(expected_version), key, value)
    }

    /// A FETCH command (list keys) with the given key prefix.
    pub fn fetch(seq: u32, key: &[u8]) -> (r: Self)
        requires
            key@.len() <= u32::MAX,
        ensures
            r.header == plain_header(OpCode::Fetch, seq, key@.len() as u32, 0, 0),
            r.key@ == key@,
            r.value@.len() == 0,
            r.wf(),
    {
        Self::new(CommandHeader::new(OpCode::Fetch, seq), key, &[])
    }

    /// The wire bytes of this command.
    pub fn to_bytes(&self) -> (r: Vec<u8>)
        ensures
            r@ == command_bytes(self.header, self.key@, self.value@),
    {
        let mut buf: Vec<u8> = Vec::new();
        buf.push(self.header.opcode);
        buf.push(self.header.flags);
        buf.push(self.header.version);
        buf.push(self.header.reserved);
        push_u32_le(&mut buf, self.header.seq);
        push_u32_le(&mut buf, self.header.key_len);
        push_u32_le(&mut buf, self.header.value_len);
        push_u64_le(&mut buf, self.header.extra);
        assert(buf@ =~= command_header_bytes(self.header));
        push_all(&mut buf, self.key.as_slice());
        push_all(&mut buf, self.value.as_slice());
        buf
    }

    /// Reads a command frame: fails with `TooShort` below 24 bytes and with
    /// `Truncated` where fewer key and value bytes follow than the header
    /// declares. Bytes after the value are ignored.
    pub fn from_bytes(bytes: &[u8]) -> (r: Result<Command, ProtocolError>)
        ensures
            r is Ok <==> parse_command(bytes@) is Some,
            r matches Ok(c) ==> parse_command(bytes@) == Some((c.header, c.key@, c.value@)),
            bytes@.len() < 24 ==> r == Err::<Command, ProtocolError>(
                ProtocolError::TooShort(bytes@.len() as usize),
            ),
            bytes@.len() >= 24 && r is Err ==> r == Err::<Command, ProtocolError>(
                ProtocolError::Truncated(bytes@.len() as usize),
            ),
    {
        if bytes.len() < COMMAND_HEADER_LEN {
            return Err(ProtocolError::TooShort(bytes.len()));
        }
        let header = CommandHeader {
            opcode: bytes[0],
            flags: bytes[1],
            version: bytes[2],
            reserved: bytes[3],
            seq: read_u32_le(bytes, 4),
            key_len: read_u32_le(bytes, 8),
            value_len: read_u32_le(bytes, 12),
            extra: read_u64_le(bytes, 16),
        };
        let rest = bytes.len() - COMMAND_HEADER_LEN;
        if rest < header.key_len as usize || rest - (header.key_len as usize)
            < header.value_len as usize {
            return Err(ProtocolError::Truncated(bytes.len()));
        }
        let key_end = COMMAND_HEADER_LEN + header.key_len as usize;
        let value_end = key_end + header.value_len as usize;
        let key = copy_range(bytes, COMMAND_HEADER_LEN, key_end);
        let value = copy_range(bytes, key_end, value_end);
        Ok(Command { header, key, value })
    }
}

/// Decoding an encoded command gives back its header, key and value.
pub proof fn lemma_command_round_trip(h: CommandHeader, key: Seq<u8>, value: Seq<u8>)
    requires
        h.key_len == key.len(),
        h.value_len == value.len(),
    ensures
        parse_command(command_bytes(h, key, value)) == Some((h, key, value)),
{
    let b = command_bytes(h, key, value);
    let hb = command_header_bytes(h);
    assert(hb.len() == 24);
    assert(b.subrange(0, 24) =~= hb);
    lemma_u32_round_trip(h.seq);
    lemma_u32_round_trip(h.key_len);
    lemma_u32_round_trip(h.value_len);
    lemma_u64_round_trip(h.extra);
    assert(command_header_at(b) == h);
    assert(b.subrange(24, 24 + h.key_len) =~= key);
    assert(b.subrange(24 + h.key_len, 24 + h.key_len + h.value_len) =~= value);
}

/// Response header: 16 bytes on the wire for the current protocol, 20 for
/// the legacy one, which adds the extra field.
#[derive(Debug, Clone, Copy, PartialEq, Eq, Structural)]
pub struct ResponseHeader {
    /// Status code
    pub status: u8,
    /// Response flags
    pub flags: u8,
    /// Reserved
    pub reserved: u16,
    /// Sequence number
    pub seq: u32,
    /// Payload length
    pub payload_len: u32,
    /// Extra data (legacy protocol only)
    pub extra: u64,
}

impl ResponseHeader {
    /// A header with the given status and sequence and nothing else set.
    pub fn new(status: StatusCode, seq: u32) -> (r: Self)
        ensures
            r == (ResponseHeader {
                status: status_byte(status),
                flags: 0,
                reserved: 0,
                seq,
                payload_len: 0,
                extra: 0,
            }),
    {
        ResponseHeader { status: status.as_byte(), flags: 0, reserved: 0, seq, payload_len: 0, extra: 0 }
    }

    /// The same header with the given payload length.
    pub fn with_payload_len(self, len: u32) -> (r: Self)
        ensures
            r == (ResponseHeader { payload_len: len, ..self }),
    {
        ResponseHeader { payload_len: len, ..self }
    }
}

/// The header bytes of a response under `version`: status, flags, reserved,
/// sequence and payload length, then four zero bytes (current protocol) or
/// the extra field (legacy protocol).
pub open spec fn response_header_bytes(h: ResponseHeader, version: u8) -> Seq<u8> {
    seq![h.status, h.flags] + u16_le(h.reserved) + u32_le(h.seq) + u32_le(h.payload_len) + if version
        == PROTOCOL_V2 {
        seq![0u8, 0u8, 0u8, 0u8]
    } else {
        u64_le(h.extra)
    }
}

/// The wire bytes of a response: its header, then the payload.
pub open spec fn response_bytes(h: ResponseHeader, payload: Seq<u8>, version: u8) -> Seq<u8> {
    response_header_bytes(h, version) + payload
}

/// The response header stored at the start of `b` under `version`.
pub open spec fn response_header_at(b: Seq<u8>, version: u8) -> ResponseHeader {
    ResponseHeader {
        status: b[0],
        flags: b[1],
        reserved: le16_at(b, 2),
        seq: le32_at(b, 4),
        payload_len: le32_at(b, 8),
        extra: if version == PROTOCOL_V2 {
            0
        } else {
            le64_at(b, 12)
        },
    }
}

/// What a response frame decodes to under a declared protocol version.
/// The checks come in this order: at least a header's worth of bytes
/// (`TooShort`), a known status (`InvalidStatusCode`), a payload length of at
/// most `MAX_FRAME_SIZE` (`MessageTooLarge`), and that many payload bytes
/// present (`Truncated`). Bytes after the payload are ignored.
pub open spec fn parse_response(b: Seq<u8>, version: u8) -> Result<
    (ResponseHeader, Seq<u8>),
    ProtocolError,
> {
    let hl = header_len(version);
    if b.len() < hl {
        Err(ProtocolError::TooShort(b.len() as usize))
    } else if b[0] > 0x0D {
        Err(ProtocolError::InvalidStatusCode(b[0]))
    } else {
        let h = response_header_at(b, version);
        if h.payload_len > MAX_FRAME_SIZE {
            Err(ProtocolError::MessageTooLarge(h.payload_len as usize))
        } else if b.len() < hl + h.payload_len {
            Err(ProtocolError::Truncated(b.len() as usize))
        } else {
            Ok((h, b.subrange(hl as int, hl + h.payload_len)))
        }
    }
}

/// A decoded response as its header and payload bytes.
pub open spec fn response_result_view(r: Result<Response, ProtocolError>) -> Result<
    (ResponseHeader, Seq<u8>),
    ProtocolError,
> {
    match r {
        Ok(resp) => Ok((resp.header, resp.payload@)),
        Err(e) => Err(e),
    }
}

/// The status a status byte stands for; unknown bytes read as `Error`.
pub open spec fn status_of(b: u8) -> StatusCode {
    if b > 0x0D {
        StatusCode::Error
    } else {
        choose|s: StatusCode| status_byte(s) == b
    }
}

/// A response: header and payload bytes.
#[derive(Debug, Clone)]
pub struct Response {
    /// Response header
    pub header: ResponseHeader,
    /// Response payload
    pub payload: Vec<u8>,
}

impl Response {
    /// A response with the given payload; the header's payload length is set
    /// to its length.
    pub fn new(header: ResponseHeader, payload: &[u8]) -> (r: Self)
        requires
            payload@.len() <= u32::MAX,
        ensures
            r.header == (ResponseHeader { payload_len: payload@.len() as u32, ..header }),
            r.payload@ == payload@,
    {
        let mut p: Vec<u8> = Vec::new();
        push_all(&mut p, payload);
        assert(p@ =~= payload@);
        Response { header: header.with_payload_len(payload.len() as u32), payload: p }
    }

    /// A success response carrying `payload`.
    pub fn ok(seq: u32, payload: &[u8]) -> (r: Self)
        requires
            payload@.len() <= u32::MAX,
        ensures
            r.header == (ResponseHeader {
                status: status_byte(StatusCode::Success),
                flags: 0,
                reserved: 0,
                seq,
                payload_len: payload@.len() as u32,
                extra: 0,
            }),
            r.payload@ == payload@,
    {
        Self::new(ResponseHeader::new(StatusCode::Success, seq), payload)
    }

    /// A not-found response with no payload.
    pub fn not_found(seq: u32) -> (r: Self)
        ensures
            r.header == (ResponseHeader {
                status: status_byte(StatusCode::NotFound),
                flags: 0,
                reserved: 0,
                seq,
                payload_len: 0,
                extra: 0,
            }),
            r.payload@.len() == 0,
    {
        Self::new(ResponseHeader::new(StatusCode::NotFound, seq), &[])
    }

    /// A general error response with no payload.
    pub fn error(seq: u32) -> (r: Self)
        ensures
            r.header == (ResponseHeader {
                status: status_byte(StatusCode::Error),
                flags: 0,
                reserved: 0,
                seq,
                payload_len: 0,
                extra: 0,
            }),
            r.payload@.len() == 0,
    {
        Self::new(ResponseHeader::new(StatusCode::Error, seq), &[])
    }

    /// Whether the status is `Success`.
    pub fn is_ok(&self) -> (r: bool)
        ensures
            r == (self.header.status == status_byte(StatusCode::Success)),
    {
        self.header.status == 0
    }

    /// The status code; a byte outside the known codes reads as `Error`.
    pub fn status(&self) -> (r: StatusCode)
        ensures
            r == status_of(self.header.status),
    {
        match StatusCode::from_byte(self.header.status) {
            Ok(s) => {
                proof {
                    lemma_status_of(s);
                }
                s
            },
            Err(_) => StatusCode::Error,
        }
    }

    /// The wire bytes of this response under `version`.
    pub fn to_bytes(&self, version: u8) -> (r: Vec<u8>)
        ensures
            r@ == response_bytes(self.header, self.payload@, version),
    {
        let mut buf: Vec<u8> = Vec::new();
        buf.push(self.header.status);
        buf.push(self.header.flags);
        push_u16_le(&mut buf, self.header.reserved);
        push_u32_le(&mut buf, self.header.seq);
        push_u32_le(&mut buf, self.header.payload_len);
        if version == PROTOCOL_V2 {
            buf.push(0);
            buf.push(0);
            buf.push(0);
            buf.push(0);
        } else {
            push_u64_le(&mut buf, self.header.extra);
        }
        assert(buf@ =~= response_header_bytes(self.header, version));
        push_all(&mut buf, self.payload.as_slice());
        buf
    }

    /// Decodes a response whose header layout is given by the declared
    /// protocol `version` (never guessed from the bytes).
    pub fn from_bytes(bytes: &[u8], version: u8) -> (r: Result<Response, ProtocolError>)
        ensures
            response_result_view(r) == parse_response(bytes@, version),
    {
        let hl: usize = if version == PROTOCOL_V2 {
            16
        } else {
            20
        };
        if bytes.len() < hl {
            return Err(ProtocolError::TooShort(bytes.len()));
        }
        if bytes[0] > 0x0D {
            return Err(ProtocolError::InvalidStatusCode(bytes[0]));
        }
        let payload_len = read_u32_le(bytes, 8);
        if payload_len as usize > MAX_FRAME_SIZE {
            return Err(ProtocolError::MessageTooLarge(payload_len as usize));
        }
        if bytes.len() - hl < payload_len as usize {
            return Err(ProtocolError::Truncated(bytes.len()));
        }
        let extra = if version == PROTOCOL_V2 {
            0
        } else {
            read_u64_le(bytes, 12)
        };
        let header = ResponseHeader {
            status: bytes[0],
            flags: bytes[1],
            reserved: read_u16_le(bytes, 2),
            seq: read_u32_le(bytes, 4),
            payload_len,
            extra,
        };
        let payload = copy_range(bytes, hl, hl + payload_len as usize);
        Ok(Response { header, payload })
    }
}

/// A known status reads back as itself.
proof fn lemma_status_of(s: StatusCode)
    ensures
        status_of(status_byte(s)) == s,
{
    lemma_status_byte_injective(s, choose|t: StatusCode| status_byte(t) == status_byte(s));
}

/// What of a response header survives the wire under `version`: all of it
/// under the legacy protocol; all but the extra field under the current one.
pub open spec fn carried_header(h: ResponseHeader, version: u8) -> ResponseHeader {
    if version == PROTOCOL_V2 {
        ResponseHeader { extra: 0, ..h }
    } else {
        h
    }
}

/// Decoding an encoded response under the same protocol version gives back
/// its status, sequence, flags, reserved field, payload length and payload;
/// the extra field comes back under the legacy protocol, and as zero under
/// the current one, whose header has no room for it.
pub proof fn lemma_response_round_trip(h: ResponseHeader, payload: Seq<u8>, version: u8)
    requires
        h.status <= 0x0D,
        h.payload_len == payload.len(),
        payload.len() <= MAX_FRAME_SIZE,
    ensures
        parse_response(response_bytes(h, payload, version), version) == Ok::<
            (ResponseHeader, Seq<u8>),
            ProtocolError,
        >((carried_header(h, version), payload)),
{
    let b = response_bytes(h, payload, version);
    let hb = response_header_bytes(h, version);
    let hl = header_len(version);
    assert(hb.len() == hl);
    lemma_u16_round_trip(h.reserved);
    lemma_u32_round_trip(h.seq);
    lemma_u32_round_trip(h.payload_len);
    lemma_u64_round_trip(h.extra);
    assert(b.subrange(0, hl as int) =~= hb);
    assert(b.subrange(hl as int, hl + h.payload_len) =~= payload);
}

} // verus!
