//! The decisions of one request/response round trip on a connection.
//!
//! A caller that owns the byte stream drives the exchange: it writes the bytes
//! that `Exchange::begin` returns, reads `header_len` bytes, asks
//! `payload_len` how many payload bytes follow (or why none may be read),
//! reads them, and hands the whole frame to `finish`.

use vstd::prelude::*;

use crate::bytes_le::{le32_at, read_u32_le};
use crate::error::{is_status_error, Error};
use crate::frame::{
    command_bytes, header_len, parse_response, status_of, Command, CommandHeader, Response,
    MAX_FRAME_SIZE,
};
use crate::protocol::{ProtocolError, StatusCode, PROTOCOL_V2};
use crate::text::{lossy_string, utf8_lossy};

verus! {

/// Per-connection sequence numbers: they start at 1 and wrap around at
/// `u32::MAX`, so consecutive requests on one connection never share one.
#[derive(Debug)]
pub struct SequenceCounter {
    next: u32,
}

impl SequenceCounter {
    /// The number the next request will get.
    pub closed spec fn peek(&self) -> u32 {
        self.next
    }

    /// A counter whose first number is 1.
    pub fn new() -> (r: Self)
        ensures
            r.peek() == 1,
    {
        SequenceCounter { next: 1 }
    }

    /// Hands out the next sequence number.
    pub fn next_seq(&mut self) -> (r: u32)
        ensures
            r == old(self).peek(),
            final(self).peek() == (if r == u32::MAX {
                0
            } else {
                (r + 1) as u32
            }),
    {
        let r = self.next;
        self.next = self.next.wrapping_add(1);
        r
    }
}

/// One request in flight: its sequence number and the protocol version the
/// connection declared, which fixes the response header layout.
#[derive(Debug, Clone, Copy, PartialEq, Eq, Structural)]
pub struct Exchange {
    /// Sequence number of the request
    pub seq: u32,
    /// Declared protocol version
    pub version: u8,
}

/// The payload length declared by a response header, once the header is read:
/// the number of bytes to read next, or the error that ends the exchange
/// before any payload byte is read.
pub open spec fn declared_payload(header: Seq<u8>) -> Result<usize, Error> {
    let n = le32_at(header, 8);
    if n > MAX_FRAME_SIZE {
        Err(Error::Frame(ProtocolError::MessageTooLarge(n as usize)))
    } else {
        Ok(n as usize)
    }
}

/// What `finish` decides about a response frame whose decoded header is `h`
/// and payload `p`: a sequence mismatch first, whatever the status; then the
/// status error; else the response.
pub open spec fn finish_decision(
    e: Exchange,
    h: crate::frame::ResponseHeader,
    p: Seq<u8>,
    r: Result<Response, Error>,
) -> bool {
    if h.seq != e.seq {
        r == Err::<Response, Error>(Error::SequenceMismatch { expected: e.seq, got: h.seq })
    } else if h.status != 0 {
        r matches Err(err) && is_status_error(err, status_of(h.status), utf8_lossy(p))
    } else {
        r matches Ok(resp) && resp.header == h && resp.payload@ == p
    }
}

impl Exchange {
    /// Starts an exchange for `cmd` on a connection that declared `version`:
    /// the header is stamped with that version and the command encoded.
    pub fn begin(cmd: Command, version: u8) -> (r: (Exchange, Vec<u8>))
        ensures
            r.0 == (Exchange { seq: cmd.header.seq, version }),
            r.1@ == command_bytes(
                CommandHeader { version, ..cmd.header },
                cmd.key@,
                cmd.value@,
            ),
    {
        let mut cmd = cmd;
        cmd.header.version = version;
        let bytes = cmd.to_bytes();
        (Exchange { seq: cmd.header.seq, version }, bytes)
    }

    /// How many header bytes to read: 16 for the current protocol, 20 for the
    /// legacy one.
    pub fn header_len(&self) -> (r: usize)
        ensures
            r == header_len(self.version),
    {
        if self.version == PROTOCOL_V2 {
            16
        } else {
            20
        }
    }

    /// After the header is read: the number of payload bytes to read, or
    /// `MessageTooLarge` where the header declares more than `MAX_FRAME_SIZE`.
    pub fn payload_len(&self, header: &[u8]) -> (r: Result<usize, Error>)
        requires
            header@.len() == header_len(self.version),
        ensures
            r == declared_payload(header@),
    {
        let n = read_u32_le(header, 8);
        if n as usize > MAX_FRAME_SIZE {
            Err(Error::Frame(ProtocolError::MessageTooLarge(n as usize)))
        } else {
            Ok(n as usize)
        }
    }

    /// Decides the outcome of the exchange from the whole response frame:
    /// a frame error if it cannot be decoded; a sequence mismatch if its
    /// sequence is not the request's, whatever its status; a status error
    /// carrying the payload as text if its status is not success; else the
    /// response.
    pub fn finish(&self, frame: &[u8]) -> (r: Result<Response, Error>)
        ensures
            parse_response(frame@, self.version) matches Err(pe) ==> r == Err::<Response, Error>(
                Error::Frame(pe),
            ),
            parse_response(frame@, self.version) matches Ok((h, p)) ==> finish_decision(
                *self,
                h,
                p,
                r,
            ),
    {
        match Response::from_bytes(frame, self.version) {
            Err(pe) => Err(Error::Frame(pe)),
            Ok(resp) => {
                if resp.header.seq != self.seq {
                    Err(Error::SequenceMismatch { expected: self.seq, got: resp.header.seq })
                } else if resp.header.status != 0 {
                    let status = resp.status();
                    let text = lossy_string(resp.payload.as_slice());
                    match status {
                        StatusCode::AuthRequired => Err(Error::AuthRequired(text)),
                        _ => Err(Error::Status(status, text)),
                    }
                } else {
                    Ok(resp)
                }
            },
        }
    }
}

/// A response whose sequence number differs from the request's ends the
/// exchange in a sequence mismatch, whatever its status.
pub proof fn lemma_sequence_mismatch_fails(
    e: Exchange,
    h: crate::frame::ResponseHeader,
    p: Seq<u8>,
    r: Result<Response, Error>,
)
    requires
        h.seq != e.seq,
        finish_decision(e, h, p, r),
    ensures
        r == Err::<Response, Error>(Error::SequenceMismatch { expected: e.seq, got: h.seq }),
{
}

/// A header that declares more than `MAX_FRAME_SIZE` payload bytes ends the
/// exchange before any payload byte is read.
pub proof fn lemma_oversized_frame_rejected(header: Seq<u8>)
    requires
        header.len() >= 12,
        le32_at(header, 8) > MAX_FRAME_SIZE,
    ensures
        declared_payload(header) == Err::<usize, Error>(
            Error::Frame(ProtocolError::MessageTooLarge(le32_at(header, 8) as usize)),
        ),
{
}

} // verus!
