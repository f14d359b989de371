use vstd::prelude::*;

use crate::message::{
    decode_frame, encodable, encode_frame, frame_bytes, parse_frame, DecodeError, Message,
};
use crate::wire::{be32, get_u32, parse_u32, put_u32};

verus! {

/// Opcode of the session's opening request.
pub const OP_INIT: u8 = 1;

/// Opcode of the server's answer to the opening request.
pub const OP_VERSION: u8 = 2;

/// The protocol version that the client asks for.
pub const PROTOCOL_VERSION: u32 = 3;

/// The opening request of a session: it carries the protocol version and no
/// request id.
pub open spec fn init_bytes() -> Seq<u8> {
    be32(5) + seq![OP_INIT] + be32(PROTOCOL_VERSION)
}

/// Reads the server's version frame at the start of `s`: the version it
/// speaks and the number of bytes the frame takes (extensions are skipped).
pub open spec fn parse_version(s: Seq<u8>) -> Result<(u32, int), DecodeError> {
    match parse_u32(s, 0) {
        None => Err(DecodeError::Truncated),
        Some((len, _)) => if s.len() < 4 + len {
            Err(DecodeError::Truncated)
        } else if len < 5 || s[4] != OP_VERSION {
            Err(DecodeError::Malformed)
        } else {
            match parse_u32(s, 5) {
                Some((v, _)) => Ok((v, 4 + len)),
                None => Err(DecodeError::Malformed),
            }
        },
    }
}

/// The opening request of a session.
pub fn init_frame() -> (r: Vec<u8>)
    ensures
        r@ == init_bytes(),
{
    let mut out: Vec<u8> = Vec::new();
    put_u32(&mut out, 5);
    out.push(OP_INIT);
    put_u32(&mut out, PROTOCOL_VERSION);
    assert(out@ =~= init_bytes());
    out
}

/// Reads the server's version frame at the start of `buf`.
pub fn accept_version(buf: &[u8]) -> (r: Result<(u32, usize), DecodeError>)
    ensures
        parse_version(buf@) == match r {
            Ok((v, n)) => Ok((v, n as int)),
            Err(e) => Err(e),
        },
{
    let (len, _) = match get_u32(buf, 0) {
        Some(x) => x,
        None => return Err(DecodeError::Truncated),
    };
    if buf.len() - 4 < len as usize {
        return Err(DecodeError::Truncated);
    }
    if len < 5 || buf[4] != OP_VERSION {
        return Err(DecodeError::Malformed);
    }
    match get_u32(buf, 5) {
        Some((v, _)) => Ok((v, 4 + len as usize)),
        None => Err(DecodeError::Malformed),
    }
}

/// Request/response bookkeeping of one channel: it numbers the requests and
/// tells which incoming frame answers which request.
pub struct SftpClient {
    next_id: u32,
}

/// What an incoming frame turned out to be.
pub enum Reply {
    /// The reply to the awaited request.
    Matched(Message),
    /// A well-formed frame that answers some other request id.
    Other(u32),
}

impl SftpClient {
    /// The id that the next request will carry.
    pub closed spec fn spec_next_id(&self) -> u32 {
        self.next_id
    }

    /// A client whose first request carries id 0.
    pub fn new() -> (r: SftpClient)
        ensures
            r.spec_next_id() == 0,
    {
        SftpClient { next_id: 0 }
    }

    /// The id that the next request will carry.
    pub fn next_id(&self) -> (r: u32)
        ensures
            r == self.spec_next_id(),
    {
        self.next_id
    }

    /// Allocates the next request id and frames `request` with it. Ids go up
    /// by one per request and wrap around after `u32::MAX`.
    pub fn frame_request(&mut self, request: &Message) -> (r: (u32, Vec<u8>))
        requires
            encodable(request@),
        ensures
            r.0 == old(self).spec_next_id(),
            r.1@ == frame_bytes(r.0, request@),
            final(self).spec_next_id() == (if r.0 == u32::MAX {
                0
            } else {
                (r.0 + 1) as u32
            }),
    {
        let id = self.next_id;
        self.next_id = if id == u32::MAX {
            0
        } else {
            id + 1
        };
        (id, encode_frame(id, request))
    }

    /// Reads the frame at the start of `buf` as a reply to the request with
    /// id `id`, giving what it is and the number of bytes it takes.
    pub fn accept_reply(id: u32, buf: &[u8]) -> (r: Result<(Reply, usize), DecodeError>)
        ensures
            match parse_frame(buf@) {
                Ok((i, m, n)) => r matches Ok((reply, k)) && k == n && (if i == id {
                    reply matches Reply::Matched(msg) && msg@ == m
                } else {
                    reply == Reply::Other(i)
                }),
                Err(e) => r == Err::<(Reply, usize), DecodeError>(e),
            },
    {
        match decode_frame(buf) {
            Ok((i, m, n)) => if i == id {
                Ok((Reply::Matched(m), n))
            } else {
                Ok((Reply::Other(i), n))
            },
            Err(e) => Err(e),
        }
    }
}

} // verus!
