use vstd::prelude::*;

use crate::status::{lemma_parse_status, parse_status, status_bytes, Status, StatusView};
use crate::wire::{
    be32, be64, get_string, get_u32, get_u64, holds_at, lemma_holds_at_split, lemma_parse_string,
    lemma_parse_u32, lemma_parse_u64, parse_string, parse_u32, parse_u64, put_string, put_u32,
    put_u64, string_bytes,
};

verus! {

/// Attribute flag: the size is present.
pub const ATTR_SIZE: u32 = 1;

/// Attribute flag: owner and group ids are present.
pub const ATTR_UIDGID: u32 = 2;

/// Attribute flag: the permission bits are present.
pub const ATTR_PERMISSIONS: u32 = 4;

/// Attribute flag: access and modification times are present.
pub const ATTR_ACMODTIME: u32 = 8;

/// Attribute flag: extended name/value pairs follow (not supported here).
pub const ATTR_EXTENDED: u32 = 0x8000_0000;

/// Open flag: open the file for reading.
pub const PFLAG_READ: u32 = 1;

/// Opcode of an `Open` request.
pub const OP_OPEN: u8 = 3;

/// Opcode of a `Read` request.
pub const OP_READ: u8 = 5;

/// Opcode of a `Status` reply.
pub const OP_STATUS: u8 = 101;

/// Opcode of a `Handle` reply.
pub const OP_HANDLE: u8 = 102;

/// Opcode of a `Data` reply.
pub const OP_DATA: u8 = 103;

/// Owner and group ids of a file.
#[derive(Debug, PartialEq, Eq, Structural, Clone, Copy)]
pub struct Owner {
    pub uid: u32,
    pub gid: u32,
}

/// Access and modification times of a file, in seconds.
#[derive(Debug, PartialEq, Eq, Structural, Clone, Copy)]
pub struct Times {
    pub atime: u32,
    pub mtime: u32,
}

/// File attributes; each field is present on the wire only when set.
#[derive(Debug, PartialEq, Eq, Structural, Clone, Copy)]
pub struct Attrs {
    pub size: Option<u64>,
    pub owner: Option<Owner>,
    pub permissions: Option<u32>,
    pub times: Option<Times>,
}

impl Attrs {
    /// Attributes with no field set.
    pub fn new() -> (r: Attrs)
        ensures
            r.size is None,
            r.owner is None,
            r.permissions is None,
            r.times is None,
    {
        Attrs { size: None, owner: None, permissions: None, times: None }
    }
}

/// Request to open `filename` with open flags `pflags`.
#[derive(Debug, PartialEq, Eq, Clone)]
pub struct Open {
    pub filename: Vec<u8>,
    pub pflags: u32,
    pub attrs: Attrs,
}

/// Request to read at most `length` bytes at `offset` of an open file.
#[derive(Debug, PartialEq, Eq, Clone)]
pub struct Read {
    pub handle: Vec<u8>,
    pub offset: u64,
    pub length: u32,
}

/// A protocol message.
#[derive(Debug, PartialEq, Eq, Clone)]
pub enum Message {
    Open(Open),
    Read(Read),
    Handle(Vec<u8>),
    Data(Vec<u8>),
    Status(Status),
}

/// The mathematical value of a [`Message`].
pub enum MessageView {
    Open { filename: Seq<u8>, pflags: u32, attrs: Attrs },
    Read { handle: Seq<u8>, offset: u64, length: u32 },
    Handle(Seq<u8>),
    Data(Seq<u8>),
    Status(StatusView),
}

impl View for Message {
    type V = MessageView;

    open spec fn view(&self) -> MessageView {
        match self {
            Message::Open(o) => MessageView::Open {
                filename: o.filename@,
                pflags: o.pflags,
                attrs: o.attrs,
            },
            Message::Read(r) => MessageView::Read {
                handle: r.handle@,
                offset: r.offset,
                length: r.length,
            },
            Message::Handle(h) => MessageView::Handle(h@),
            Message::Data(d) => MessageView::Data(d@),
            Message::Status(s) => MessageView::Status(s@),
        }
    }
}

/// `bit` when `present`, else no bit.
pub open spec fn flag_if(present: bool, bit: u32) -> u32 {
    if present {
        bit
    } else {
        0
    }
}

/// The flags word announcing which attributes are present.
pub open spec fn attrs_flags(a: Attrs) -> u32 {
    flag_if(a.size is Some, ATTR_SIZE) | flag_if(a.owner is Some, ATTR_UIDGID) | flag_if(
        a.permissions is Some,
        ATTR_PERMISSIONS,
    ) | flag_if(a.times is Some, ATTR_ACMODTIME)
}

/// Wire bytes of two 32-bit integers in a row.
pub open spec fn pair_bytes(x: u32, y: u32) -> Seq<u8> {
    be32(x) + be32(y)
}

/// Wire bytes of attributes: the flags word, then each present field in order.
pub open spec fn attrs_bytes(a: Attrs) -> Seq<u8> {
    be32(attrs_flags(a)) + match a.size {
        Some(n) => be64(n),
        None => Seq::empty(),
    } + match a.owner {
        Some(o) => pair_bytes(o.uid, o.gid),
        None => Seq::empty(),
    } + match a.permissions {
        Some(n) => be32(n),
        None => Seq::empty(),
    } + match a.times {
        Some(t) => pair_bytes(t.atime, t.mtime),
        None => Seq::empty(),
    }
}

/// Reads a 64-bit integer at `p` when `present`; otherwise reads nothing.
pub open spec fn parse_opt_u64(s: Seq<u8>, p: int, present: bool) -> Option<(Option<u64>, int)> {
    if present {
        match parse_u64(s, p) {
            Some((n, q)) => Some((Some(n), q)),
            None => None,
        }
    } else {
        Some((None, p))
    }
}

/// Reads a 32-bit integer at `p` when `present`; otherwise reads nothing.
pub open spec fn parse_opt_u32(s: Seq<u8>, p: int, present: bool) -> Option<(Option<u32>, int)> {
    if present {
        match parse_u32(s, p) {
            Some((n, q)) => Some((Some(n), q)),
            None => None,
        }
    } else {
        Some((None, p))
    }
}

/// Reads two 32-bit integers at `p` when `present`; otherwise reads nothing.
pub open spec fn parse_opt_pair(s: Seq<u8>, p: int, present: bool) -> Option<
    (Option<(u32, u32)>, int),
> {
    if present {
        match parse_u32(s, p) {
            Some((x, q)) => match parse_u32(s, q) {
                Some((y, r)) => Some((Some((x, y)), r)),
                None => None,
            },
            None => None,
        }
    } else {
        Some((None, p))
    }
}

/// Reads attributes at `p`; extended attributes are refused.
pub open spec fn parse_attrs(s: Seq<u8>, p: int) -> Option<(Attrs, int)> {
    match parse_u32(s, p) {
        Some((f, q0)) => if f & ATTR_EXTENDED != 0 {
            None
        } else {
            match parse_opt_u64(s, q0, f & ATTR_SIZE != 0) {
                Some((size, q1)) => match parse_opt_pair(s, q1, f & ATTR_UIDGID != 0) {
                    Some((owner_ids, q2)) => match parse_opt_u32(s, q2, f & ATTR_PERMISSIONS != 0) {
                        Some((permissions, q3)) => match parse_opt_pair(
                            s,
                            q3,
                            f & ATTR_ACMODTIME != 0,
                        ) {
                            Some((time_pair, q4)) => Some(
                                (
                                    Attrs {
                                        size,
                                        owner: match owner_ids {
                                            Some((uid, gid)) => Some(Owner { uid, gid }),
                                            None => None,
                                        },
                                        permissions,
                                        times: match time_pair {
                                            Some((atime, mtime)) => Some(Times { atime, mtime }),
                                            None => None,
                                        },
                                    },
                                    q4,
                                ),
                            ),
                            None => None,
                        },
                        None => None,
                    },
                    None => None,
                },
                None => None,
            }
        },
        None => None,
    }
}

/// The opcode that introduces a message on the wire.
pub open spec fn opcode(m: MessageView) -> u8 {
    match m {
        MessageView::Open { .. } => OP_OPEN,
        MessageView::Read { .. } => OP_READ,
        MessageView::Handle(_) => OP_HANDLE,
        MessageView::Data(_) => OP_DATA,
        MessageView::Status(_) => OP_STATUS,
    }
}

/// Wire bytes of a message's payload, its fields in declaration order.
pub open spec fn payload_bytes(m: MessageView) -> Seq<u8> {
    match m {
        MessageView::Open { filename, pflags, attrs } => string_bytes(filename) + be32(pflags)
            + attrs_bytes(attrs),
        MessageView::Read { handle, offset, length } => string_bytes(handle) + be64(offset) + be32(
            length,
        ),
        MessageView::Handle(h) => string_bytes(h),
        MessageView::Data(d) => string_bytes(d),
        MessageView::Status(st) => status_bytes(st),
    }
}

/// Reads the payload of a message with opcode `op` at `p`.
pub open spec fn parse_payload(s: Seq<u8>, p: int, op: u8) -> Option<(MessageView, int)> {
    if op == OP_OPEN {
        match parse_string(s, p) {
            Some((filename, q)) => match parse_u32(s, q) {
                Some((pflags, r)) => match parse_attrs(s, r) {
                    Some((attrs, e)) => Some((MessageView::Open { filename, pflags, attrs }, e)),
                    None => None,
                },
                None => None,
            },
            None => None,
        }
    } else if op == OP_READ {
        match parse_string(s, p) {
            Some((handle, q)) => match parse_u64(s, q) {
                Some((offset, r)) => match parse_u32(s, r) {
                    Some((length, e)) => Some((MessageView::Read { handle, offset, length }, e)),
                    None => None,
                },
                None => None,
            },
            None => None,
        }
    } else if op == OP_HANDLE {
        match parse_string(s, p) {
            Some((h, e)) => Some((MessageView::Handle(h), e)),
            None => None,
        }
    } else if op == OP_DATA {
        match parse_string(s, p) {
            Some((d, e)) => Some((MessageView::Data(d), e)),
            None => None,
        }
    } else if op == OP_STATUS {
        match parse_status(s, p) {
            Some((st, e)) => Some((MessageView::Status(st), e)),
            None => None,
        }
    } else {
        None
    }
}

/// A message fits in one frame: its length word can count it.
pub open spec fn encodable(m: MessageView) -> bool {
    payload_bytes(m).len() + 5 <= u32::MAX
}

/// The frame of message `m` sent with request id `id`: length word, opcode,
/// id, payload; the length counts everything after itself.
pub open spec fn frame_bytes(id: u32, m: MessageView) -> Seq<u8> {
    be32((payload_bytes(m).len() + 5) as u32) + seq![opcode(m)] + be32(id) + payload_bytes(m)
}

/// Why a frame could not be read.
#[derive(Debug, PartialEq, Eq, Structural, Clone, Copy)]
pub enum DecodeError {
    /// The input ends before the frame that its length word announces.
    Truncated,
    /// The frame is complete but does not hold one well-formed message.
    Malformed,
}

/// Reads one frame at the start of `s`: its request id, its message and the
/// number of bytes it takes. The payload must fill the frame exactly.
pub open spec fn parse_frame(s: Seq<u8>) -> Result<(u32, MessageView, int), DecodeError> {
    match parse_u32(s, 0) {
        None => Err(DecodeError::Truncated),
        Some((len, _)) => if s.len() < 4 + len {
            Err(DecodeError::Truncated)
        } else if len < 5 {
            Err(DecodeError::Malformed)
        } else {
            let body = s.subrange(0, 4 + len);
            match parse_u32(body, 5) {
                Some((id, _)) => match parse_payload(body, 9, body[4]) {
                    Some((m, e)) => if e == body.len() {
                        Ok((id, m, 4 + len))
                    } else {
                        Err(DecodeError::Malformed)
                    },
                    None => Err(DecodeError::Malformed),
                },
                None => Err(DecodeError::Malformed),
            }
        },
    }
}

/// The flags word of attributes marks exactly the fields that are present.
pub proof fn lemma_attrs_flags(a: Attrs)
    ensures
        (attrs_flags(a) & ATTR_SIZE != 0) == (a.size is Some),
        (attrs_flags(a) & ATTR_UIDGID != 0) == (a.owner is Some),
        (attrs_flags(a) & ATTR_PERMISSIONS != 0) == (a.permissions is Some),
        (attrs_flags(a) & ATTR_ACMODTIME != 0) == (a.times is Some),
        attrs_flags(a) & ATTR_EXTENDED == 0,
{
    let w = flag_if(a.size is Some, 1);
    let x = flag_if(a.owner is Some, 2);
    let y = flag_if(a.permissions is Some, 4);
    let z = flag_if(a.times is Some, 8);
    assert((w == 0 || w == 1) && (x == 0 || x == 2) && (y == 0 || y == 4) && (z == 0 || z == 8)
        ==> (((w | x | y | z) & 1 != 0) == (w == 1) && ((w | x | y | z) & 2 != 0) == (x == 2) && ((w
        | x | y | z) & 4 != 0) == (y == 4) && ((w | x | y | z) & 8 != 0) == (z == 8) && (w | x | y
        | z) & 0x8000_0000 == 0)) by (bit_vector);
}

/// Two encoded 32-bit integers read back as themselves.
pub proof fn lemma_parse_pair(s: Seq<u8>, p: int, x: u32, y: u32)
    requires
        holds_at(s, p, pair_bytes(x, y)),
    ensures
        parse_opt_pair(s, p, true) == Some((Some((x, y)), p + 8)),
{
    lemma_holds_at_split(s, p, be32(x), be32(y));
    lemma_parse_u32(s, p, x);
    lemma_parse_u32(s, p + 4, y);
}

/// Encoded attributes read back as themselves.
pub proof fn lemma_parse_attrs(s: Seq<u8>, p: int, a: Attrs)
    requires
        holds_at(s, p, attrs_bytes(a)),
    ensures
        parse_attrs(s, p) == Some((a, p + attrs_bytes(a).len())),
{
    let f = be32(attrs_flags(a));
    let e1 = match a.size {
        Some(n) => be64(n),
        None => Seq::<u8>::empty(),
    };
    let e2 = match a.owner {
        Some(o) => pair_bytes(o.uid, o.gid),
        None => Seq::<u8>::empty(),
    };
    let e3 = match a.permissions {
        Some(n) => be32(n),
        None => Seq::<u8>::empty(),
    };
    let e4 = match a.times {
        Some(t) => pair_bytes(t.atime, t.mtime),
        None => Seq::<u8>::empty(),
    };
    lemma_holds_at_split(s, p, f + e1 + e2 + e3, e4);
    lemma_holds_at_split(s, p, f + e1 + e2, e3);
    lemma_holds_at_split(s, p, f + e1, e2);
    lemma_holds_at_split(s, p, f, e1);
    lemma_attrs_flags(a);
    lemma_parse_u32(s, p, attrs_flags(a));
    let q1 = p + 4 + e1.len();
    let q2 = q1 + e2.len();
    let q3 = q2 + e3.len();
    if let Some(n) = a.size {
        lemma_parse_u64(s, p + 4, n);
    }
    if let Some(o) = a.owner {
        lemma_parse_pair(s, q1, o.uid, o.gid);
    }
    if let Some(n) = a.permissions {
        lemma_parse_u32(s, q2, n);
    }
    if let Some(t) = a.times {
        lemma_parse_pair(s, q3, t.atime, t.mtime);
    }
}

/// An encoded payload reads back as its message under the message's opcode.
pub proof fn lemma_parse_payload(s: Seq<u8>, p: int, m: MessageView)
    requires
        holds_at(s, p, payload_bytes(m)),
        encodable(m),
    ensures
        parse_payload(s, p, opcode(m)) == Some((m, p + payload_bytes(m).len())),
{
    match m {
        MessageView::Open { filename, pflags, attrs } => {
            lemma_holds_at_split(s, p, string_bytes(filename) + be32(pflags), attrs_bytes(attrs));
            lemma_holds_at_split(s, p, string_bytes(filename), be32(pflags));
            lemma_parse_string(s, p, filename);
            lemma_parse_u32(s, p + 4 + filename.len(), pflags);
            lemma_parse_attrs(s, p + 8 + filename.len(), attrs);
        },
        MessageView::Read { handle, offset, length } => {
            lemma_holds_at_split(s, p, string_bytes(handle) + be64(offset), be32(length));
            lemma_holds_at_split(s, p, string_bytes(handle), be64(offset));
            lemma_parse_string(s, p, handle);
            lemma_parse_u64(s, p + 4 + handle.len(), offset);
            lemma_parse_u32(s, p + 12 + handle.len(), length);
        },
        MessageView::Handle(h) => {
            lemma_parse_string(s, p, h);
        },
        MessageView::Data(d) => {
            lemma_parse_string(s, p, d);
        },
        MessageView::Status(st) => {
            lemma_parse_status(s, p, st);
        },
    }
}

/// Decoding the frame of an encodable message, followed by any bytes, gives
/// back its request id and the message, and consumes the frame exactly.
pub proof fn lemma_frame_round_trip(id: u32, m: MessageView, rest: Seq<u8>)
    requires
        encodable(m),
    ensures
        parse_frame(frame_bytes(id, m) + rest) == Ok::<(u32, MessageView, int), DecodeError>(
            (id, m, frame_bytes(id, m).len() as int),
        ),
{
    let fr = frame_bytes(id, m);
    let s = fr + rest;
    let len = (payload_bytes(m).len() + 5) as u32;
    assert(s.subrange(0, fr.len() as int) =~= fr);
    lemma_holds_at_split(s, 0, be32(len) + seq![opcode(m)] + be32(id), payload_bytes(m));
    lemma_holds_at_split(s, 0, be32(len) + seq![opcode(m)], be32(id));
    lemma_holds_at_split(s, 0, be32(len), seq![opcode(m)]);
    lemma_parse_u32(s, 0, len);
    let body = s.subrange(0, 4 + len);
    assert(body =~= fr);
    assert(holds_at(body, 0, fr)) by {
        assert(body.subrange(0, fr.len() as int) =~= fr);
    }
    lemma_holds_at_split(body, 0, be32(len) + seq![opcode(m)] + be32(id), payload_bytes(m));
    lemma_holds_at_split(body, 0, be32(len) + seq![opcode(m)], be32(id));
    lemma_parse_u32(body, 5, id);
    assert(body[4] == opcode(m));
    lemma_parse_payload(body, 9, m);
}

/// Decoding a message's frame gives back the message and its request id.
pub proof fn lemma_round_trip(id: u32, m: MessageView)
    requires
        encodable(m),
    ensures
        parse_frame(frame_bytes(id, m)) == Ok::<(u32, MessageView, int), DecodeError>(
            (id, m, frame_bytes(id, m).len() as int),
        ),
{
    lemma_frame_round_trip(id, m, Seq::empty());
    assert(frame_bytes(id, m) + Seq::empty() =~= frame_bytes(id, m));
}

/// Every proper non-empty prefix of a frame is refused as truncated.
pub proof fn lemma_prefix_truncated(id: u32, m: MessageView, k: int)
    requires
        encodable(m),
        0 < k < frame_bytes(id, m).len(),
    ensures
        parse_frame(frame_bytes(id, m).subrange(0, k)) == Err::<(u32, MessageView, int), DecodeError>(
            DecodeError::Truncated,
        ),
{
    let fr = frame_bytes(id, m);
    let pre = fr.subrange(0, k);
    let len = (payload_bytes(m).len() + 5) as u32;
    if k >= 4 {
        assert(fr.subrange(0, fr.len() as int) =~= fr);
        lemma_holds_at_split(fr, 0, be32(len) + seq![opcode(m)] + be32(id), payload_bytes(m));
        lemma_holds_at_split(fr, 0, be32(len) + seq![opcode(m)], be32(id));
        lemma_holds_at_split(fr, 0, be32(len), seq![opcode(m)]);
        lemma_parse_u32(fr, 0, len);
        assert(pre[0] == fr[0] && pre[1] == fr[1] && pre[2] == fr[2] && pre[3] == fr[3]);
    }
}

fn put_attrs(out: &mut Vec<u8>, a: &Attrs)
    ensures
        final(out)@ == old(out)@ + attrs_bytes(*a),
{
    let flags: u32 = (if a.size.is_some() {
        ATTR_SIZE
    } else {
        0
    }) | (if a.owner.is_some() {
        ATTR_UIDGID
    } else {
        0
    }) | (if a.permissions.is_some() {
        ATTR_PERMISSIONS
    } else {
        0
    }) | (if a.times.is_some() {
        ATTR_ACMODTIME
    } else {
        0
    });
    put_u32(out, flags);
    let ghost s0 = out@;
    if let Some(n) = a.size {
        put_u64(out, n);
    }
    let ghost s1 = out@;
    if let Some(o) = a.owner {
        put_u32(out, o.uid);
        put_u32(out, o.gid);
    }
    let ghost s2 = out@;
    if let Some(n) = a.permissions {
        put_u32(out, n);
    }
    let ghost s3 = out@;
    if let Some(t) = a.times {
        put_u32(out, t.atime);
        put_u32(out, t.mtime);
    }
    assert(final(out)@ =~= old(out)@ + attrs_bytes(*a));
}

fn get_attrs(buf: &[u8], pos: usize) -> (r: Option<(Attrs, usize)>)
    ensures
        parse_attrs(buf@, pos as int) == match r {
            Some((a, e)) => Some((a, e as int)),
            None => None,
        },
{
    let (f, mut q) = match get_u32(buf, pos) {
        Some(x) => x,
        None => return None,
    };
    if f & ATTR_EXTENDED != 0 {
        return None;
    }
    let mut size: Option<u64> = None;
    if f & ATTR_SIZE != 0 {
        match get_u64(buf, q) {
            Some((n, e)) => {
                size = Some(n);
                q = e;
            },
            None => return None,
        }
    }
    let mut owner: Option<Owner> = None;
    if f & ATTR_UIDGID != 0 {
        match get_u32(buf, q) {
            Some((uid, e)) => match get_u32(buf, e) {
                Some((gid, e2)) => {
                    owner = Some(Owner { uid, gid });
                    q = e2;
                },
                None => return None,
            },
            None => return None,
        }
    }
    let mut permissions: Option<u32> = None;
    if f & ATTR_PERMISSIONS != 0 {
        match get_u32(buf, q) {
            Some((n, e)) => {
                permissions = Some(n);
                q = e;
            },
            None => return None,
        }
    }
    let mut times: Option<Times> = None;
    if f & ATTR_ACMODTIME != 0 {
        match get_u32(buf, q) {
            Some((atime, e)) => match get_u32(buf, e) {
                Some((mtime, e2)) => {
                    times = Some(Times { atime, mtime });
                    q = e2;
                },
                None => return None,
            },
            None => return None,
        }
    }
    Some((Attrs { size, owner, permissions, times }, q))
}

impl Message {
    /// The opcode that introduces this message on the wire.
    pub fn opcode(&self) -> (r: u8)
        ensures
            r == opcode(self@),
    {
        match self {
            Message::Open(_) => OP_OPEN,
            Message::Read(_) => OP_READ,
            Message::Handle(_) => OP_HANDLE,
            Message::Data(_) => OP_DATA,
            Message::Status(_) => OP_STATUS,
        }
    }

    /// Appends the payload of this message.
    pub fn encode_payload(&self, out: &mut Vec<u8>)
        requires
            encodable(self@),
        ensures
            final(out)@ == old(out)@ + payload_bytes(self@),
    {
        match self {
            Message::Open(o) => {
                put_string(out, o.filename.as_slice());
                put_u32(out, o.pflags);
                put_attrs(out, &o.attrs);
            },
            Message::Read(r) => {
                put_string(out, r.handle.as_slice());
                put_u64(out, r.offset);
                put_u32(out, r.length);
            },
            Message::Handle(h) => put_string(out, h.as_slice()),
            Message::Data(d) => put_string(out, d.as_slice()),
            Message::Status(st) => st.encode(out),
        }
        assert(final(out)@ =~= old(out)@ + payload_bytes(self@));
    }

    /// Reads the payload of a message with opcode `op` at `pos`.
    pub fn decode_payload(buf: &[u8], pos: usize, op: u8) -> (r: Option<(Message, usize)>)
        ensures
            parse_payload(buf@, pos as int, op) == match r {
                Some((m, e)) => Some((m@, e as int)),
                None => None,
            },
    {
        if op == OP_OPEN {
            let (filename, q) = match get_string(buf, pos) {
                Some(x) => x,
                None => return None,
            };
            let (pflags, r) = match get_u32(buf, q) {
                Some(x) => x,
                None => return None,
            };
            let (attrs, e) = match get_attrs(buf, r) {
                Some(x) => x,
                None => return None,
            };
            Some((Message::Open(Open { filename, pflags, attrs }), e))
        } else if op == OP_READ {
            let (handle, q) = match get_string(buf, pos) {
                Some(x) => x,
                None => return None,
            };
            let (offset, r) = match get_u64(buf, q) {
                Some(x) => x,
                None => return None,
            };
            let (length, e) = match get_u32(buf, r) {
                Some(x) => x,
                None => return None,
            };
            Some((Message::Read(Read { handle, offset, length }), e))
        } else if op == OP_HANDLE {
            match get_string(buf, pos) {
                Some((h, e)) => Some((Message::Handle(h), e)),
                None => None,
            }
        } else if op == OP_DATA {
            match get_string(buf, pos) {
                Some((d, e)) => Some((Message::Data(d), e)),
                None => None,
            }
        } else if op == OP_STATUS {
            match Status::decode(buf, pos) {
                Some((st, e)) => Some((Message::Status(st), e)),
                None => None,
            }
        } else {
            None
        }
    }
}

/// Whether `m` fits in one frame.
pub fn fits_frame(m: &Message) -> (r: bool)
    ensures
        r == encodable(m@),
{
    let limit = u32::MAX as usize;
    let n: u64 = match m {
        Message::Open(o) => {
            if o.filename.len() > limit {
                return false;
            }
            let a = &o.attrs;
            4 + o.filename.len() as u64 + 4 + 4 + (if a.size.is_some() {
                8
            } else {
                0
            }) + (if a.owner.is_some() {
                8
            } else {
                0
            }) + (if a.permissions.is_some() {
                4
            } else {
                0
            }) + (if a.times.is_some() {
                8
            } else {
                0
            })
        },
        Message::Read(rd) => {
            if rd.handle.len() > limit {
                return false;
            }
            4 + rd.handle.len() as u64 + 8 + 4
        },
        Message::Handle(h) => {
            if h.len() > limit {
                return false;
            }
            4 + h.len() as u64
        },
        Message::Data(d) => {
            if d.len() > limit {
                return false;
            }
            4 + d.len() as u64
        },
        Message::Status(st) => {
            if st.error.len() > limit || st.language.len() > limit {
                return false;
            }
            4 + 4 + st.error.len() as u64 + 4 + st.language.len() as u64
        },
    };
    n + 5 <= u32::MAX as u64
}

/// The frame that carries `m` with request id `id`.
pub fn encode_frame(id: u32, m: &Message) -> (r: Vec<u8>)
    requires
        encodable(m@),
    ensures
        r@ == frame_bytes(id, m@),
{
    let mut payload: Vec<u8> = Vec::new();
    m.encode_payload(&mut payload);
    assert(payload@ =~= payload_bytes(m@));
    let mut out: Vec<u8> = Vec::new();
    put_u32(&mut out, (payload.len() + 5) as u32);
    out.push(m.opcode());
    put_u32(&mut out, id);
    out.append(&mut payload);
    assert(out@ =~= frame_bytes(id, m@));
    out
}

/// Reads the frame at the start of `buf`: its request id, its message and
/// the number of bytes it takes.
pub fn decode_frame(buf: &[u8]) -> (r: Result<(u32, Message, usize), DecodeError>)
    ensures
        parse_frame(buf@) == match r {
            Ok((id, m, n)) => Ok((id, m@, n as int)),
            Err(e) => Err(e),
        },
{
    let (len, _) = match get_u32(buf, 0) {
        Some(x) => x,
        None => return Err(DecodeError::Truncated),
    };
    if buf.len() - 4 < len as usize {
        return Err(DecodeError::Truncated);
    }
    if len < 5 {
        return Err(DecodeError::Malformed);
    }
    let end = 4 + len as usize;
    let body = vstd::slice::slice_subrange(buf, 0, end);
    let (id, _) = match get_u32(body, 5) {
        Some(x) => x,
        None => return Err(DecodeError::Malformed),
    };
    match Message::decode_payload(body, 9, body[4]) {
        Some((m, e)) => if e == end {
            Ok((id, m, end))
        } else {
            Err(DecodeError::Malformed)
        },
        None => Err(DecodeError::Malformed),
    }
}

} // verus!
