use vstd::prelude::*;

use vstd::string::StringSliceAdditionalSpecFns;

use vstd::string::StringExecFns;

use crate::message::{encodable, frame_bytes, lemma_round_trip, parse_frame, Message, MessageView};

use crate::wire::{
    be32, get_string, get_u32, holds_at, lemma_holds_at_split, lemma_parse_string, lemma_parse_u32,
    parse_string, parse_u32, put_string, put_u32, string_bytes,
};

verus! {

/// Numeric status codes of the protocol.
#[derive(Debug, PartialEq, Eq, Structural, Clone, Copy)]
#[non_exhaustive]
pub enum StatusCode {
    Success,
    Eof,
    NoSuchFile,
    PermissionDenied,
    Failure,
    BadMessage,
    NoConnection,
    ConnectionLost,
    OpUnsupported,
}

/// Categories of local I/O errors, as far as the status vocabulary tells
/// them apart.
#[derive(Debug, PartialEq, Eq, Structural, Clone, Copy)]
pub enum IoErrorKind {
    NotFound,
    PermissionDenied,
    ConnectionRefused,
    ConnectionReset,
    ConnectionAborted,
    NotConnected,
    InvalidInput,
    InvalidData,
    Unsupported,
    UnexpectedEof,
    Other,
}

/// Categories of errors of the secure channel transport.
#[derive(Debug, PartialEq, Eq, Structural, Clone, Copy)]
pub enum TransportErrorKind {
    /// The channel could not be opened.
    ChannelOpenFailure,
    /// The peer disconnected.
    Disconnect,
    /// An I/O error of the given category.
    Io(IoErrorKind),
    /// Any other transport error.
    Other,
}

/// The status code that a local I/O error category stands for.
pub open spec fn code_of_io(k: IoErrorKind) -> StatusCode {
    match k {
        IoErrorKind::NotFound => StatusCode::NoSuchFile,
        IoErrorKind::PermissionDenied => StatusCode::PermissionDenied,
        IoErrorKind::ConnectionRefused => StatusCode::NoConnection,
        IoErrorKind::ConnectionReset => StatusCode::ConnectionLost,
        IoErrorKind::ConnectionAborted => StatusCode::ConnectionLost,
        IoErrorKind::NotConnected => StatusCode::NoConnection,
        IoErrorKind::InvalidInput => StatusCode::BadMessage,
        IoErrorKind::InvalidData => StatusCode::BadMessage,
        IoErrorKind::Unsupported => StatusCode::OpUnsupported,
        IoErrorKind::UnexpectedEof => StatusCode::Eof,
        IoErrorKind::Other => StatusCode::Failure,
    }
}

/// The known status code with numeric value `n`, if any.
pub open spec fn code_of_number(n: u32) -> Option<StatusCode> {
    if n == 0 {
        Some(StatusCode::Success)
    } else if n == 1 {
        Some(StatusCode::Eof)
    } else if n == 2 {
        Some(StatusCode::NoSuchFile)
    } else if n == 3 {
        Some(StatusCode::PermissionDenied)
    } else if n == 4 {
        Some(StatusCode::Failure)
    } else if n == 5 {
        Some(StatusCode::BadMessage)
    } else if n == 6 {
        Some(StatusCode::NoConnection)
    } else if n == 7 {
        Some(StatusCode::ConnectionLost)
    } else if n == 8 {
        Some(StatusCode::OpUnsupported)
    } else {
        None
    }
}

/// The local I/O error category that a numeric status code is reported as;
/// unknown codes and those without a closer category become `Other`.
pub open spec fn io_of_number(n: u32) -> IoErrorKind {
    match code_of_number(n) {
        Some(StatusCode::Eof) => IoErrorKind::UnexpectedEof,
        Some(StatusCode::NoSuchFile) => IoErrorKind::NotFound,
        Some(StatusCode::PermissionDenied) => IoErrorKind::PermissionDenied,
        Some(StatusCode::BadMessage) => IoErrorKind::InvalidData,
        Some(StatusCode::OpUnsupported) => IoErrorKind::Unsupported,
        _ => IoErrorKind::Other,
    }
}

/// The status code that a transport error category stands for.
pub open spec fn code_of_transport(k: TransportErrorKind) -> StatusCode {
    match k {
        TransportErrorKind::ChannelOpenFailure => StatusCode::NoConnection,
        TransportErrorKind::Disconnect => StatusCode::ConnectionLost,
        TransportErrorKind::Io(io) => code_of_io(io),
        TransportErrorKind::Other => StatusCode::Failure,
    }
}

impl StatusCode {
    /// The canonical text of the code.
    pub open spec fn spec_name(self) -> &'static str {
        match self {
            StatusCode::Success => "Ok",
            StatusCode::Eof => "EOF",
            StatusCode::NoSuchFile => "No such file",
            StatusCode::PermissionDenied => "Permission Denied",
            StatusCode::Failure => "Failure",
            StatusCode::BadMessage => "Bad message",
            StatusCode::NoConnection => "No connection",
            StatusCode::ConnectionLost => "Connection lost",
            StatusCode::OpUnsupported => "Operation not supported",
        }
    }

    /// The canonical text of the code.
    pub fn name(self) -> (r: &'static str)
        ensures
            r == self.spec_name(),
    {
        match self {
            StatusCode::Success => "Ok",
            StatusCode::Eof => "EOF",
            StatusCode::NoSuchFile => "No such file",
            StatusCode::PermissionDenied => "Permission Denied",
            StatusCode::Failure => "Failure",
            StatusCode::BadMessage => "Bad message",
            StatusCode::NoConnection => "No connection",
            StatusCode::ConnectionLost => "Connection lost",
            StatusCode::OpUnsupported => "Operation not supported",
        }
    }

    /// The known code with numeric value `value`, or `value` itself when the
    /// code is not one of the enumerated ones.
    pub fn try_from_code(value: u32) -> (r: Result<StatusCode, u32>)
        ensures
            match code_of_number(value) {
                Some(c) => r == Ok::<StatusCode, u32>(c),
                None => r == Err::<StatusCode, u32>(value),
            },
    {
        if value == 0 {
            Ok(StatusCode::Success)
        } else if value == 1 {
            Ok(StatusCode::Eof)
        } else if value == 2 {
            Ok(StatusCode::NoSuchFile)
        } else if value == 3 {
            Ok(StatusCode::PermissionDenied)
        } else if value == 4 {
            Ok(StatusCode::Failure)
        } else if value == 5 {
            Ok(StatusCode::BadMessage)
        } else if value == 6 {
            Ok(StatusCode::NoConnection)
        } else if value == 7 {
            Ok(StatusCode::ConnectionLost)
        } else if value == 8 {
            Ok(StatusCode::OpUnsupported)
        } else {
            Err(value)
        }
    }

    /// The status code that a local I/O error category stands for.
    pub fn from_io_kind(kind: IoErrorKind) -> (r: StatusCode)
        ensures
            r == code_of_io(kind),
    {
        match kind {
            IoErrorKind::NotFound => StatusCode::NoSuchFile,
            IoErrorKind::PermissionDenied => StatusCode::PermissionDenied,
            IoErrorKind::ConnectionRefused => StatusCode::NoConnection,
            IoErrorKind::ConnectionReset => StatusCode::ConnectionLost,
            IoErrorKind::ConnectionAborted => StatusCode::ConnectionLost,
            IoErrorKind::NotConnected => StatusCode::NoConnection,
            IoErrorKind::InvalidInput => StatusCode::BadMessage,
            IoErrorKind::InvalidData => StatusCode::BadMessage,
            IoErrorKind::Unsupported => StatusCode::OpUnsupported,
            IoErrorKind::UnexpectedEof => StatusCode::Eof,
            IoErrorKind::Other => StatusCode::Failure,
        }
    }

    /// A status of this code. An empty `msg` is replaced by the code's
    /// canonical text; the language is always "en".
    pub fn to_status(self, msg: Vec<u8>) -> (r: Status)
        ensures
            r.code == self.spec_code(),
            r.error@ == (if msg@.len() == 0 {
                self.spec_name().spec_bytes()
            } else {
                msg@
            }),
            r.language@ == "en".spec_bytes(),
    {
        let error = if msg.len() == 0 {
            vstd::slice::slice_to_vec(self.name().as_bytes())
        } else {
            msg
        };
        Status { code: self.code(), error, language: vstd::slice::slice_to_vec("en".as_bytes()) }
    }

    /// A status message of this code, as [`StatusCode::to_status`] builds it.
    pub fn to_message(self, msg: Vec<u8>) -> (r: Message)
        ensures
            r matches Message::Status(st) && st.code == self.spec_code() && st.error@ == (if msg@.len()
                == 0 {
                self.spec_name().spec_bytes()
            } else {
                msg@
            }) && st.language@ == "en".spec_bytes(),
    {
        Message::Status(self.to_status(msg))
    }

    /// The numeric value of the code on the wire.
    pub open spec fn spec_code(self) -> u32 {
        match self {
            StatusCode::Success => 0,
            StatusCode::Eof => 1,
            StatusCode::NoSuchFile => 2,
            StatusCode::PermissionDenied => 3,
            StatusCode::Failure => 4,
            StatusCode::BadMessage => 5,
            StatusCode::NoConnection => 6,
            StatusCode::ConnectionLost => 7,
            StatusCode::OpUnsupported => 8,
        }
    }

    /// The numeric value of the code on the wire.
    pub fn code(self) -> (r: u32)
        ensures
            r == self.spec_code(),
    {
        match self {
            StatusCode::Success => 0,
            StatusCode::Eof => 1,
            StatusCode::NoSuchFile => 2,
            StatusCode::PermissionDenied => 3,
            StatusCode::Failure => 4,
            StatusCode::BadMessage => 5,
            StatusCode::NoConnection => 6,
            StatusCode::ConnectionLost => 7,
            StatusCode::OpUnsupported => 8,
        }
    }
}

/// A status reply: a numeric code, a human-readable text and a language tag.
#[derive(Debug, PartialEq, Eq, Clone)]
pub struct Status {
    pub code: u32,
    pub error: Vec<u8>,
    pub language: Vec<u8>,
}

/// The mathematical value of a [`Status`].
pub struct StatusView {
    pub code: u32,
    pub error: Seq<u8>,
    pub language: Seq<u8>,
}

impl View for Status {
    type V = StatusView;

    open spec fn view(&self) -> StatusView {
        StatusView { code: self.code, error: self.error@, language: self.language@ }
    }
}

/// Wire bytes of a status: code, text, language.
pub open spec fn status_bytes(s: StatusView) -> Seq<u8> {
    be32(s.code) + string_bytes(s.error) + string_bytes(s.language)
}

/// Reads a status at `p`, field by field.
pub open spec fn parse_status(s: Seq<u8>, p: int) -> Option<(StatusView, int)> {
    match parse_u32(s, p) {
        Some((code, q)) => match parse_string(s, q) {
            Some((error, r)) => match parse_string(s, r) {
                Some((language, e)) => Some((StatusView { code, error, language }, e)),
                None => None,
            },
            None => None,
        },
        None => None,
    }
}

/// An encoded status reads back as itself.
pub proof fn lemma_parse_status(s: Seq<u8>, p: int, st: StatusView)
    requires
        holds_at(s, p, status_bytes(st)),
        status_bytes(st).len() <= u32::MAX,
    ensures
        parse_status(s, p) == Some((st, p + status_bytes(st).len())),
{
    let a = be32(st.code);
    let b = string_bytes(st.error);
    let c = string_bytes(st.language);
    lemma_holds_at_split(s, p, a + b, c);
    lemma_holds_at_split(s, p, a, b);
    lemma_parse_u32(s, p, st.code);
    lemma_parse_string(s, p + 4, st.error);
    lemma_parse_string(s, p + 4 + b.len(), st.language);
}

/// Decimal digits of `n`, most significant first, without leading zeros.
pub open spec fn decimal(n: nat) -> Seq<char>
    decreases n,
{
    if n < 10 {
        seq![digit_char(n)]
    } else {
        decimal(n / 10) + seq![digit_char(n % 10)]
    }
}

/// The character of a decimal digit.
pub open spec fn digit_char(d: nat) -> char {
    if d == 0 {
        '0'
    } else if d == 1 {
        '1'
    } else if d == 2 {
        '2'
    } else if d == 3 {
        '3'
    } else if d == 4 {
        '4'
    } else if d == 5 {
        '5'
    } else if d == 6 {
        '6'
    } else if d == 7 {
        '7'
    } else if d == 8 {
        '8'
    } else {
        '9'
    }
}

/// The text of `b` read as UTF-8, with each invalid sequence replaced by
/// U+FFFD.
pub uninterp spec fn lossy_text(b: Seq<u8>) -> Seq<char>;

/// The one-character text of decimal digit `d`.
fn digit_str(d: u32) -> (r: &'static str)
    requires
        d < 10,
    ensures
        r@ == seq![digit_char(d as nat)],
{
    proof {
        reveal_strlit("0");
        reveal_strlit("1");
        reveal_strlit("2");
        reveal_strlit("3");
        reveal_strlit("4");
        reveal_strlit("5");
        reveal_strlit("6");
        reveal_strlit("7");
        reveal_strlit("8");
        reveal_strlit("9");
    }
    if d == 0 {
        "0"
    } else if d == 1 {
        "1"
    } else if d == 2 {
        "2"
    } else if d == 3 {
        "3"
    } else if d == 4 {
        "4"
    } else if d == 5 {
        "5"
    } else if d == 6 {
        "6"
    } else if d == 7 {
        "7"
    } else if d == 8 {
        "8"
    } else {
        "9"
    }
}

/// Decimal text of `n`.
fn decimal_string(n: u32) -> (r: String)
    ensures
        r@ == decimal(n as nat),
    decreases n,
{
    if n < 10 {
        String::from_str(digit_str(n))
    } else {
        let mut r = decimal_string(n / 10);
        r.append(digit_str(n % 10));
        r
    }
}

/// Relies on `String::from_utf8_lossy`: the result depends on the bytes alone.
#[verifier::external_body]
fn utf8_lossy(b: &[u8]) -> (r: String)
    ensures
        r@ == lossy_text(b@),
{
    String::from_utf8_lossy(b).into_owned()
}

/// How a status reads: its numeric code, then its text if it has one.
pub open spec fn status_text(s: StatusView) -> Seq<char> {
    if s.error.len() == 0 {
        decimal(s.code as nat)
    } else {
        decimal(s.code as nat) + ": "@ + lossy_text(s.error)
    }
}

/// Marks a status reply whose code reports end of file.
pub open spec fn is_eof(s: StatusView) -> bool {
    s.code == StatusCode::Eof.spec_code()
}

/// An unknown numeric code is kept as it is through a frame, and reads as no
/// enumerated code.
pub proof fn lemma_unknown_code_kept(id: u32, st: StatusView)
    requires
        encodable(MessageView::Status(st)),
        st.code > 8,
    ensures
        parse_frame(frame_bytes(id, MessageView::Status(st))) matches Ok((i, m, _)) && i == id && m
            == MessageView::Status(st),
        code_of_number(st.code) is None,
        io_of_number(st.code) == IoErrorKind::Other,
{
    lemma_round_trip(id, MessageView::Status(st));
}

impl Status {
    /// The status for a local I/O error of category `kind` described by `text`.
    pub fn from_io_error(kind: IoErrorKind, text: Vec<u8>) -> (r: Status)
        ensures
            r.code == code_of_io(kind).spec_code(),
            r.error@ == text@,
            r.language@ == "en".spec_bytes(),
    {
        Status {
            code: StatusCode::from_io_kind(kind).code(),
            error: text,
            language: vstd::slice::slice_to_vec("en".as_bytes()),
        }
    }

    /// The status for a transport error of category `kind` described by `text`.
    pub fn from_transport_error(kind: TransportErrorKind, text: Vec<u8>) -> (r: Status)
        ensures
            r.code == code_of_transport(kind).spec_code(),
            r.error@ == text@,
            r.language@ == "en".spec_bytes(),
    {
        let code = match kind {
            TransportErrorKind::ChannelOpenFailure => StatusCode::NoConnection,
            TransportErrorKind::Disconnect => StatusCode::ConnectionLost,
            TransportErrorKind::Io(io) => return Status::from_io_error(io, text),
            TransportErrorKind::Other => StatusCode::Failure,
        };
        Status { code: code.code(), error: text, language: vstd::slice::slice_to_vec("en".as_bytes()) }
    }

    /// The local I/O error category that this status is reported as.
    pub fn io_kind(&self) -> (r: IoErrorKind)
        ensures
            r == io_of_number(self.code),
    {
        match StatusCode::try_from_code(self.code) {
            Ok(StatusCode::Eof) => IoErrorKind::UnexpectedEof,
            Ok(StatusCode::NoSuchFile) => IoErrorKind::NotFound,
            Ok(StatusCode::PermissionDenied) => IoErrorKind::PermissionDenied,
            Ok(StatusCode::BadMessage) => IoErrorKind::InvalidData,
            Ok(StatusCode::OpUnsupported) => IoErrorKind::Unsupported,
            _ => IoErrorKind::Other,
        }
    }

    /// How this status reads: `"{code}"` without text, else
    /// `"{code}: {text}"`.
    pub fn to_text(&self) -> (r: String)
        ensures
            r@ == status_text(self@),
    {
        let mut r = decimal_string(self.code);
        if self.error.len() != 0 {
            r.append(": ");
            let text = utf8_lossy(self.error.as_slice());
            r.append(text.as_str());
        }
        r
    }

    /// Appends the wire bytes of this status.
    pub fn encode(&self, out: &mut Vec<u8>)
        requires
            self.error@.len() <= u32::MAX,
            self.language@.len() <= u32::MAX,
        ensures
            final(out)@ == old(out)@ + status_bytes(self@),
    {
        put_u32(out, self.code);
        put_string(out, self.error.as_slice());
        put_string(out, self.language.as_slice());
        assert(final(out)@ =~= old(out)@ + status_bytes(self@));
    }

    /// Reads a status at `pos`, giving it and the position after it.
    pub fn decode(buf: &[u8], pos: usize) -> (r: Option<(Status, usize)>)
        ensures
            parse_status(buf@, pos as int) == match r {
                Some((st, e)) => Some((st@, e as int)),
                None => None,
            },
    {
        let (code, q) = match get_u32(buf, pos) {
            Some(x) => x,
            None => return None,
        };
        let (error, r) = match get_string(buf, q) {
            Some(x) => x,
            None => return None,
        };
        let (language, e) = match get_string(buf, r) {
            Some(x) => x,
            None => return None,
        };
        Some((Status { code, error, language }, e))
    }
}

} // verus!
