use vstd::prelude::*;

use crate::message::{Attrs, Message, MessageView, Open, Read, PFLAG_READ};
use crate::status::{is_eof, Status, StatusCode};

verus! {

/// The most bytes asked for in one read request.
pub const MAX_READ: u32 = 32768;

/// Why opening or reading a remote file failed.
#[derive(Debug, PartialEq, Eq, Clone)]
pub enum ReaderError {
    /// The server answered with this non-success status.
    Status(Status),
    /// The server answered with a message that does not fit the request.
    BadReply,
    /// End of file was already reached; nothing more is asked of the server.
    EndOfStream,
}

/// What the caller of a pull must do next.
#[derive(Debug, PartialEq, Eq, Clone)]
pub enum PullStep {
    /// Send this read request and hand its reply to `finish_read`.
    Send(Message),
    /// A request is already in flight: wait for its reply.
    Wait,
    /// End of file was reached earlier: report end of stream.
    EndOfStream,
}

/// Sequential reading of one remote file, one request in flight at most.
///
/// The reader decides; its caller moves the messages over the channel.
pub struct SftpReader {
    handle: Vec<u8>,
    offset: u64,
    eof: bool,
    pending: Option<u32>,
}

/// The mathematical state of a [`SftpReader`].
pub struct ReaderView {
    /// The server's handle for the open file.
    pub handle: Seq<u8>,
    /// Bytes of the file delivered so far.
    pub offset: u64,
    /// End of file was observed; it stays so.
    pub eof: bool,
    /// The length asked for by the read request in flight, if one is.
    pub pending: Option<u32>,
}

impl View for SftpReader {
    type V = ReaderView;

    closed spec fn view(&self) -> ReaderView {
        ReaderView {
            handle: self.handle@,
            offset: self.offset,
            eof: self.eof,
            pending: self.pending,
        }
    }
}

/// The length of the next read request for a buffer with `capacity` bytes
/// free.
pub open spec fn read_length(capacity: usize) -> u32 {
    if capacity < MAX_READ as usize {
        capacity as u32
    } else {
        MAX_READ
    }
}

impl SftpReader {
    /// The request that opens `filename` for reading, with no attributes.
    pub fn open_request(filename: Vec<u8>) -> (r: Message)
        ensures
            r@ == (MessageView::Open {
                filename: filename@,
                pflags: PFLAG_READ,
                attrs: Attrs { size: None, owner: None, permissions: None, times: None },
            }),
    {
        Message::Open(Open { filename, pflags: PFLAG_READ, attrs: Attrs::new() })
    }

    /// A reader for the file that the server answered `reply` to an open
    /// request with: a handle opens it at offset 0, a status is the error,
    /// anything else is a bad reply.
    pub fn new(reply: Message) -> (r: Result<SftpReader, ReaderError>)
        ensures
            match reply@ {
                MessageView::Handle(h) => r matches Ok(rd) && rd@ == (ReaderView {
                    handle: h,
                    offset: 0,
                    eof: false,
                    pending: None,
                }),
                MessageView::Status(st) => r matches Err(ReaderError::Status(s)) && s@ == st,
                _ => r == Err::<SftpReader, ReaderError>(ReaderError::BadReply),
            },
    {
        match reply {
            Message::Handle(handle) => Ok(SftpReader { handle, offset: 0, eof: false, pending: None }),
            Message::Status(st) => Err(ReaderError::Status(st)),
            _ => Err(ReaderError::BadReply),
        }
    }

    /// Bytes of the file delivered so far.
    pub fn offset(&self) -> (r: u64)
        ensures
            r == self@.offset,
    {
        self.offset
    }

    /// Whether end of file was observed.
    pub fn is_eof(&self) -> (r: bool)
        ensures
            r == self@.eof,
    {
        self.eof
    }

    /// The server's handle for the open file.
    pub fn handle(&self) -> (r: &[u8])
        ensures
            r@ == self@.handle,
    {
        self.handle.as_slice()
    }

    /// Begins a pull into a buffer with `capacity` bytes free. After end of
    /// file nothing is sent again; with a request in flight the caller waits;
    /// otherwise a read of at most `MAX_READ` bytes at the current offset is
    /// issued and becomes the request in flight.
    pub fn start_read(&mut self, capacity: usize) -> (r: PullStep)
        ensures
            final(self)@.handle == old(self)@.handle,
            final(self)@.offset == old(self)@.offset,
            final(self)@.eof == old(self)@.eof,
            old(self)@.eof ==> r == PullStep::EndOfStream && final(self)@.pending == old(self)@.pending,
            !old(self)@.eof && old(self)@.pending is Some ==> r == PullStep::Wait && final(self)@.pending == old(self)@.pending,
            !old(self)@.eof && old(self)@.pending is None ==> (r matches PullStep::Send(m)
                && m@ == (MessageView::Read {
                handle: old(self)@.handle,
                offset: old(self)@.offset,
                length: read_length(capacity),
            }) && final(self)@.pending == Some(read_length(capacity))),
    {
        if self.eof {
            return PullStep::EndOfStream;
        }
        if self.pending.is_some() {
            return PullStep::Wait;
        }
        let length: u32 = if capacity < MAX_READ as usize {
            capacity as u32
        } else {
            MAX_READ
        };
        self.pending = Some(length);
        PullStep::Send(
            Message::Read(
                Read { handle: vstd::slice::slice_to_vec(self.handle.as_slice()), offset: self.offset, length },
            ),
        )
    }

    /// Gives up the pull in flight without a reply (the channel failed);
    /// nothing else changes.
    pub fn cancel_read(&mut self)
        ensures
            final(self)@ == (ReaderView { pending: None, ..old(self)@ }),
    {
        self.pending = None;
    }

    /// Ends the pull in flight with the server's `reply`, giving the bytes
    /// read into a buffer with `capacity` bytes free. A status of end of
    /// file, or empty data, latches end of file and gives no bytes; data
    /// advances the offset by its length; any other status is the error.
    /// Data that does not fit the buffer, data that would carry the offset
    /// past `u64::MAX`, and any other message are bad replies. Either way no
    /// request is in flight afterwards.
    pub fn finish_read(&mut self, reply: Message, capacity: usize) -> (r: Result<
        Vec<u8>,
        ReaderError,
    >)
        requires
            old(self)@.pending is Some,
        ensures
            final(self)@.handle == old(self)@.handle,
            final(self)@.pending is None,
            match reply@ {
                MessageView::Status(st) => if is_eof(st) {
                    r matches Ok(v) && v@.len() == 0 && final(self)@.eof && final(self)@.offset == old(self)@.offset
                } else {
                    r matches Err(ReaderError::Status(s)) && s@ == st && final(self)@.eof == old(self)@.eof && final(self)@.offset == old(self)@.offset
                },
                MessageView::Data(d) => if d.len() > capacity || old(self)@.offset
                    + d.len() > u64::MAX {
                    r == Err::<Vec<u8>, ReaderError>(ReaderError::BadReply) && final(self)@.eof == old(self)@.eof && final(self)@.offset == old(self)@.offset
                } else if d.len() == 0 {
                    r matches Ok(v) && v@.len() == 0 && final(self)@.eof && final(self)@.offset == old(self)@.offset
                } else {
                    r matches Ok(v) && v@ == d && final(self)@.eof == old(self)@.eof && final(self)@.offset == old(self)@.offset + d.len()
                },
                _ => r == Err::<Vec<u8>, ReaderError>(ReaderError::BadReply) && final(self)@.eof
                    == old(self)@.eof && final(self)@.offset == old(self)@.offset,
            },
    {
        self.pending = None;
        match reply {
            Message::Status(st) => {
                if st.code == StatusCode::Eof.code() {
                    self.eof = true;
                    Ok(Vec::new())
                } else {
                    Err(ReaderError::Status(st))
                }
            },
            Message::Data(data) => {
                if data.len() > capacity || u64::MAX - self.offset < data.len() as u64 {
                    Err(ReaderError::BadReply)
                } else if data.len() == 0 {
                    self.eof = true;
                    Ok(data)
                } else {
                    self.offset = self.offset + data.len() as u64;
                    Ok(data)
                }
            },
            _ => Err(ReaderError::BadReply),
        }
    }
}

} // verus!
