use rusftp::client::{Reply, SftpClient};
use rusftp::message::{
    decode_frame, encode_frame, Attrs, DecodeError, Message, Open, Owner, Read, Times, OP_STATUS,
    PFLAG_READ,
};
use rusftp::reader::{PullStep, ReaderError, SftpReader, MAX_READ};
use rusftp::status::{IoErrorKind, Status, StatusCode, TransportErrorKind};

fn status(code: u32, error: &[u8]) -> Message {
    Message::Status(Status { code, error: error.to_vec(), language: b"en".to_vec() })
}

fn sample_messages() -> Vec<Message> {
    vec![
        Message::Open(Open { filename: b"/etc/hosts".to_vec(), pflags: PFLAG_READ, attrs: Attrs::new() }),
        Message::Open(Open {
            filename: Vec::new(),
            pflags: 0x3a,
            attrs: Attrs {
                size: Some(0x0102_0304_0506_0708),
                owner: Some(Owner { uid: 1000, gid: 100 }),
                permissions: Some(0o644),
                times: Some(Times { atime: 7, mtime: 9 }),
            },
        }),
        Message::Read(Read { handle: b"h1".to_vec(), offset: u64::MAX, length: 32768 }),
        Message::Handle(b"h1".to_vec()),
        Message::Data(Vec::new()),
        Message::Data(vec![0, 255, 10, 13]),
        status(4, b"oops"),
        status(255, b""),
    ]
}

#[test]
fn every_message_round_trips() {
    for (i, m) in sample_messages().into_iter().enumerate() {
        let id = (i as u32).wrapping_mul(0x0101_0101) ^ 0xdead_beef;
        let frame = encode_frame(id, &m);
        assert_eq!(decode_frame(&frame), Ok((id, m, frame.len())));
    }
}

#[test]
fn frame_followed_by_more_bytes_consumes_only_itself() {
    let m = Message::Handle(b"abc".to_vec());
    let mut frame = encode_frame(7, &m);
    let n = frame.len();
    frame.extend_from_slice(&[1, 2, 3]);
    assert_eq!(decode_frame(&frame), Ok((7, m, n)));
}

#[test]
fn every_proper_prefix_is_truncated() {
    for m in sample_messages() {
        let frame = encode_frame(1, &m);
        for k in 1..frame.len() {
            assert_eq!(decode_frame(&frame[..k]), Err(DecodeError::Truncated));
        }
    }
    assert_eq!(decode_frame(&[]), Err(DecodeError::Truncated));
}

#[test]
fn status_frame_has_exact_bytes() {
    let frame = encode_frame(3, &status(2, b"no"));
    assert_eq!(
        frame,
        vec![
            0, 0, 0, 21, OP_STATUS, 0, 0, 0, 3, 0, 0, 0, 2, 0, 0, 0, 2, b'n', b'o', 0, 0, 0, 2,
            b'e', b'n'
        ]
    );
}

#[test]
fn read_frame_has_exact_bytes() {
    let frame = encode_frame(
        0x0102_0304,
        &Message::Read(Read { handle: vec![9], offset: 0x1122_3344_5566_7788, length: 5 }),
    );
    assert_eq!(
        frame,
        vec![
            0, 0, 0, 22, 5, 1, 2, 3, 4, 0, 0, 0, 1, 9, 0x11, 0x22, 0x33, 0x44, 0x55, 0x66, 0x77,
            0x88, 0, 0, 0, 5
        ]
    );
}

#[test]
fn unknown_opcode_is_malformed() {
    assert_eq!(decode_frame(&[0, 0, 0, 9, 200, 0, 0, 0, 1, 0, 0, 0, 0]), Err(DecodeError::Malformed));
}

#[test]
fn frame_shorter_than_header_is_malformed() {
    assert_eq!(decode_frame(&[0, 0, 0, 4, 102, 0, 0, 0]), Err(DecodeError::Malformed));
}

#[test]
fn string_longer_than_frame_is_malformed() {
    // A handle claiming 9 bytes inside a frame that holds only 1 of them.
    let bytes = [0, 0, 0, 10, 102, 0, 0, 0, 1, 0, 0, 0, 9, b'x', 0, 0, 0, 0, 0, 0, 0, 0];
    assert_eq!(decode_frame(&bytes), Err(DecodeError::Malformed));
}

#[test]
fn trailing_payload_bytes_are_malformed() {
    let mut frame = encode_frame(1, &Message::Handle(b"h".to_vec()));
    frame[3] += 1;
    frame.push(0);
    assert_eq!(decode_frame(&frame), Err(DecodeError::Malformed));
}

#[test]
fn extended_attributes_are_refused() {
    let mut frame = encode_frame(
        1,
        &Message::Open(Open { filename: b"f".to_vec(), pflags: 1, attrs: Attrs::new() }),
    );
    let flags_at = frame.len() - 4;
    frame[flags_at] = 0x80;
    assert_eq!(decode_frame(&frame), Err(DecodeError::Malformed));
}

#[test]
fn io_error_kinds_map_to_status_codes() {
    let table = [
        (IoErrorKind::NotFound, StatusCode::NoSuchFile),
        (IoErrorKind::PermissionDenied, StatusCode::PermissionDenied),
        (IoErrorKind::ConnectionRefused, StatusCode::NoConnection),
        (IoErrorKind::ConnectionReset, StatusCode::ConnectionLost),
        (IoErrorKind::ConnectionAborted, StatusCode::ConnectionLost),
        (IoErrorKind::NotConnected, StatusCode::NoConnection),
        (IoErrorKind::InvalidInput, StatusCode::BadMessage),
        (IoErrorKind::InvalidData, StatusCode::BadMessage),
        (IoErrorKind::Unsupported, StatusCode::OpUnsupported),
        (IoErrorKind::UnexpectedEof, StatusCode::Eof),
        (IoErrorKind::Other, StatusCode::Failure),
    ];
    for (kind, code) in table {
        assert_eq!(StatusCode::from_io_kind(kind), code);
        assert_eq!(StatusCode::from_io_kind(kind), StatusCode::from_io_kind(kind));
    }
}

#[test]
fn status_codes_have_fixed_numbers() {
    let codes = [
        StatusCode::Success,
        StatusCode::Eof,
        StatusCode::NoSuchFile,
        StatusCode::PermissionDenied,
        StatusCode::Failure,
        StatusCode::BadMessage,
        StatusCode::NoConnection,
        StatusCode::ConnectionLost,
        StatusCode::OpUnsupported,
    ];
    for (n, code) in codes.into_iter().enumerate() {
        assert_eq!(code.code(), n as u32);
        assert_eq!(StatusCode::try_from_code(n as u32), Ok(code));
    }
    assert_eq!(StatusCode::try_from_code(9), Err(9));
}

#[test]
fn ok_status_with_empty_text_reads_ok() {
    let st = StatusCode::Success.to_status(Vec::new());
    assert_eq!(st.code, 0);
    assert_eq!(st.error, b"Ok".to_vec());
    assert_eq!(st.language, b"en".to_vec());
}

#[test]
fn custom_text_is_kept() {
    let st = StatusCode::NoSuchFile.to_status(b"custom bytes".to_vec());
    assert_eq!(st.code, 2);
    assert_eq!(st.error, b"custom bytes".to_vec());
    assert_eq!(st.language, b"en".to_vec());
}

#[test]
fn canonical_names() {
    assert_eq!(StatusCode::Eof.name(), "EOF");
    assert_eq!(StatusCode::OpUnsupported.name(), "Operation not supported");
    let st = StatusCode::PermissionDenied.to_status(Vec::new());
    assert_eq!(st.error, b"Permission Denied".to_vec());
}

#[test]
fn to_message_wraps_status() {
    assert_eq!(
        StatusCode::Failure.to_message(b"x".to_vec()),
        Message::Status(Status { code: 4, error: b"x".to_vec(), language: b"en".to_vec() })
    );
}

#[test]
fn unknown_status_code_decodes() {
    let frame = encode_frame(5, &status(255, b"strange"));
    match decode_frame(&frame) {
        Ok((5, Message::Status(st), _)) => {
            assert_eq!(st.code, 255);
            assert_eq!(StatusCode::try_from_code(st.code), Err(255));
            assert_eq!(st.io_kind(), IoErrorKind::Other);
        }
        other => panic!("unexpected {:?}", other),
    }
}

#[test]
fn status_reverse_mapping() {
    let st = |code: u32| Status { code, error: Vec::new(), language: Vec::new() };
    assert_eq!(st(0).io_kind(), IoErrorKind::Other);
    assert_eq!(st(1).io_kind(), IoErrorKind::UnexpectedEof);
    assert_eq!(st(2).io_kind(), IoErrorKind::NotFound);
    assert_eq!(st(3).io_kind(), IoErrorKind::PermissionDenied);
    assert_eq!(st(4).io_kind(), IoErrorKind::Other);
    assert_eq!(st(5).io_kind(), IoErrorKind::InvalidData);
    assert_eq!(st(6).io_kind(), IoErrorKind::Other);
    assert_eq!(st(7).io_kind(), IoErrorKind::Other);
    assert_eq!(st(8).io_kind(), IoErrorKind::Unsupported);
}

#[test]
fn status_from_errors() {
    let st = Status::from_io_error(IoErrorKind::NotFound, b"gone".to_vec());
    assert_eq!((st.code, st.error, st.language), (2, b"gone".to_vec(), b"en".to_vec()));
    let t = |k| Status::from_transport_error(k, b"e".to_vec()).code;
    assert_eq!(t(TransportErrorKind::ChannelOpenFailure), 6);
    assert_eq!(t(TransportErrorKind::Disconnect), 7);
    assert_eq!(t(TransportErrorKind::Io(IoErrorKind::ConnectionReset)), 7);
    assert_eq!(t(TransportErrorKind::Io(IoErrorKind::InvalidInput)), 5);
    assert_eq!(t(TransportErrorKind::Other), 4);
}

#[test]
fn status_text() {
    let st = |code: u32, e: &[u8]| Status { code, error: e.to_vec(), language: Vec::new() };
    assert_eq!(st(0, b"").to_text(), "0");
    assert_eq!(st(1234567, b"").to_text(), "1234567");
    assert_eq!(st(2, b"No such file").to_text(), "2: No such file");
    assert_eq!(st(4, &[b'a', 0xff, b'b']).to_text(), "4: a\u{fffd}b");
}

#[test]
fn client_numbers_requests() {
    let mut client = SftpClient::new();
    let m = Message::Handle(b"x".to_vec());
    let (a, fa) = client.frame_request(&m);
    let (b, fb) = client.frame_request(&m);
    assert_eq!((a, b, client.next_id()), (0, 1, 2));
    assert_eq!(fa, encode_frame(0, &m));
    assert_eq!(fb, encode_frame(1, &m));
}

#[test]
fn client_tells_replies_apart() {
    let frame = encode_frame(4, &Message::Data(b"d".to_vec()));
    match SftpClient::accept_reply(4, &frame) {
        Ok((Reply::Matched(Message::Data(d)), n)) => {
            assert_eq!(d, b"d".to_vec());
            assert_eq!(n, frame.len());
        }
        _ => panic!("reply not matched"),
    }
    assert!(matches!(SftpClient::accept_reply(5, &frame), Ok((Reply::Other(4), _))));
    assert!(matches!(SftpClient::accept_reply(4, &frame[..3]), Err(DecodeError::Truncated)));
}

/// Runs one pull against a scripted server; counts the read requests sent.
fn pull(reader: &mut SftpReader, client: &mut SftpClient, capacity: usize, script: &mut Vec<Message>, sent: &mut Vec<Message>) -> Result<Vec<u8>, ReaderError> {
    match reader.start_read(capacity) {
        PullStep::EndOfStream => Err(ReaderError::EndOfStream),
        PullStep::Wait => panic!("no request should be in flight"),
        PullStep::Send(req) => {
            let (id, _frame) = client.frame_request(&req);
            sent.push(req);
            let reply = script.remove(0);
            let frame = encode_frame(id, &reply);
            match SftpClient::accept_reply(id, &frame) {
                Ok((Reply::Matched(m), _)) => reader.finish_read(m, capacity),
                _ => panic!("scripted reply lost"),
            }
        }
    }
}

#[test]
fn reads_until_end_of_file() {
    let mut client = SftpClient::new();
    let open = SftpReader::open_request(b"/remote/file".to_vec());
    let (id, _) = client.frame_request(&open);
    let frame = encode_frame(id, &Message::Handle(b"h1".to_vec()));
    let reply = match SftpClient::accept_reply(id, &frame) {
        Ok((Reply::Matched(m), _)) => m,
        _ => panic!("open reply lost"),
    };
    let mut reader = SftpReader::new(reply).unwrap();
    assert_eq!(reader.offset(), 0);
    let mut script = vec![Message::Data(b"hello".to_vec()), status(1, b"")];
    let mut sent = Vec::new();

    let first = pull(&mut reader, &mut client, 8, &mut script, &mut sent);
    assert_eq!(first, Ok(b"hello".to_vec()));
    assert_eq!(reader.offset(), 5);

    let second = pull(&mut reader, &mut client, 8, &mut script, &mut sent);
    assert_eq!(second, Ok(Vec::new()));
    assert!(reader.is_eof());
    assert_eq!(reader.offset(), 5);

    let third = pull(&mut reader, &mut client, 8, &mut script, &mut sent);
    assert_eq!(third, Err(ReaderError::EndOfStream));
    assert_eq!(reader.offset(), 5);

    assert_eq!(
        sent,
        vec![
            Message::Read(Read { handle: b"h1".to_vec(), offset: 0, length: 8 }),
            Message::Read(Read { handle: b"h1".to_vec(), offset: 5, length: 8 }),
        ]
    );
}

#[test]
fn open_refused_with_permission_denied() {
    let reply = Message::Status(Status { code: 3, error: b"denied".to_vec(), language: b"en".to_vec() });
    match SftpReader::new(reply) {
        Err(ReaderError::Status(st)) => {
            assert_eq!(st.io_kind(), IoErrorKind::PermissionDenied);
            assert_eq!(st.error, b"denied".to_vec());
        }
        _ => panic!("open should fail"),
    }
}

#[test]
fn open_with_other_reply_is_bad() {
    assert!(matches!(SftpReader::new(Message::Data(vec![1])), Err(ReaderError::BadReply)));
}

#[test]
fn read_requests_are_capped_and_single() {
    let mut reader = SftpReader::new(Message::Handle(vec![1])).unwrap();
    match reader.start_read(1 << 20) {
        PullStep::Send(Message::Read(r)) => assert_eq!(r.length, MAX_READ),
        other => panic!("unexpected {:?}", other),
    }
    assert_eq!(reader.start_read(10), PullStep::Wait);
    assert_eq!(reader.finish_read(Message::Data(vec![7; 3]), 10), Ok(vec![7; 3]));
    assert_eq!(reader.offset(), 3);
}

#[test]
fn read_errors() {
    let mut reader = SftpReader::new(Message::Handle(vec![1])).unwrap();
    reader.start_read(2);
    assert_eq!(reader.finish_read(Message::Data(vec![1, 2, 3]), 2), Err(ReaderError::BadReply));
    reader.start_read(2);
    assert_eq!(reader.finish_read(Message::Handle(vec![1]), 2), Err(ReaderError::BadReply));
    reader.start_read(2);
    let err = reader.finish_read(status(4, b"bad"), 2);
    assert!(matches!(err, Err(ReaderError::Status(ref st)) if st.code == 4));
    assert!(!reader.is_eof());
    assert_eq!(reader.offset(), 0);
    reader.start_read(2);
    assert_eq!(reader.finish_read(Message::Data(Vec::new()), 2), Ok(Vec::new()));
    assert!(reader.is_eof());
    assert_eq!(reader.start_read(2), PullStep::EndOfStream);
    assert_eq!(reader.handle(), &[1u8][..]);
}

#[test]
fn handshake_frames() {
    assert_eq!(rusftp::client::init_frame(), vec![0, 0, 0, 5, 1, 0, 0, 0, 3]);
    assert_eq!(rusftp::client::accept_version(&[0, 0, 0, 5, 2, 0, 0, 0, 3, 9]), Ok((3, 9)));
    assert_eq!(rusftp::client::accept_version(&[0, 0, 0, 5, 2, 0, 0]), Err(DecodeError::Truncated));
    assert_eq!(rusftp::client::accept_version(&[0, 0, 0, 5, 1, 0, 0, 0, 3]), Err(DecodeError::Malformed));
}

#[test]
fn frame_size_check() {
    assert!(rusftp::message::fits_frame(&Message::Data(vec![0; 100])));
    assert!(rusftp::message::fits_frame(&status(1, b"")));
}

#[test]
fn cancel_clears_request_in_flight() {
    let mut reader = SftpReader::new(Message::Handle(vec![2])).unwrap();
    assert!(matches!(reader.start_read(4), PullStep::Send(_)));
    reader.cancel_read();
    assert!(matches!(reader.start_read(4), PullStep::Send(_)));
    assert_eq!(reader.offset(), 0);
}

#[test]
fn data_longer_than_asked_but_fitting_is_accepted() {
    let mut reader = SftpReader::new(Message::Handle(vec![1])).unwrap();
    match reader.start_read(65536) {
        PullStep::Send(Message::Read(r)) => assert_eq!(r.length, MAX_READ),
        other => panic!("unexpected {:?}", other),
    }
    let data = vec![5u8; 40000];
    assert_eq!(reader.finish_read(Message::Data(data.clone()), 65536), Ok(data));
    assert_eq!(reader.offset(), 40000);
    assert!(!reader.is_eof());
}

#[test]
fn status_text_of_largest_code() {
    let st = Status { code: u32::MAX, error: Vec::new(), language: Vec::new() };
    assert_eq!(st.to_text(), "4294967295");
    let st = Status { code: 10, error: b"x".to_vec(), language: Vec::new() };
    assert_eq!(st.to_text(), "10: x");
}
