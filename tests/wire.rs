use i3ipc::readhelp::{read_exact, read_step, ReadResult, ReadStep};
use i3ipc::wire::{decode_message, encode_message, parse_header, payload_text, FrameError};
use i3ipc::{check_reply, receive_i3_message, send_i3_message, send_receive_i3_message, MessageError};
use std::io::{Cursor, Read, Write};

#[test]
fn encode_lays_out_header_and_payload() {
    let bytes = encode_message(0x0102_0304, "ab");
    assert_eq!(
        bytes,
        vec![b'i', b'3', b'-', b'i', b'p', b'c', 2, 0, 0, 0, 4, 3, 2, 1, b'a', b'b']
    );
}

#[test]
fn encode_counts_bytes_not_chars() {
    let bytes = encode_message(7, "é");
    assert_eq!(&bytes[6..10], &[2, 0, 0, 0]);
    assert_eq!(bytes.len(), 16);
}

#[test]
fn round_trip_every_request_kind() {
    for kind in 0u32..=9 {
        for payload in ["", "exec /bin/true", "workspace 2; focus left", "ümlaut ✓"] {
            let bytes = encode_message(kind, payload);
            let (k, p) = decode_message(&bytes).unwrap();
            assert_eq!(k, kind);
            assert_eq!(p, payload);
        }
    }
}

#[test]
fn bad_magic_is_rejected() {
    let mut bytes = encode_message(1, "{}");
    bytes[5] = b'x';
    assert_eq!(decode_message(&bytes), Err(FrameError::BadMagic));
    let mut header = [0u8; 14];
    header[..6].copy_from_slice(b"i4-ipc");
    assert_eq!(parse_header(&header), None);
}

#[test]
fn short_buffers_are_truncated() {
    assert_eq!(decode_message(b"i3-"), Err(FrameError::Truncated));
    assert_eq!(decode_message(b"i3-ipc\x01\x00"), Err(FrameError::Truncated));
    let bytes = encode_message(1, "hello");
    assert_eq!(decode_message(&bytes[..bytes.len() - 1]), Err(FrameError::Truncated));
}

#[test]
fn parse_header_reads_little_endian() {
    let bytes = encode_message(0x8000_0003, "xyz");
    assert_eq!(parse_header(&bytes[..14]), Some((3, 0x8000_0003)));
}

#[test]
fn invalid_utf8_payload_is_replaced() {
    let text = payload_text(&[b'o', b'k', 0xff]);
    assert_eq!(text, "ok\u{fffd}");
    assert_eq!(payload_text("plain ✓".as_bytes()), "plain ✓");
}

#[test]
fn read_exact_reads_the_requested_bytes() {
    let mut src: &[u8] = b"abcdef";
    assert_eq!(read_exact(&mut src, 4).unwrap(), b"abcd".to_vec());
    assert_eq!(read_exact(&mut src, 0).unwrap(), Vec::<u8>::new());
}

#[test]
fn read_exact_fails_at_end_of_stream() {
    let mut src: &[u8] = b"ab";
    assert!(read_exact(&mut src, 3).is_err());
}

struct Dribble {
    data: Vec<u8>,
    at: usize,
    interrupt_next: bool,
}

impl Read for Dribble {
    fn read(&mut self, buf: &mut [u8]) -> std::io::Result<usize> {
        if self.interrupt_next {
            self.interrupt_next = false;
            return Err(std::io::Error::new(std::io::ErrorKind::Interrupted, "again"));
        }
        self.interrupt_next = true;
        if self.at >= self.data.len() || buf.is_empty() {
            return Ok(0);
        }
        buf[0] = self.data[self.at];
        self.at += 1;
        Ok(1)
    }
}

#[test]
fn read_exact_retries_interrupted_reads() {
    let mut src = Dribble { data: b"xyz".to_vec(), at: 0, interrupt_next: true };
    assert_eq!(read_exact(&mut src, 3).unwrap(), b"xyz".to_vec());
}

#[test]
fn receive_reads_one_message() {
    let mut bytes = encode_message(4, "{\"a\":1}");
    bytes.extend(encode_message(5, "[]"));
    let mut cur = Cursor::new(bytes);
    assert_eq!(receive_i3_message(&mut cur).unwrap(), (4, "{\"a\":1}".to_string()));
    assert_eq!(receive_i3_message(&mut cur).unwrap(), (5, "[]".to_string()));
    assert!(receive_i3_message(&mut cur).is_err());
}

#[test]
fn receive_rejects_bad_magic() {
    let mut bytes = encode_message(4, "{}");
    bytes[0] = b'X';
    assert!(receive_i3_message(&mut Cursor::new(bytes)).is_err());
}

#[test]
fn send_writes_the_envelope() {
    let mut out: Vec<u8> = Vec::new();
    send_i3_message(&mut out, 2, "[ \"window\" ]").unwrap();
    assert_eq!(out, encode_message(2, "[ \"window\" ]"));
}

struct Duplex {
    input: Cursor<Vec<u8>>,
    output: Vec<u8>,
    fail_writes: bool,
}

impl Read for Duplex {
    fn read(&mut self, buf: &mut [u8]) -> std::io::Result<usize> {
        self.input.read(buf)
    }
}

impl Write for Duplex {
    fn write(&mut self, buf: &[u8]) -> std::io::Result<usize> {
        if self.fail_writes {
            return Err(std::io::Error::new(std::io::ErrorKind::BrokenPipe, "closed"));
        }
        self.output.write(buf)
    }
    fn flush(&mut self) -> std::io::Result<()> {
        Ok(())
    }
}

fn duplex(reply: Vec<u8>) -> Duplex {
    Duplex { input: Cursor::new(reply), output: Vec::new(), fail_writes: false }
}

#[test]
fn send_receive_returns_the_reply_text() {
    let mut d = duplex(encode_message(7, "{\"major\":4}"));
    let reply = send_receive_i3_message(&mut d, 7, "").unwrap();
    assert_eq!(reply, "{\"major\":4}");
    assert_eq!(d.output, encode_message(7, ""));
}

#[test]
fn send_receive_reports_a_reply_of_another_type() {
    let mut d = duplex(encode_message(3, "[]"));
    assert!(matches!(
        send_receive_i3_message(&mut d, 1, ""),
        Err(MessageError::ReplyTypeMismatch(3))
    ));
}

#[test]
fn send_receive_reports_send_and_receive_errors() {
    let mut d = duplex(Vec::new());
    assert!(matches!(send_receive_i3_message(&mut d, 1, ""), Err(MessageError::Receive(_))));
    let mut d = duplex(encode_message(1, "[]"));
    d.fail_writes = true;
    assert!(matches!(send_receive_i3_message(&mut d, 1, ""), Err(MessageError::Send(_))));
}

#[test]
fn send_then_receive_over_a_buffer() {
    for kind in 0u32..=9 {
        for payload in ["", "[ \"workspace\" ]", "名前"] {
            let mut channel: Vec<u8> = Vec::new();
            send_i3_message(&mut channel, kind, payload).unwrap();
            let (k, p) = receive_i3_message(&mut Cursor::new(channel)).unwrap();
            assert_eq!((k, p.as_str()), (kind, payload));
        }
    }
}

#[test]
fn read_exact_of_nothing_reads_nothing() {
    let mut src: &[u8] = &[1u8, 2, 3];
    assert_eq!(read_exact(&mut src, 0).unwrap(), Vec::<u8>::new());
    assert_eq!(src, &[1u8, 2, 3][..]);
}

#[test]
fn read_step_decisions() {
    assert!(matches!(read_step(ReadResult::Bytes(0), 4, 0), ReadStep::EndOfStream));
    assert!(matches!(read_step(ReadResult::Bytes(5), 4, 0), ReadStep::Overrun));
    assert!(matches!(read_step(ReadResult::Bytes(3), 4, 0), ReadStep::Advance(3)));
    let interrupted = std::io::Error::new(std::io::ErrorKind::Interrupted, "again");
    assert!(matches!(read_step(ReadResult::Interrupted(interrupted), 4, 7), ReadStep::Retry));
    let interrupted = std::io::Error::new(std::io::ErrorKind::Interrupted, "again");
    assert!(matches!(read_step(ReadResult::Interrupted(interrupted), 4, u64::MAX), ReadStep::Fail(_)));
    let broken = std::io::Error::new(std::io::ErrorKind::BrokenPipe, "gone");
    match read_step(ReadResult::Failed(broken), 4, 0) {
        ReadStep::Fail(e) => assert_eq!(e.kind(), std::io::ErrorKind::BrokenPipe),
        other => panic!("unexpected {:?}", other),
    }
}

struct Failing;

impl Read for Failing {
    fn read(&mut self, _buf: &mut [u8]) -> std::io::Result<usize> {
        Err(std::io::Error::new(std::io::ErrorKind::PermissionDenied, "no"))
    }
}

#[test]
fn read_exact_returns_other_errors_as_they_came() {
    let e = read_exact(&mut Failing, 2).unwrap_err();
    assert_eq!(e.kind(), std::io::ErrorKind::PermissionDenied);
    let mut src: &[u8] = b"a";
    assert_eq!(read_exact(&mut src, 2).unwrap_err().kind(), std::io::ErrorKind::Other);
}

#[test]
fn check_reply_matches_types() {
    assert_eq!(check_reply(4, 4, "{}".to_string()).unwrap(), "{}");
    assert!(matches!(check_reply(4, 1, "{}".to_string()), Err(MessageError::ReplyTypeMismatch(1))));
}
