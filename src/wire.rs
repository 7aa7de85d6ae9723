//! The envelope that carries every message: a six-byte magic tag, the payload
//! length and the message type as little-endian `u32`s, then the payload.
use byteorder::{ByteOrder, LittleEndian};
use vstd::prelude::*;
use vstd::string::StringSliceAdditionalSpecFns;
use vstd::utf8::{decode_utf8, encode_utf8, valid_utf8};

verus! {

broadcast use vstd::utf8::group_utf8_lib;

/// The length of the fixed part of an envelope.
pub const HEADER_LEN: usize = 14;

/// Why a byte buffer holds no envelope.
#[derive(Debug, PartialEq, Eq)]
pub enum FrameError {
    /// The first six bytes are not the magic tag.
    BadMagic,
    /// The buffer ends before the envelope does.
    Truncated,
}

/// The magic tag `i3-ipc` in ASCII.
pub open spec fn magic() -> Seq<u8> {
    seq![105u8, 51u8, 45u8, 105u8, 112u8, 99u8]
}

/// The four bytes of `n`, least significant first.
pub open spec fn le_bytes(n: u32) -> Seq<u8> {
    seq![(n % 256) as u8, (n / 256 % 256) as u8, (n / 65536 % 256) as u8, (n / 16777216) as u8]
}

/// The number that four bytes hold, least significant first.
pub open spec fn le_value(b: Seq<u8>) -> u32 {
    (b[0] as int + 256 * b[1] as int + 65536 * b[2] as int + 16777216 * b[3] as int) as u32
}

/// The envelope of a message of type `kind` whose payload bytes are `payload`.
pub open spec fn frame(kind: u32, payload: Seq<u8>) -> Seq<u8> {
    magic() + le_bytes(payload.len() as u32) + le_bytes(kind) + payload
}

/// The payload length and message type that a header states, if it starts
/// with the magic tag.
pub open spec fn header_of(h: Seq<u8>) -> Option<(u32, u32)> {
    if h.subrange(0, 6) == magic() {
        Some((le_value(h.subrange(6, 10)), le_value(h.subrange(10, 14))))
    } else {
        None
    }
}

/// What `String::from_utf8_lossy` makes of bytes that are no UTF-8.
pub uninterp spec fn utf8_lossy(b: Seq<u8>) -> Seq<char>;

/// The text that payload bytes read as: the characters they encode, where
/// they are UTF-8.
pub open spec fn text_of(b: Seq<u8>) -> Seq<char> {
    if valid_utf8(b) {
        decode_utf8(b)
    } else {
        utf8_lossy(b)
    }
}

/// The message that a buffer starts with: its type and its payload as text.
pub open spec fn message_of(b: Seq<u8>) -> Result<(u32, Seq<char>), FrameError> {
    if b.len() < 6 {
        Err(FrameError::Truncated)
    } else if b.subrange(0, 6) != magic() {
        Err(FrameError::BadMagic)
    } else if b.len() < 14 {
        Err(FrameError::Truncated)
    } else {
        let (len, kind) = header_of(b.subrange(0, 14))->0;
        if b.len() < 14 + len {
            Err(FrameError::Truncated)
        } else {
            Ok((kind, text_of(b.subrange(14, 14 + len))))
        }
    }
}

/// Relies on byteorder's LittleEndian::write_u32: the bytes of `n`, least
/// significant first.
#[verifier::external_body]
fn u32_le_bytes(n: u32) -> (r: [u8; 4])
    ensures
        r@ == le_bytes(n),
{
    let mut b = [0u8; 4];
    LittleEndian::write_u32(&mut b, n);
    b
}

/// Relies on byteorder's LittleEndian::read_u32: the four bytes from `at`,
/// least significant first.
#[verifier::external_body]
fn u32_from_le(b: &[u8], at: usize) -> (r: u32)
    requires
        at + 4 <= b@.len(),
    ensures
        r == le_value(b@.subrange(at as int, at + 4)),
{
    LittleEndian::read_u32(&b[at..])
}

/// Relies on String::from_utf8_lossy, which hands valid UTF-8 back unchanged.
#[verifier::external_body]
fn text_of_bytes(b: &[u8]) -> (r: String)
    ensures
        r@ == (if valid_utf8(b@) {
            decode_utf8(b@)
        } else {
            utf8_lossy(b@)
        }),
{
    String::from_utf8_lossy(b).into_owned()
}

fn push_all(out: &mut Vec<u8>, b: &[u8])
    ensures
        final(out)@ == old(out)@ + b@,
{
    let mut i: usize = 0;
    while i < b.len()
        invariant
            i <= b@.len(),
            out@ == old(out)@ + b@.subrange(0, i as int),
        decreases b@.len() - i,
    {
        out.push(b[i]);
        i = i + 1;
        assert(b@.subrange(0, i as int) == b@.subrange(0, i - 1) + seq![b@[i - 1]]);
    }
    assert(b@.subrange(0, b@.len() as int) == b@);
}

/// The envelope of a message of type `message_type` carrying `payload`.
pub fn encode_message(message_type: u32, payload: &str) -> (r: Vec<u8>)
    requires
        payload.spec_bytes().len() <= u32::MAX,
    ensures
        r@ == frame(message_type, payload.spec_bytes()),
{
    let body = payload.as_bytes();
    let mut bytes: Vec<u8> = Vec::new();
    bytes.push(105u8);
    bytes.push(51u8);
    bytes.push(45u8);
    bytes.push(105u8);
    bytes.push(112u8);
    bytes.push(99u8);
    assert(bytes@ == magic());
    let len = u32_le_bytes(body.len() as u32);
    push_all(&mut bytes, len.as_slice());
    let kind = u32_le_bytes(message_type);
    push_all(&mut bytes, kind.as_slice());
    push_all(&mut bytes, body);
    bytes
}

/// Whether the first six bytes are the magic tag.
fn starts_with_magic(b: &[u8]) -> (r: bool)
    requires
        b@.len() >= 6,
    ensures
        r == (b@.subrange(0, 6) == magic()),
{
    let r = b[0] == 105u8 && b[1] == 51u8 && b[2] == 45u8 && b[3] == 105u8 && b[4] == 112u8
        && b[5] == 99u8;
    if r {
        assert(b@.subrange(0, 6) =~= magic());
    } else {
        assert(b@.subrange(0, 6) != magic()) by {
            if b@.subrange(0, 6) == magic() {
                assert(b@.subrange(0, 6)[0] == b@[0]);
                assert(b@.subrange(0, 6)[1] == b@[1]);
                assert(b@.subrange(0, 6)[2] == b@[2]);
                assert(b@.subrange(0, 6)[3] == b@[3]);
                assert(b@.subrange(0, 6)[4] == b@[4]);
                assert(b@.subrange(0, 6)[5] == b@[5]);
            }
        }
    }
    r
}

/// Reads a header: the payload length and the message type, or `None` where
/// the header does not start with the magic tag.
pub fn parse_header(header: &[u8]) -> (r: Option<(u32, u32)>)
    requires
        header@.len() == HEADER_LEN,
    ensures
        r == header_of(header@),
{
    if starts_with_magic(header) {
        let len = u32_from_le(header, 6);
        let kind = u32_from_le(header, 10);
        assert(header@.subrange(0, 14) == header@);
        Some((len, kind))
    } else {
        None
    }
}

/// The payload of a message as text; bytes that are no UTF-8 read as U+FFFD.
pub fn payload_text(b: &[u8]) -> (r: String)
    ensures
        r@ == text_of(b@),
{
    text_of_bytes(b)
}

/// Reads the message that a buffer starts with: its type and its payload.
pub fn decode_message(bytes: &[u8]) -> (r: Result<(u32, String), FrameError>)
    ensures
        match r {
            Ok((kind, payload)) => message_of(bytes@) == Ok::<(u32, Seq<char>), FrameError>((kind, payload@)),
            Err(e) => message_of(bytes@) == Err::<(u32, Seq<char>), FrameError>(e),
        },
{
    if bytes.len() < 6 {
        return Err(FrameError::Truncated);
    }
    if !starts_with_magic(bytes) {
        return Err(FrameError::BadMagic);
    }
    if bytes.len() < HEADER_LEN {
        return Err(FrameError::Truncated);
    }
    let len = u32_from_le(bytes, 6);
    let kind = u32_from_le(bytes, 10);
    assert(bytes@.subrange(0, 14).subrange(0, 6) == bytes@.subrange(0, 6));
    assert(bytes@.subrange(0, 14).subrange(6, 10) == bytes@.subrange(6, 10));
    assert(bytes@.subrange(0, 14).subrange(10, 14) == bytes@.subrange(10, 14));
    if bytes.len() - HEADER_LEN < len as usize {
        return Err(FrameError::Truncated);
    }
    let end = HEADER_LEN + len as usize;
    let mut body: Vec<u8> = Vec::new();
    let mut i: usize = HEADER_LEN;
    while i < end
        invariant
            HEADER_LEN <= i <= end <= bytes@.len(),
            body@ == bytes@.subrange(14, i as int),
        decreases end - i,
    {
        body.push(bytes[i]);
        i = i + 1;
        assert(bytes@.subrange(14, i as int) == bytes@.subrange(14, i - 1) + seq![bytes@[i - 1]]);
    }
    let text = text_of_bytes(body.as_slice());
    Ok((kind, text))
}

/// Four bytes least significant first give back the number they were made of.
pub proof fn lemma_le_round_trip(n: u32)
    ensures
        le_value(le_bytes(n)) == n,
{
    let b = le_bytes(n);
    assert(((n % 256) as u8) as u32 + 256 * ((n / 256 % 256) as u8) as u32 + 65536 * ((n / 65536
        % 256) as u8) as u32 + 16777216 * ((n / 16777216) as u8) as u32 == n) by (bit_vector);
}

/// Decoding the envelope of a message gives back its type and its text, for
/// every text whose encoding fits the length field.
pub proof fn lemma_frame_round_trip(kind: u32, s: Seq<char>)
    requires
        encode_utf8(s).len() <= u32::MAX,
    ensures
        message_of(frame(kind, encode_utf8(s))) == Ok::<(u32, Seq<char>), FrameError>((kind, s)),
{
    let p = encode_utf8(s);
    let f = frame(kind, p);
    lemma_le_round_trip(p.len() as u32);
    lemma_le_round_trip(kind);
    assert(f.subrange(0, 6) =~= magic());
    assert(f.subrange(0, 14).subrange(0, 6) =~= magic());
    assert(f.subrange(0, 14).subrange(6, 10) =~= le_bytes(p.len() as u32));
    assert(f.subrange(0, 14).subrange(10, 14) =~= le_bytes(kind));
    assert(f.subrange(14, 14 + p.len() as int) =~= p);
}

/// A buffer whose first six bytes are not the magic tag holds no message.
pub proof fn lemma_bad_magic_rejected(b: Seq<u8>)
    requires
        b.len() >= 6,
        b.subrange(0, 6) != magic(),
    ensures
        message_of(b) == Err::<(u32, Seq<char>), FrameError>(FrameError::BadMagic),
{
}

} // verus!
