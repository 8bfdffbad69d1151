//! The recorder's binary push messages: two length-prefixed UTF-8 JSON
//! documents (an Action frame, then a Data frame) back to back.
use vstd::prelude::*;
use vstd::utf8::{decode_utf8, encode_utf8, valid_utf8};

verus! {

/// Bytes in front of each frame's payload: six opaque header bytes and a
/// two-byte big-endian payload length.
pub const HEADER_LEN: usize = 8;

/// A message shorter than this can not hold two frame headers.
pub const MIN_MESSAGE_LEN: usize = 16;

/// Largest payload that the two length bytes can announce.
pub const MAX_PAYLOAD_LEN: usize = 65535;

/// The two JSON documents of one push message, as text.
pub struct ProtectWebSocketRawFrames {
    pub action: String,
    pub data: String,
}

/// Why a push message could not be split into its two frames.
#[derive(Debug, Clone, Copy, PartialEq, Eq, Structural)]
pub enum FrameError {
    /// Fewer than sixteen bytes in the whole message.
    TooShort,
    /// The Action frame's declared length runs past the second header.
    ActionOverrun,
    /// The Action payload is not UTF-8.
    ActionNotUtf8,
    /// The Data frame's declared length runs past the end of the message.
    DataOverrun,
    /// The Data payload is not UTF-8.
    DataNotUtf8,
}

/// Payload length announced by the header that starts at offset `h`:
/// byte 6 is zero for a one-byte length in byte 7, and otherwise bytes 6
/// and 7 form a big-endian `u16` (both readings agree).
pub open spec fn declared_len(b: Seq<u8>, h: int) -> int {
    if b[h + 6] == 0 {
        b[h + 7] as int
    } else {
        b[h + 6] as int * 256 + b[h + 7] as int
    }
}

/// End offset of the Action payload.
pub open spec fn action_end(b: Seq<u8>) -> int {
    HEADER_LEN as int + declared_len(b, 0)
}

/// End offset of the Data payload.
pub open spec fn data_end(b: Seq<u8>) -> int {
    action_end(b) + HEADER_LEN as int + declared_len(b, action_end(b))
}

pub open spec fn action_bytes(b: Seq<u8>) -> Seq<u8> {
    b.subrange(HEADER_LEN as int, action_end(b))
}

pub open spec fn data_bytes(b: Seq<u8>) -> Seq<u8> {
    b.subrange(action_end(b) + HEADER_LEN as int, data_end(b))
}

/// The outcome of splitting message `b`: the first failing check, in the
/// order length, Action bounds, Action text, Data bounds, Data text;
/// otherwise the decoded characters of the two payloads.
pub open spec fn split_spec(b: Seq<u8>) -> Result<(Seq<char>, Seq<char>), FrameError> {
    if b.len() < MIN_MESSAGE_LEN {
        Err(FrameError::TooShort)
    } else if action_end(b) + HEADER_LEN as int > b.len() {
        Err(FrameError::ActionOverrun)
    } else if !valid_utf8(action_bytes(b)) {
        Err(FrameError::ActionNotUtf8)
    } else if data_end(b) > b.len() {
        Err(FrameError::DataOverrun)
    } else if !valid_utf8(data_bytes(b)) {
        Err(FrameError::DataNotUtf8)
    } else {
        Ok((decode_utf8(action_bytes(b)), decode_utf8(data_bytes(b))))
    }
}

/// Header bytes written in front of a payload of `n` bytes; `kind` is 1 for
/// the Action frame and 2 for the Data frame.
pub open spec fn header_spec(kind: u8, n: int) -> Seq<u8> {
    seq![kind, 1u8, 0u8, 0u8, 0u8, 0u8, (n / 256) as u8, (n % 256) as u8]
}

/// The message that carries `action` and `data` as its two frames.
pub open spec fn frame_spec(action: Seq<char>, data: Seq<char>) -> Seq<u8> {
    header_spec(1, encode_utf8(action).len() as int) + encode_utf8(action)
        + header_spec(2, encode_utf8(data).len() as int) + encode_utf8(data)
}

/// Relies on std::str::from_utf8: it succeeds exactly on well-formed UTF-8
/// and then yields the characters those bytes encode.
#[verifier::external_body]
fn utf8_text(bytes: &[u8]) -> (r: Option<String>)
    ensures
        r is Some <==> valid_utf8(bytes@),
        r matches Some(s) ==> s@ == decode_utf8(bytes@),
{
    std::str::from_utf8(bytes).ok().map(|s| s.to_string())
}

fn read_len(b: &[u8], n: usize, h: usize) -> (r: usize)
    requires
        n == b@.len(),
        h + HEADER_LEN <= n,
    ensures
        r as int == declared_len(b@, h as int),
        r <= MAX_PAYLOAD_LEN,
{
    if b[h + 6] == 0 {
        b[h + 7] as usize
    } else {
        b[h + 6] as usize * 256 + b[h + 7] as usize
    }
}

impl ProtectWebSocketRawFrames {
    /// Splits a binary push message into its Action and Data documents.
    /// A malformed message is reported, never a panic.
    pub fn from_bytes(data: &[u8]) -> (r: Result<ProtectWebSocketRawFrames, FrameError>)
        ensures
            match (r, split_spec(data@)) {
                (Ok(f), Ok((a, d))) => f.action@ == a && f.data@ == d,
                (Err(e), Err(e2)) => e == e2,
                _ => false,
            },
    {
        let n = data.len();
        if n < MIN_MESSAGE_LEN {
            return Err(FrameError::TooShort);
        }
        let action_length = read_len(data, n, 0);
        let action_end = HEADER_LEN + action_length;
        if action_end + HEADER_LEN > n {
            return Err(FrameError::ActionOverrun);
        }
        let action = match utf8_text(&data[HEADER_LEN..action_end]) {
            Some(s) => s,
            None => {
                return Err(FrameError::ActionNotUtf8);
            },
        };
        let data_length = read_len(data, n, action_end);
        let data_start = action_end + HEADER_LEN;
        let data_end = data_start + data_length;
        if data_end > n {
            return Err(FrameError::DataOverrun);
        }
        let text = match utf8_text(&data[data_start..data_end]) {
            Some(s) => s,
            None => {
                return Err(FrameError::DataNotUtf8);
            },
        };
        Ok(ProtectWebSocketRawFrames { action, data: text })
    }
}

fn push_header(out: &mut Vec<u8>, kind: u8, n: usize)
    requires
        n <= MAX_PAYLOAD_LEN,
    ensures
        final(out)@ == old(out)@ + header_spec(kind, n as int),
{
    out.push(kind);
    out.push(1u8);
    out.push(0u8);
    out.push(0u8);
    out.push(0u8);
    out.push(0u8);
    out.push((n / 256) as u8);
    out.push((n % 256) as u8);
    assert(final(out)@ =~= old(out)@ + header_spec(kind, n as int));
}

fn push_bytes(out: &mut Vec<u8>, b: &[u8])
    ensures
        final(out)@ == old(out)@ + b@,
{
    let mut i: usize = 0;
    while i < b.len()
        invariant
            i <= b@.len(),
            out@ == old(out)@ + b@.subrange(0, i as int),
        decreases b@.len() - i,
    {
        out.push(b[i]);
        i = i + 1;
        assert(out@ =~= old(out)@ + b@.subrange(0, i as int));
    }
    assert(b@.subrange(0, i as int) =~= b@);
}

/// Writes `action` and `data` as one push message in the recorder's layout.
/// Each document must fit the two-byte length field.
pub fn frame_messages(action: &str, data: &str) -> (r: Vec<u8>)
    requires
        encode_utf8(action@).len() <= MAX_PAYLOAD_LEN,
        encode_utf8(data@).len() <= MAX_PAYLOAD_LEN,
    ensures
        r@ == frame_spec(action@, data@),
{
    let a = action.as_bytes();
    let d = data.as_bytes();
    let mut out: Vec<u8> = Vec::new();
    push_header(&mut out, 1u8, a.len());
    push_bytes(&mut out, a);
    push_header(&mut out, 2u8, d.len());
    push_bytes(&mut out, d);
    out
}

/// Framing two documents and splitting the message again gives back the
/// same two documents, character for character and so byte for byte.
pub proof fn lemma_frame_round_trip(action: Seq<char>, data: Seq<char>)
    requires
        encode_utf8(action).len() <= MAX_PAYLOAD_LEN,
        encode_utf8(data).len() <= MAX_PAYLOAD_LEN,
    ensures
        split_spec(frame_spec(action, data)) == Ok::<(Seq<char>, Seq<char>), FrameError>((action, data)),
        encode_utf8(action) == action_bytes(frame_spec(action, data)),
        encode_utf8(data) == data_bytes(frame_spec(action, data)),
{
    let ea = encode_utf8(action);
    let ed = encode_utf8(data);
    let b = frame_spec(action, data);
    let la = ea.len() as int;
    let ld = ed.len() as int;
    assert(declared_len(b, 0) == la) by {
        assert(b[6] == (la / 256) as u8);
        assert(b[7] == (la % 256) as u8);
    }
    assert(declared_len(b, 8 + la) == ld) by {
        assert(b[8 + la + 6] == (ld / 256) as u8);
        assert(b[8 + la + 7] == (ld % 256) as u8);
    }
    assert(action_bytes(b) =~= ea);
    assert(data_bytes(b) =~= ed);
    vstd::utf8::encode_utf8_valid_utf8(action);
    vstd::utf8::encode_utf8_valid_utf8(data);
    vstd::utf8::encode_utf8_decode_utf8(action);
    vstd::utf8::encode_utf8_decode_utf8(data);
}

} // verus!
