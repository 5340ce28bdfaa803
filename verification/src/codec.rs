//! The frame codec: finding the start of a frame in a byte stream, checking
//! the declared length and decoding the payload.
//!
//! On the wire a frame is the marker `0x42 0x4d`, a big-endian 16-bit length
//! that must be 28, and 14 big-endian 16-bit fields. Nothing follows a frame:
//! the next marker starts right after the payload.

use crate::frame::{be16, wire_fields, Frame};
use bincode::Options;
use vstd::prelude::*;
use vstd::slice::slice_subrange;

verus! {

/// First byte of the marker that starts a frame: `B`.
pub const SYNC_FIRST: u8 = 0x42;

/// Second byte of the marker that starts a frame: `M`.
pub const SYNC_SECOND: u8 = 0x4d;

/// The only length that a frame may declare: that of its payload.
pub const FRAME_LENGTH: u16 = 28;

/// Why no frame came out of some bytes.
#[derive(Clone, Copy, Debug, PartialEq, Eq, Structural)]
pub enum DecodeError {
    /// The bytes ended before the frame did.
    ShortRead,
    /// The length that follows the marker is not that of a frame.
    BadLength,
    /// The payload is not the 28 bytes of a frame.
    Malformed,
}

/// bincode's error, taken from it and not looked into.
#[verifier::external_type_specification]
#[verifier::external_body]
pub struct ExErrorKind(bincode::ErrorKind);

/// The marker stands in `s` at offset `k`.
pub open spec fn marker_at(s: Seq<u8>, k: int) -> bool {
    0 <= k && k + 1 < s.len() && s[k] == SYNC_FIRST && s[k + 1] == SYNC_SECOND
}

/// No marker stands in `s` at an offset below `k`.
pub open spec fn no_marker_before(s: Seq<u8>, k: int) -> bool {
    forall|j: int| 0 <= j < k ==> !marker_at(s, j)
}

/// The offset at which the marker first stands in `s`.
pub open spec fn first_marker(s: Seq<u8>) -> Option<int> {
    if exists|k: int| marker_at(s, k) && no_marker_before(s, k) {
        Some(choose|k: int| marker_at(s, k) && no_marker_before(s, k))
    } else {
        None
    }
}

/// The number of bytes of `s` that a scan for the marker consumes: all of
/// them up to the last byte of the first marker.
pub open spec fn sync_end(s: Seq<u8>) -> Option<int> {
    match first_marker(s) {
        Some(k) => Some(k + 2),
        None => None,
    }
}

/// How much of the marker is matched after `byte`, when `matched` bytes of it
/// were matched before. A byte that does not go on with the match is looked at
/// again as the start of a new one.
pub open spec fn sync_step_spec(matched: int, byte: u8) -> int {
    if matched == 1 && byte == SYNC_SECOND {
        2
    } else if byte == SYNC_FIRST {
        1
    } else {
        0
    }
}

/// The length that `s` declares in its first two bytes.
pub open spec fn read_length_spec(s: Seq<u8>) -> Result<u16, DecodeError> {
    if s.len() >= 2 {
        Ok(be16(s[0], s[1]))
    } else {
        Err(DecodeError::ShortRead)
    }
}

/// Whether a declared length is that of a frame.
pub open spec fn validate_length_spec(len: u16) -> Result<(), DecodeError> {
    if len == FRAME_LENGTH {
        Ok(())
    } else {
        Err(DecodeError::BadLength)
    }
}

/// The frame that the payload `s` holds.
pub open spec fn decode_payload_spec(s: Seq<u8>) -> Result<Frame, DecodeError> {
    if s.len() == 28 {
        Ok(Frame::from_fields(wire_fields(s)))
    } else {
        Err(DecodeError::Malformed)
    }
}

/// What reading one frame from the bytes `s` gives, and how many bytes of `s`
/// it consumes.
///
/// The scan consumes through the first marker. A wrong length is consumed with
/// its marker and nothing more, so that the next read scans on from the byte
/// after the length field. Bytes that end before the frame does are consumed
/// whole.
pub open spec fn get_frame_spec(s: Seq<u8>) -> (Result<Frame, DecodeError>, int) {
    match sync_end(s) {
        None => (Err(DecodeError::ShortRead), s.len() as int),
        Some(e) => {
            if s.len() < e + 2 {
                (Err(DecodeError::ShortRead), s.len() as int)
            } else if be16(s[e], s[e + 1]) != FRAME_LENGTH {
                (Err(DecodeError::BadLength), e + 2)
            } else if s.len() < e + 30 {
                (Err(DecodeError::ShortRead), s.len() as int)
            } else {
                (Ok(Frame::from_fields(wire_fields(s.subrange(e + 2, e + 30)))), e + 30)
            }
        },
    }
}

/// Where a marker stands in `s`, a first one stands at or before it.
pub proof fn lemma_marker_is_found(s: Seq<u8>, k: int)
    requires
        marker_at(s, k),
    ensures
        first_marker(s) matches Some(f) && f <= k && marker_at(s, f) && no_marker_before(s, f),
    decreases k,
{
    if no_marker_before(s, k) {
        let f = choose|f: int| marker_at(s, f) && no_marker_before(s, f);
        if f > k {
            assert(!marker_at(s, k));
        }
    } else {
        let j = choose|j: int| 0 <= j < k && marker_at(s, j);
        lemma_marker_is_found(s, j);
    }
}

/// What `first_marker` is: the marker stands there and nowhere before; where
/// there is none, the marker stands nowhere in `s`.
pub proof fn lemma_first_marker(s: Seq<u8>)
    ensures
        match first_marker(s) {
            Some(f) => marker_at(s, f) && no_marker_before(s, f),
            None => forall|k: int| !marker_at(s, k),
        },
{
    if first_marker(s) is None {
        assert forall|k: int| !marker_at(s, k) by {
            if marker_at(s, k) {
                lemma_marker_is_found(s, k);
            }
        }
    }
}

/// A scan is safe against false starts: where the marker first stands at
/// offset `k`, whatever partial matches come before it, the scan consumes
/// through offset `k + 1` and no more.
pub proof fn lemma_sync_stops_after_first_marker(s: Seq<u8>, k: int)
    requires
        marker_at(s, k),
        no_marker_before(s, k),
    ensures
        first_marker(s) == Some(k),
        sync_end(s) == Some(k + 2),
{
    let f = choose|f: int| marker_at(s, f) && no_marker_before(s, f);
    if f < k {
        assert(!marker_at(s, f));
    }
    if k < f {
        assert(!marker_at(s, k));
    }
}

/// Every length but 28 is refused, and 28 is accepted.
pub proof fn lemma_only_frame_length_is_valid(len: u16)
    ensures
        validate_length_spec(len) is Ok <==> len == 28,
        len != 28 ==> validate_length_spec(len) == Err::<(), DecodeError>(DecodeError::BadLength),
{
}

/// Encoding a frame and decoding the 28 bytes gives the frame back, whatever
/// its fields hold.
pub proof fn lemma_decode_inverts_encode(frame: Frame)
    ensures
        decode_payload_spec(frame.wire()) == Ok::<Frame, DecodeError>(frame),
{
    crate::frame::lemma_wire_round_trip(frame);
}

/// A marker, the length 28 and a frame's bytes read as that frame, with all
/// 32 bytes consumed, whatever follows them.
pub proof fn lemma_get_frame_of_encoded(frame: Frame, tail: Seq<u8>)
    ensures
        get_frame_spec(seq![SYNC_FIRST, SYNC_SECOND, 0u8, 28u8] + frame.wire() + tail) == (
            Ok::<Frame, DecodeError>(frame),
            32int,
        ),
{
    crate::frame::lemma_wire_round_trip(frame);
    let head = seq![SYNC_FIRST, SYNC_SECOND, 0u8, 28u8];
    let w = frame.wire();
    let s = head + w + tail;
    assert(head.len() == 4 && w.len() == 28);
    assert forall|j: int| 0 <= j < 4 implies s[j] == head[j] by {}
    assert forall|j: int| 0 <= j < 28 implies s[4 + j] == w[j] by {}
    assert(marker_at(s, 0));
    lemma_sync_stops_after_first_marker(s, 0);
    assert(s.subrange(4, 32) =~= w);
    assert(be16(s[2], s[3]) == 28);
}

/// A marker followed by a length other than 28 reads as a wrong length, with
/// the marker and the length consumed and nothing of what follows them.
pub proof fn lemma_get_frame_of_wrong_length(hi: u8, lo: u8, tail: Seq<u8>)
    requires
        be16(hi, lo) != 28,
    ensures
        get_frame_spec(seq![SYNC_FIRST, SYNC_SECOND, hi, lo] + tail) == (
            Err::<Frame, DecodeError>(DecodeError::BadLength),
            4int,
        ),
{
    let head = seq![SYNC_FIRST, SYNC_SECOND, hi, lo];
    let s = head + tail;
    assert(head.len() == 4);
    assert forall|j: int| 0 <= j < 4 implies s[j] == head[j] by {}
    assert(marker_at(s, 0));
    lemma_sync_stops_after_first_marker(s, 0);
}

/// A first byte at which no marker stands is passed over: reading from the
/// byte after it gives the same, with one byte more consumed.
pub proof fn lemma_get_frame_skips_a_byte(s: Seq<u8>)
    requires
        s.len() >= 1,
        !marker_at(s, 0),
    ensures
        get_frame_spec(s).0 == get_frame_spec(s.skip(1)).0,
        get_frame_spec(s).1 == get_frame_spec(s.skip(1)).1 + 1,
{
    let t = s.skip(1);
    assert forall|k: int| marker_at(s, k) <==> k >= 1 && marker_at(t, k - 1) by {
        if k >= 1 && k + 1 < s.len() {
            assert(t[k - 1] == s[k]);
            assert(t[k] == s[k + 1]);
        }
    }
    lemma_first_marker(t);
    lemma_first_marker(s);
    match first_marker(t) {
        Some(f) => {
            assert(marker_at(s, f + 1));
            assert(no_marker_before(s, f + 1)) by {
                assert forall|j: int| 0 <= j < f + 1 implies !marker_at(s, j) by {
                    if j >= 1 {
                        assert(!marker_at(t, j - 1));
                    }
                }
            }
            lemma_sync_stops_after_first_marker(s, f + 1);
            let e = f + 2;
            if t.len() >= e + 2 {
                assert(t[e] == s[e + 1]);
                assert(t[e + 1] == s[e + 2]);
                if t.len() >= e + 30 {
                    assert(t.subrange(e + 2, e + 30) =~= s.subrange(e + 3, e + 31));
                }
            }
        },
        None => {
            if first_marker(s) is Some {
                let g = first_marker(s).unwrap();
                assert(marker_at(t, g - 1));
            }
        },
    }
}

/// One step of the scan for the marker: how much of it is matched after
/// `byte`. The marker is complete when the result is 2.
pub fn sync_step(matched: usize, byte: u8) -> (next: usize)
    ensures
        next == sync_step_spec(matched as int, byte),
        next <= 2,
{
    if matched == 1 && byte == SYNC_SECOND {
        2
    } else if byte == SYNC_FIRST {
        1
    } else {
        0
    }
}

/// Scans `bytes` for the marker and returns how many bytes the scan consumes:
/// all up to the last byte of the first marker. `None` when `bytes` hold no
/// marker.
pub fn find_sync(bytes: &[u8]) -> (end: Option<usize>)
    ensures
        match end {
            Some(n) => sync_end(bytes@) == Some(n as int),
            None => sync_end(bytes@) is None,
        },
        end matches Some(n) ==> 2 <= n <= bytes@.len() && marker_at(bytes@, n - 2)
            && no_marker_before(bytes@, n - 2),
        end is None ==> forall|k: int| !marker_at(bytes@, k),
{
    let mut matched: usize = 0;
    let mut i: usize = 0;
    while i < bytes.len()
        invariant
            i <= bytes@.len(),
            matched == 0 || matched == 1,
            matched == 1 <==> (i > 0 && bytes@[i - 1] == SYNC_FIRST),
            no_marker_before(bytes@, i - 1),
        decreases bytes@.len() - i,
    {
        matched = sync_step(matched, bytes[i]);
        i = i + 1;
        if matched == 2 {
            proof {
                lemma_sync_stops_after_first_marker(bytes@, i - 2);
            }
            return Some(i);
        }
    }
    proof {
        assert forall|k: int| !marker_at(bytes@, k) by {}
        lemma_first_marker(bytes@);
    }
    None
}

/// Reads the big-endian length that stands in the first two bytes.
pub fn read_length(bytes: &[u8]) -> (len: Result<u16, DecodeError>)
    ensures
        len == read_length_spec(bytes@),
{
    if bytes.len() < 2 {
        return Err(DecodeError::ShortRead);
    }
    let hi: u16 = bytes[0] as u16;
    let lo: u16 = bytes[1] as u16;
    Ok(hi * 256 + lo)
}

/// Accepts the length of a frame and no other.
pub fn validate_length(len: u16) -> (r: Result<(), DecodeError>)
    ensures
        r == validate_length_spec(len),
        r is Ok <==> len == 28,
        r is Err ==> r == Err::<(), DecodeError>(DecodeError::BadLength),
{
    if len == FRAME_LENGTH {
        Ok(())
    } else {
        Err(DecodeError::BadLength)
    }
}

/// Hands `bytes` to bincode, set to big-endian order and fixed-width
/// integers (`DefaultOptions::new`, `Options::with_big_endian`,
/// `Options::with_fixint_encoding`, `Options::deserialize`), to be read as 14
/// values of 16 bits.
///
/// Not proved here: that bincode then reads each value from two bytes, first
/// byte high, one value after the other with nothing between them; that it
/// fails where the bytes end early; and that these options refuse bytes left
/// over, so that it succeeds on 28 bytes and on no other number.
#[verifier::external_body]
fn deserialize_fields(bytes: &[u8]) -> (r: Result<[u16; 14], Box<bincode::ErrorKind>>)
    ensures
        r is Ok <==> bytes@.len() == 28,
        r matches Ok(f) ==> f@ == wire_fields(bytes@),
{
    bincode::DefaultOptions::new().with_big_endian().with_fixint_encoding().deserialize(bytes)
}

/// Decodes the payload of a frame: exactly 28 bytes, 14 fields in wire order.
pub fn decode_payload(bytes: &[u8]) -> (r: Result<Frame, DecodeError>)
    ensures
        r == decode_payload_spec(bytes@),
{
    match deserialize_fields(bytes) {
        Ok(fields) => Ok(Frame::from_array(fields)),
        Err(_) => Err(DecodeError::Malformed),
    }
}

/// Reads one frame from `bytes`: scans for the marker, reads and checks the
/// length, and decodes the payload. Returns what came of it and how many of
/// the bytes were consumed; the next read starts after them.
pub fn get_frame(bytes: &[u8]) -> (r: (Result<Frame, DecodeError>, usize))
    ensures
        r.0 == get_frame_spec(bytes@).0,
        r.1 == get_frame_spec(bytes@).1,
        r.1 <= bytes@.len(),
{
    let n: usize = bytes.len();
    let end: usize = match find_sync(bytes) {
        Some(end) => end,
        None => {
            return (Err(DecodeError::ShortRead), n);
        },
    };
    let declared: u16 = match read_length(slice_subrange(bytes, end, n)) {
        Ok(declared) => declared,
        Err(e) => {
            return (Err(e), n);
        },
    };
    match validate_length(declared) {
        Ok(()) => {},
        Err(e) => {
            return (Err(e), end + 2);
        },
    }
    if n - (end + 2) < 28 {
        return (Err(DecodeError::ShortRead), n);
    }
    match decode_payload(slice_subrange(bytes, end + 2, end + 30)) {
        Ok(frame) => (Ok(frame), end + 30),
        Err(e) => (Err(e), end + 30),
    }
}

} // verus!
