//! The codec as a machine that is fed what was read.
//!
//! A caller that owns the byte source asks the decoder how many bytes it wants
//! next, reads them, and hands them over. The decoder holds no bytes: one byte
//! at a time while it scans for the marker, then the two bytes of the length,
//! then the 28 bytes of the payload.

use crate::codec::{
    decode_payload, decode_payload_spec, get_frame_spec, lemma_get_frame_skips_a_byte,
    lemma_sync_stops_after_first_marker, marker_at, read_length, sync_step, sync_step_spec,
    validate_length, DecodeError, FRAME_LENGTH, SYNC_FIRST, SYNC_SECOND,
};
use crate::frame::{be16, Frame};
use vstd::prelude::*;

verus! {

/// Where the decoder stands within a frame.
#[derive(Clone, Copy, Debug, PartialEq, Eq, Structural)]
pub enum Decoder {
    /// Scanning for the marker, with `matched` bytes of it seen.
    Sync { matched: usize },
    /// The marker is complete: the length comes next.
    Length,
    /// The length was that of a frame: the payload comes next.
    Payload,
}

/// What the decoder made of a chunk.
#[derive(Clone, Copy, Debug, PartialEq, Eq, Structural)]
pub enum Progress {
    /// No frame yet: read what the decoder wants next.
    More,
    /// A frame is complete.
    Complete(Frame),
    /// The frame was given up. The decoder scans for a marker again.
    Failed(DecodeError),
}

impl Decoder {
    /// The number of bytes that the decoder wants next.
    pub open spec fn wanted_spec(self) -> int {
        match self {
            Decoder::Sync { .. } => 1,
            Decoder::Length => 2,
            Decoder::Payload => 28,
        }
    }

    /// Whether the read is to be put off while the source has only `ready`
    /// bytes buffered. A scan reads at once, byte by byte, and lets the read
    /// itself wait; the length and the payload are read when they are there
    /// in full.
    pub open spec fn must_wait_spec(self, ready: u32) -> bool {
        match self {
            Decoder::Sync { .. } => false,
            _ => ready < self.wanted_spec(),
        }
    }

    /// The decoder after `chunk`, and what it made of it.
    ///
    /// A chunk of another size than the decoder wanted fails the frame: as a
    /// short read before the payload, as a malformed payload after.
    pub open spec fn feed_spec(self, chunk: Seq<u8>) -> (Decoder, Progress) {
        let restart = Decoder::Sync { matched: 0 };
        match self {
            Decoder::Sync { matched } => {
                if chunk.len() != 1 {
                    (restart, Progress::Failed(DecodeError::ShortRead))
                } else if sync_step_spec(matched as int, chunk[0]) == 2 {
                    (Decoder::Length, Progress::More)
                } else {
                    (
                        Decoder::Sync { matched: sync_step_spec(matched as int, chunk[0]) as usize },
                        Progress::More,
                    )
                }
            },
            Decoder::Length => {
                if chunk.len() != 2 {
                    (restart, Progress::Failed(DecodeError::ShortRead))
                } else if be16(chunk[0], chunk[1]) != FRAME_LENGTH {
                    (restart, Progress::Failed(DecodeError::BadLength))
                } else {
                    (Decoder::Payload, Progress::More)
                }
            },
            Decoder::Payload => match decode_payload_spec(chunk) {
                Ok(frame) => (restart, Progress::Complete(frame)),
                Err(e) => (restart, Progress::Failed(e)),
            },
        }
    }

    /// A decoder at the start of a scan.
    pub fn new() -> (decoder: Decoder)
        ensures
            decoder == (Decoder::Sync { matched: 0 }),
    {
        Decoder::Sync { matched: 0 }
    }

    /// The number of bytes to read and feed next: 1, 2 or 28.
    pub fn wanted(&self) -> (n: usize)
        ensures
            n == self.wanted_spec(),
    {
        match self {
            Decoder::Sync { .. } => 1,
            Decoder::Length => 2,
            Decoder::Payload => 28,
        }
    }

    /// Whether to wait and look again before reading, when the source has
    /// `ready` bytes buffered.
    pub fn must_wait(&self, ready: u32) -> (wait: bool)
        ensures
            wait == self.must_wait_spec(ready),
    {
        match self {
            Decoder::Sync { .. } => false,
            Decoder::Length => ready < 2,
            Decoder::Payload => ready < 28,
        }
    }

    /// Takes the bytes that were read and moves on.
    pub fn feed(&mut self, chunk: &[u8]) -> (progress: Progress)
        ensures
            *final(self) == old(self).feed_spec(chunk@).0,
            progress == old(self).feed_spec(chunk@).1,
    {
        let stage: Decoder = *self;
        *self = Decoder::Sync { matched: 0 };
        match stage {
            Decoder::Sync { matched } => {
                if chunk.len() != 1 {
                    return Progress::Failed(DecodeError::ShortRead);
                }
                let next: usize = sync_step(matched, chunk[0]);
                if next == 2 {
                    *self = Decoder::Length;
                } else {
                    *self = Decoder::Sync { matched: next };
                }
                Progress::More
            },
            Decoder::Length => {
                if chunk.len() != 2 {
                    return Progress::Failed(DecodeError::ShortRead);
                }
                let declared: u16 = match read_length(chunk) {
                    Ok(declared) => declared,
                    Err(e) => {
                        return Progress::Failed(e);
                    },
                };
                match validate_length(declared) {
                    Ok(()) => {
                        *self = Decoder::Payload;
                        Progress::More
                    },
                    Err(e) => Progress::Failed(e),
                }
            },
            Decoder::Payload => match decode_payload(chunk) {
                Ok(frame) => Progress::Complete(frame),
                Err(e) => Progress::Failed(e),
            },
        }
    }
}

/// What comes of feeding the bytes `s` to `decoder` in the chunks that it
/// asks for, up to the first frame or failure, and how many bytes are fed.
/// Bytes that end before a chunk is full are a short read, and count as fed.
pub open spec fn run_spec(decoder: Decoder, s: Seq<u8>) -> (Result<Frame, DecodeError>, int)
    decreases s.len(),
{
    let want = decoder.wanted_spec();
    if s.len() < want {
        (Err(DecodeError::ShortRead), s.len() as int)
    } else {
        match decoder.feed_spec(s.subrange(0, want)).1 {
            Progress::More => {
                let rest = run_spec(decoder.feed_spec(s.subrange(0, want)).0, s.skip(want));
                (rest.0, rest.1 + want)
            },
            Progress::Complete(frame) => (Ok(frame), want),
            Progress::Failed(e) => (Err(e), want),
        }
    }
}

/// A decoder that has the marker reads the length and the payload as
/// `get_frame` does after the marker.
proof fn lemma_run_after_marker(s: Seq<u8>)
    ensures
        run_spec(Decoder::Length, s).0 == get_frame_spec(seq![SYNC_FIRST, SYNC_SECOND] + s).0,
        run_spec(Decoder::Length, s).1 + 2 == get_frame_spec(seq![SYNC_FIRST, SYNC_SECOND] + s).1,
{
    let head = seq![SYNC_FIRST, SYNC_SECOND];
    let whole = head + s;
    assert(head.len() == 2);
    assert(whole[0] == SYNC_FIRST && whole[1] == SYNC_SECOND);
    assert(marker_at(whole, 0));
    lemma_sync_stops_after_first_marker(whole, 0);
    if s.len() >= 2 {
        let chunk = s.subrange(0, 2);
        assert(chunk[0] == whole[2] && chunk[1] == whole[3]);
        if be16(chunk[0], chunk[1]) == FRAME_LENGTH {
            let rest = s.skip(2);
            assert(run_spec(Decoder::Length, s).0 == run_spec(Decoder::Payload, rest).0);
            assert(run_spec(Decoder::Length, s).1 == run_spec(Decoder::Payload, rest).1 + 2);
            if rest.len() >= 28 {
                assert(rest.subrange(0, 28) =~= whole.subrange(4, 32));
            }
        }
    }
}

/// The law below, for a decoder in the middle of a scan: one that has seen
/// the first byte of the marker reads on as if that byte stood before `s`.
proof fn lemma_run_from_scan(matched: usize, s: Seq<u8>)
    requires
        matched == 0 || matched == 1,
    ensures
        matched == 0 ==> run_spec(Decoder::Sync { matched }, s) == get_frame_spec(s),
        matched == 1 ==> run_spec(Decoder::Sync { matched }, s).0 == get_frame_spec(
            seq![SYNC_FIRST] + s,
        ).0 && run_spec(Decoder::Sync { matched }, s).1 + 1 == get_frame_spec(
            seq![SYNC_FIRST] + s,
        ).1,
    decreases s.len(),
{
    let decoder = Decoder::Sync { matched };
    let seen = seq![SYNC_FIRST] + s;
    assert(seen.len() == s.len() + 1 && seen[0] == SYNC_FIRST);
    assert(seen.skip(1) =~= s);
    if s.len() == 0 {
        assert(forall|k: int| !marker_at(s, k));
        assert(forall|k: int| !marker_at(seen, k));
        crate::codec::lemma_first_marker(s);
        crate::codec::lemma_first_marker(seen);
    } else {
        let byte = s[0];
        let rest = s.skip(1);
        assert(s.subrange(0, 1)[0] == byte);
        assert(seen[1] == byte);
        let next = sync_step_spec(matched as int, byte);
        if next == 2 {
            // The marker is complete: `seen` starts with it.
            assert(seen =~= seq![SYNC_FIRST, SYNC_SECOND] + rest);
            lemma_run_after_marker(rest);
        } else {
            lemma_run_from_scan(next as usize, rest);
            if matched == 1 {
                // No marker at the byte seen before.
                lemma_get_frame_skips_a_byte(seen);
            }
            if next == 0 {
                // No marker at this byte.
                lemma_get_frame_skips_a_byte(s);
            } else {
                assert(seq![SYNC_FIRST] + rest =~= s);
            }
        }
    }
}

/// Fed chunk by chunk from the start of a scan, the decoder reads what
/// `get_frame` reads from the same bytes, and takes as many of them.
pub proof fn lemma_decoder_reads_as_get_frame(s: Seq<u8>)
    ensures
        run_spec(Decoder::Sync { matched: 0 }, s) == get_frame_spec(s),
{
    lemma_run_from_scan(0, s);
}

} // verus!
