use pms5003::codec::{get_frame, DecodeError};
use pms5003::decoder::{Decoder, Progress};
use pms5003::frame::Frame;

fn encoded(frame: &Frame) -> Vec<u8> {
    let mut bytes: Vec<u8> = vec![0x42, 0x4d, 0x00, 0x1c];
    bytes.extend_from_slice(&frame.to_bytes());
    bytes
}

/// Feeds `bytes` in the chunks that the decoder asks for, as a reader of a
/// port would, and returns what the first frame came to and how many bytes
/// were fed.
fn run(decoder: &mut Decoder, bytes: &[u8]) -> (Result<Frame, DecodeError>, usize) {
    let mut at: usize = 0;
    loop {
        let want: usize = decoder.wanted();
        if bytes.len() - at < want {
            return (Err(DecodeError::ShortRead), bytes.len());
        }
        let progress = decoder.feed(&bytes[at..at + want]);
        at += want;
        match progress {
            Progress::More => {}
            Progress::Complete(frame) => return (Ok(frame), at),
            Progress::Failed(e) => return (Err(e), at),
        }
    }
}

#[test]
fn decoder_starts_with_the_scan() {
    let decoder = Decoder::new();
    assert_eq!(decoder, Decoder::Sync { matched: 0 });
    assert_eq!(decoder.wanted(), 1);
}

#[test]
fn decoder_wants_one_two_and_28_bytes() {
    assert_eq!(Decoder::Sync { matched: 0 }.wanted(), 1);
    assert_eq!(Decoder::Sync { matched: 1 }.wanted(), 1);
    assert_eq!(Decoder::Length.wanted(), 2);
    assert_eq!(Decoder::Payload.wanted(), 28);
}

#[test]
fn decoder_walks_through_a_frame() {
    let frame = Frame::from_array([100, 50, 30, 90, 45, 25, 10, 20, 30, 40, 50, 60, 0, 0]);
    let mut decoder = Decoder::new();
    assert_eq!(decoder.feed(&[0x42]), Progress::More);
    assert_eq!(decoder, Decoder::Sync { matched: 1 });
    assert_eq!(decoder.feed(&[0x4d]), Progress::More);
    assert_eq!(decoder, Decoder::Length);
    assert_eq!(decoder.feed(&[0x00, 0x1c]), Progress::More);
    assert_eq!(decoder, Decoder::Payload);
    assert_eq!(decoder.feed(&frame.to_bytes()), Progress::Complete(frame));
    assert_eq!(decoder, Decoder::Sync { matched: 0 });
}

#[test]
fn decoder_survives_a_false_start() {
    let mut decoder = Decoder::new();
    assert_eq!(decoder.feed(&[0x42]), Progress::More);
    assert_eq!(decoder.feed(&[0x42]), Progress::More);
    assert_eq!(decoder, Decoder::Sync { matched: 1 });
    assert_eq!(decoder.feed(&[0x00]), Progress::More);
    assert_eq!(decoder, Decoder::Sync { matched: 0 });
    assert_eq!(decoder.feed(&[0x4d]), Progress::More);
    assert_eq!(decoder, Decoder::Sync { matched: 0 });
    assert_eq!(decoder.feed(&[0x42]), Progress::More);
    assert_eq!(decoder.feed(&[0x4d]), Progress::More);
    assert_eq!(decoder, Decoder::Length);
}

#[test]
fn decoder_gives_up_a_wrong_length() {
    let mut decoder = Decoder::Length;
    assert_eq!(decoder.feed(&[0x00, 0x05]), Progress::Failed(DecodeError::BadLength));
    assert_eq!(decoder, Decoder::Sync { matched: 0 });
    assert_eq!(decoder.wanted(), 1);
}

#[test]
fn decoder_gives_up_a_chunk_of_another_size() {
    let mut scanning = Decoder::Sync { matched: 1 };
    assert_eq!(scanning.feed(&[]), Progress::Failed(DecodeError::ShortRead));
    assert_eq!(scanning, Decoder::Sync { matched: 0 });
    let mut scanning_two = Decoder::Sync { matched: 0 };
    assert_eq!(scanning_two.feed(&[0x42, 0x4d]), Progress::Failed(DecodeError::ShortRead));
    assert_eq!(scanning_two, Decoder::Sync { matched: 0 });
    let mut length = Decoder::Length;
    assert_eq!(length.feed(&[0x00]), Progress::Failed(DecodeError::ShortRead));
    assert_eq!(length, Decoder::Sync { matched: 0 });
    let mut length_three = Decoder::Length;
    assert_eq!(length_three.feed(&[0x00, 0x1c, 0x00]), Progress::Failed(DecodeError::ShortRead));
    let mut payload = Decoder::Payload;
    assert_eq!(payload.feed(&[0u8; 27]), Progress::Failed(DecodeError::Malformed));
    assert_eq!(payload, Decoder::Sync { matched: 0 });
}

#[test]
fn decoder_reads_frame_after_frame() {
    let first = Frame::from_array([1, 2, 3, 4, 5, 6, 7, 8, 9, 10, 11, 12, 13, 14]);
    let second = Frame::from_array([65535, 0, 65535, 0, 65535, 0, 65535, 0, 65535, 0, 65535, 0, 65535, 0]);
    let mut bytes: Vec<u8> = vec![0x07, 0x42];
    bytes.extend_from_slice(&encoded(&first));
    bytes.extend_from_slice(&encoded(&second));
    let mut decoder = Decoder::new();
    let (one, used_one) = run(&mut decoder, &bytes);
    assert_eq!(one, Ok(first));
    assert_eq!(used_one, 2 + 32);
    let (two, used_two) = run(&mut decoder, &bytes[used_one..]);
    assert_eq!(two, Ok(second));
    assert_eq!(used_two, 32);
}

#[test]
fn decoder_agrees_with_get_frame() {
    let frame = Frame::from_array([100, 50, 30, 90, 45, 25, 10, 20, 30, 40, 50, 60, 0, 0]);
    let mut streams: Vec<Vec<u8>> = Vec::new();
    streams.push(encoded(&frame));
    streams.push(vec![]);
    streams.push(vec![0x42]);
    streams.push(vec![0x42, 0x4d, 0x00]);
    streams.push(vec![0x42, 0x4d, 0x00, 0x05, 0x01, 0x02]);
    streams.push(vec![0x42, 0x42, 0x4d, 0x00, 0x1c, 0x01]);
    let mut noisy: Vec<u8> = vec![0x4d, 0x42, 0x00, 0x42, 0x42];
    noisy.extend_from_slice(&encoded(&frame)[1..]);
    noisy.extend_from_slice(&[0x42, 0x4d]);
    streams.push(noisy);
    for stream in streams.iter() {
        let mut decoder = Decoder::new();
        assert_eq!(run(&mut decoder, stream), get_frame(stream));
    }
}

#[test]
fn decoder_waits_for_whole_chunks_only() {
    assert!(!Decoder::Sync { matched: 0 }.must_wait(0));
    assert!(!Decoder::Sync { matched: 1 }.must_wait(0));
    assert!(Decoder::Length.must_wait(0));
    assert!(Decoder::Length.must_wait(1));
    assert!(!Decoder::Length.must_wait(2));
    assert!(!Decoder::Length.must_wait(3));
    assert!(Decoder::Payload.must_wait(0));
    assert!(Decoder::Payload.must_wait(27));
    assert!(!Decoder::Payload.must_wait(28));
    assert!(!Decoder::Payload.must_wait(u32::MAX));
}
