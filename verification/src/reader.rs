//! The stream reader's decisions.
//!
//! The reader owns the serial port and runs for as long as the process does.
//! It opens the port, reads frames and hands each to the state holder. When
//! the port fails it lets go of it, waits a moment and opens it again, without
//! end and with the same wait each time. What it does with the port is the
//! caller's part: this module says what to do next, given what just happened.

use crate::codec::DecodeError;
use crate::frame::Frame;
use vstd::prelude::*;

verus! {

/// Milliseconds to wait before the port is opened again.
pub const REOPEN_DELAY_MS: u64 = 250;

/// Milliseconds between two looks at how many bytes the port has ready.
pub const POLL_INTERVAL_MS: u64 = 10;

/// Milliseconds after which a read from the port gives up.
pub const READ_TIMEOUT_MS: u64 = 1000;

/// Speed of the sensor's serial line, in bits per second. The line has eight
/// data bits, no parity, one stop bit and no flow control.
pub const BAUD_RATE: u32 = 9600;

/// Whether the reader holds an open port.
#[derive(Clone, Copy, Debug, PartialEq, Eq, Structural)]
pub enum ReaderState {
    /// No port is open.
    Scanning,
    /// The port is open and frames are read from it.
    Streaming,
}

/// What the reader is to do next.
#[derive(Clone, Copy, Debug, PartialEq, Eq, Structural)]
pub enum ReaderAction {
    /// Open the port.
    Open,
    /// Let go of the port and wait.
    Pause { millis: u64 },
    /// Read a frame from the port.
    Read,
    /// Hand the frame to the state holder.
    Forward(Frame),
}

/// What came of the last action.
#[derive(Clone, Copy, Debug, PartialEq, Eq, Structural)]
pub enum ReaderEvent {
    /// The port is open.
    Opened,
    /// The port could not be opened.
    OpenFailed,
    /// The wait is over.
    Paused,
    /// A frame was read.
    Frame(Frame),
    /// The bytes read were no frame.
    Rejected(DecodeError),
    /// A read from the port failed.
    TransportFailed,
    /// The state holder took the frame.
    Forwarded,
    /// The state holder could not be reached. The frame is lost.
    ForwardFailed,
}

/// The event ends the use of the port: the port failed, or what it gave
/// cannot be trusted. A wrong length does not: it is noise, and the next read
/// scans past it.
pub open spec fn is_fatal(event: ReaderEvent) -> bool {
    match event {
        ReaderEvent::OpenFailed => true,
        ReaderEvent::TransportFailed => true,
        ReaderEvent::Rejected(e) => e != DecodeError::BadLength,
        _ => false,
    }
}

/// The state after `event`.
pub open spec fn next_state(state: ReaderState, event: ReaderEvent) -> ReaderState {
    match state {
        ReaderState::Scanning => match event {
            ReaderEvent::Opened => ReaderState::Streaming,
            _ => ReaderState::Scanning,
        },
        ReaderState::Streaming => if is_fatal(event) || event == ReaderEvent::Paused {
            ReaderState::Scanning
        } else {
            ReaderState::Streaming
        },
    }
}

/// What to do after `event`, with `delay_ms` as the wait before the port is
/// opened again.
///
/// Without a port the reader opens one after a wait, and waits after anything
/// but a wait or an opened port. With a port it forwards each frame, reads
/// on after a forwarding, whether that failed or not, and after a wrong
/// length, and lets go of the port on a failure.
pub open spec fn next_action(state: ReaderState, event: ReaderEvent, delay_ms: u64)
    -> ReaderAction {
    match state {
        ReaderState::Scanning => match event {
            ReaderEvent::Opened => ReaderAction::Read,
            ReaderEvent::Paused => ReaderAction::Open,
            _ => ReaderAction::Pause { millis: delay_ms },
        },
        ReaderState::Streaming => match event {
            ReaderEvent::Frame(frame) => ReaderAction::Forward(frame),
            ReaderEvent::Paused => ReaderAction::Open,
            _ => if is_fatal(event) {
                ReaderAction::Pause { millis: delay_ms }
            } else {
                ReaderAction::Read
            },
        },
    }
}

/// Where the reader begins: without a port, about to open one.
pub fn start() -> (first: (ReaderState, ReaderAction))
    ensures
        first == (ReaderState::Scanning, ReaderAction::Open),
{
    (ReaderState::Scanning, ReaderAction::Open)
}

/// One decision of the stream reader: the state after `event`, and what to do
/// next. `delay_ms` is the wait before the port is opened again.
pub fn monitor(state: ReaderState, event: ReaderEvent, delay_ms: u64) -> (next: (
    ReaderState,
    ReaderAction,
))
    ensures
        next.0 == next_state(state, event),
        next.1 == next_action(state, event, delay_ms),
{
    let pause = ReaderAction::Pause { millis: delay_ms };
    match state {
        ReaderState::Scanning => match event {
            ReaderEvent::Opened => (ReaderState::Streaming, ReaderAction::Read),
            ReaderEvent::Paused => (ReaderState::Scanning, ReaderAction::Open),
            _ => (ReaderState::Scanning, pause),
        },
        ReaderState::Streaming => match event {
            ReaderEvent::Frame(frame) => (ReaderState::Streaming, ReaderAction::Forward(frame)),
            ReaderEvent::Paused => (ReaderState::Scanning, ReaderAction::Open),
            ReaderEvent::OpenFailed => (ReaderState::Scanning, pause),
            ReaderEvent::TransportFailed => (ReaderState::Scanning, pause),
            ReaderEvent::Rejected(DecodeError::BadLength) => (
                ReaderState::Streaming,
                ReaderAction::Read,
            ),
            ReaderEvent::Rejected(_) => (ReaderState::Scanning, pause),
            ReaderEvent::Opened => (ReaderState::Streaming, ReaderAction::Read),
            ReaderEvent::Forwarded => (ReaderState::Streaming, ReaderAction::Read),
            ReaderEvent::ForwardFailed => (ReaderState::Streaming, ReaderAction::Read),
        },
    }
}

/// A port is read from, and a frame forwarded, only while the port is open;
/// it is opened, and waited for, only while it is not.
pub proof fn lemma_action_fits_state(state: ReaderState, event: ReaderEvent, delay_ms: u64)
    ensures
        next_state(state, event) == ReaderState::Streaming <==> (next_action(
            state,
            event,
            delay_ms,
        ) is Read || next_action(state, event, delay_ms) is Forward),
        next_state(state, event) == ReaderState::Scanning <==> (next_action(state, event, delay_ms)
            is Open || next_action(state, event, delay_ms) is Pause),
{
}

/// A wrong length keeps the port: the reader reads on.
pub proof fn lemma_bad_length_reads_on(delay_ms: u64)
    ensures
        next_state(ReaderState::Streaming, ReaderEvent::Rejected(DecodeError::BadLength))
            == ReaderState::Streaming,
        next_action(ReaderState::Streaming, ReaderEvent::Rejected(DecodeError::BadLength), delay_ms)
            == ReaderAction::Read,
{
}

/// A failure of the port ends its use: the reader waits the given time, and
/// after the wait opens the port again.
pub proof fn lemma_failure_reopens(state: ReaderState, event: ReaderEvent, delay_ms: u64)
    requires
        is_fatal(event),
    ensures
        next_state(state, event) == ReaderState::Scanning,
        next_action(state, event, delay_ms) == (ReaderAction::Pause { millis: delay_ms }),
        next_state(ReaderState::Scanning, ReaderEvent::Paused) == ReaderState::Scanning,
        next_action(ReaderState::Scanning, ReaderEvent::Paused, delay_ms) == ReaderAction::Open,
{
}

/// Each frame read from an open port is forwarded as it is, and the reader
/// reads on whether the forwarding failed or not.
pub proof fn lemma_frames_are_forwarded(frame: Frame, delay_ms: u64)
    ensures
        next_action(ReaderState::Streaming, ReaderEvent::Frame(frame), delay_ms)
            == ReaderAction::Forward(frame),
        next_state(ReaderState::Streaming, ReaderEvent::Frame(frame)) == ReaderState::Streaming,
        next_action(ReaderState::Streaming, ReaderEvent::Forwarded, delay_ms) == ReaderAction::Read,
        next_action(ReaderState::Streaming, ReaderEvent::ForwardFailed, delay_ms)
            == ReaderAction::Read,
        next_state(ReaderState::Streaming, ReaderEvent::ForwardFailed) == ReaderState::Streaming,
{
}

} // verus!
