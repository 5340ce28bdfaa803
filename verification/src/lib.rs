//! Frame codec and state holder for the PMS5003 particulate-matter sensor.
//!
//! The sensor pushes fixed-size frames over a serial link. This library holds
//! the parts of a monitor that decide something: finding the start of a frame
//! in a byte stream, checking and decoding a frame, the reader's recovery
//! state machine, and the holder of the latest frame with its rolling window
//! of five-minute buckets. Opening the port, sleeping and serving queries are
//! left to the program around it.

mod clock;
pub mod codec;
pub mod decoder;
pub mod frame;
pub mod monitor;
pub mod reader;
pub mod stats;

pub use codec::{DecodeError, get_frame};
pub use decoder::{Decoder, Progress};
pub use frame::Frame;
pub use monitor::{GetLastFrame, Monitor, MonitorState, NewFrame};
pub use reader::{monitor, ReaderAction, ReaderEvent, ReaderState};
pub use stats::{FrameStats, Totals};
