//! The decode-and-sync core of a media player: the shared playback clock, the
//! player's play/pause control, the demuxer controller's decisions, and the
//! audio and video workers' decisions, with the bounded packet queues and the
//! sample ring buffer that connect them. Threads, decoding and device output
//! run around this library and hand it plain values.

use vstd::prelude::*;

pub mod audio;
pub mod clock;
pub mod demux;
pub mod error;
pub mod player;
pub mod queue;
pub mod ring;
pub mod video;
pub mod worker;

pub use player::ControlCommand;
