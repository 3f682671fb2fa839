use vstd::prelude::*;

verus! {

/// Why playback could not start, or why a packet was skipped.
#[derive(Clone, Copy, Debug, PartialEq, Eq, Structural)]
pub enum PlayerError {
    /// The container cannot be opened.
    OpenFailure,
    /// The container lacks an audio or a video stream.
    NoStreamFound,
    /// No decoder could be opened for a stream.
    DecoderInitFailure,
    /// No output device, an unsupported output configuration, or a failure to
    /// build the output stream.
    OutputDeviceFailure,
    /// No resampler could be set up for the output configuration.
    ResamplerInitFailure,
    /// A packet could not be decoded; it is skipped.
    DecodeError,
}

} // verus!
