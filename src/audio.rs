use vstd::prelude::*;

use crate::clock::SharedClock;
use crate::error::PlayerError;

verus! {

/// Capacity, in samples, of the ring buffer between the decode path and the
/// output device's callback.
pub const SAMPLE_RING_CAPACITY: usize = 4096;

/// How long, in milliseconds, the decode path waits before looking again for
/// room in the ring buffer.
pub const RING_POLL_MILLIS: u64 = 16;

/// Channel layout of the samples handed to the output device.
#[derive(Clone, Copy, Debug, PartialEq, Eq, Structural)]
pub enum ChannelLayout {
    Mono,
    Stereo,
}

/// The layout for an output device with `channels` channels: one is mono,
/// two is stereo, any other count is not supported.
pub fn output_channel_layout(channels: u16) -> (r: Result<ChannelLayout, PlayerError>)
    ensures
        channels == 1 ==> r == Ok::<ChannelLayout, PlayerError>(ChannelLayout::Mono),
        channels == 2 ==> r == Ok::<ChannelLayout, PlayerError>(ChannelLayout::Stereo),
        channels != 1 && channels != 2 ==> r == Err::<ChannelLayout, PlayerError>(
            PlayerError::OutputDeviceFailure,
        ),
{
    if channels == 1 {
        Ok(ChannelLayout::Mono)
    } else if channels == 2 {
        Ok(ChannelLayout::Stereo)
    } else {
        Err(PlayerError::OutputDeviceFailure)
    }
}

/// The sample formats that an output device may ask for.
#[derive(Clone, Copy, Debug, PartialEq, Eq, Structural)]
pub enum DeviceSampleFormat {
    I8,
    I16,
    I32,
    I64,
    U8,
    U16,
    U32,
    U64,
    F32,
    F64,
}

/// The packed sample formats that the resampler produces for the device.
#[derive(Clone, Copy, Debug, PartialEq, Eq, Structural)]
pub enum OutputSampleFormat {
    U8,
    F32,
}

/// The resampler's output format for a device format: unsigned 8-bit and
/// 32-bit float are supported, every other format is not.
pub fn select_output_format(format: DeviceSampleFormat) -> (r: Result<OutputSampleFormat, PlayerError>)
    ensures
        format == DeviceSampleFormat::U8 ==> r == Ok::<OutputSampleFormat, PlayerError>(
            OutputSampleFormat::U8,
        ),
        format == DeviceSampleFormat::F32 ==> r == Ok::<OutputSampleFormat, PlayerError>(
            OutputSampleFormat::F32,
        ),
        format != DeviceSampleFormat::U8 && format != DeviceSampleFormat::F32 ==> r == Err::<
            OutputSampleFormat,
            PlayerError,
        >(PlayerError::OutputDeviceFailure),
{
    match format {
        DeviceSampleFormat::U8 => Ok(OutputSampleFormat::U8),
        DeviceSampleFormat::F32 => Ok(OutputSampleFormat::F32),
        _ => Err(PlayerError::OutputDeviceFailure),
    }
}

/// Bytes in one sample of an output format.
pub open spec fn sample_bytes_spec(format: OutputSampleFormat) -> usize {
    match format {
        OutputSampleFormat::U8 => 1,
        OutputSampleFormat::F32 => 4,
    }
}

/// Bytes in one sample of an output format.
pub fn sample_bytes(format: OutputSampleFormat) -> (r: usize)
    ensures
        r == sample_bytes_spec(format),
{
    match format {
        OutputSampleFormat::U8 => 1,
        OutputSampleFormat::F32 => 4,
    }
}

/// Number of bytes of packed sample data in a resampled frame of `samples`
/// samples per channel over `channels` channels, or `None` when that number
/// does not fit in a `usize`.
pub fn frame_byte_len(samples: usize, channels: u16, bytes_per_sample: usize) -> (r: Option<usize>)
    ensures
        samples * channels * bytes_per_sample <= usize::MAX ==> r == Some(
            (samples * channels * bytes_per_sample) as usize,
        ),
        samples * channels * bytes_per_sample > usize::MAX ==> r.is_none(),
{
    match samples.checked_mul(channels as usize) {
        Some(per_frame) => {
            let r = per_frame.checked_mul(bytes_per_sample);
            assert(per_frame * bytes_per_sample == samples * channels * bytes_per_sample);
            r
        },
        None => {
            proof {
                if bytes_per_sample > 0 {
                    assert(samples * channels * bytes_per_sample >= samples * channels)
                        by (nonlinear_arith)
                        requires
                            bytes_per_sample > 0,
                    ;
                }
            }
            if bytes_per_sample == 0 {
                Some(0)
            } else {
                None
            }
        },
    }
}

/// What the decode path does with a resampled frame.
#[derive(Clone, Copy, Debug, PartialEq, Eq, Structural)]
pub enum FrameDisposition {
    /// Push the samples into the ring buffer.
    Forward,
    /// Drop the samples: the decoder has consumed the packet, but playback is
    /// paused.
    Skip,
}

/// A resampled frame is forwarded to the ring buffer only while the clock
/// reports an elapsed time; otherwise it is skipped.
pub fn audio_frame_disposition(clock: &mut SharedClock) -> (r: FrameDisposition)
    ensures
        final(clock)@ == old(clock)@,
        final(clock).reading() >= old(clock).reading(),
        r == FrameDisposition::Forward <==> (old(clock)@.playing && old(clock)@.start.is_some()),
        r == FrameDisposition::Skip <==> !(old(clock)@.playing && old(clock)@.start.is_some()),
{
    match clock.elapsed_nanos() {
        Some(_) => FrameDisposition::Forward,
        None => FrameDisposition::Skip,
    }
}

/// What the decode path does when it has `len` samples to push and the ring
/// buffer has room for `free_len`.
#[derive(Clone, Copy, Debug, PartialEq, Eq, Structural)]
pub enum RingAction {
    /// Push all samples at once.
    Push,
    /// Wait `RING_POLL_MILLIS` and look again; no sample is dropped.
    Wait,
}

/// Samples are pushed only once they all fit; until then the decode path waits.
pub fn ring_action(free_len: usize, len: usize) -> (r: RingAction)
    ensures
        r == RingAction::Push <==> len <= free_len,
        r == RingAction::Wait <==> free_len < len,
{
    if free_len < len {
        RingAction::Wait
    } else {
        RingAction::Push
    }
}

/// Completes an output buffer of which the first `filled` samples came from
/// the ring buffer: the rest is set to `equilibrium` (silence), so the device
/// always gets a full buffer and never waits.
pub fn fill_silence<T: Copy>(data: &mut [T], filled: usize, equilibrium: T)
    requires
        filled <= old(data)@.len(),
    ensures
        final(data)@.len() == old(data)@.len(),
        forall|i: int| 0 <= i < filled ==> final(data)@[i] == old(data)@[i],
        forall|i: int| filled <= i < old(data)@.len() ==> final(data)@[i] == equilibrium,
{
    let mut i: usize = filled;
    while i < data.len()
        invariant
            filled <= i <= data@.len(),
            data@.len() == old(data)@.len(),
            forall|j: int| 0 <= j < filled ==> data@[j] == old(data)@[j],
            forall|j: int| filled <= j < i ==> data@[j] == equilibrium,
        decreases data@.len() - i,
    {
        data[i] = equilibrium;
        i = i + 1;
    }
}

} // verus!
