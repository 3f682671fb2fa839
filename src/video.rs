use vstd::prelude::*;

verus! {

/// Nanoseconds in one second.
pub const NANOS_PER_SECOND: u64 = 1_000_000_000;

/// The presentation time, in nanoseconds, of a timestamp `pts` counted in
/// units of `num / den` seconds.
pub open spec fn presentation_nanos_spec(pts: int, num: int, den: int) -> int {
    pts * num * NANOS_PER_SECOND / den
}

/// The presentation time in nanoseconds of a frame whose timestamp is `pts`
/// in a time base of `num / den` seconds (rounded down), or `None` for a
/// negative timestamp, a time base that is not positive, or a time that does
/// not fit in a `u64`.
pub fn presentation_nanos(pts: i64, num: i32, den: i32) -> (r: Option<u64>)
    ensures
        (pts < 0 || num <= 0 || den <= 0) ==> r.is_none(),
        (pts >= 0 && num > 0 && den > 0) ==> {
            let v = presentation_nanos_spec(pts as int, num as int, den as int);
            &&& v <= u64::MAX ==> r == Some(v as u64)
            &&& v > u64::MAX ==> r.is_none()
        },
{
    if pts < 0 || num <= 0 || den <= 0 {
        return None;
    }
    let p = pts as u128;
    let n = num as u128;
    let d = den as u128;
    assert(p * n <= 0x8000_0000_0000_0000u128 * 0x8000_0000u128) by (nonlinear_arith)
        requires
            p <= 0x8000_0000_0000_0000u128,
            n <= 0x8000_0000u128,
    ;
    let pn = p * n;
    assert(pn * 1_000_000_000u128 <= 0x8000_0000_0000_0000u128 * 0x8000_0000u128 * 1_000_000_000u128)
        by (nonlinear_arith)
        requires
            pn <= 0x8000_0000_0000_0000u128 * 0x8000_0000u128,
    ;
    let scaled = pn * (NANOS_PER_SECOND as u128);
    let v = scaled / d;
    if v <= u64::MAX as u128 {
        Some(v as u64)
    } else {
        None
    }
}

/// What the video worker does with a decoded, scaled frame.
#[derive(Clone, Copy, Debug, PartialEq, Eq, Structural)]
pub enum FrameAction {
    /// Hand the frame to the display callback now.
    Emit,
    /// Keep the frame and look again after this many nanoseconds.
    Wait(u64),
    /// Playback is paused: keep the frame (it is not dropped) until playback
    /// resumes. The worker decodes nothing more meanwhile, so at most one
    /// frame is held.
    Hold,
}

/// Paces a frame with presentation time `presentation` against the clock's
/// elapsed time `elapsed` (`None` while paused): no frame is emitted before
/// its time, and a frame without a presentation time is emitted as soon as
/// playback runs.
pub fn pace_video_frame(elapsed: Option<u64>, presentation: Option<u64>) -> (r: FrameAction)
    ensures
        elapsed.is_none() ==> r == FrameAction::Hold,
        elapsed.is_some() && presentation.is_none() ==> r == FrameAction::Emit,
        elapsed.is_some() && presentation.is_some() ==> {
            let e = elapsed.unwrap();
            let p = presentation.unwrap();
            &&& p <= e ==> r == FrameAction::Emit
            &&& p > e ==> r == FrameAction::Wait((p - e) as u64)
        },
{
    match elapsed {
        None => FrameAction::Hold,
        Some(e) => match presentation {
            None => FrameAction::Emit,
            Some(p) => {
                if p <= e {
                    FrameAction::Emit
                } else {
                    FrameAction::Wait(p - e)
                }
            },
        },
    }
}

} // verus!
