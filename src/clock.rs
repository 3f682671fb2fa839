use std::time::{Duration, Instant};
use vstd::prelude::*;

verus! {

#[verifier::external_type_specification]
#[verifier::external_body]
pub struct ExInstant(Instant);

/// The whole nanoseconds that a duration spans: what `Duration::as_nanos`
/// returns for it.
pub uninterp spec fn nanos_in(d: Duration) -> u128;

/// Relies on `std::time::Instant::now`: a reading of the monotonic clock, used
/// as the origin of a clock's timeline.
#[verifier::external_body]
fn instant_now() -> (r: Instant) {
    Instant::now()
}

/// Relies on `std::time::Duration::as_nanos`: the whole nanoseconds of `d`.
#[verifier::external_body]
fn duration_as_nanos(d: &Duration) -> (r: u128)
    ensures
        r == nanos_in(*d),
{
    d.as_nanos()
}

/// Relies on `std::time::Duration::from_nanos`: a duration of exactly `n`
/// nanoseconds.
#[verifier::external_body]
fn duration_from_nanos(n: u64) -> (r: Duration)
    ensures
        nanos_in(r) == n as u128,
{
    Duration::from_nanos(n)
}

/// What a clock records: the reference instant (nanoseconds on the clock's
/// timeline) set when playback started, and whether playback is running.
pub struct ClockState {
    pub start: Option<u64>,
    pub playing: bool,
}

/// Elapsed playback time at instant `now`: none while not playing or before the
/// reference instant was set; otherwise the time since the reference instant,
/// zero for an instant before it.
pub open spec fn elapsed_spec(c: ClockState, now: u64) -> Option<u64> {
    if c.playing {
        match c.start {
            Some(s) => Some(if now >= s { (now - s) as u64 } else { 0u64 }),
            None => None,
        }
    } else {
        None
    }
}

/// A reading of the timeline in nanoseconds, saturated to 64 bits.
pub open spec fn saturate(n: u128) -> u64 {
    if n <= u64::MAX as u128 {
        n as u64
    } else {
        u64::MAX
    }
}

/// The playback clock that the controller and both workers read for A/V sync.
///
/// Instants are counted in nanoseconds since the clock was created. Pausing
/// clears the playing flag and keeps the reference instant, so that resuming
/// reuses the same reference instant: the elapsed time jumps forward by the length
/// of the pause.
///
/// A clock is a plain value: a copy is an independent clock with the same
/// origin, reference instant and flag. To share one clock between the player,
/// the controller and the workers, the holder puts it behind a mutex and
/// calls these methods on the one value under the lock.
#[derive(Clone, Copy)]
pub struct SharedClock {
    origin: Instant,
    last_reading: Ghost<u128>,
    start_time: Option<u64>,
    is_playing: bool,
}

impl View for SharedClock {
    type V = ClockState;

    closed spec fn view(&self) -> ClockState {
        ClockState { start: self.start_time, playing: self.is_playing }
    }
}

impl SharedClock {
    /// The latest reading of the timeline (nanoseconds since the origin) that
    /// this clock has taken.
    pub closed spec fn reading(&self) -> u128 {
        self.last_reading@
    }

    /// Relies on `std::time::Instant::elapsed`: the time since the origin. The
    /// clock behind `Instant` is monotonic and `elapsed` saturates at zero, so
    /// a reading is never below an earlier reading from the same origin.
    #[verifier::external_body]
    fn read_elapsed(&mut self) -> (r: Duration)
        ensures
            nanos_in(r) >= old(self).reading(),
            final(self).reading() == nanos_in(r),
            final(self)@ == old(self)@,
    {
        self.origin.elapsed()
    }

    /// A clock that has not started: no reference instant, not playing.
    pub fn new() -> (r: Self)
        ensures
            r@ == (ClockState { start: None, playing: false }),
    {
        SharedClock { origin: instant_now(), last_reading: Ghost(0), start_time: None, is_playing: false }
    }

    /// The current instant on this clock's timeline, in nanoseconds (saturated
    /// to 64 bits); never below an earlier reading.
    pub fn now_nanos(&mut self) -> (r: u64)
        ensures
            final(self)@ == old(self)@,
            final(self).reading() >= old(self).reading(),
            r == saturate(final(self).reading()),
    {
        let d = self.read_elapsed();
        let n = duration_as_nanos(&d);
        if n <= u64::MAX as u128 {
            n as u64
        } else {
            u64::MAX
        }
    }

    /// Records `now` as the reference instant and marks the clock playing.
    pub fn start_at(&mut self, now: u64)
        ensures
            final(self)@ == (ClockState { start: Some(now), playing: true }),
            final(self).reading() == old(self).reading(),
    {
        self.start_time = Some(now);
        self.is_playing = true;
    }

    /// Records the current instant as the reference instant and marks the
    /// clock playing.
    pub fn start(&mut self)
        ensures
            final(self)@ == (ClockState {
                start: Some(saturate(final(self).reading())),
                playing: true,
            }),
            final(self).reading() >= old(self).reading(),
    {
        let now = self.now_nanos();
        self.start_at(now);
    }

    /// Clears the playing flag; the reference instant is kept.
    pub fn pause(&mut self)
        ensures
            final(self)@ == (ClockState { start: old(self)@.start, playing: false }),
            final(self).reading() == old(self).reading(),
    {
        self.is_playing = false;
    }

    /// Sets the playing flag again; the reference instant is not changed.
    pub fn resume(&mut self)
        ensures
            final(self)@ == (ClockState { start: old(self)@.start, playing: true }),
            final(self).reading() == old(self).reading(),
    {
        self.is_playing = true;
    }

    /// Whether the clock is playing.
    pub fn is_playing(&self) -> (r: bool)
        ensures
            r == self@.playing,
    {
        self.is_playing
    }

    /// Elapsed playback time in nanoseconds at instant `now`, or `None` when
    /// it is not available (paused, or never started).
    pub fn elapsed_at(&self, now: u64) -> (r: Option<u64>)
        ensures
            r == elapsed_spec(self@, now),
    {
        if self.is_playing {
            match self.start_time {
                Some(s) => Some(if now >= s { now - s } else { 0 }),
                None => None,
            }
        } else {
            None
        }
    }

    /// Elapsed playback time in nanoseconds at the current instant, or `None`
    /// when it is not available.
    pub fn elapsed_nanos(&mut self) -> (r: Option<u64>)
        ensures
            final(self)@ == old(self)@,
            final(self).reading() >= old(self).reading(),
            r == elapsed_spec(old(self)@, saturate(final(self).reading())),
    {
        let now = self.now_nanos();
        self.elapsed_at(now)
    }

    /// Elapsed playback time at the current instant, or `None` when it is not
    /// available (paused, or never started).
    pub fn get_elapsed_time(&mut self) -> (r: Option<Duration>)
        ensures
            final(self)@ == old(self)@,
            final(self).reading() >= old(self).reading(),
            r.is_some() <==> (old(self)@.playing && old(self)@.start.is_some()),
            r.is_some() ==> elapsed_spec(old(self)@, saturate(final(self).reading())) == Some(
                nanos_in(r.unwrap()) as u64,
            ),
            r.is_some() ==> nanos_in(r.unwrap()) <= u64::MAX,
    {
        match self.elapsed_nanos() {
            Some(n) => Some(duration_from_nanos(n)),
            None => None,
        }
    }
}

/// While the clock is not playing, no elapsed time is available at any
/// instant; while it plays after a start, the elapsed time is available and
/// does not decrease as the instant advances, nor from one reading of the
/// timeline to a later one.
pub proof fn lemma_elapsed_availability_and_monotonic(c: ClockState, t1: u64, t2: u64)
    requires
        t1 <= t2,
    ensures
        !c.playing ==> elapsed_spec(c, t1).is_none(),
        c.playing && c.start.is_some() ==> {
            &&& elapsed_spec(c, t1).is_some()
            &&& elapsed_spec(c, t2).is_some()
            &&& elapsed_spec(c, t1).unwrap() <= elapsed_spec(c, t2).unwrap()
        },
{
}

/// Two successive readings of a playing, started clock (the second taken no
/// earlier than the first, as `elapsed_nanos` and `get_elapsed_time` ensure)
/// give elapsed times that do not decrease.
pub proof fn lemma_successive_readings_do_not_decrease(c: ClockState, r1: u128, r2: u128)
    requires
        r1 <= r2,
        c.playing,
        c.start.is_some(),
    ensures
        elapsed_spec(c, saturate(r1)).is_some(),
        elapsed_spec(c, saturate(r2)).is_some(),
        elapsed_spec(c, saturate(r1)).unwrap() <= elapsed_spec(c, saturate(r2)).unwrap(),
{
    lemma_elapsed_availability_and_monotonic(c, saturate(r1), saturate(r2));
}

} // verus!
