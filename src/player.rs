use vstd::prelude::*;

use crate::clock::{ClockState, SharedClock};

verus! {

/// A command that the player sends to the demuxer controller, which forwards
/// it to both playback workers.
#[derive(Clone, Copy, Debug, PartialEq, Eq, Structural)]
pub enum ControlCommand {
    Play,
    Pause,
}

/// The command that brings playback into state `playing`.
pub open spec fn command_for(playing: bool) -> ControlCommand {
    if playing {
        ControlCommand::Play
    } else {
        ControlCommand::Pause
    }
}

/// The clock after a command: `Play` resumes it, `Pause` pauses it; the
/// reference instant is kept either way.
pub open spec fn clock_after(c: ClockState, cmd: ControlCommand) -> ClockState {
    ClockState { start: c.start, playing: cmd == ControlCommand::Play }
}

/// Applies a command to a clock: `Play` resumes it, `Pause` pauses it.
pub fn apply_command_to_clock(clock: &mut SharedClock, cmd: ControlCommand)
    ensures
        final(clock)@ == clock_after(old(clock)@, cmd),
{
    match cmd {
        ControlCommand::Play => clock.resume(),
        ControlCommand::Pause => clock.pause(),
    }
}

/// The play/pause state that the player handle keeps, and the decisions it
/// takes when the user toggles or stops playback.
pub struct PlayerControl {
    playing: bool,
}

impl View for PlayerControl {
    type V = bool;

    closed spec fn view(&self) -> bool {
        self.playing
    }
}

impl PlayerControl {
    /// Playback starts in the playing state; the state-changed callback is
    /// then told `true` once.
    pub fn new() -> (r: Self)
        ensures
            r@,
    {
        PlayerControl { playing: true }
    }

    /// Whether playback is currently playing.
    pub fn is_playing(&self) -> (r: bool)
        ensures
            r == self@,
    {
        self.playing
    }

    /// Flips between playing and paused: updates the clock, and returns the
    /// command to send to the controller and the value to report, once, to
    /// the state-changed callback.
    pub fn toggle_pause_playing(&mut self, clock: &mut SharedClock) -> (r: (ControlCommand, bool))
        ensures
            final(self)@ == !old(self)@,
            r.0 == command_for(final(self)@),
            r.1 == final(self)@,
            final(clock)@ == clock_after(old(clock)@, r.0),
    {
        let cmd = if self.playing {
            ControlCommand::Pause
        } else {
            ControlCommand::Play
        };
        self.playing = !self.playing;
        apply_command_to_clock(clock, cmd);
        (cmd, self.playing)
    }

    /// Stops playback: the state becomes paused and the clock is paused. The
    /// caller then closes the control channel, which ends the controller.
    pub fn stop(&mut self, clock: &mut SharedClock)
        ensures
            !final(self)@,
            final(clock)@ == (ClockState { start: old(clock)@.start, playing: false }),
    {
        self.playing = false;
        clock.pause();
    }
}

/// State of the player (playing flag and clock), and the values reported to
/// the state-changed callback, after `n` toggles from `playing` and `c`.
pub open spec fn toggles(playing: bool, c: ClockState, n: nat) -> (bool, ClockState, Seq<bool>)
    decreases n,
{
    if n == 0 {
        (playing, c, Seq::empty())
    } else {
        let prev = toggles(playing, c, (n - 1) as nat);
        let p = !prev.0;
        (p, clock_after(prev.1, command_for(p)), prev.2.push(p))
    }
}

/// One more call of `toggle_pause_playing` extends the run of toggles by one.
pub proof fn lemma_toggle_step(
    playing: bool,
    c: ClockState,
    n: nat,
    before: PlayerControl,
    after: PlayerControl,
    clock_before: ClockState,
    clock_after_call: ClockState,
    reported: bool,
)
    requires
        before@ == toggles(playing, c, n).0,
        clock_before == toggles(playing, c, n).1,
        after@ == !before@,
        reported == after@,
        clock_after_call == clock_after(clock_before, command_for(after@)),
    ensures
        after@ == toggles(playing, c, n + 1).0,
        clock_after_call == toggles(playing, c, n + 1).1,
        toggles(playing, c, n + 1).2 == toggles(playing, c, n).2.push(reported),
{
}

/// Toggling an even number of times from a player whose clock agrees with its
/// playing flag restores the playing flag and the clock (its playing flag and
/// its reference instant), and the state-changed callback has been told
/// exactly once per toggle, each time the new state.
pub proof fn lemma_even_toggles_restore(playing: bool, c: ClockState, n: nat)
    requires
        n % 2 == 0,
        c.playing == playing,
    ensures
        toggles(playing, c, n).0 == playing,
        toggles(playing, c, n).1 == c,
        toggles(playing, c, n).2.len() == n,
        forall|i: int| 0 <= i < n ==> toggles(playing, c, n).2[i] == (i % 2 == 0) != playing,
    decreases n,
{
    lemma_toggles_shape(playing, c, n);
}

proof fn lemma_toggles_shape(playing: bool, c: ClockState, n: nat)
    ensures
        toggles(playing, c, n).0 == (if n % 2 == 0 { playing } else { !playing }),
        n > 0 ==> toggles(playing, c, n).1 == clock_after(c, command_for(toggles(playing, c, n).0)),
        n == 0 ==> toggles(playing, c, n).1 == c,
        toggles(playing, c, n).2.len() == n,
        forall|i: int| 0 <= i < n ==> toggles(playing, c, n).2[i] == (i % 2 == 0) != playing,
    decreases n,
{
    if n > 0 {
        lemma_toggles_shape(playing, c, (n - 1) as nat);
        let prev = toggles(playing, c, (n - 1) as nat);
        let cur = toggles(playing, c, n);
        assert forall|i: int| 0 <= i < n implies cur.2[i] == (i % 2 == 0) != playing by {
            if i < n - 1 {
                assert(cur.2[i] == prev.2[i]);
            }
        }
    }
}

} // verus!
