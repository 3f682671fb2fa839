use vstd::prelude::*;

use crate::player::ControlCommand;

verus! {

/// What a playback worker's loop observed on its control channel.
#[derive(Clone, Copy, Debug, PartialEq, Eq, Structural)]
pub enum WorkerEvent {
    Command(ControlCommand),
    ControlClosed,
}

/// A worker's state as its decisions see it.
pub struct WorkerState {
    pub playing: bool,
    pub finished: bool,
}

/// The control state of a playback worker (audio or video): whether its
/// packet branch is enabled, and whether its loop has ended.
pub struct WorkerControl {
    playing: bool,
    finished: bool,
}

impl View for WorkerControl {
    type V = WorkerState;

    closed spec fn view(&self) -> WorkerState {
        WorkerState { playing: self.playing, finished: self.finished }
    }
}

/// A worker's state after `event`: a command sets the playing flag, the
/// closing of the control channel ends the loop.
pub open spec fn worker_next(s: WorkerState, event: WorkerEvent) -> WorkerState {
    match event {
        WorkerEvent::Command(c) => WorkerState { playing: c == ControlCommand::Play, finished: s.finished },
        WorkerEvent::ControlClosed => WorkerState { playing: s.playing, finished: true },
    }
}

impl WorkerControl {
    /// A worker starts playing.
    pub fn new() -> (r: Self)
        ensures
            r@ == (WorkerState { playing: true, finished: false }),
    {
        WorkerControl { playing: true, finished: false }
    }

    /// Whether the worker's packet branch is enabled.
    pub fn is_playing(&self) -> (r: bool)
        ensures
            r == self@.playing,
    {
        self.playing
    }

    /// Whether the worker's loop has ended.
    pub fn is_finished(&self) -> (r: bool)
        ensures
            r == self@.finished,
    {
        self.finished
    }

    /// Takes one event of the control channel.
    pub fn step(&mut self, event: WorkerEvent)
        ensures
            final(self)@ == worker_next(old(self)@, event),
    {
        match event {
            WorkerEvent::Command(c) => {
                self.playing = match c {
                    ControlCommand::Play => true,
                    ControlCommand::Pause => false,
                };
            },
            WorkerEvent::ControlClosed => {
                self.finished = true;
            },
        }
    }
}

} // verus!
