use vstd::prelude::*;

use crate::clock::ClockState;
use crate::error::PlayerError;
use crate::player::{clock_after, ControlCommand};
use crate::worker::{worker_next, WorkerEvent, WorkerState};

verus! {

/// The indices of the streams that playback uses: the best video stream and
/// the best audio stream of the container.
#[derive(Clone, Copy, Debug, PartialEq, Eq, Structural)]
pub struct StreamSelection {
    pub video_index: usize,
    pub audio_index: usize,
}

/// Picks the streams to play from the container's best video and best audio
/// stream. Playback needs both: without either, nothing is started.
pub fn select_streams(best_video: Option<usize>, best_audio: Option<usize>) -> (r: Result<
    StreamSelection,
    PlayerError,
>)
    ensures
        match (best_video, best_audio) {
            (Some(v), Some(a)) => r == Ok::<StreamSelection, PlayerError>(
                StreamSelection { video_index: v, audio_index: a },
            ),
            _ => r == Err::<StreamSelection, PlayerError>(PlayerError::NoStreamFound),
        },
{
    match (best_video, best_audio) {
        (Some(v), Some(a)) => Ok(StreamSelection { video_index: v, audio_index: a }),
        _ => Err(PlayerError::NoStreamFound),
    }
}

/// Where a packet read from the container goes.
#[derive(Clone, Copy, Debug, PartialEq, Eq, Structural)]
pub enum PacketRoute {
    Audio,
    Video,
    Discard,
}

/// A packet of the audio stream goes to the audio worker, one of the video
/// stream to the video worker, any other is dropped.
pub open spec fn route_spec(sel: StreamSelection, stream_index: usize) -> PacketRoute {
    if stream_index == sel.audio_index {
        PacketRoute::Audio
    } else if stream_index == sel.video_index {
        PacketRoute::Video
    } else {
        PacketRoute::Discard
    }
}

/// The worker that a packet of stream `stream_index` goes to.
pub fn route_packet(sel: &StreamSelection, stream_index: usize) -> (r: PacketRoute)
    ensures
        r == route_spec(*sel, stream_index),
{
    if stream_index == sel.audio_index {
        PacketRoute::Audio
    } else if stream_index == sel.video_index {
        PacketRoute::Video
    } else {
        PacketRoute::Discard
    }
}

/// What the controller's loop observed: a packet read from the container
/// (with its stream index), the end of the container (or a read failure), a
/// control command, or the closing of the control channel.
#[derive(Clone, Copy, Debug, PartialEq, Eq, Structural)]
pub enum ControllerEvent {
    Packet(usize),
    EndOfStream,
    Command(ControlCommand),
    ControlClosed,
}

/// What the controller's loop does next: hand the packet to a worker (or drop
/// it), send the command to both workers and then apply it to the clock, or
/// leave the loop.
#[derive(Clone, Copy, Debug, PartialEq, Eq, Structural)]
pub enum ControllerAction {
    Forward(PacketRoute),
    Broadcast(ControlCommand),
    Exit,
}

/// The controller's state as its decisions see it.
pub struct ControllerState {
    pub selection: StreamSelection,
    pub forwarding: bool,
    pub finished: bool,
}

/// The decisions of the demuxer controller: which worker a packet goes to,
/// whether packets are being forwarded, and when the loop ends.
pub struct DemuxerController {
    selection: StreamSelection,
    forwarding: bool,
    finished: bool,
}

impl View for DemuxerController {
    type V = ControllerState;

    closed spec fn view(&self) -> ControllerState {
        ControllerState {
            selection: self.selection,
            forwarding: self.forwarding,
            finished: self.finished,
        }
    }
}

/// The controller's state after `event`.
pub open spec fn controller_next(s: ControllerState, event: ControllerEvent) -> ControllerState {
    match event {
        ControllerEvent::Packet(_) => s,
        ControllerEvent::Command(c) => ControllerState {
            forwarding: c == ControlCommand::Play,
            ..s
        },
        _ => ControllerState { finished: true, ..s },
    }
}

/// The controller's action on `event`.
pub open spec fn controller_action(s: ControllerState, event: ControllerEvent) -> ControllerAction {
    match event {
        ControllerEvent::Packet(i) => ControllerAction::Forward(route_spec(s.selection, i)),
        ControllerEvent::Command(c) => ControllerAction::Broadcast(c),
        _ => ControllerAction::Exit,
    }
}

impl DemuxerController {
    /// A controller for the selected streams; playback starts forwarding.
    pub fn new(selection: StreamSelection) -> (r: Self)
        ensures
            r@ == (ControllerState { selection, forwarding: true, finished: false }),
    {
        DemuxerController { selection, forwarding: true, finished: false }
    }

    /// Whether the packet-forwarding branch of the loop is enabled; while
    /// paused it is disabled and not polled at all.
    pub fn is_forwarding(&self) -> (r: bool)
        ensures
            r == self@.forwarding,
    {
        self.forwarding
    }

    /// Whether the loop has ended.
    pub fn is_finished(&self) -> (r: bool)
        ensures
            r == self@.finished,
    {
        self.finished
    }

    /// The selected streams.
    pub fn selection(&self) -> (r: StreamSelection)
        ensures
            r == self@.selection,
    {
        self.selection
    }

    /// Takes one event of the loop and says what to do with it.
    pub fn step(&mut self, event: ControllerEvent) -> (r: ControllerAction)
        requires
            !old(self)@.finished,
        ensures
            final(self)@ == controller_next(old(self)@, event),
            r == controller_action(old(self)@, event),
    {
        match event {
            ControllerEvent::Packet(i) => ControllerAction::Forward(route_packet(&self.selection, i)),
            ControllerEvent::Command(c) => {
                self.forwarding = match c {
                    ControlCommand::Play => true,
                    ControlCommand::Pause => false,
                };
                ControllerAction::Broadcast(c)
            },
            _ => {
                self.finished = true;
                ControllerAction::Exit
            },
        }
    }
}

/// The positions, in container order, of the packets of `reads` (stream
/// indices in the order the container yields them) that go to `route`.
pub open spec fn delivered(sel: StreamSelection, reads: Seq<usize>, route: PacketRoute) -> Seq<int>
    decreases reads.len(),
{
    if reads.len() == 0 {
        Seq::empty()
    } else {
        let prev = delivered(sel, reads.drop_last(), route);
        if route_spec(sel, reads.last()) == route {
            prev.push(reads.len() - 1)
        } else {
            prev
        }
    }
}

/// The audio worker gets exactly the packets of the audio stream; when the
/// two selected streams differ (as a container's best audio and best video
/// stream do), the video worker gets exactly the packets of the video stream.
pub proof fn lemma_route_by_stream(sel: StreamSelection, stream_index: usize)
    ensures
        route_spec(sel, stream_index) == PacketRoute::Audio <==> stream_index == sel.audio_index,
        sel.audio_index != sel.video_index ==> (route_spec(sel, stream_index) == PacketRoute::Video
            <==> stream_index == sel.video_index),
{
}

/// For any sequence of packets, each worker is handed exactly the packets
/// routed to it, in the order the container yields them.
pub proof fn lemma_delivery_keeps_read_order(
    sel: StreamSelection,
    reads: Seq<usize>,
    route: PacketRoute,
)
    ensures
        forall|i: int, j: int|
            0 <= i < j < delivered(sel, reads, route).len() ==> delivered(sel, reads, route)[i]
                < delivered(sel, reads, route)[j],
        forall|k: int|
            0 <= k < delivered(sel, reads, route).len() ==> {
                let p = #[trigger] delivered(sel, reads, route)[k];
                0 <= p < reads.len() && route_spec(sel, reads[p]) == route
            },
        forall|p: int|
            0 <= p < reads.len() && route_spec(sel, #[trigger] reads[p]) == route ==> exists|k: int|
                0 <= k < delivered(sel, reads, route).len() && delivered(sel, reads, route)[k] == p,
    decreases reads.len(),
{
    if reads.len() > 0 {
        let prev_reads = reads.drop_last();
        lemma_delivery_keeps_read_order(sel, prev_reads, route);
        let prev = delivered(sel, prev_reads, route);
        let d = delivered(sel, reads, route);
        assert forall|k: int| 0 <= k < prev.len() implies prev[k] < reads.len() - 1 && reads[prev[k]]
            == prev_reads[prev[k]] by {
            let p = prev[k];
            assert(0 <= p < prev_reads.len());
        }
        assert forall|p: int|
            0 <= p < reads.len() && route_spec(sel, #[trigger] reads[p]) == route implies exists|k: int|
                0 <= k < d.len() && d[k] == p by {
            if p < reads.len() - 1 {
                assert(route_spec(sel, prev_reads[p]) == route);
                let k = choose|k: int| 0 <= k < prev.len() && prev[k] == p;
                assert(d[k] == p);
            } else {
                assert(d[d.len() - 1] == p);
            }
        }
    }
}

/// A command that the controller takes is broadcast to both workers and then
/// applied to the clock; afterwards the controller's forwarding flag, each
/// worker's playing flag and the clock's playing flag agree, and the clock
/// keeps its reference instant.
pub proof fn lemma_command_brings_pipeline_into_agreement(
    s: ControllerState,
    audio: WorkerState,
    video: WorkerState,
    c: ClockState,
    cmd: ControlCommand,
)
    ensures
        ({
            let event = ControllerEvent::Command(cmd);
            let next = controller_next(s, event);
            let a = worker_next(audio, WorkerEvent::Command(cmd));
            let v = worker_next(video, WorkerEvent::Command(cmd));
            let clock = clock_after(c, cmd);
            &&& controller_action(s, event) == ControllerAction::Broadcast(cmd)
            &&& next.forwarding == a.playing
            &&& a.playing == v.playing
            &&& v.playing == clock.playing
            &&& clock.start == c.start
            &&& next.finished == s.finished
        }),
{
}

} // verus!
