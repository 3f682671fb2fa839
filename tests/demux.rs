use media_player::demux::{
    route_packet, select_streams, ControllerAction, ControllerEvent, DemuxerController,
    PacketRoute, StreamSelection,
};
use media_player::error::PlayerError;
use media_player::ControlCommand;

#[test]
fn video_only_container_fails_with_no_stream_found() {
    assert_eq!(select_streams(Some(0), None), Err(PlayerError::NoStreamFound));
}

#[test]
fn audio_only_container_fails_with_no_stream_found() {
    assert_eq!(select_streams(None, Some(1)), Err(PlayerError::NoStreamFound));
    assert_eq!(select_streams(None, None), Err(PlayerError::NoStreamFound));
}

#[test]
fn both_streams_are_selected() {
    assert_eq!(
        select_streams(Some(0), Some(1)),
        Ok(StreamSelection { video_index: 0, audio_index: 1 })
    );
}

#[test]
fn packets_are_routed_by_stream_index() {
    let sel = StreamSelection { video_index: 0, audio_index: 1 };
    assert_eq!(route_packet(&sel, 0), PacketRoute::Video);
    assert_eq!(route_packet(&sel, 1), PacketRoute::Audio);
    assert_eq!(route_packet(&sel, 2), PacketRoute::Discard);
}

#[test]
fn per_stream_delivery_keeps_container_order() {
    let sel = StreamSelection { video_index: 0, audio_index: 1 };
    let mut ctl = DemuxerController::new(sel);
    let reads = [0usize, 1, 1, 2, 0, 1, 0, 0, 3, 1];
    let mut audio = Vec::new();
    let mut video = Vec::new();
    for (pos, idx) in reads.iter().enumerate() {
        match ctl.step(ControllerEvent::Packet(*idx)) {
            ControllerAction::Forward(PacketRoute::Audio) => audio.push(pos),
            ControllerAction::Forward(PacketRoute::Video) => video.push(pos),
            ControllerAction::Forward(PacketRoute::Discard) => {}
            other => panic!("unexpected action {:?}", other),
        }
    }
    assert_eq!(audio, vec![1, 2, 5, 9]);
    assert_eq!(video, vec![0, 4, 6, 7]);
}

#[test]
fn commands_are_broadcast_and_toggle_forwarding() {
    let sel = StreamSelection { video_index: 0, audio_index: 1 };
    let mut ctl = DemuxerController::new(sel);
    assert!(ctl.is_forwarding());
    assert_eq!(
        ctl.step(ControllerEvent::Command(ControlCommand::Pause)),
        ControllerAction::Broadcast(ControlCommand::Pause)
    );
    assert!(!ctl.is_forwarding());
    assert_eq!(
        ctl.step(ControllerEvent::Command(ControlCommand::Play)),
        ControllerAction::Broadcast(ControlCommand::Play)
    );
    assert!(ctl.is_forwarding());
    assert!(!ctl.is_finished());
    assert_eq!(ctl.selection(), sel);
}

#[test]
fn closing_control_channel_ends_loop_while_paused() {
    let sel = StreamSelection { video_index: 0, audio_index: 1 };
    let mut ctl = DemuxerController::new(sel);
    ctl.step(ControllerEvent::Command(ControlCommand::Pause));
    assert_eq!(ctl.step(ControllerEvent::ControlClosed), ControllerAction::Exit);
    assert!(ctl.is_finished());
}

#[test]
fn end_of_stream_ends_loop() {
    let sel = StreamSelection { video_index: 2, audio_index: 0 };
    let mut ctl = DemuxerController::new(sel);
    assert_eq!(ctl.step(ControllerEvent::EndOfStream), ControllerAction::Exit);
    assert!(ctl.is_finished());
}
