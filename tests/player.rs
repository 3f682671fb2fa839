use media_player::clock::SharedClock;
use media_player::player::{apply_command_to_clock, PlayerControl};
use media_player::ControlCommand;

#[test]
fn player_starts_playing() {
    let p = PlayerControl::new();
    assert!(p.is_playing());
}

#[test]
fn toggle_pauses_then_plays() {
    let mut clock = SharedClock::new();
    clock.start_at(10);
    let mut p = PlayerControl::new();
    let (cmd, reported) = p.toggle_pause_playing(&mut clock);
    assert_eq!(cmd, ControlCommand::Pause);
    assert!(!reported);
    assert!(!p.is_playing());
    assert!(!clock.is_playing());
    assert_eq!(clock.elapsed_at(20), None);
    let (cmd, reported) = p.toggle_pause_playing(&mut clock);
    assert_eq!(cmd, ControlCommand::Play);
    assert!(reported);
    assert!(p.is_playing());
    assert_eq!(clock.elapsed_at(20), Some(10));
}

#[test]
fn even_number_of_toggles_restores_state() {
    let mut clock = SharedClock::new();
    clock.start_at(0);
    let mut p = PlayerControl::new();
    let mut reports = Vec::new();
    for _ in 0..6 {
        let (_, reported) = p.toggle_pause_playing(&mut clock);
        reports.push(reported);
    }
    assert!(p.is_playing());
    assert!(clock.is_playing());
    assert_eq!(clock.elapsed_at(7), Some(7));
    assert_eq!(reports, vec![false, true, false, true, false, true]);
}

#[test]
fn stop_pauses_player_and_clock() {
    let mut clock = SharedClock::new();
    clock.start_at(0);
    let mut p = PlayerControl::new();
    p.stop(&mut clock);
    assert!(!p.is_playing());
    assert!(!clock.is_playing());
    assert_eq!(clock.elapsed_at(5), None);
}

#[test]
fn commands_drive_the_clock() {
    let mut clock = SharedClock::new();
    clock.start_at(3);
    apply_command_to_clock(&mut clock, ControlCommand::Pause);
    assert!(!clock.is_playing());
    apply_command_to_clock(&mut clock, ControlCommand::Play);
    assert!(clock.is_playing());
    assert_eq!(clock.elapsed_at(4), Some(1));
}
