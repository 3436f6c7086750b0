use sonibox::leds::LedCommand;
use sonibox::player::{
    timeout_elapsed, DeviceRequest, TIMEOUT_MS_MAX, Player, PlayerAction, PlayerCommand, PlayerStatus, Volume,
    VOLUME_MAX, VOLUME_START,
};

#[test]
fn status_predicates() {
    assert!(PlayerStatus::Playing.is_playing());
    assert!(!PlayerStatus::Paused.is_playing());
    assert!(!PlayerStatus::Stopped.is_playing());
    assert!(PlayerStatus::Stopped.is_stopped());
    assert!(!PlayerStatus::Paused.is_stopped());
    assert!(!PlayerStatus::Playing.is_stopped());
}

#[test]
fn status_changes() {
    let mut s = PlayerStatus::Stopped;
    s.play();
    assert_eq!(s, PlayerStatus::Playing);
    s.pause();
    assert_eq!(s, PlayerStatus::Paused);
    s.stop();
    assert_eq!(s, PlayerStatus::Stopped);
}

#[test]
fn volume_starts_at_fifteen_and_stays_in_range() {
    let mut v = Volume::new();
    assert_eq!(v.current(), 15);
    v.increase_volume();
    assert_eq!(v.current(), 16);
    for _ in 0..40 {
        v.increase_volume();
    }
    assert_eq!(v.current(), 30);
    v.decrease_volume();
    assert_eq!(v.current(), 29);
    for _ in 0..40 {
        v.decrease_volume();
    }
    assert_eq!(v.current(), 0);
    v.decrease_volume();
    assert_eq!(v.current(), 0);
}

#[test]
fn new_player_is_stopped() {
    let p = Player::new();
    assert_eq!(p.status(), PlayerStatus::Stopped);
    assert_eq!(p.volume(), VOLUME_START);
    assert_eq!(p.last_played(), None);
}

#[test]
fn startup_sets_volume_or_signals_error() {
    let p = Player::new();
    assert_eq!(
        p.startup_actions(true),
        vec![PlayerAction::Wait(100), PlayerAction::Device(DeviceRequest::SetVolume(15))]
    );
    assert_eq!(p.startup_actions(false), vec![PlayerAction::Led(LedCommand::Error)]);
}

#[test]
fn play_folder_then_same_figure_resumes() {
    let mut p = Player::new();
    assert_eq!(
        p.handle(PlayerCommand::PlayFolder(3)),
        vec![
            PlayerAction::Led(LedCommand::AllOn),
            PlayerAction::Device(DeviceRequest::PlayLoopFolder(3))
        ]
    );
    assert_eq!(p.status(), PlayerStatus::Playing);
    assert_eq!(p.last_played(), Some(3));
    assert_eq!(
        p.handle(PlayerCommand::Stop),
        vec![PlayerAction::Led(LedCommand::Off), PlayerAction::Device(DeviceRequest::Pause)]
    );
    assert_eq!(p.status(), PlayerStatus::Stopped);
    assert_eq!(
        p.handle(PlayerCommand::PlayFolder(3)),
        vec![PlayerAction::Led(LedCommand::AllOn), PlayerAction::Device(DeviceRequest::Resume)]
    );
    assert_eq!(p.status(), PlayerStatus::Playing);
    assert_eq!(
        p.handle(PlayerCommand::PlayFolder(5)),
        vec![
            PlayerAction::Led(LedCommand::AllOn),
            PlayerAction::Device(DeviceRequest::PlayLoopFolder(5))
        ]
    );
    assert_eq!(p.last_played(), Some(5));
}

#[test]
fn play_pause_toggles_and_is_invalid_when_stopped() {
    let mut p = Player::new();
    assert_eq!(
        p.handle(PlayerCommand::PlayPause),
        vec![PlayerAction::Led(LedCommand::InvalidCommand)]
    );
    assert_eq!(p.status(), PlayerStatus::Stopped);
    p.handle(PlayerCommand::PlayFolder(1));
    assert_eq!(
        p.handle(PlayerCommand::PlayPause),
        vec![PlayerAction::Led(LedCommand::OnlyPlay), PlayerAction::Device(DeviceRequest::Pause)]
    );
    assert_eq!(p.status(), PlayerStatus::Paused);
    assert_eq!(
        p.handle(PlayerCommand::PlayPause),
        vec![PlayerAction::Led(LedCommand::AllOn), PlayerAction::Device(DeviceRequest::Resume)]
    );
    assert_eq!(p.status(), PlayerStatus::Playing);
}

#[test]
fn next_previous_volume_only_while_playing() {
    let mut p = Player::new();
    assert_eq!(p.handle(PlayerCommand::Next), vec![]);
    assert_eq!(p.handle(PlayerCommand::Previous), vec![]);
    assert_eq!(p.handle(PlayerCommand::VolumeUp), vec![]);
    assert_eq!(p.handle(PlayerCommand::VolumeDown), vec![]);
    assert_eq!(p.volume(), 15);
    p.handle(PlayerCommand::PlayFolder(2));
    assert_eq!(p.handle(PlayerCommand::Next), vec![PlayerAction::Device(DeviceRequest::Next)]);
    assert_eq!(
        p.handle(PlayerCommand::Previous),
        vec![PlayerAction::Device(DeviceRequest::Previous)]
    );
    assert_eq!(
        p.handle(PlayerCommand::VolumeUp),
        vec![PlayerAction::Device(DeviceRequest::SetVolume(16))]
    );
    assert_eq!(
        p.handle(PlayerCommand::VolumeDown),
        vec![PlayerAction::Device(DeviceRequest::SetVolume(15))]
    );
    p.handle(PlayerCommand::PlayPause);
    assert_eq!(p.handle(PlayerCommand::VolumeUp), vec![]);
    assert_eq!(p.volume(), 15);
}

#[test]
fn volume_saturates_while_playing() {
    let mut p = Player::new();
    p.handle(PlayerCommand::PlayFolder(2));
    for _ in 0..20 {
        p.handle(PlayerCommand::VolumeUp);
    }
    assert_eq!(p.volume(), VOLUME_MAX);
    assert_eq!(
        p.handle(PlayerCommand::VolumeUp),
        vec![PlayerAction::Device(DeviceRequest::SetVolume(30))]
    );
    for _ in 0..40 {
        p.handle(PlayerCommand::VolumeDown);
    }
    assert_eq!(p.volume(), 0);
    assert_eq!(
        p.handle(PlayerCommand::VolumeDown),
        vec![PlayerAction::Device(DeviceRequest::SetVolume(0))]
    );
}

#[test]
fn status_query_reports_without_change() {
    let mut p = Player::new();
    assert_eq!(
        p.handle(PlayerCommand::GetStatus),
        vec![PlayerAction::ReportStatus(PlayerStatus::Stopped)]
    );
    p.handle(PlayerCommand::PlayFolder(4));
    p.handle(PlayerCommand::PlayPause);
    assert_eq!(
        p.handle(PlayerCommand::GetStatus),
        vec![PlayerAction::ReportStatus(PlayerStatus::Paused)]
    );
    assert_eq!(p.status(), PlayerStatus::Paused);
    assert_eq!(p.last_played(), Some(4));
}

#[test]
fn timeout_is_measured_in_clock_ticks() {
    // at the default rate of one million ticks per second a millisecond is a thousand ticks
    assert!(!timeout_elapsed(0, 500, 1));
    assert!(timeout_elapsed(0, 1000, 1));
    assert!(!timeout_elapsed(2_000, 1_001_999, 1000));
    assert!(timeout_elapsed(2_000, 1_002_000, 1000));
    assert!(timeout_elapsed(7, 7, 0));
    assert!(timeout_elapsed(0, u64::MAX, TIMEOUT_MS_MAX));
    assert!(!timeout_elapsed(0, 2_999_999_999_999_999, 3_000_000_000_000));
}
