use sonibox::buttons::{ButtonPhase, ButtonType, ButtonWait, DualUseButton};
use sonibox::player::PlayerCommand;

fn run(t: ButtonType, levels: &[bool]) -> (Vec<PlayerCommand>, Vec<ButtonWait>) {
    let mut b = DualUseButton::new(t);
    let mut commands = Vec::new();
    let mut waits = Vec::new();
    for &released in levels {
        let r = b.on_level(released);
        if let Some(c) = r.command {
            commands.push(c);
        }
        waits.push(r.wait);
    }
    assert_eq!(b.current_phase(), ButtonPhase::Idle);
    (commands, waits)
}

#[test]
fn short_presses_send_primary_commands() {
    assert_eq!(run(ButtonType::Next, &[true]), (vec![PlayerCommand::Next], vec![ButtonWait::NextPress]));
    assert_eq!(run(ButtonType::Previous, &[true]).0, vec![PlayerCommand::Previous]);
    assert_eq!(run(ButtonType::PlayPause, &[true]).0, vec![PlayerCommand::PlayPause]);
}

#[test]
fn next_released_before_timeout_sends_next() {
    assert_eq!(
        run(ButtonType::Next, &[false, true]),
        (
            vec![PlayerCommand::Next],
            vec![ButtonWait::ReleaseOrTimeout, ButtonWait::SettleThenNextPress]
        )
    );
}

#[test]
fn long_next_raises_volume_per_period() {
    assert_eq!(
        run(ButtonType::Next, &[false, false, false, false, true]).0,
        vec![PlayerCommand::VolumeUp, PlayerCommand::VolumeUp, PlayerCommand::VolumeUp]
    );
}

#[test]
fn long_previous_lowers_volume_per_period() {
    assert_eq!(
        run(ButtonType::Previous, &[false, false, true]).0,
        vec![PlayerCommand::VolumeDown]
    );
}

#[test]
fn play_pause_released_before_timeout_sends_once() {
    assert_eq!(
        run(ButtonType::PlayPause, &[false, true]),
        (
            vec![PlayerCommand::PlayPause],
            vec![ButtonWait::ReleaseOrTimeout, ButtonWait::SettleThenNextPress]
        )
    );
}

#[test]
fn long_play_pause_sends_nothing() {
    assert_eq!(
        run(ButtonType::PlayPause, &[false, false, false, true]),
        (
            vec![],
            vec![
                ButtonWait::ReleaseOrTimeout,
                ButtonWait::ReleaseOrTimeout,
                ButtonWait::ReleaseOrTimeout,
                ButtonWait::SettleThenNextPress
            ]
        )
    );
}

#[test]
fn button_keeps_its_kind() {
    let mut b = DualUseButton::new(ButtonType::Previous);
    b.on_level(false);
    assert_eq!(b.current_phase(), ButtonPhase::Held { secondary: false });
    b.on_level(false);
    assert_eq!(b.current_phase(), ButtonPhase::Held { secondary: true });
    assert_eq!(b.kind(), ButtonType::Previous);
}
