use sonibox::leds::{led_response, sos_once, LedCommand, LedResponse, LedStep};
use sonibox::player::{PlayerCommand, PlayerStatus};
use sonibox::rfid::{on_resume, CardReader};
use sonibox::leds::LedController;
use sonibox::sleep::{DeviceStatus, SleepAction, SleepPhase, SleepTimer, IDLE_TIME_MS};

#[test]
fn led_responses() {
    assert_eq!(led_response(LedCommand::Error), LedResponse::SosForever);
    assert_eq!(led_response(LedCommand::Off), LedResponse::AllOff);
    assert_eq!(led_response(LedCommand::AllOn), LedResponse::AllOn);
    assert_eq!(led_response(LedCommand::OnlyPlay), LedResponse::OnlyPlay);
    assert_eq!(led_response(LedCommand::InvalidCommand), LedResponse::Unchanged);
}

#[test]
fn sos_pattern_shape_and_timing() {
    let steps = sos_once();
    assert_eq!(steps.len(), 39);
    let total: u64 = steps
        .iter()
        .map(|s| match s {
            LedStep::Hold(ms) => *ms,
            LedStep::Lights(_) => 0,
        })
        .sum();
    assert_eq!(total, 7500);
    assert_eq!(&steps[0..4], &[LedStep::Lights(true), LedStep::Hold(250), LedStep::Lights(false), LedStep::Hold(250)]);
    assert_eq!(steps[12], LedStep::Hold(500));
    assert_eq!(&steps[13..17], &[LedStep::Lights(true), LedStep::Hold(750), LedStep::Lights(false), LedStep::Hold(250)]);
    assert_eq!(steps[38], LedStep::Hold(500));
    assert_eq!(steps[36], LedStep::Lights(false));
    let flashes = steps.iter().filter(|s| **s == LedStep::Lights(true)).count();
    assert_eq!(flashes, 9);
}

#[test]
fn sleep_waits_for_the_rest_of_the_idle_time() {
    let mut t = SleepTimer::new(1_000);
    assert_eq!(t.check(1_000), SleepAction::WaitAwakeOrTimeout(IDLE_TIME_MS));
    assert_eq!(t.check(61_000), SleepAction::WaitAwakeOrTimeout(240_000));
    assert_eq!(t.on_stay_awake(100_000), SleepAction::CheckAgain);
    assert_eq!(t.last_activity(), 100_000);
    assert_eq!(t.check(100_000), SleepAction::WaitAwakeOrTimeout(300_000));
}

#[test]
fn sleep_only_when_player_stopped() {
    let mut t = SleepTimer::new(0);
    assert_eq!(t.check(300_000), SleepAction::QueryPlayerStatus);
    assert_eq!(t.phase(), SleepPhase::AwaitingStatus);
    assert_eq!(t.on_player_status(PlayerStatus::Playing, 300_001), SleepAction::CheckAgain);
    assert_eq!(t.phase(), SleepPhase::Counting);
    assert_eq!(t.last_activity(), 300_001);
    assert_eq!(t.check(600_001), SleepAction::QueryPlayerStatus);
    assert_eq!(t.on_player_status(PlayerStatus::Paused, 600_002), SleepAction::CheckAgain);
    assert_eq!(t.check(900_002), SleepAction::QueryPlayerStatus);
    assert_eq!(t.on_player_status(PlayerStatus::Stopped, 900_003), SleepAction::GoToSleep);
    assert_eq!(t.phase(), SleepPhase::Asleep);
    assert_eq!(t.on_stay_awake(2_000_000), SleepAction::AnnounceAwake);
    assert_eq!(t.phase(), SleepPhase::Counting);
    assert_eq!(t.check(2_000_000), SleepAction::WaitAwakeOrTimeout(IDLE_TIME_MS));
}

#[test]
fn reader_sends_folder_once_and_stop_on_removal() {
    let mut r = CardReader::new();
    let known = [0xBE, 0x56, 0xE8, 0xC1];
    let c = r.on_card(&known);
    assert!(c.stay_awake);
    assert_eq!(c.command, Some(PlayerCommand::PlayFolder(4)));
    assert_eq!(r.current(), Some(4));
    let c = r.on_card(&known);
    assert!(!c.stay_awake);
    assert_eq!(c.command, None);
    let c = r.on_no_card();
    assert!(c.stay_awake);
    assert_eq!(c.command, Some(PlayerCommand::Stop));
    let c = r.on_no_card();
    assert!(!c.stay_awake);
    assert_eq!(c.command, None);
    assert_eq!(r.current(), None);
}

#[test]
fn reader_forgets_figure_on_unknown_card() {
    let mut r = CardReader::new();
    r.on_card(&[0x95, 0xE0, 0x7D, 0x6C]);
    assert_eq!(r.current(), Some(2));
    let c = r.on_card(&[1, 2, 3, 4]);
    assert_eq!(c.command, None);
    assert!(!c.stay_awake);
    assert_eq!(r.current(), None);
    let c = r.on_no_card();
    assert_eq!(c.command, None);
}

#[test]
fn reader_switches_figures() {
    let mut r = CardReader::new();
    assert_eq!(r.on_card(&[0x2E, 0x52, 0xE8, 0xC1]).command, Some(PlayerCommand::PlayFolder(1)));
    assert_eq!(r.on_card(&[0x1E, 0x16, 0xE8, 0xC1]).command, Some(PlayerCommand::PlayFolder(9)));
    assert_eq!(r.on_card(&[0xCE, 0x46, 0xE8, 0xC1]).command, Some(PlayerCommand::PlayFolder(2)));
    // a development card selecting the same folder as the figure on the reader sends nothing
    assert_eq!(r.on_card(&[0x95, 0xE0, 0x7D, 0x6C]).command, None);
}

#[test]
fn resume_after_sleep_signal() {
    let r = on_resume(DeviceStatus::Sleeping);
    assert!(r.signal_sleeping);
    assert_eq!(r.led, Some(LedCommand::Error));
    let r = on_resume(DeviceStatus::Awake);
    assert!(!r.signal_sleeping);
    assert_eq!(r.led, None);
}

#[test]
fn paused_reader_sends_nothing_until_resumed() {
    let mut r = CardReader::new();
    assert!(r.polls());
    assert_eq!(r.on_card(&[0x3E, 0x43, 0xE8, 0xC1]).command, Some(PlayerCommand::PlayFolder(3)));
    r.pause();
    assert!(!r.polls());
    let c = r.on_no_card();
    assert_eq!(c.command, None);
    assert!(!c.stay_awake);
    let c = r.on_card(&[0x2E, 0x52, 0xE8, 0xC1]);
    assert_eq!(c.command, None);
    assert_eq!(r.current(), Some(3));
    let reaction = r.resume(DeviceStatus::Awake);
    assert!(!reaction.signal_sleeping);
    assert_eq!(reaction.led, None);
    assert!(r.polls());
    assert_eq!(r.on_no_card().command, Some(PlayerCommand::Stop));
    r.pause();
    let reaction = r.resume(DeviceStatus::Sleeping);
    assert!(reaction.signal_sleeping);
    assert_eq!(reaction.led, Some(LedCommand::Error));
    assert!(r.polls());
}

#[test]
fn sos_is_final() {
    let mut c = LedController::new();
    assert!(c.reads_commands());
    assert_eq!(c.on_command(LedCommand::AllOn), LedResponse::AllOn);
    assert_eq!(c.on_command(LedCommand::Off), LedResponse::AllOff);
    assert!(c.reads_commands());
    assert_eq!(c.on_command(LedCommand::Error), LedResponse::SosForever);
    assert!(!c.reads_commands());
    assert_eq!(c.on_command(LedCommand::Off), LedResponse::SosForever);
    assert_eq!(c.on_command(LedCommand::AllOn), LedResponse::SosForever);
    assert!(!c.reads_commands());
}
