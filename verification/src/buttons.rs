//! The three buttons, each with a short and a long press, and the commands they send.
use vstd::prelude::*;
use crate::player::PlayerCommand;

verus! {

/// How long a button level needs to settle, in milliseconds.
pub const DEBOUNCE_MS: u64 = 200;

/// How long a button must be held for its secondary action, in milliseconds;
/// held longer, the secondary action repeats after each such period.
pub const SECONDARY_ACTION_TIMEOUT_MS: u64 = 1000;

/// The kind of a button.
#[derive(Debug, Clone, Copy, PartialEq, Eq, Structural)]
pub enum ButtonType {
    /// Next track (short press), volume up (long press).
    Next,
    /// Previous track (short press), volume down (long press).
    Previous,
    /// Play or pause (short press), nothing (long press).
    PlayPause,
}

/// Where a button is within one press.
#[derive(Debug, Clone, Copy, PartialEq, Eq, Structural)]
pub enum ButtonPhase {
    /// Not pressed; the next level is the one read after the press settled.
    Idle,
    /// Held past the debounce time; `secondary` once a secondary-action period
    /// passed during this press, so that the release sends no primary command.
    Held { secondary: bool },
}

/// What the button task waits for after a decision.
#[derive(Debug, Clone, Copy, PartialEq, Eq, Structural)]
pub enum ButtonWait {
    /// The press is handled: wait for the next press, `DEBOUNCE_MS`, then read the level.
    NextPress,
    /// Wait `DEBOUNCE_MS`; then the press is handled and the next one is awaited.
    SettleThenNextPress,
    /// Wait until the button is released or `SECONDARY_ACTION_TIMEOUT_MS` passed, then read the level.
    ReleaseOrTimeout,
}

/// The answer of a button to the level it read.
#[derive(Debug, Clone, Copy, PartialEq, Eq, Structural)]
pub struct ButtonReaction {
    /// The command to send to the player, if any.
    pub command: Option<PlayerCommand>,
    /// What to wait for next.
    pub wait: ButtonWait,
}

/// A button with a short and a long press.
pub struct DualUseButton {
    button_type: ButtonType,
    phase: ButtonPhase,
}

/// The command of a short press.
pub open spec fn spec_primary(t: ButtonType) -> PlayerCommand {
    match t {
        ButtonType::Next => PlayerCommand::Next,
        ButtonType::Previous => PlayerCommand::Previous,
        ButtonType::PlayPause => PlayerCommand::PlayPause,
    }
}

/// The command of a long press, sent once per secondary-action period while the button
/// is held; play/pause has none.
pub open spec fn spec_secondary(t: ButtonType) -> Option<PlayerCommand> {
    match t {
        ButtonType::Next => Some(PlayerCommand::VolumeUp),
        ButtonType::Previous => Some(PlayerCommand::VolumeDown),
        ButtonType::PlayPause => None,
    }
}

/// How a button of type `t` in `phase` answers the level it read (`released` when the
/// level is high): its next phase, the command it sends and what it waits for next.
pub open spec fn spec_button_step(t: ButtonType, phase: ButtonPhase, released: bool) -> (
    ButtonPhase,
    ButtonReaction,
) {
    match phase {
        ButtonPhase::Idle => if released {
            // pressed and released quickly
            (ButtonPhase::Idle, ButtonReaction { command: Some(spec_primary(t)), wait: ButtonWait::NextPress })
        } else {
            (
                ButtonPhase::Held { secondary: false },
                ButtonReaction { command: None, wait: ButtonWait::ReleaseOrTimeout },
            )
        },
        ButtonPhase::Held { secondary } => if released {
            (
                ButtonPhase::Idle,
                ButtonReaction {
                    command: if secondary { None } else { Some(spec_primary(t)) },
                    wait: ButtonWait::SettleThenNextPress,
                },
            )
        } else {
            (
                ButtonPhase::Held { secondary: true },
                ButtonReaction { command: spec_secondary(t), wait: ButtonWait::ReleaseOrTimeout },
            )
        },
    }
}

impl DualUseButton {
    /// A button of type `button_type`, not pressed.
    pub fn new(button_type: ButtonType) -> (b: DualUseButton)
        ensures
            b.button_type() == button_type,
            b.phase() == ButtonPhase::Idle,
    {
        DualUseButton { button_type, phase: ButtonPhase::Idle }
    }

    /// The type of the button.
    pub closed spec fn button_type(&self) -> ButtonType {
        self.button_type
    }

    /// Where the button is within a press.
    pub closed spec fn phase(&self) -> ButtonPhase {
        self.phase
    }

    /// The type of the button.
    pub fn kind(&self) -> (r: ButtonType)
        ensures
            r == self.button_type(),
    {
        self.button_type
    }

    /// Where the button is within a press.
    pub fn current_phase(&self) -> (r: ButtonPhase)
        ensures
            r == self.phase(),
    {
        self.phase
    }

    /// Answers the level read after the last wait (`released` when it is high).
    pub fn on_level(&mut self, released: bool) -> (r: ButtonReaction)
        ensures
            final(self).button_type() == old(self).button_type(),
            (final(self).phase(), r) == spec_button_step(old(self).button_type(), old(self).phase(), released),
    {
        let t = self.button_type;
        match self.phase {
            ButtonPhase::Idle => {
                if released {
                    ButtonReaction { command: Some(primary(t)), wait: ButtonWait::NextPress }
                } else {
                    self.phase = ButtonPhase::Held { secondary: false };
                    ButtonReaction { command: None, wait: ButtonWait::ReleaseOrTimeout }
                }
            },
            ButtonPhase::Held { secondary } => {
                if released {
                    self.phase = ButtonPhase::Idle;
                    let command = if secondary {
                        None
                    } else {
                        Some(primary(t))
                    };
                    ButtonReaction { command, wait: ButtonWait::SettleThenNextPress }
                } else {
                    self.phase = ButtonPhase::Held { secondary: true };
                    ButtonReaction { command: secondary_command(t), wait: ButtonWait::ReleaseOrTimeout }
                }
            },
        }
    }
}

/// The command of a short press.
pub fn primary(t: ButtonType) -> (c: PlayerCommand)
    ensures
        c == spec_primary(t),
{
    match t {
        ButtonType::Next => PlayerCommand::Next,
        ButtonType::Previous => PlayerCommand::Previous,
        ButtonType::PlayPause => PlayerCommand::PlayPause,
    }
}

/// The command of a long press, if the button has one.
pub fn secondary_command(t: ButtonType) -> (c: Option<PlayerCommand>)
    ensures
        c == spec_secondary(t),
{
    match t {
        ButtonType::Next => Some(PlayerCommand::VolumeUp),
        ButtonType::Previous => Some(PlayerCommand::VolumeDown),
        ButtonType::PlayPause => None,
    }
}

/// The commands a button of type `t` sends, in order, when it starts in `phase` and reads
/// the levels `levels` one after another (`true` for released), and its phase afterwards.
pub open spec fn spec_button_run(t: ButtonType, phase: ButtonPhase, levels: Seq<bool>) -> (
    ButtonPhase,
    Seq<PlayerCommand>,
)
    decreases levels.len(),
{
    if levels.len() == 0 {
        (phase, Seq::empty())
    } else {
        let (next, reaction) = spec_button_step(t, phase, levels[0]);
        let (last, commands) = spec_button_run(t, next, levels.drop_first());
        (
            last,
            match reaction.command {
                Some(c) => seq![c] + commands,
                None => commands,
            },
        )
    }
}

/// The levels read during one press held through `timeouts` secondary-action periods:
/// still pressed after the debounce time, still pressed at each timeout, then released.
pub open spec fn spec_held_press(timeouts: nat) -> Seq<bool> {
    seq![false] + Seq::new(timeouts, |i: int| false) + seq![true]
}

/// `command` sent `n` times, or nothing when there is no command.
pub open spec fn spec_repeat(command: Option<PlayerCommand>, n: nat) -> Seq<PlayerCommand> {
    match command {
        Some(c) => Seq::new(n, |i: int| c),
        None => Seq::empty(),
    }
}

proof fn lemma_held_run(t: ButtonType, secondary: bool, timeouts: nat)
    ensures
        spec_button_run(t, ButtonPhase::Held { secondary }, Seq::new(timeouts, |i: int| false) + seq![true])
            == (
            ButtonPhase::Idle,
            spec_repeat(spec_secondary(t), timeouts) + if secondary || timeouts > 0 {
                Seq::<PlayerCommand>::empty()
            } else {
                seq![spec_primary(t)]
            },
        ),
    decreases timeouts,
{
    let levels = Seq::new(timeouts, |i: int| false) + seq![true];
    let e = Seq::<PlayerCommand>::empty();
    if timeouts == 0 {
        assert(levels =~= seq![true]);
        assert(levels.drop_first() =~= Seq::<bool>::empty());
        assert(spec_button_run(t, ButtonPhase::Idle, levels.drop_first()) == (ButtonPhase::Idle, e));
        assert(spec_repeat(spec_secondary(t), 0) =~= e);
        assert(e + e =~= e);
        assert(seq![spec_primary(t)] + e =~= seq![spec_primary(t)]);
        assert(e + seq![spec_primary(t)] =~= seq![spec_primary(t)]);
    } else {
        let k = (timeouts - 1) as nat;
        lemma_held_run(t, true, k);
        assert(levels[0] == false);
        assert(levels.drop_first() =~= Seq::new(k, |i: int| false) + seq![true]);
        match spec_secondary(t) {
            Some(c) => {
                assert(seq![c] + (Seq::new(k, |i: int| c) + e) =~= Seq::new(timeouts, |i: int| c) + e);
            },
            None => {},
        }
    }
}

/// A short press, released before the debounce time passed, sends the button's
/// primary command once and leaves the button ready for the next press.
pub proof fn lemma_short_press(t: ButtonType)
    ensures
        spec_button_run(t, ButtonPhase::Idle, seq![true]) == (ButtonPhase::Idle, seq![spec_primary(t)]),
{
    assert(seq![true].drop_first() =~= Seq::<bool>::empty());
    assert(spec_button_run(t, ButtonPhase::Idle, seq![true].drop_first()) == (ButtonPhase::Idle, Seq::<PlayerCommand>::empty()));
    assert(seq![spec_primary(t)] + Seq::<PlayerCommand>::empty() =~= seq![spec_primary(t)]);
}

/// A button held past the debounce time: released before the first secondary-action
/// period ends it sends its primary command once; held through `timeouts` periods it
/// sends its secondary command once per period (next: volume up, previous: volume down,
/// play/pause: nothing) and never the primary command.
pub proof fn lemma_held_press(t: ButtonType, timeouts: nat)
    ensures
        spec_button_run(t, ButtonPhase::Idle, spec_held_press(timeouts)) == (
            ButtonPhase::Idle,
            if timeouts == 0 {
                seq![spec_primary(t)]
            } else {
                spec_repeat(spec_secondary(t), timeouts)
            },
        ),
{
    let levels = spec_held_press(timeouts);
    let e = Seq::<PlayerCommand>::empty();
    assert(levels[0] == false);
    assert(levels.drop_first() =~= Seq::new(timeouts, |i: int| false) + seq![true]);
    lemma_held_run(t, false, timeouts);
    if timeouts == 0 {
        assert(spec_repeat(spec_secondary(t), 0) =~= e);
        assert(e + seq![spec_primary(t)] =~= seq![spec_primary(t)]);
    } else {
        assert(spec_repeat(spec_secondary(t), timeouts) + e =~= spec_repeat(spec_secondary(t), timeouts));
    }
}

/// Play/pause held past the secondary-action period does nothing: no command is sent,
/// not even on release.
pub proof fn lemma_long_play_pause_does_nothing(timeouts: nat)
    requires
        timeouts > 0,
    ensures
        spec_button_run(ButtonType::PlayPause, ButtonPhase::Idle, spec_held_press(timeouts)) == (
            ButtonPhase::Idle,
            Seq::<PlayerCommand>::empty(),
        ),
{
    lemma_held_press(ButtonType::PlayPause, timeouts);
}

/// What each button does with each level it reads, phase by phase:
/// - ready for a press: released after the debounce time, it sends its primary command
///   (next, previous, play/pause) and waits for the next press; still pressed, it sends
///   nothing and waits up to one secondary-action period for the release;
/// - held: still pressed at the end of a period, it sends its long-press command (next:
///   volume up, previous: volume down, play/pause: nothing), marks the press as long and
///   waits for the next period; released, it sends its primary command only if no period
///   ended during the press, then lets the level settle.
pub proof fn lemma_button_table(t: ButtonType, secondary: bool)
    ensures
        spec_button_step(t, ButtonPhase::Idle, true) == (
            ButtonPhase::Idle,
            ButtonReaction {
                command: Some(
                    match t {
                        ButtonType::Next => PlayerCommand::Next,
                        ButtonType::Previous => PlayerCommand::Previous,
                        ButtonType::PlayPause => PlayerCommand::PlayPause,
                    },
                ),
                wait: ButtonWait::NextPress,
            },
        ),
        spec_button_step(t, ButtonPhase::Idle, false) == (
            ButtonPhase::Held { secondary: false },
            ButtonReaction { command: None, wait: ButtonWait::ReleaseOrTimeout },
        ),
        spec_button_step(t, ButtonPhase::Held { secondary }, false) == (
            ButtonPhase::Held { secondary: true },
            ButtonReaction {
                command: match t {
                    ButtonType::Next => Some(PlayerCommand::VolumeUp),
                    ButtonType::Previous => Some(PlayerCommand::VolumeDown),
                    ButtonType::PlayPause => None,
                },
                wait: ButtonWait::ReleaseOrTimeout,
            },
        ),
        spec_button_step(t, ButtonPhase::Held { secondary: false }, true) == (
            ButtonPhase::Idle,
            ButtonReaction {
                command: Some(
                    match t {
                        ButtonType::Next => PlayerCommand::Next,
                        ButtonType::Previous => PlayerCommand::Previous,
                        ButtonType::PlayPause => PlayerCommand::PlayPause,
                    },
                ),
                wait: ButtonWait::SettleThenNextPress,
            },
        ),
        spec_button_step(t, ButtonPhase::Held { secondary: true }, true) == (
            ButtonPhase::Idle,
            ButtonReaction { command: None, wait: ButtonWait::SettleThenNextPress },
        ),
{
}

/// While a button stays pressed it always waits a whole secondary-action period (or the
/// release) before it reads the level again, so long-press commands come at most once
/// per period.
pub proof fn lemma_pressed_waits_for_release_or_timeout(t: ButtonType, phase: ButtonPhase)
    ensures
        spec_button_step(t, phase, false).1.wait == ButtonWait::ReleaseOrTimeout,
        spec_button_step(t, phase, false).0 is Held,
{
}

} // verus!
