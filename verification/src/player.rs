//! The player: how each command changes the playback state and what it asks of the
//! audio module, the LEDs and the status channel.
use vstd::prelude::*;
use crate::leds::LedCommand;

verus! {

/// A command for the player task.
#[derive(Debug, Clone, Copy, PartialEq, Eq, Structural)]
pub enum PlayerCommand {
    /// Play a specific folder.
    PlayFolder(u8),
    /// Play after a pause, or pause while playing.
    PlayPause,
    /// Stop playback.
    Stop,
    /// Play the next track.
    Next,
    /// Play the previous track.
    Previous,
    /// Increase the volume.
    VolumeUp,
    /// Decrease the volume.
    VolumeDown,
    /// Report the player status on the status channel.
    GetStatus,
}

/// The playback status.
#[derive(Debug, Clone, Copy, PartialEq, Eq, Structural)]
pub enum PlayerStatus {
    /// Playing; can be paused (button) or stopped (figure removed).
    Playing,
    /// Playback is paused but the figure is still present.
    Paused,
    /// Playback is stopped because there is no figure.
    Stopped,
}

impl PlayerStatus {
    /// Whether the player is playing.
    pub fn is_playing(&self) -> (r: bool)
        ensures
            r == (*self == PlayerStatus::Playing),
    {
        match self {
            PlayerStatus::Playing => true,
            _ => false,
        }
    }

    /// Whether the player is stopped.
    pub fn is_stopped(&self) -> (r: bool)
        ensures
            r == (*self == PlayerStatus::Stopped),
    {
        match self {
            PlayerStatus::Stopped => true,
            _ => false,
        }
    }

    /// Marks playback as paused.
    pub fn pause(&mut self)
        ensures
            *final(self) == PlayerStatus::Paused,
    {
        *self = PlayerStatus::Paused;
    }

    /// Marks playback as running.
    pub fn play(&mut self)
        ensures
            *final(self) == PlayerStatus::Playing,
    {
        *self = PlayerStatus::Playing;
    }

    /// Marks playback as stopped.
    pub fn stop(&mut self)
        ensures
            *final(self) == PlayerStatus::Stopped,
    {
        *self = PlayerStatus::Stopped;
    }
}

/// The highest volume the audio module takes.
pub const VOLUME_MAX: u8 = 30;

/// The volume the player starts with.
pub const VOLUME_START: u8 = 15;

/// The volume: at least 0 and at most `VOLUME_MAX`.
pub struct Volume {
    current: u8,
}

impl View for Volume {
    type V = u8;

    closed spec fn view(&self) -> u8 {
        self.current
    }
}

impl Volume {
    #[verifier::type_invariant]
    spec fn within_range(self) -> bool {
        self.current <= VOLUME_MAX
    }

    /// The starting volume.
    pub fn new() -> (v: Volume)
        ensures
            v@ == VOLUME_START,
    {
        Volume { current: VOLUME_START }
    }

    /// The current volume.
    pub fn current(&self) -> (r: u8)
        ensures
            r == self@,
            r <= VOLUME_MAX,
    {
        proof {
            use_type_invariant(self);
        }
        self.current
    }

    /// One step louder, unless the volume is at its maximum.
    pub fn increase_volume(&mut self)
        ensures
            final(self)@ == spec_volume_up(old(self)@),
            final(self)@ <= VOLUME_MAX,
            old(self)@ < VOLUME_MAX ==> final(self)@ == old(self)@ + 1,
            old(self)@ >= VOLUME_MAX ==> final(self)@ == old(self)@,
    {
        proof {
            use_type_invariant(&*self);
        }
        if self.current < VOLUME_MAX {
            self.current = self.current + 1;
        }
    }

    /// One step quieter, unless the volume is at 0.
    pub fn decrease_volume(&mut self)
        ensures
            final(self)@ == spec_volume_down(old(self)@),
            final(self)@ <= VOLUME_MAX,
            old(self)@ > 0 ==> final(self)@ == old(self)@ - 1,
            old(self)@ == 0 ==> final(self)@ == 0,
    {
        proof {
            use_type_invariant(&*self);
        }
        if self.current > 0 {
            self.current = self.current - 1;
        }
    }
}

/// The volume one step louder, kept at most `VOLUME_MAX`.
pub open spec fn spec_volume_up(v: u8) -> u8 {
    if v < VOLUME_MAX {
        (v + 1) as u8
    } else {
        v
    }
}

/// The volume one step quieter, kept at least 0.
pub open spec fn spec_volume_down(v: u8) -> u8 {
    if v > 0 {
        (v - 1) as u8
    } else {
        v
    }
}

/// A request to the audio module.
#[derive(Debug, Clone, Copy, PartialEq, Eq, Structural)]
pub enum DeviceRequest {
    /// Continue the paused playback.
    Resume,
    /// Pause the playback.
    Pause,
    /// Play the next track.
    Next,
    /// Play the previous track.
    Previous,
    /// Play the tracks of a folder, over and over.
    PlayLoopFolder(u8),
    /// Set the volume.
    SetVolume(u8),
}

/// What the player task does in answer to a command, in the order given.
#[derive(Debug, Clone, Copy, PartialEq, Eq, Structural)]
pub enum PlayerAction {
    /// Send a command to the LED task.
    Led(LedCommand),
    /// Send a request to the audio module.
    Device(DeviceRequest),
    /// Send the status on the status channel.
    ReportStatus(PlayerStatus),
    /// Wait the given number of milliseconds.
    Wait(u64),
}

/// How long the audio module is given to settle after it started, in milliseconds.
pub const SETTLE_MS: u64 = 100;

/// The state of the player as the contracts see it.
pub struct PlayerState {
    pub status: PlayerStatus,
    pub volume: u8,
    /// The folder played last, if any.
    pub last_played: Option<u8>,
}

/// The player: playback status, volume and the folder played last.
pub struct Player {
    status: PlayerStatus,
    volume: Volume,
    last_played: Option<u8>,
}

impl View for Player {
    type V = PlayerState;

    closed spec fn view(&self) -> PlayerState {
        PlayerState { status: self.status, volume: self.volume@, last_played: self.last_played }
    }
}

/// The state in which the player starts: stopped, at the starting volume, nothing played yet.
pub open spec fn spec_initial_player() -> PlayerState {
    PlayerState { status: PlayerStatus::Stopped, volume: VOLUME_START, last_played: None }
}

/// A state that a player can be in: the volume is within its range.
pub open spec fn valid_player_state(s: PlayerState) -> bool {
    s.volume <= VOLUME_MAX
}

/// `s` with the status `status`.
pub open spec fn with_status(s: PlayerState, status: PlayerStatus) -> PlayerState {
    PlayerState { status, volume: s.volume, last_played: s.last_played }
}

/// How the player answers `cmd` in state `s`: its next state and its actions, in order.
pub open spec fn spec_player_step(s: PlayerState, cmd: PlayerCommand) -> (PlayerState, Seq<PlayerAction>) {
    match cmd {
        PlayerCommand::PlayPause => match s.status {
            PlayerStatus::Paused => (
                with_status(s, PlayerStatus::Playing),
                seq![PlayerAction::Led(LedCommand::AllOn), PlayerAction::Device(DeviceRequest::Resume)],
            ),
            PlayerStatus::Playing => (
                with_status(s, PlayerStatus::Paused),
                seq![PlayerAction::Led(LedCommand::OnlyPlay), PlayerAction::Device(DeviceRequest::Pause)],
            ),
            PlayerStatus::Stopped => (s, seq![PlayerAction::Led(LedCommand::InvalidCommand)]),
        },
        // The status is stopped, but the module only pauses: the same figure continues.
        PlayerCommand::Stop => (
            with_status(s, PlayerStatus::Stopped),
            seq![PlayerAction::Led(LedCommand::Off), PlayerAction::Device(DeviceRequest::Pause)],
        ),
        PlayerCommand::Next => if s.status == PlayerStatus::Playing {
            (s, seq![PlayerAction::Device(DeviceRequest::Next)])
        } else {
            (s, Seq::empty())
        },
        PlayerCommand::Previous => if s.status == PlayerStatus::Playing {
            (s, seq![PlayerAction::Device(DeviceRequest::Previous)])
        } else {
            (s, Seq::empty())
        },
        PlayerCommand::PlayFolder(folder) => if s.last_played == Some(folder) {
            (
                with_status(s, PlayerStatus::Playing),
                seq![PlayerAction::Led(LedCommand::AllOn), PlayerAction::Device(DeviceRequest::Resume)],
            )
        } else {
            (
                PlayerState { status: PlayerStatus::Playing, volume: s.volume, last_played: Some(folder) },
                seq![
                    PlayerAction::Led(LedCommand::AllOn),
                    PlayerAction::Device(DeviceRequest::PlayLoopFolder(folder)),
                ],
            )
        },
        PlayerCommand::VolumeUp => if s.status == PlayerStatus::Playing {
            let v = spec_volume_up(s.volume);
            (
                PlayerState { status: s.status, volume: v, last_played: s.last_played },
                seq![PlayerAction::Device(DeviceRequest::SetVolume(v))],
            )
        } else {
            (s, Seq::empty())
        },
        PlayerCommand::VolumeDown => if s.status == PlayerStatus::Playing {
            let v = spec_volume_down(s.volume);
            (
                PlayerState { status: s.status, volume: v, last_played: s.last_played },
                seq![PlayerAction::Device(DeviceRequest::SetVolume(v))],
            )
        } else {
            (s, Seq::empty())
        },
        PlayerCommand::GetStatus => (s, seq![PlayerAction::ReportStatus(s.status)]),
    }
}

/// What the player does once the audio module answered its start-up: with the module
/// ready it lets it settle and sets the starting volume; without it it signals an error.
pub open spec fn spec_startup_actions(s: PlayerState, device_ready: bool) -> Seq<PlayerAction> {
    if device_ready {
        seq![PlayerAction::Wait(SETTLE_MS), PlayerAction::Device(DeviceRequest::SetVolume(s.volume))]
    } else {
        seq![PlayerAction::Led(LedCommand::Error)]
    }
}

impl Player {
    /// A stopped player at the starting volume that has played nothing yet.
    pub fn new() -> (p: Player)
        ensures
            p@ == spec_initial_player(),
    {
        Player { status: PlayerStatus::Stopped, volume: Volume::new(), last_played: None }
    }

    /// The playback status.
    pub fn status(&self) -> (r: PlayerStatus)
        ensures
            r == self@.status,
    {
        self.status
    }

    /// The current volume.
    pub fn volume(&self) -> (r: u8)
        ensures
            r == self@.volume,
            valid_player_state(self@),
    {
        self.volume.current()
    }

    /// The folder played last.
    pub fn last_played(&self) -> (r: Option<u8>)
        ensures
            r == self@.last_played,
    {
        self.last_played
    }

    /// What the player does once the audio module answered its start-up.
    /// Without the module (`device_ready` false) the player task ends after these actions.
    pub fn startup_actions(&self, device_ready: bool) -> (actions: Vec<PlayerAction>)
        ensures
            actions@ == spec_startup_actions(self@, device_ready),
    {
        let mut actions: Vec<PlayerAction> = Vec::new();
        if device_ready {
            actions.push(PlayerAction::Wait(SETTLE_MS));
            actions.push(PlayerAction::Device(DeviceRequest::SetVolume(self.volume.current())));
        } else {
            actions.push(PlayerAction::Led(LedCommand::Error));
        }
        assert(actions@ =~= spec_startup_actions(self@, device_ready));
        actions
    }

    /// Answers `cmd`: updates the state and returns the actions to carry out, in order.
    pub fn handle(&mut self, cmd: PlayerCommand) -> (actions: Vec<PlayerAction>)
        ensures
            (final(self)@, actions@) == spec_player_step(old(self)@, cmd),
            valid_player_state(old(self)@),
            valid_player_state(final(self)@),
    {
        proof {
            use_type_invariant(&self.volume);
        }
        let mut actions: Vec<PlayerAction> = Vec::new();
        match cmd {
            PlayerCommand::PlayPause => match self.status {
                PlayerStatus::Paused => {
                    actions.push(PlayerAction::Led(LedCommand::AllOn));
                    self.status.play();
                    actions.push(PlayerAction::Device(DeviceRequest::Resume));
                },
                PlayerStatus::Playing => {
                    actions.push(PlayerAction::Led(LedCommand::OnlyPlay));
                    self.status.pause();
                    actions.push(PlayerAction::Device(DeviceRequest::Pause));
                },
                PlayerStatus::Stopped => {
                    actions.push(PlayerAction::Led(LedCommand::InvalidCommand));
                },
            },
            PlayerCommand::Stop => {
                self.status.stop();
                actions.push(PlayerAction::Led(LedCommand::Off));
                actions.push(PlayerAction::Device(DeviceRequest::Pause));
            },
            PlayerCommand::Next => {
                if self.status.is_playing() {
                    actions.push(PlayerAction::Device(DeviceRequest::Next));
                }
            },
            PlayerCommand::Previous => {
                if self.status.is_playing() {
                    actions.push(PlayerAction::Device(DeviceRequest::Previous));
                }
            },
            PlayerCommand::PlayFolder(folder) => {
                actions.push(PlayerAction::Led(LedCommand::AllOn));
                self.status.play();
                let same = match self.last_played {
                    Some(last) => last == folder,
                    None => false,
                };
                if same {
                    actions.push(PlayerAction::Device(DeviceRequest::Resume));
                } else {
                    self.last_played = Some(folder);
                    actions.push(PlayerAction::Device(DeviceRequest::PlayLoopFolder(folder)));
                }
            },
            PlayerCommand::VolumeUp => {
                if self.status.is_playing() {
                    self.volume.increase_volume();
                    actions.push(PlayerAction::Device(DeviceRequest::SetVolume(self.volume.current())));
                }
            },
            PlayerCommand::VolumeDown => {
                if self.status.is_playing() {
                    self.volume.decrease_volume();
                    actions.push(PlayerAction::Device(DeviceRequest::SetVolume(self.volume.current())));
                }
            },
            PlayerCommand::GetStatus => {
                actions.push(PlayerAction::ReportStatus(self.status));
            },
        }
        assert(actions@ =~= spec_player_step(old(self)@, cmd).1);
        actions
    }
}

/// While playing, each volume key moves the volume by exactly one step, saturating at 0
/// and at `VOLUME_MAX`, and hands the new volume to the audio module; nothing else changes.
pub proof fn lemma_volume_moves_one_step(s: PlayerState)
    requires
        valid_player_state(s),
        s.status == PlayerStatus::Playing,
    ensures
        s.volume < VOLUME_MAX ==> spec_player_step(s, PlayerCommand::VolumeUp) == (
            PlayerState { status: PlayerStatus::Playing, volume: (s.volume + 1) as u8, last_played: s.last_played },
            seq![PlayerAction::Device(DeviceRequest::SetVolume((s.volume + 1) as u8))],
        ),
        s.volume == VOLUME_MAX ==> spec_player_step(s, PlayerCommand::VolumeUp) == (
            s,
            seq![PlayerAction::Device(DeviceRequest::SetVolume(VOLUME_MAX))],
        ),
        s.volume > 0 ==> spec_player_step(s, PlayerCommand::VolumeDown) == (
            PlayerState { status: PlayerStatus::Playing, volume: (s.volume - 1) as u8, last_played: s.last_played },
            seq![PlayerAction::Device(DeviceRequest::SetVolume((s.volume - 1) as u8))],
        ),
        s.volume == 0 ==> spec_player_step(s, PlayerCommand::VolumeDown) == (
            s,
            seq![PlayerAction::Device(DeviceRequest::SetVolume(0))],
        ),
{
}

/// A volume step up adds one below the maximum and keeps the maximum; a step down
/// subtracts one above 0 and keeps 0.
pub proof fn lemma_volume_step_arithmetic(v: u8)
    requires
        v <= VOLUME_MAX,
    ensures
        v < VOLUME_MAX ==> spec_volume_up(v) == v + 1,
        v == VOLUME_MAX ==> spec_volume_up(v) == v,
        v > 0 ==> spec_volume_down(v) == v - 1,
        v == 0 ==> spec_volume_down(v) == 0,
{
}

/// The same figure placed again, whatever the playback status, makes the player continue
/// where it was: it plays, lights all LEDs and resumes, and forgets nothing.
pub proof fn lemma_same_folder_resumes(s: PlayerState, folder: u8)
    requires
        s.last_played == Some(folder),
    ensures
        spec_player_step(s, PlayerCommand::PlayFolder(folder)) == (
            PlayerState { status: PlayerStatus::Playing, volume: s.volume, last_played: Some(folder) },
            seq![PlayerAction::Led(LedCommand::AllOn), PlayerAction::Device(DeviceRequest::Resume)],
        ),
{
}

/// Play/pause while playing pauses (only the play LED lit, module paused); while paused
/// it plays again (all LEDs lit, module resumed); volume and folder stay.
pub proof fn lemma_play_pause_toggles(s: PlayerState)
    ensures
        s.status == PlayerStatus::Playing ==> spec_player_step(s, PlayerCommand::PlayPause) == (
            PlayerState { status: PlayerStatus::Paused, volume: s.volume, last_played: s.last_played },
            seq![PlayerAction::Led(LedCommand::OnlyPlay), PlayerAction::Device(DeviceRequest::Pause)],
        ),
        s.status == PlayerStatus::Paused ==> spec_player_step(s, PlayerCommand::PlayPause) == (
            PlayerState { status: PlayerStatus::Playing, volume: s.volume, last_played: s.last_played },
            seq![PlayerAction::Led(LedCommand::AllOn), PlayerAction::Device(DeviceRequest::Resume)],
        ),
{
}

/// While playing, next and previous ask the module for the next or previous track and
/// change nothing else.
pub proof fn lemma_track_keys_while_playing(s: PlayerState)
    requires
        s.status == PlayerStatus::Playing,
    ensures
        spec_player_step(s, PlayerCommand::Next) == (s, seq![PlayerAction::Device(DeviceRequest::Next)]),
        spec_player_step(s, PlayerCommand::Previous) == (
            s,
            seq![PlayerAction::Device(DeviceRequest::Previous)],
        ),
{
}

/// With the audio module ready the player waits 100 ms for it to settle and then sets the
/// current volume; without it, it only signals an error on the LEDs.
pub proof fn lemma_startup(s: PlayerState)
    ensures
        spec_startup_actions(s, true) == seq![
            PlayerAction::Wait(100),
            PlayerAction::Device(DeviceRequest::SetVolume(s.volume)),
        ],
        spec_startup_actions(s, false) == seq![PlayerAction::Led(LedCommand::Error)],
{
}

/// Every command keeps the volume within its range.
pub proof fn lemma_step_keeps_state_valid(s: PlayerState, cmd: PlayerCommand)
    requires
        valid_player_state(s),
    ensures
        valid_player_state(spec_player_step(s, cmd).0),
{
}

/// A figure placed after another one starts its own folder from the beginning,
/// and the player remembers it as the folder played last.
pub proof fn lemma_new_folder_starts_over(s: PlayerState, folder: u8)
    requires
        s.last_played != Some(folder),
    ensures
        spec_player_step(s, PlayerCommand::PlayFolder(folder)).0 == (PlayerState {
            status: PlayerStatus::Playing,
            volume: s.volume,
            last_played: Some(folder),
        }),
        spec_player_step(s, PlayerCommand::PlayFolder(folder)).1 == seq![
            PlayerAction::Led(LedCommand::AllOn),
            PlayerAction::Device(DeviceRequest::PlayLoopFolder(folder)),
        ],
{
}

/// When the same figure comes back after it was removed, playback continues where it
/// stopped: the player resumes instead of starting the folder again.
pub proof fn lemma_same_figure_continues(s: PlayerState, folder: u8)
    ensures
        ({
            let s1 = spec_player_step(s, PlayerCommand::PlayFolder(folder)).0;
            let s2 = spec_player_step(s1, PlayerCommand::Stop).0;
            let (s3, actions) = spec_player_step(s2, PlayerCommand::PlayFolder(folder));
            &&& s2.status == PlayerStatus::Stopped
            &&& s3 == s1
            &&& actions == seq![
                PlayerAction::Led(LedCommand::AllOn),
                PlayerAction::Device(DeviceRequest::Resume),
            ]
        }),
{
}

/// Stop always leaves the player stopped, switches the LEDs off and pauses the module,
/// keeping the volume and the folder played last.
pub proof fn lemma_stop_always_stops(s: PlayerState)
    ensures
        spec_player_step(s, PlayerCommand::Stop).0 == with_status(s, PlayerStatus::Stopped),
        spec_player_step(s, PlayerCommand::Stop).1 == seq![
            PlayerAction::Led(LedCommand::Off),
            PlayerAction::Device(DeviceRequest::Pause),
        ],
{
}

/// Play/pause pressed twice, while a figure is present, gives back the state it started from.
pub proof fn lemma_play_pause_twice_restores(s: PlayerState)
    requires
        s.status != PlayerStatus::Stopped,
    ensures
        spec_player_step(spec_player_step(s, PlayerCommand::PlayPause).0, PlayerCommand::PlayPause).0
            == s,
{
}

/// Play/pause without a figure changes nothing and signals an invalid command.
pub proof fn lemma_play_pause_when_stopped(s: PlayerState)
    requires
        s.status == PlayerStatus::Stopped,
    ensures
        spec_player_step(s, PlayerCommand::PlayPause).0 == s,
        spec_player_step(s, PlayerCommand::PlayPause).1 == seq![
            PlayerAction::Led(LedCommand::InvalidCommand),
        ],
{
}

/// Unless the player is playing, next, previous and the volume keys are ignored:
/// the state stays and nothing is done.
pub proof fn lemma_ignored_unless_playing(s: PlayerState, cmd: PlayerCommand)
    requires
        s.status != PlayerStatus::Playing,
        cmd == PlayerCommand::Next || cmd == PlayerCommand::Previous || cmd
            == PlayerCommand::VolumeUp || cmd == PlayerCommand::VolumeDown,
    ensures
        spec_player_step(s, cmd).0 == s,
        spec_player_step(s, cmd).1 == Seq::<PlayerAction>::empty(),
{
}

/// While playing, a volume step up followed by a step down gives back the state it
/// started from, unless the volume was already at its maximum.
pub proof fn lemma_volume_up_then_down_restores(s: PlayerState)
    requires
        s.status == PlayerStatus::Playing,
        s.volume < VOLUME_MAX,
    ensures
        spec_player_step(spec_player_step(s, PlayerCommand::VolumeUp).0, PlayerCommand::VolumeDown).0
            == s,
{
}

/// While playing, a volume step down followed by a step up gives back the state it
/// started from, unless the volume was already at 0.
pub proof fn lemma_volume_down_then_up_restores(s: PlayerState)
    requires
        valid_player_state(s),
        s.status == PlayerStatus::Playing,
        s.volume > 0,
    ensures
        spec_player_step(spec_player_step(s, PlayerCommand::VolumeDown).0, PlayerCommand::VolumeUp).0
            == s,
{
}

/// A status query changes nothing and reports the current status.
pub proof fn lemma_status_query_changes_nothing(s: PlayerState)
    ensures
        spec_player_step(s, PlayerCommand::GetStatus).0 == s,
        spec_player_step(s, PlayerCommand::GetStatus).1 == seq![PlayerAction::ReportStatus(s.status)],
{
}

/// Only a figure starts playback: from a stopped player no command but a folder
/// leads to playing.
pub proof fn lemma_only_a_figure_starts_playback(s: PlayerState, cmd: PlayerCommand)
    requires
        s.status == PlayerStatus::Stopped,
        !(cmd is PlayFolder),
    ensures
        spec_player_step(s, cmd).0.status != PlayerStatus::Playing,
{
}

/// The longest timeout, in milliseconds, whose tick count fits in a `u64` at every tick
/// rate that `embassy_time` offers (at most 5_242_880 ticks per millisecond).
pub const TIMEOUT_MS_MAX: u64 = 3_518_437_208_000;

/// The number of clock ticks that `embassy_time::Duration::from_millis(ms)` gives for `ms`
/// milliseconds: rounded up, at the tick rate the build configured.
pub uninterp spec fn ticks_from_millis(ms: u64) -> u64;

/// Calls `embassy_time::Duration::from_millis` and reads the tick count of the result
/// (`as_ticks`). The source computes `div_ceil(ms * (TICK_HZ / g), 1000 / g)` with
/// `g = gcd(TICK_HZ, 1000)`; the contract claims the facts of that expression that hold at
/// every tick rate: zero milliseconds are zero ticks, more milliseconds are at least one
/// tick (rounded up), and the count never decreases as `ms` grows. The tick rate itself,
/// which the build's features choose, is not stated; the result is named by
/// `ticks_from_millis`. `ms` is bounded so that the multiplication cannot overflow.
#[verifier::external_body]
fn duration_ticks_from_millis(ms: u64) -> (r: u64)
    requires
        ms <= TIMEOUT_MS_MAX,
    ensures
        r == ticks_from_millis(ms),
        ms == 0 ==> r == 0,
        ms > 0 ==> r > 0,
        forall|m: u64| m <= ms ==> #[trigger] ticks_from_millis(m) <= r,
        forall|m: u64| ms <= m <= TIMEOUT_MS_MAX ==> r <= #[trigger] ticks_from_millis(m),
{
    embassy_time::Duration::from_millis(ms).as_ticks()
}

/// Whether a timeout of `timeout_ms` milliseconds, started at tick `since`, has elapsed at
/// tick `now`: the audio module's clock check. A zero timeout has always elapsed; when a
/// timeout has elapsed, every shorter one has too, and when it has not, no longer one has.
pub fn timeout_elapsed(since: u64, now: u64, timeout_ms: u64) -> (r: bool)
    requires
        since <= now,
        timeout_ms <= TIMEOUT_MS_MAX,
    ensures
        r == (now - since >= ticks_from_millis(timeout_ms)),
        timeout_ms == 0 ==> r,
        forall|m: u64| m <= timeout_ms ==> (r ==> now - since >= #[trigger] ticks_from_millis(m)),
        forall|m: u64|
            timeout_ms <= m <= TIMEOUT_MS_MAX ==> (!r ==> now - since < #[trigger] ticks_from_millis(m)),
{
    now - since >= duration_ticks_from_millis(timeout_ms)
}

} // verus!
