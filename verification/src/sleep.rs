//! When the box goes to sleep: after a period without activity, and only if the
//! player is stopped. While asleep only the buttons wake it again.
use vstd::prelude::*;
use crate::player::PlayerStatus;

verus! {

/// The time without activity after which the box may go to sleep, in milliseconds (5 min).
pub const IDLE_TIME_MS: u64 = 300_000;

/// A request to keep the box awake, sent on every activity.
#[derive(Debug, Clone, Copy, PartialEq, Eq, Structural)]
pub enum AwakeCmd {
    /// Activity happened: restart the idle time.
    StayAwake,
}

/// Whether the box sleeps; the RFID reader polls only while it is awake.
#[derive(Debug, Clone, Copy, PartialEq, Eq, Structural)]
pub enum DeviceStatus {
    Sleeping,
    Awake,
}

/// Where the sleep timer is in its cycle.
#[derive(Debug, Clone, Copy, PartialEq, Eq, Structural)]
pub enum SleepPhase {
    /// Counting the idle time.
    Counting,
    /// The idle time passed; waiting for the player's status.
    AwaitingStatus,
    /// Asleep; waiting for a request to stay awake.
    Asleep,
}

/// What the sleep task does next.
#[derive(Debug, Clone, Copy, PartialEq, Eq, Structural)]
pub enum SleepAction {
    /// Wait for a request to stay awake, or the given number of milliseconds, whichever comes first.
    WaitAwakeOrTimeout(u64),
    /// Ask the player for its status and wait for the answer.
    QueryPlayerStatus,
    /// Announce that the box sleeps, then wait for a request to stay awake.
    GoToSleep,
    /// Announce that the box is awake again.
    AnnounceAwake,
    /// Check the idle time again.
    CheckAgain,
}

/// The sleep timer: the time of the last activity and of the last check that found the
/// idle time passed, in milliseconds, and its phase.
pub struct SleepTimer {
    last_activity: u64,
    idle_found_at: u64,
    phase: SleepPhase,
}

/// The state of a sleep timer as the contracts see it.
pub struct SleepState {
    /// The time of the last activity.
    pub last_activity: u64,
    /// The time of the last check that found the idle time passed.
    pub idle_found_at: u64,
    pub phase: SleepPhase,
}

impl View for SleepTimer {
    type V = SleepState;

    closed spec fn view(&self) -> SleepState {
        SleepState { last_activity: self.last_activity, idle_found_at: self.idle_found_at, phase: self.phase }
    }
}

/// A state a sleep timer can be in: outside counting, the player was asked, or the box
/// sleeps, only because a check found the whole idle time passed since the last activity.
pub open spec fn valid_sleep_state(s: SleepState) -> bool {
    s.phase != SleepPhase::Counting ==> s.idle_found_at >= s.last_activity + IDLE_TIME_MS
}

/// What the sleep task does when it checks the idle time at `now`.
pub open spec fn spec_check(s: SleepState, now: u64) -> (SleepState, SleepAction) {
    if s.phase != SleepPhase::Counting {
        (s, SleepAction::CheckAgain)
    } else if now - s.last_activity >= IDLE_TIME_MS {
        (
            SleepState { last_activity: s.last_activity, idle_found_at: now, phase: SleepPhase::AwaitingStatus },
            SleepAction::QueryPlayerStatus,
        )
    } else {
        (s, SleepAction::WaitAwakeOrTimeout((IDLE_TIME_MS - (now - s.last_activity)) as u64))
    }
}

/// What the sleep task does when the player reports `status` at `now`: the box sleeps
/// only when the player is stopped; otherwise the idle time starts again.
pub open spec fn spec_on_player_status(s: SleepState, status: PlayerStatus, now: u64) -> (
    SleepState,
    SleepAction,
) {
    if s.phase != SleepPhase::AwaitingStatus {
        (s, SleepAction::CheckAgain)
    } else if status == PlayerStatus::Stopped {
        (
            SleepState { last_activity: s.last_activity, idle_found_at: s.idle_found_at, phase: SleepPhase::Asleep },
            SleepAction::GoToSleep,
        )
    } else {
        (SleepState { last_activity: now, idle_found_at: s.idle_found_at, phase: SleepPhase::Counting }, SleepAction::CheckAgain)
    }
}

/// What the sleep task does when a request to stay awake arrives at `now`.
pub open spec fn spec_on_stay_awake(s: SleepState, now: u64) -> (SleepState, SleepAction) {
    match s.phase {
        SleepPhase::Counting => (
            SleepState { last_activity: now, idle_found_at: s.idle_found_at, phase: SleepPhase::Counting },
            SleepAction::CheckAgain,
        ),
        SleepPhase::Asleep => (
            SleepState { last_activity: now, idle_found_at: s.idle_found_at, phase: SleepPhase::Counting },
            SleepAction::AnnounceAwake,
        ),
        SleepPhase::AwaitingStatus => (s, SleepAction::CheckAgain),
    }
}

impl SleepTimer {
    #[verifier::type_invariant]
    spec fn only_asks_after_idle_time(self) -> bool {
        valid_sleep_state(self@)
    }

    /// A timer whose last activity is `now`.
    pub fn new(now: u64) -> (t: SleepTimer)
        ensures
            t@ == (SleepState { last_activity: now, idle_found_at: now, phase: SleepPhase::Counting }),
            valid_sleep_state(t@),
    {
        SleepTimer { last_activity: now, idle_found_at: now, phase: SleepPhase::Counting }
    }

    /// Restarts the idle time at `now`; only while counting, so the state stays valid.
    fn reset(&mut self, now: u64)
        requires
            old(self)@.phase == SleepPhase::Counting,
        ensures
            final(self)@ == (SleepState { last_activity: now, ..old(self)@ }),
    {
        self.last_activity = now;
    }

    /// The time of the last activity.
    pub fn last_activity(&self) -> (r: u64)
        ensures
            r == self@.last_activity,
            valid_sleep_state(self@),
    {
        proof {
            use_type_invariant(self);
        }
        self.last_activity
    }

    /// Where the timer is in its cycle.
    pub fn phase(&self) -> (r: SleepPhase)
        ensures
            r == self@.phase,
    {
        self.phase
    }

    /// Checks the idle time at `now`. A wait it asks for ends exactly when the idle
    /// time since the last activity has passed.
    pub fn check(&mut self, now: u64) -> (r: SleepAction)
        requires
            now >= old(self)@.last_activity,
        ensures
            (final(self)@, r) == spec_check(old(self)@, now),
            valid_sleep_state(old(self)@),
            valid_sleep_state(final(self)@),
            r matches SleepAction::WaitAwakeOrTimeout(ms) ==> now + ms == old(self)@.last_activity
                + IDLE_TIME_MS,
    {
        proof {
            use_type_invariant(&*self);
        }
        match self.phase {
            SleepPhase::Counting => {
                let elapsed = now - self.last_activity;
                if elapsed >= IDLE_TIME_MS {
                    self.idle_found_at = now;
                    self.phase = SleepPhase::AwaitingStatus;
                    SleepAction::QueryPlayerStatus
                } else {
                    SleepAction::WaitAwakeOrTimeout(IDLE_TIME_MS - elapsed)
                }
            },
            _ => SleepAction::CheckAgain,
        }
    }

    /// Answers the player's status, reported at `now`.
    pub fn on_player_status(&mut self, status: PlayerStatus, now: u64) -> (r: SleepAction)
        ensures
            (final(self)@, r) == spec_on_player_status(old(self)@, status, now),
            valid_sleep_state(old(self)@),
            valid_sleep_state(final(self)@),
    {
        proof {
            use_type_invariant(&*self);
        }
        match self.phase {
            SleepPhase::AwaitingStatus => {
                if status.is_stopped() {
                    self.phase = SleepPhase::Asleep;
                    SleepAction::GoToSleep
                } else {
                    self.phase = SleepPhase::Counting;
                    self.reset(now);
                    SleepAction::CheckAgain
                }
            },
            _ => SleepAction::CheckAgain,
        }
    }

    /// Answers a request to stay awake that arrived at `now`.
    pub fn on_stay_awake(&mut self, now: u64) -> (r: SleepAction)
        ensures
            (final(self)@, r) == spec_on_stay_awake(old(self)@, now),
            valid_sleep_state(old(self)@),
            valid_sleep_state(final(self)@),
    {
        proof {
            use_type_invariant(&*self);
        }
        match self.phase {
            SleepPhase::Counting => {
                self.reset(now);
                SleepAction::CheckAgain
            },
            SleepPhase::Asleep => {
                self.phase = SleepPhase::Counting;
                self.reset(now);
                SleepAction::AnnounceAwake
            },
            SleepPhase::AwaitingStatus => SleepAction::CheckAgain,
        }
    }
}

/// The box never goes to sleep while a figure is present: a playing or paused player
/// restarts the idle time instead.
pub proof fn lemma_no_sleep_unless_stopped(s: SleepState, status: PlayerStatus, now: u64)
    requires
        status != PlayerStatus::Stopped,
    ensures
        spec_on_player_status(s, status, now).1 != SleepAction::GoToSleep,
        s.phase == SleepPhase::AwaitingStatus ==> spec_on_player_status(s, status, now).0 == (SleepState {
            last_activity: now,
            idle_found_at: s.idle_found_at,
            phase: SleepPhase::Counting,
        }),
{
}

/// The player is asked for its status only once the idle time has passed without activity.
pub proof fn lemma_query_only_after_idle_time(s: SleepState, now: u64)
    requires
        now >= s.last_activity,
        spec_check(s, now).1 == SleepAction::QueryPlayerStatus,
    ensures
        now - s.last_activity >= IDLE_TIME_MS,
{
}

/// Right after an activity the whole idle time lies ahead.
pub proof fn lemma_activity_restarts_idle_time(s: SleepState, now: u64)
    requires
        s.phase == SleepPhase::Counting || s.phase == SleepPhase::Asleep,
    ensures
        spec_check(spec_on_stay_awake(s, now).0, now).1 == SleepAction::WaitAwakeOrTimeout(IDLE_TIME_MS),
{
}

/// The cycle of a quiet box: after the idle time the player is asked; if it is stopped
/// the box sleeps; a request to stay awake wakes it, and the idle time starts again.
pub proof fn lemma_sleep_cycle(last: u64, now: u64, woken: u64)
    requires
        now >= last,
        now - last >= IDLE_TIME_MS,
    ensures
        ({
            let s0 = SleepState { last_activity: last, idle_found_at: last, phase: SleepPhase::Counting };
            let (s1, a1) = spec_check(s0, now);
            let (s2, a2) = spec_on_player_status(s1, PlayerStatus::Stopped, now);
            let (s3, a3) = spec_on_stay_awake(s2, woken);
            &&& a1 == SleepAction::QueryPlayerStatus
            &&& a2 == SleepAction::GoToSleep
            &&& s2.phase == SleepPhase::Asleep
            &&& a3 == SleepAction::AnnounceAwake
            &&& s3 == (SleepState { last_activity: woken, idle_found_at: now, phase: SleepPhase::Counting })
        }),
{
}

/// Every step of the sleep timer keeps its state valid.
pub proof fn lemma_steps_keep_state_valid(s: SleepState, status: PlayerStatus, now: u64)
    requires
        valid_sleep_state(s),
    ensures
        now >= s.last_activity ==> valid_sleep_state(spec_check(s, now).0),
        valid_sleep_state(spec_on_player_status(s, status, now).0),
        valid_sleep_state(spec_on_stay_awake(s, now).0),
{
}

/// The box goes to sleep only after a check found the whole idle time passed since the
/// last activity, and the player then reported it was stopped.
pub proof fn lemma_sleep_only_after_idle_time_and_stop(s: SleepState, status: PlayerStatus, now: u64)
    requires
        valid_sleep_state(s),
        spec_on_player_status(s, status, now).1 == SleepAction::GoToSleep,
    ensures
        status == PlayerStatus::Stopped,
        s.phase == SleepPhase::AwaitingStatus,
        s.idle_found_at - s.last_activity >= IDLE_TIME_MS,
{
}

} // verus!
