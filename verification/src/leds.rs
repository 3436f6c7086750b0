//! What the three LEDs show: the answer to each LED command and the SOS error pattern.
use vstd::prelude::*;

verus! {

/// A command for the LED task.
#[derive(Debug, Clone, Copy, PartialEq, Eq, Structural)]
pub enum LedCommand {
    /// SOS pattern on all LEDs, repeated until the box is reset.
    Error,
    /// All LEDs off.
    Off,
    /// All LEDs on: playback runs.
    AllOn,
    /// Only the LED beside the play button on: playback is paused.
    OnlyPlay,
    /// A command that the player could not carry out.
    InvalidCommand,
}

/// How the LED task answers a command.
#[derive(Debug, Clone, Copy, PartialEq, Eq, Structural)]
pub enum LedResponse {
    /// Switch all LEDs off.
    AllOff,
    /// Switch all LEDs on.
    AllOn,
    /// Switch on the LED beside the play button and the others off.
    OnlyPlay,
    /// Leave the LEDs as they are.
    Unchanged,
    /// Show the SOS pattern over and over; no later command is read.
    SosForever,
}

/// The length of a short signal in milliseconds.
pub const DIT_MS: u64 = 250;

/// The length of a long signal in milliseconds: three short ones.
pub const DAH_MS: u64 = 750;

/// The pause between two letters in milliseconds: two short signals.
pub const LETTER_GAP_MS: u64 = 500;

/// One step of a light pattern.
#[derive(Debug, Clone, Copy, PartialEq, Eq, Structural)]
pub enum LedStep {
    /// Switch all LEDs on (`true`) or off (`false`).
    Lights(bool),
    /// Keep the LEDs as they are for the given number of milliseconds.
    Hold(u64),
}

/// The answer of the LED task to `cmd`.
pub open spec fn spec_led_response(cmd: LedCommand) -> LedResponse {
    match cmd {
        LedCommand::Error => LedResponse::SosForever,
        LedCommand::Off => LedResponse::AllOff,
        LedCommand::AllOn => LedResponse::AllOn,
        LedCommand::OnlyPlay => LedResponse::OnlyPlay,
        LedCommand::InvalidCommand => LedResponse::Unchanged,
    }
}

/// How the LED task answers `cmd`.
pub fn led_response(cmd: LedCommand) -> (r: LedResponse)
    ensures
        r == spec_led_response(cmd),
{
    match cmd {
        LedCommand::Error => LedResponse::SosForever,
        LedCommand::Off => LedResponse::AllOff,
        LedCommand::AllOn => LedResponse::AllOn,
        LedCommand::OnlyPlay => LedResponse::OnlyPlay,
        LedCommand::InvalidCommand => LedResponse::Unchanged,
    }
}

/// The LED task: it reads commands until the error command arrives; from then on it
/// shows the SOS pattern until the box is reset and reads no further command.
pub struct LedController {
    in_sos: bool,
}

impl View for LedController {
    type V = bool;

    /// Whether the task shows the SOS pattern for good.
    closed spec fn view(&self) -> bool {
        self.in_sos
    }
}

/// How the LED task in state `in_sos` answers `cmd`: once showing SOS it stays there and
/// answers nothing else; otherwise it answers as `spec_led_response`, and the error
/// command puts it into SOS.
pub open spec fn spec_led_step(in_sos: bool, cmd: LedCommand) -> (bool, LedResponse) {
    if in_sos {
        (true, LedResponse::SosForever)
    } else {
        (cmd == LedCommand::Error, spec_led_response(cmd))
    }
}

/// The state and the answers of the LED task after the commands `cmds`, in order.
pub open spec fn spec_led_run(in_sos: bool, cmds: Seq<LedCommand>) -> (bool, Seq<LedResponse>)
    decreases cmds.len(),
{
    if cmds.len() == 0 {
        (in_sos, Seq::empty())
    } else {
        let (next, response) = spec_led_step(in_sos, cmds[0]);
        let (last, responses) = spec_led_run(next, cmds.drop_first());
        (last, seq![response] + responses)
    }
}

impl LedController {
    /// The LED task at start: it reads commands.
    pub fn new() -> (c: LedController)
        ensures
            !c@,
    {
        LedController { in_sos: false }
    }

    /// Whether the task still reads commands; if not, it shows the SOS pattern over and over.
    pub fn reads_commands(&self) -> (r: bool)
        ensures
            r == !self@,
    {
        !self.in_sos
    }

    /// Answers `cmd`.
    pub fn on_command(&mut self, cmd: LedCommand) -> (r: LedResponse)
        ensures
            (final(self)@, r) == spec_led_step(old(self)@, cmd),
            !old(self)@ ==> (final(self)@ <==> cmd == LedCommand::Error),
            old(self)@ ==> final(self)@ && r == LedResponse::SosForever,
    {
        if self.in_sos {
            return LedResponse::SosForever;
        }
        let r = led_response(cmd);
        match cmd {
            LedCommand::Error => {
                self.in_sos = true;
            },
            _ => {},
        }
        r
    }
}

/// The LED task that reads commands enters the SOS pattern exactly on the error command;
/// every other command gets its own answer and the task keeps reading commands.
pub proof fn lemma_only_error_is_final(cmd: LedCommand)
    ensures
        spec_led_step(false, cmd).0 <==> cmd == LedCommand::Error,
        spec_led_step(false, cmd).1 == match cmd {
            LedCommand::Error => LedResponse::SosForever,
            LedCommand::Off => LedResponse::AllOff,
            LedCommand::AllOn => LedResponse::AllOn,
            LedCommand::OnlyPlay => LedResponse::OnlyPlay,
            LedCommand::InvalidCommand => LedResponse::Unchanged,
        },
{
}

/// Commands other than the error command never stop the LED task from reading commands.
pub proof fn lemma_no_error_keeps_reading(cmds: Seq<LedCommand>)
    requires
        forall|i: int| 0 <= i < cmds.len() ==> cmds[i] != LedCommand::Error,
    ensures
        spec_led_run(false, cmds).0 == false,
        forall|i: int| 0 <= i < cmds.len() ==> spec_led_run(false, cmds).1[i] != LedResponse::SosForever,
        spec_led_run(false, cmds).1.len() == cmds.len(),
    decreases cmds.len(),
{
    if cmds.len() > 0 {
        let rest = cmds.drop_first();
        assert forall|i: int| 0 <= i < rest.len() implies rest[i] != LedCommand::Error by {
            assert(rest[i] == cmds[i + 1]);
        }
        lemma_no_error_keeps_reading(rest);
        let r = spec_led_run(false, cmds).1;
        assert forall|i: int| 0 <= i < cmds.len() implies r[i] != LedResponse::SosForever by {
            if i > 0 {
                assert(r[i] == spec_led_run(false, rest).1[i - 1]);
            }
        }
    }
}

proof fn lemma_sos_run_stays(cmds: Seq<LedCommand>)
    ensures
        spec_led_run(true, cmds) == (true, Seq::new(cmds.len(), |i: int| LedResponse::SosForever)),
    decreases cmds.len(),
{
    if cmds.len() > 0 {
        lemma_sos_run_stays(cmds.drop_first());
        assert(seq![LedResponse::SosForever] + Seq::new(
            cmds.drop_first().len(),
            |i: int| LedResponse::SosForever,
        ) =~= Seq::new(cmds.len(), |i: int| LedResponse::SosForever));
    } else {
        assert(Seq::new(0, |i: int| LedResponse::SosForever) =~= Seq::<LedResponse>::empty());
    }
}

/// The SOS pattern is final: after the error command the task reads no further command;
/// whatever commands follow, it stays showing SOS until the box is reset.
pub proof fn lemma_sos_is_final(in_sos: bool, later: Seq<LedCommand>)
    ensures
        spec_led_step(in_sos, LedCommand::Error) == (true, LedResponse::SosForever),
        spec_led_run(spec_led_step(in_sos, LedCommand::Error).0, later) == (
            true,
            Seq::new(later.len(), |i: int| LedResponse::SosForever),
        ),
{
    lemma_sos_run_stays(later);
}

/// `n` flashes of `on_ms` milliseconds, each followed by a short dark gap.
pub open spec fn spec_flashes(on_ms: u64, n: nat) -> Seq<LedStep>
    decreases n,
{
    if n == 0 {
        Seq::empty()
    } else {
        spec_flashes(on_ms, (n - 1) as nat) + seq![
            LedStep::Lights(true),
            LedStep::Hold(on_ms),
            LedStep::Lights(false),
            LedStep::Hold(DIT_MS),
        ]
    }
}

/// One letter of Morse code: three flashes of `on_ms`, then the gap between letters.
pub open spec fn spec_letter(on_ms: u64) -> Seq<LedStep> {
    spec_flashes(on_ms, 3) + seq![LedStep::Hold(LETTER_GAP_MS)]
}

/// SOS once around: short, long, short letters, each ending with the gap between letters.
pub open spec fn spec_sos() -> Seq<LedStep> {
    spec_letter(DIT_MS) + spec_letter(DAH_MS) + spec_letter(DIT_MS)
}

/// The total time, in milliseconds, for which the steps hold the LEDs.
pub open spec fn spec_hold_time(steps: Seq<LedStep>) -> int
    decreases steps.len(),
{
    if steps.len() == 0 {
        0
    } else {
        spec_hold_time(steps.drop_last()) + match steps.last() {
            LedStep::Hold(ms) => ms as int,
            LedStep::Lights(_) => 0,
        }
    }
}

/// Appends one letter of Morse code to `steps`.
fn push_letter(steps: &mut Vec<LedStep>, on_ms: u64)
    ensures
        final(steps)@ == old(steps)@ + spec_letter(on_ms),
{
    let ghost start = steps@;
    let mut k: usize = 0;
    while k < 3
        invariant
            k <= 3,
            steps@ == start + spec_flashes(on_ms, k as nat),
        decreases 3 - k,
    {
        steps.push(LedStep::Lights(true));
        steps.push(LedStep::Hold(on_ms));
        steps.push(LedStep::Lights(false));
        steps.push(LedStep::Hold(DIT_MS));
        k = k + 1;
        assert(steps@ =~= start + spec_flashes(on_ms, k as nat));
    }
    steps.push(LedStep::Hold(LETTER_GAP_MS));
    assert(steps@ =~= start + spec_letter(on_ms));
}

/// Signal SOS once around, with proper end timing.
pub fn sos_once() -> (steps: Vec<LedStep>)
    ensures
        steps@ == spec_sos(),
{
    let mut steps: Vec<LedStep> = Vec::new();
    push_letter(&mut steps, DIT_MS);
    push_letter(&mut steps, DAH_MS);
    push_letter(&mut steps, DIT_MS);
    assert(steps@ =~= spec_sos());
    steps
}

proof fn lemma_hold_time_concat(a: Seq<LedStep>, b: Seq<LedStep>)
    ensures
        spec_hold_time(a + b) == spec_hold_time(a) + spec_hold_time(b),
    decreases b.len(),
{
    if b.len() == 0 {
        assert(a + b =~= a);
    } else {
        lemma_hold_time_concat(a, b.drop_last());
        assert((a + b).drop_last() =~= a + b.drop_last());
    }
}

proof fn lemma_flash_hold_time(on_ms: u64)
    ensures
        spec_hold_time(
            seq![
                LedStep::Lights(true),
                LedStep::Hold(on_ms),
                LedStep::Lights(false),
                LedStep::Hold(DIT_MS),
            ],
        ) == on_ms + DIT_MS,
{
    let t4 = seq![
        LedStep::Lights(true),
        LedStep::Hold(on_ms),
        LedStep::Lights(false),
        LedStep::Hold(DIT_MS),
    ];
    let t3 = seq![LedStep::Lights(true), LedStep::Hold(on_ms), LedStep::Lights(false)];
    let t2 = seq![LedStep::Lights(true), LedStep::Hold(on_ms)];
    let t1 = seq![LedStep::Lights(true)];
    assert(t4.drop_last() =~= t3);
    assert(t3.drop_last() =~= t2);
    assert(t2.drop_last() =~= t1);
    assert(t1.drop_last() =~= Seq::<LedStep>::empty());
    assert(spec_hold_time(Seq::<LedStep>::empty()) == 0);
    assert(spec_hold_time(t1) == 0);
    assert(spec_hold_time(t2) == on_ms);
    assert(spec_hold_time(t3) == on_ms);
}

proof fn lemma_flashes_hold_time(on_ms: u64, n: nat)
    ensures
        spec_hold_time(spec_flashes(on_ms, n)) == n * (on_ms + DIT_MS),
    decreases n,
{
    if n > 0 {
        let rest = spec_flashes(on_ms, (n - 1) as nat);
        let tail = seq![
            LedStep::Lights(true),
            LedStep::Hold(on_ms),
            LedStep::Lights(false),
            LedStep::Hold(DIT_MS),
        ];
        lemma_flashes_hold_time(on_ms, (n - 1) as nat);
        lemma_hold_time_concat(rest, tail);
        lemma_flash_hold_time(on_ms);
        let m = n - 1;
        let d = on_ms + DIT_MS;
        assert(n * d == m * d + d) by (nonlinear_arith)
            requires
                n == m + 1,
        ;
    } else {
        assert(spec_flashes(on_ms, n).len() == 0);
    }
}

proof fn lemma_letter_hold_time(on_ms: u64)
    ensures
        spec_hold_time(spec_letter(on_ms)) == 3 * (on_ms + DIT_MS) + LETTER_GAP_MS,
{
    let tail = seq![LedStep::Hold(LETTER_GAP_MS)];
    lemma_flashes_hold_time(on_ms, 3);
    lemma_hold_time_concat(spec_flashes(on_ms, 3), tail);
    assert(tail.drop_last() =~= Seq::<LedStep>::empty());
    assert(spec_hold_time(Seq::<LedStep>::empty()) == 0);
    assert(spec_hold_time(tail) == LETTER_GAP_MS);
}

/// One SOS round lasts thirty short signals: nine flashes with their gaps,
/// and a gap after each of the three letters.
pub proof fn lemma_sos_takes_thirty_dits()
    ensures
        spec_hold_time(spec_sos()) == 30 * DIT_MS,
{
    lemma_letter_hold_time(DIT_MS);
    lemma_letter_hold_time(DAH_MS);
    lemma_hold_time_concat(spec_letter(DIT_MS), spec_letter(DAH_MS));
    lemma_hold_time_concat(spec_letter(DIT_MS) + spec_letter(DAH_MS), spec_letter(DIT_MS));
}

proof fn lemma_flashes_shape(on_ms: u64, n: nat)
    ensures
        spec_flashes(on_ms, n).len() == 4 * n,
        forall|k: int|
            0 <= k < n ==> {
                &&& #[trigger] spec_flashes(on_ms, n)[4 * k] == LedStep::Lights(true)
                &&& spec_flashes(on_ms, n)[4 * k + 1] == LedStep::Hold(on_ms)
                &&& spec_flashes(on_ms, n)[4 * k + 2] == LedStep::Lights(false)
                &&& spec_flashes(on_ms, n)[4 * k + 3] == LedStep::Hold(DIT_MS)
            },
    decreases n,
{
    if n > 0 {
        lemma_flashes_shape(on_ms, (n - 1) as nat);
        let s = spec_flashes(on_ms, n);
        let r = spec_flashes(on_ms, (n - 1) as nat);
        assert forall|k: int| 0 <= k < n implies {
            &&& #[trigger] s[4 * k] == LedStep::Lights(true)
            &&& s[4 * k + 1] == LedStep::Hold(on_ms)
            &&& s[4 * k + 2] == LedStep::Lights(false)
            &&& s[4 * k + 3] == LedStep::Hold(DIT_MS)
        } by {
            if k < n - 1 {
                assert(r[4 * k] == LedStep::Lights(true));
            }
        }
    }
}

/// Each letter of the SOS pattern switches the LEDs on three times and
/// leaves them off before the gap that closes it, so a round ends dark.
pub proof fn lemma_sos_letters_end_dark(on_ms: u64)
    ensures
        spec_letter(on_ms).len() == 13,
        spec_letter(on_ms)[10] == LedStep::Lights(false),
        spec_letter(on_ms)[12] == LedStep::Hold(LETTER_GAP_MS),
        spec_letter(on_ms)[0] == LedStep::Lights(true),
        spec_letter(on_ms)[4] == LedStep::Lights(true),
        spec_letter(on_ms)[8] == LedStep::Lights(true),
{
    lemma_flashes_shape(on_ms, 3);
    let s = spec_flashes(on_ms, 3);
    assert(s[4 * 0int] == LedStep::Lights(true));
    assert(s[4 * 1int] == LedStep::Lights(true));
    assert(s[4 * 2int] == LedStep::Lights(true));
    assert(s[4 * 2int + 2] == LedStep::Lights(false));
}

} // verus!
