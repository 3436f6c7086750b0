//! The RFID reader: which player command a figure placed on or taken off the reader sends.
use vstd::prelude::*;
use crate::leds::LedCommand;
use crate::player::{PlayerCommand, PlayerState, PlayerAction, DeviceRequest, spec_player_step};
use crate::sleep::DeviceStatus;
use crate::tags::{folder_selection, spec_folder_selection, lemma_selected_folder_in_range};

verus! {

/// How often the reader is polled for a card, in milliseconds.
pub const POLLING_INTERVAL_MS: u64 = 500;

/// What the reader task does after a poll.
#[derive(Debug, Clone, Copy, PartialEq, Eq, Structural)]
pub struct CardReaction {
    /// Whether to ask the box to stay awake.
    pub stay_awake: bool,
    /// The command to send to the player, if any.
    pub command: Option<PlayerCommand>,
}

/// What the reader task does when it is told the device status while it does not poll.
#[derive(Debug, Clone, Copy, PartialEq, Eq, Structural)]
pub struct ResumeReaction {
    /// Whether to announce again that the box sleeps.
    pub signal_sleeping: bool,
    /// The command to send to the LED task, if any.
    pub led: Option<LedCommand>,
}

/// The reader's memory: the folder of the figure that stands on it, if a known one does,
/// and whether polling is paused because the box went to sleep.
pub struct CardReader {
    current_folder: Option<usize>,
    paused: bool,
}

/// The state of the reader as the contracts see it.
pub struct ReaderState {
    /// The folder of the figure that stands on the reader.
    pub current_folder: Option<usize>,
    /// Whether polling is paused until the next device status arrives.
    pub paused: bool,
}

impl View for CardReader {
    type V = ReaderState;

    closed spec fn view(&self) -> ReaderState {
        ReaderState { current_folder: self.current_folder, paused: self.paused }
    }
}

/// No command and no request to stay awake.
pub open spec fn spec_quiet() -> CardReaction {
    CardReaction { stay_awake: false, command: None }
}

/// How the reader answers a card with identifier `uid` while it remembers `current`.
/// A folder change to a known figure starts that folder; the same figure again sends nothing.
pub open spec fn spec_on_card(current: Option<usize>, uid: Seq<u8>) -> (Option<usize>, CardReaction) {
    let selected = spec_folder_selection(uid);
    if current != selected {
        (
            selected,
            match selected {
                Some(folder) => CardReaction {
                    stay_awake: true,
                    command: Some(PlayerCommand::PlayFolder(folder as u8)),
                },
                None => spec_quiet(),
            },
        )
    } else {
        (current, spec_quiet())
    }
}

/// How the reader answers a poll that found no card: a figure taken off stops playback.
pub open spec fn spec_on_no_card(current: Option<usize>) -> (Option<usize>, CardReaction) {
    if current is Some {
        (None, CardReaction { stay_awake: true, command: Some(PlayerCommand::Stop) })
    } else {
        (None, spec_quiet())
    }
}

/// How the reader task answers the device status it waits for after it stopped polling:
/// being told again that the box sleeps is an error.
pub open spec fn spec_on_resume(status: DeviceStatus) -> ResumeReaction {
    match status {
        DeviceStatus::Sleeping => ResumeReaction { signal_sleeping: true, led: Some(LedCommand::Error) },
        DeviceStatus::Awake => ResumeReaction { signal_sleeping: false, led: None },
    }
}

/// How the reader answers a poll that found the card `uid`: a paused reader is not
/// polled, so it stays as it is and sends nothing.
pub open spec fn spec_reader_on_card(s: ReaderState, uid: Seq<u8>) -> (ReaderState, CardReaction) {
    if s.paused {
        (s, spec_quiet())
    } else {
        let (current, reaction) = spec_on_card(s.current_folder, uid);
        (ReaderState { current_folder: current, paused: false }, reaction)
    }
}

/// How the reader answers a poll that found no card: a paused reader is not polled,
/// so it stays as it is and sends nothing.
pub open spec fn spec_reader_on_no_card(s: ReaderState) -> (ReaderState, CardReaction) {
    if s.paused {
        (s, spec_quiet())
    } else {
        let (current, reaction) = spec_on_no_card(s.current_folder);
        (ReaderState { current_folder: current, paused: false }, reaction)
    }
}

/// The reader after a device status arrived while it polled: it stops polling.
pub open spec fn spec_reader_pause(s: ReaderState) -> ReaderState {
    ReaderState { current_folder: s.current_folder, paused: true }
}

/// The reader after the next device status `status` arrived while it was paused, and what
/// it does then: it polls again.
pub open spec fn spec_reader_resume(s: ReaderState, status: DeviceStatus) -> (ReaderState, ResumeReaction) {
    (ReaderState { current_folder: s.current_folder, paused: false }, spec_on_resume(status))
}

impl CardReader {
    /// A polling reader with no figure on it.
    pub fn new() -> (r: CardReader)
        ensures
            r@ == (ReaderState { current_folder: None, paused: false }),
    {
        CardReader { current_folder: None, paused: false }
    }

    /// The folder of the figure that stands on the reader.
    pub fn current(&self) -> (r: Option<usize>)
        ensures
            r == self@.current_folder,
    {
        self.current_folder
    }

    /// Whether the reader is polled: not between a device status that paused it and the next one.
    pub fn polls(&self) -> (r: bool)
        ensures
            r == !self@.paused,
    {
        !self.paused
    }

    /// Answers a card with identifier `uid` found by a poll.
    pub fn on_card(&mut self, uid: &[u8]) -> (r: CardReaction)
        ensures
            (final(self)@, r) == spec_reader_on_card(old(self)@, uid@),
    {
        if self.paused {
            return CardReaction { stay_awake: false, command: None };
        }
        let folder_opt = folder_selection(uid);
        proof {
            lemma_selected_folder_in_range(uid@);
        }
        let same = match (self.current_folder, folder_opt) {
            (Some(a), Some(b)) => a == b,
            (None, None) => true,
            _ => false,
        };
        if same {
            CardReaction { stay_awake: false, command: None }
        } else {
            self.current_folder = folder_opt;
            match folder_opt {
                Some(folder) => CardReaction {
                    stay_awake: true,
                    command: Some(PlayerCommand::PlayFolder(folder as u8)),
                },
                None => CardReaction { stay_awake: false, command: None },
            }
        }
    }

    /// Answers a poll that found no card.
    pub fn on_no_card(&mut self) -> (r: CardReaction)
        ensures
            (final(self)@, r) == spec_reader_on_no_card(old(self)@),
    {
        if self.paused {
            return CardReaction { stay_awake: false, command: None };
        }
        match self.current_folder {
            Some(_) => {
                self.current_folder = None;
                CardReaction { stay_awake: true, command: Some(PlayerCommand::Stop) }
            },
            None => CardReaction { stay_awake: false, command: None },
        }
    }

    /// A device status arrived while the reader waited between polls: polling stops.
    pub fn pause(&mut self)
        ensures
            final(self)@ == spec_reader_pause(old(self)@),
    {
        self.paused = true;
    }

    /// The next device status `status` arrived while polling was stopped: polling starts
    /// again, after the returned reaction is carried out.
    pub fn resume(&mut self, status: DeviceStatus) -> (r: ResumeReaction)
        ensures
            (final(self)@, r) == spec_reader_resume(old(self)@, status),
    {
        self.paused = false;
        on_resume(status)
    }
}

/// How the reader task answers the device status it waits for after it stopped polling.
pub fn on_resume(status: DeviceStatus) -> (r: ResumeReaction)
    ensures
        r == spec_on_resume(status),
{
    match status {
        DeviceStatus::Sleeping => ResumeReaction { signal_sleeping: true, led: Some(LedCommand::Error) },
        DeviceStatus::Awake => ResumeReaction { signal_sleeping: false, led: None },
    }
}

/// A figure left on the reader sends its folder once: later polls that find it again send nothing.
pub proof fn lemma_same_card_sends_once(current: Option<usize>, uid: Seq<u8>)
    ensures
        ({
            let (c1, r1) = spec_on_card(current, uid);
            let (c2, r2) = spec_on_card(c1, uid);
            &&& c1 == spec_folder_selection(uid)
            &&& c2 == c1
            &&& r2 == spec_quiet()
        }),
{
}

/// Taking a figure off sends one stop; polls without a card after that send nothing.
pub proof fn lemma_removal_stops_once(current: Option<usize>)
    requires
        current is Some,
    ensures
        spec_on_no_card(current).1.command == Some(PlayerCommand::Stop),
        spec_on_no_card(spec_on_no_card(current).0).1 == spec_quiet(),
{
}

/// A known figure placed on the reader, taken off and placed back makes the player continue
/// where it stopped: the reader sends its folder, a stop and its folder again, and the player
/// answers the second folder command by resuming instead of starting over.
pub proof fn lemma_figure_placed_back_continues(uid: Seq<u8>, p: PlayerState)
    requires
        spec_folder_selection(uid) is Some,
    ensures
        ({
            let folder = spec_folder_selection(uid)->0;
            let (c1, r1) = spec_on_card(None, uid);
            let (c2, r2) = spec_on_no_card(c1);
            let (c3, r3) = spec_on_card(c2, uid);
            let p1 = spec_player_step(p, r1.command->0).0;
            let p2 = spec_player_step(p1, r2.command->0).0;
            let (p3, actions) = spec_player_step(p2, r3.command->0);
            &&& r1.command == Some(PlayerCommand::PlayFolder(folder as u8))
            &&& r2.command == Some(PlayerCommand::Stop)
            &&& r3.command == Some(PlayerCommand::PlayFolder(folder as u8))
            &&& actions == seq![
                PlayerAction::Led(LedCommand::AllOn),
                PlayerAction::Device(DeviceRequest::Resume),
            ]
        }),
{
}

/// Every folder the reader asks for is one of the unique folders, so it fits the command.
pub proof fn lemma_requested_folder_in_range(current: Option<usize>, uid: Seq<u8>)
    ensures
        spec_on_card(current, uid).1.command matches Some(PlayerCommand::PlayFolder(f)) ==> 1 <= f
            <= crate::tags::NUMBER_UNIQUE_TAGS,
{
    lemma_selected_folder_in_range(uid);
}

/// Between the device status that paused the reader and the next one, polls change nothing
/// and send nothing, whatever they find.
pub proof fn lemma_paused_reader_is_silent(s: ReaderState, uid: Seq<u8>)
    requires
        s.paused,
    ensures
        spec_reader_on_card(s, uid) == (s, spec_quiet()),
        spec_reader_on_no_card(s) == (s, spec_quiet()),
        spec_reader_pause(s) == s,
{
}

/// The reader stopped by the sleep signal resumes polling on the next device status,
/// remembering the figure it had; told again that the box sleeps, it announces the
/// sleep once more and signals an error.
pub proof fn lemma_reader_pause_and_resume(s: ReaderState, status: DeviceStatus)
    ensures
        ({
            let paused = spec_reader_pause(s);
            let (resumed, reaction) = spec_reader_resume(paused, status);
            &&& paused.paused
            &&& !resumed.paused
            &&& resumed.current_folder == s.current_folder
            &&& reaction == spec_on_resume(status)
            &&& (status == DeviceStatus::Sleeping ==> reaction == ResumeReaction {
                signal_sleeping: true,
                led: Some(LedCommand::Error),
            })
            &&& (status == DeviceStatus::Awake ==> reaction == ResumeReaction {
                signal_sleeping: false,
                led: None,
            })
        }),
{
}

/// A polled reader that finds a known figure different from the one it remembers keeps
/// the box awake and asks the player for that figure's folder; an unknown card after a
/// known figure makes it forget the figure without sending anything.
pub proof fn lemma_new_figure_reaction(s: ReaderState, uid: Seq<u8>)
    requires
        !s.paused,
        s.current_folder != spec_folder_selection(uid),
    ensures
        spec_folder_selection(uid) matches Some(f) ==> spec_reader_on_card(s, uid) == (
            ReaderState { current_folder: Some(f), paused: false },
            CardReaction { stay_awake: true, command: Some(PlayerCommand::PlayFolder(f as u8)) },
        ),
        spec_folder_selection(uid) is None ==> spec_reader_on_card(s, uid) == (
            ReaderState { current_folder: None, paused: false },
            CardReaction { stay_awake: false, command: None },
        ),
{
}

/// A polled reader that finds no card after a figure keeps the box awake, asks the
/// player to stop and forgets the figure; with no figure it does nothing.
pub proof fn lemma_removal_reaction(s: ReaderState)
    requires
        !s.paused,
    ensures
        s.current_folder is Some ==> spec_reader_on_no_card(s) == (
            ReaderState { current_folder: None, paused: false },
            CardReaction { stay_awake: true, command: Some(PlayerCommand::Stop) },
        ),
        s.current_folder is None ==> spec_reader_on_no_card(s) == (
            s,
            CardReaction { stay_awake: false, command: None },
        ),
{
}

} // verus!
