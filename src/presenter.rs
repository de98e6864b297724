//! The polling presenter's state: the catalog of known tracks and the
//! selection in it, the mode (browsing or editing a download address), the
//! last snapshot, and the translation of key presses into state changes and
//! commands for the engine and the downloader.
use vstd::prelude::*;

use crate::sync::{get_current_song_info, reports, Player, QueueError, Snapshot};
use crate::track::{TrackMetadata, TrackView};

verus! {

/// Relies on `String::push`: appends the character to the end.
pub assume_specification[ String::push ](s: &mut String, ch: char)
    ensures
        final(s)@ == old(s)@.push(ch),
;

/// Relies on `String::pop`: removes and returns the last character, or
/// returns `None` and leaves an empty string as it is.
pub assume_specification[ String::pop ](s: &mut String) -> (r: Option<char>)
    ensures
        old(s)@.len() == 0 ==> r is None && final(s)@ == old(s)@,
        old(s)@.len() > 0 ==> r == Some(old(s)@.last()) && final(s)@ == old(s)@.drop_last(),
;

/// A key press, as far as the presenter tells keys apart.
#[derive(Debug, Clone, Copy, PartialEq, Eq, Structural)]
pub enum Key {
    Char(char),
    Enter,
    Backspace,
    Esc,
    Up,
    Down,
    Right,
    Tab,
    Other,
}

/// What the engine reports of itself when a key is handled.
#[derive(Debug, Clone, Copy, PartialEq, Eq, Structural)]
pub struct EngineStatus {
    pub empty: bool,
    pub paused: bool,
}

/// Outside work that a key press asks for.
#[derive(Debug)]
pub enum Command {
    Nothing,
    /// Decode the file at this path; once that succeeded call
    /// [`App::add_song_to_queue`] and submit its audio and sentinel.
    Enqueue(String),
    /// Discard the engine's current unit.
    Skip,
    Pause,
    Resume,
    /// Fetch the tracks at this address into the songs directory, then
    /// rescan it.
    Download(String),
}

pub open spec fn placeholder() -> Seq<char> {
    "ex: https://youtube.com/watch?=miMusic"@
}

/// The selection after moving down a list of `len` entries: wraps to the
/// top; no move in an empty list.
pub open spec fn next_index(selected: Option<usize>, len: nat) -> Option<usize> {
    if len == 0 {
        selected
    } else {
        match selected {
            Some(i) => if i + 1 >= len {
                Some(0usize)
            } else {
                Some((i + 1) as usize)
            },
            None => Some(0usize),
        }
    }
}

/// The selection after moving up a list of `len` entries: wraps to the
/// bottom (also from beyond the end); no move in an empty list.
pub open spec fn previous_index(selected: Option<usize>, len: nat) -> Option<usize> {
    if len == 0 {
        selected
    } else {
        match selected {
            Some(i) => if i == 0 || i >= len {
                Some((len - 1) as usize)
            } else {
                Some((i - 1) as usize)
            },
            None => Some(0usize),
        }
    }
}

/// The index that Enter acts on.
pub open spec fn chosen(selected: Option<usize>) -> usize {
    match selected {
        Some(i) => i,
        None => 0,
    }
}

/// The presenter's state.
#[derive(Debug)]
pub struct App {
    pub selected: Option<usize>,
    pub player: Player,
    pub playing_infos: Result<Snapshot, QueueError>,
    pub is_editing: bool,
    pub input_editing: String,
    pub all_songs: Vec<TrackMetadata>,
    pub is_running: bool,
}

impl App {
    /// Minutes and seconds of a whole number of seconds.
    pub fn seconds_to_minsec(seconds: u64) -> (r: (u64, u64))
        ensures
            r.0 * 60 + r.1 == seconds,
            r.1 < 60,
    {
        (seconds / 60, seconds % 60)
    }

    /// A running presenter over `all_songs`, browsing with the first entry
    /// selected, nothing queued and the idle snapshot shown.
    pub fn new(all_songs: Vec<TrackMetadata>) -> (r: App)
        ensures
            r.selected == Some(0usize),
            r.player@.queue.len() == 0,
            r.player@.owed == 0,
            reports(r.playing_infos, r.player@, true, 0),
            !r.is_editing,
            r.input_editing@ == placeholder(),
            r.all_songs@ == all_songs@,
            r.is_running,
    {
        let player = Player::new();
        let playing_infos = player.snapshot(true, 0);
        App {
            selected: Some(0),
            player,
            playing_infos,
            is_editing: false,
            input_editing: "ex: https://youtube.com/watch?=miMusic".to_owned(),
            all_songs,
            is_running: true,
        }
    }

    /// Refreshes the snapshot: observes pending completions and reports what
    /// is playing.
    pub fn on_tick(&mut self, engine_empty: bool, position: u64)
        ensures
            exists|fired: u32| final(self).player@ == old(self).player@.observed(fired as nat),
            reports(final(self).playing_infos, final(self).player@, engine_empty, position),
            final(self).player.end_of_song_signal == old(self).player.end_of_song_signal,
            final(self).selected == old(self).selected,
            final(self).is_editing == old(self).is_editing,
            final(self).input_editing == old(self).input_editing,
            final(self).all_songs == old(self).all_songs,
            final(self).is_running == old(self).is_running,
    {
        self.playing_infos = get_current_song_info(&mut self.player, engine_empty, position);
    }

    /// Moves the selection up, wrapping to the last entry.
    pub fn previous_song(&mut self)
        ensures
            final(self).selected == previous_index(old(self).selected, old(self).all_songs@.len()),
            final(self).all_songs == old(self).all_songs,
            final(self).is_editing == old(self).is_editing,
            final(self).player == old(self).player,
            final(self).input_editing == old(self).input_editing,
            final(self).is_running == old(self).is_running,
            final(self).playing_infos == old(self).playing_infos,
    {
        let len = self.all_songs.len();
        if len > 0 {
            let i: usize = match self.selected {
                Some(i) => if i == 0 || i >= len {
                    len - 1
                } else {
                    i - 1
                },
                None => 0,
            };
            self.selected = Some(i);
        }
    }

    /// Moves the selection down, wrapping to the first entry.
    pub fn next_song(&mut self)
        ensures
            final(self).selected == next_index(old(self).selected, old(self).all_songs@.len()),
            final(self).all_songs == old(self).all_songs,
            final(self).is_editing == old(self).is_editing,
            final(self).player == old(self).player,
            final(self).input_editing == old(self).input_editing,
            final(self).is_running == old(self).is_running,
            final(self).playing_infos == old(self).playing_infos,
    {
        let len = self.all_songs.len();
        if len > 0 {
            let i: usize = match self.selected {
                Some(i) => if i >= len - 1 {
                    0
                } else {
                    i + 1
                },
                None => 0,
            };
            self.selected = Some(i);
        }
    }

    /// Toggles between browsing and editing the download address.
    pub fn switch_mode(&mut self)
        ensures
            final(self).is_editing == !old(self).is_editing,
            final(self).input_editing == old(self).input_editing,
            final(self).selected == old(self).selected,
            final(self).player == old(self).player,
            final(self).all_songs == old(self).all_songs,
            final(self).is_running == old(self).is_running,
            final(self).playing_infos == old(self).playing_infos,
    {
        self.is_editing = !self.is_editing;
    }

    /// Removes the last character of the download address, if any.
    pub fn remove_char_from_input(&mut self)
        ensures
            old(self).input_editing@.len() == 0 ==> final(self).input_editing@ == old(
                self,
            ).input_editing@,
            old(self).input_editing@.len() > 0 ==> final(self).input_editing@ == old(
                self,
            ).input_editing@.drop_last(),
            final(self).is_editing == old(self).is_editing,
            final(self).player == old(self).player,
            final(self).all_songs == old(self).all_songs,
            final(self).selected == old(self).selected,
            final(self).is_running == old(self).is_running,
            final(self).playing_infos == old(self).playing_infos,
    {
        self.input_editing.pop();
    }

    /// Appends a character to the download address.
    pub fn insert_char_into_input(&mut self, new_char: char)
        ensures
            final(self).input_editing@ == old(self).input_editing@.push(new_char),
            final(self).is_editing == old(self).is_editing,
            final(self).player == old(self).player,
            final(self).all_songs == old(self).all_songs,
            final(self).selected == old(self).selected,
            final(self).is_running == old(self).is_running,
            final(self).playing_infos == old(self).playing_infos,
    {
        self.input_editing.push(new_char);
    }

    /// Stops the presenter's loop.
    pub fn exit(&mut self)
        ensures
            !final(self).is_running,
            final(self).player == old(self).player,
            final(self).all_songs == old(self).all_songs,
            final(self).is_editing == old(self).is_editing,
            final(self).input_editing == old(self).input_editing,
            final(self).selected == old(self).selected,
            final(self).playing_infos == old(self).playing_infos,
    {
        self.is_running = false;
    }

    /// Appends the chosen catalog entry to the logical queue, once its audio
    /// has been decoded; returns false, changing nothing, where the selection
    /// points at no entry.
    pub fn add_song_to_queue(&mut self) -> (r: bool)
        ensures
            r == (chosen(old(self).selected) < old(self).all_songs@.len()),
            r ==> final(self).player@ == old(self).player@.enqueued(
                old(self).all_songs@[chosen(old(self).selected) as int]@,
            ),
            !r ==> final(self).player@ == old(self).player@,
            final(self).player.end_of_song_signal == old(self).player.end_of_song_signal,
            final(self).all_songs == old(self).all_songs,
            final(self).selected == old(self).selected,
            final(self).playing_infos == old(self).playing_infos,
            final(self).is_editing == old(self).is_editing,
            final(self).input_editing == old(self).input_editing,
            final(self).is_running == old(self).is_running,
    {
        let i: usize = match self.selected {
            Some(i) => i,
            None => 0,
        };
        if i < self.all_songs.len() {
            let track = self.all_songs[i].copied();
            self.player.push_track(track);
            true
        } else {
            false
        }
    }

    /// Handles one key press. While editing: Enter hands the address over
    /// for download and clears it, Backspace and characters edit it, Esc
    /// returns to browsing. While browsing: `q` quits, Enter asks for the
    /// chosen entry to be decoded, Up and Down move the selection, Right
    /// skips, Space pauses or resumes, Tab starts editing. Other keys do
    /// nothing.
    pub fn handle_key_event(&mut self, key: Key, engine: EngineStatus) -> (r: Command)
        ensures
            final(self).all_songs == old(self).all_songs,
            final(self).player.end_of_song_signal == old(self).player.end_of_song_signal,
            key != Key::Right || old(self).is_editing ==> final(self).player@ == old(self).player@,
            key != Key::Up && key != Key::Down || old(self).is_editing ==> final(self).selected == old(
                self,
            ).selected,
            !old(self).is_editing && key != Key::Tab ==> final(self).is_editing == old(self).is_editing,
            old(self).is_editing && key != Key::Esc ==> final(self).is_editing == old(self).is_editing,
            key != Key::Char('q') || old(self).is_editing ==> final(self).is_running == old(
                self,
            ).is_running,
            !old(self).is_editing ==> final(self).input_editing == old(self).input_editing,
            // editing
            old(self).is_editing && key == Key::Enter ==> final(self).input_editing@.len() == 0,
            old(self).is_editing && key == Key::Enter ==> (r matches Command::Download(u) && u@
                == old(self).input_editing@),
            old(self).is_editing && key == Key::Backspace ==> r is Nothing,
            old(self).is_editing && key == Key::Backspace && old(self).input_editing@.len() == 0
                ==> final(self).input_editing@ == old(self).input_editing@,
            old(self).is_editing && key == Key::Backspace && old(self).input_editing@.len() > 0
                ==> final(self).input_editing@ == old(self).input_editing@.drop_last(),
            old(self).is_editing ==> forall|c: char|
                key == Key::Char(c) ==> r is Nothing && final(self).input_editing@ == old(
                    self,
                ).input_editing@.push(c),
            old(self).is_editing && key == Key::Esc ==> r is Nothing && !final(self).is_editing
                && final(self).input_editing == old(self).input_editing,
            old(self).is_editing && key != Key::Enter && key != Key::Backspace && key != Key::Esc
                && !(key is Char) ==> r is Nothing && final(self).input_editing == old(
                self,
            ).input_editing,
            // browsing
            !old(self).is_editing && key == Key::Char('q') ==> r is Nothing
                && !final(self).is_running,
            !old(self).is_editing && key == Key::Enter && chosen(old(self).selected) < old(
                self,
            ).all_songs@.len() ==> (r matches Command::Enqueue(p) && p@ == old(
                self,
            ).all_songs@[chosen(old(self).selected) as int].path@),
            !old(self).is_editing && key == Key::Enter && chosen(old(self).selected) >= old(
                self,
            ).all_songs@.len() ==> r is Nothing,
            !old(self).is_editing && key == Key::Up ==> r is Nothing && final(self).selected
                == previous_index(old(self).selected, old(self).all_songs@.len()),
            !old(self).is_editing && key == Key::Down ==> r is Nothing && final(self).selected
                == next_index(old(self).selected, old(self).all_songs@.len()),
            !old(self).is_editing && key == Key::Right && engine.empty ==> r is Nothing
                && final(self).player@ == old(self).player@,
            !old(self).is_editing && key == Key::Right && !engine.empty ==> exists|signal: u32|
                {
                    let mid = #[trigger] old(self).player@.observed(signal as nat);
                    &&& final(self).player@ == mid.skipped(engine.empty)
                    &&& mid.skip_applies(engine.empty) ==> r is Skip
                    &&& !mid.skip_applies(engine.empty) ==> r is Nothing
                },
            !old(self).is_editing && key == Key::Char(' ') && engine.paused ==> r is Resume,
            !old(self).is_editing && key == Key::Char(' ') && !engine.paused ==> r is Pause,
            !old(self).is_editing && key == Key::Tab ==> r is Nothing && final(self).is_editing,
            !old(self).is_editing && key != Key::Char('q') && key != Key::Enter && key != Key::Up
                && key != Key::Down && key != Key::Right && key != Key::Char(' ') && key
                != Key::Tab ==> r is Nothing,
            final(self).playing_infos == old(self).playing_infos,
    {
        if self.is_editing {
            match key {
                Key::Enter => {
                    let url = self.input_editing.clone();
                    self.input_editing = String::new();
                    Command::Download(url)
                },
                Key::Backspace => {
                    self.remove_char_from_input();
                    Command::Nothing
                },
                Key::Char(c) => {
                    self.insert_char_into_input(c);
                    Command::Nothing
                },
                Key::Esc => {
                    self.switch_mode();
                    Command::Nothing
                },
                _ => Command::Nothing,
            }
        } else {
            match key {
                Key::Char('q') => {
                    self.exit();
                    Command::Nothing
                },
                Key::Enter => {
                    let i: usize = match self.selected {
                        Some(i) => i,
                        None => 0,
                    };
                    if i < self.all_songs.len() {
                        Command::Enqueue(self.all_songs[i].path.clone())
                    } else {
                        Command::Nothing
                    }
                },
                Key::Up => {
                    self.previous_song();
                    Command::Nothing
                },
                Key::Down => {
                    self.next_song();
                    Command::Nothing
                },
                Key::Right => {
                    if self.player.skip_current(engine.empty) {
                        Command::Skip
                    } else {
                        Command::Nothing
                    }
                },
                Key::Char(' ') => {
                    if engine.paused {
                        Command::Resume
                    } else {
                        Command::Pause
                    }
                },
                Key::Tab => {
                    self.switch_mode();
                    Command::Nothing
                },
                _ => Command::Nothing,
            }
        }
    }
}

} // verus!
