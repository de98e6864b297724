//! The queue synchronizer: the logical queue of track metadata, reconciled
//! against the audio engine's queue through a completion signal.
//!
//! Every track is submitted to the engine as two units: its audio, then a
//! zero-length sentinel whose only effect is to set the completion signal
//! when the engine reaches it. The signal is a flag: setting it again while
//! it is set adds nothing. It is the only value shared with the engine's
//! execution context; the foreground reads and resets it before each report
//! of what is playing, and pops the head once when it was set.
//!
//! A skip pops the head at once and records that the skipped track's own
//! sentinel is still to come, so that the completion it signals later is
//! absorbed rather than popping the next track too.
use std::sync::atomic::{AtomicU32, Ordering};
use std::sync::Arc;
use vstd::prelude::*;

use crate::track::{TrackMetadata, TrackView};

verus! {

/// The synchronizer's state as values: the logical queue, head first, and
/// the number of skipped tracks whose sentinel has not been observed yet.
pub struct QueueView {
    pub queue: Seq<TrackView>,
    pub owed: nat,
}

impl QueueView {
    /// The state after reading `signal` from the completion flag: nothing
    /// happens when it was clear; when it was set, one owed sentinel of a
    /// skipped track is absorbed if there is one, else the head is popped
    /// once.
    pub open spec fn observed(self, signal: nat) -> QueueView {
        if signal == 0 {
            self
        } else if self.owed > 0 {
            QueueView { queue: self.queue, owed: (self.owed - 1) as nat }
        } else if self.queue.len() > 0 {
            QueueView { queue: self.queue.drop_first(), owed: self.owed }
        } else {
            self
        }
    }

    /// The state after appending a track.
    pub open spec fn enqueued(self, t: TrackView) -> QueueView {
        QueueView { queue: self.queue.push(t), owed: self.owed }
    }

    /// Whether a skip request pops the head: the engine holds something,
    /// there is a head, and the count of owed sentinels has room.
    pub open spec fn skip_applies(self, engine_empty: bool) -> bool {
        !engine_empty && self.queue.len() > 0 && self.owed < u32::MAX
    }

    /// The state after a skip request on a state already observed.
    pub open spec fn skipped(self, engine_empty: bool) -> QueueView {
        if self.skip_applies(engine_empty) {
            QueueView { queue: self.queue.drop_first(), owed: self.owed + 1 }
        } else {
            self
        }
    }
}

/// What the presenter renders: title, artist, elapsed seconds and duration
/// in seconds.
#[derive(Debug)]
pub struct Snapshot {
    pub title: String,
    pub artist: String,
    pub position: u64,
    pub duration: u32,
}

pub struct SnapshotView {
    pub title: Seq<char>,
    pub artist: Seq<char>,
    pub position: u64,
    pub duration: u32,
}

impl View for Snapshot {
    type V = SnapshotView;

    open spec fn view(&self) -> SnapshotView {
        SnapshotView {
            title: self.title@,
            artist: self.artist@,
            position: self.position,
            duration: self.duration,
        }
    }
}

/// Internal defects of the synchronizer, surfaced instead of indexing out
/// of bounds.
#[derive(Debug, PartialEq, Eq, Structural)]
pub enum QueueError {
    /// The engine holds units but the logical queue is empty.
    InconsistentQueueState,
}

pub open spec fn idle_title() -> Seq<char> {
    "No song is currently playing."@
}

pub open spec fn idle_artist() -> Seq<char> {
    "--"@
}

/// The snapshot of a state: idle when the engine is empty, else the head of
/// the logical queue at the engine's position; `None` when the engine holds
/// units and the logical queue is empty.
pub open spec fn snapshot_of(q: QueueView, engine_empty: bool, position: u64) -> Option<
    SnapshotView,
> {
    if engine_empty {
        Some(SnapshotView { title: idle_title(), artist: idle_artist(), position: 0, duration: 0 })
    } else if q.queue.len() > 0 {
        Some(
            SnapshotView {
                title: q.queue[0].title,
                artist: q.queue[0].artist,
                position,
                duration: q.queue[0].duration,
            },
        )
    } else {
        None
    }
}

/// `r` is the snapshot of `q`, or the inconsistency error where it has none.
pub open spec fn reports(
    r: Result<Snapshot, QueueError>,
    q: QueueView,
    engine_empty: bool,
    position: u64,
) -> bool {
    match r {
        Ok(s) => snapshot_of(q, engine_empty, position) == Some(s@),
        Err(e) => snapshot_of(q, engine_empty, position) is None && e
            == QueueError::InconsistentQueueState,
    }
}

/// Observes pending completions, then reports what is playing now, given
/// whether the engine's queue is empty and its position in seconds. What
/// the completion flag held is read here; [`current_snapshot`] says what
/// is reported for each value of it.
pub fn get_current_song_info(player: &mut Player, engine_empty: bool, position: u64) -> (r: Result<
    Snapshot,
    QueueError,
>)
    ensures
        exists|signal: u32| final(player)@ == old(player)@.observed(signal as nat),
        reports(r, final(player)@, engine_empty, position),
        final(player).end_of_song_signal == old(player).end_of_song_signal,
{
    let signal = player.end_of_song_signal.swap(0, Ordering::Relaxed);
    current_snapshot(player, signal, engine_empty, position)
}

/// Applies what was read from the completion flag, then reports what is
/// playing now.
pub fn current_snapshot(player: &mut Player, signal: u32, engine_empty: bool, position: u64) -> (r:
    Result<Snapshot, QueueError>)
    ensures
        final(player)@ == old(player)@.observed(signal as nat),
        reports(r, final(player)@, engine_empty, position),
        final(player).end_of_song_signal == old(player).end_of_song_signal,
{
    player.advance(signal);
    player.snapshot(engine_empty, position)
}

/// The session's synchronizer state. `end_of_song_signal` is the completion
/// flag, shared with the engine's sentinel callbacks, which set it through
/// [`signal_completion`].
#[derive(Debug)]
pub struct Player {
    pub m_song_infos: Vec<TrackMetadata>,
    pub end_of_song_signal: Arc<AtomicU32>,
    pub skipped_unsignalled: u32,
}

pub open spec fn track_views(v: Seq<TrackMetadata>) -> Seq<TrackView> {
    v.map_values(|t: TrackMetadata| t@)
}

impl View for Player {
    type V = QueueView;

    open spec fn view(&self) -> QueueView {
        QueueView { queue: track_views(self.m_song_infos@), owed: self.skipped_unsignalled as nat }
    }
}

/// What the engine's sentinel callback runs: sets the completion flag.
pub fn signal_completion(signal: &AtomicU32) {
    signal.store(1, Ordering::Relaxed);
}

impl Player {
    /// A fresh session: nothing queued, nothing pending.
    pub fn new() -> (r: Player)
        ensures
            r@.queue.len() == 0,
            r@.owed == 0,
    {
        let r = Player {
            m_song_infos: Vec::new(),
            end_of_song_signal: Arc::new(AtomicU32::new(0)),
            skipped_unsignalled: 0,
        };
        assert(r@.queue =~= Seq::<TrackView>::empty());
        r
    }

    /// Appends a track's metadata to the logical queue. The caller submits
    /// the track's audio unit and then its sentinel to the engine right
    /// after, once decoding has succeeded, so that no logical entry stands
    /// for audio the engine never received.
    pub fn push_track(&mut self, track: TrackMetadata)
        ensures
            final(self)@ == old(self)@.enqueued(track@),
            final(self).end_of_song_signal == old(self).end_of_song_signal,
    {
        let ghost before = self.m_song_infos@;
        self.m_song_infos.push(track);
        assert(track_views(self.m_song_infos@) =~= track_views(before).push(track@));
    }

    /// Applies a value read from the completion flag (see
    /// [`QueueView::observed`]).
    pub fn advance(&mut self, signal: u32)
        ensures
            final(self)@ == old(self)@.observed(signal as nat),
            final(self).end_of_song_signal == old(self).end_of_song_signal,
    {
        if signal != 0 {
            if self.skipped_unsignalled > 0 {
                self.skipped_unsignalled = self.skipped_unsignalled - 1;
            } else if self.m_song_infos.len() > 0 {
                let ghost before = self.m_song_infos@;
                self.m_song_infos.remove(0);
                assert(track_views(self.m_song_infos@) =~= track_views(before).drop_first());
            }
        }
    }

    /// Reads and resets the completion flag, then advances over what it
    /// held; returns what was read. Nothing is popped when it was clear.
    pub fn observe_and_advance(&mut self) -> (signal: u32)
        ensures
            final(self)@ == old(self)@.observed(signal as nat),
            signal == 0 ==> final(self)@ == old(self)@,
            final(self).end_of_song_signal == old(self).end_of_song_signal,
    {
        let signal = self.end_of_song_signal.swap(0, Ordering::Relaxed);
        self.advance(signal);
        signal
    }

    /// Reports the state as it stands, with no observation.
    pub fn snapshot(&self, engine_empty: bool, position: u64) -> (r: Result<Snapshot, QueueError>)
        ensures
            reports(r, self@, engine_empty, position),
    {
        if engine_empty {
            Ok(
                Snapshot {
                    title: "No song is currently playing.".to_owned(),
                    artist: "--".to_owned(),
                    position: 0,
                    duration: 0,
                },
            )
        } else if self.m_song_infos.len() > 0 {
            let head = &self.m_song_infos[0];
            assert(self@.queue[0] == head@);
            Ok(
                Snapshot {
                    title: head.title.clone(),
                    artist: head.artist.clone(),
                    position,
                    duration: head.duration,
                },
            )
        } else {
            Err(QueueError::InconsistentQueueState)
        }
    }

    /// Skips the current track of a state already observed: pops the head
    /// at once and records that its sentinel is still to come. Returns
    /// whether the engine should now discard its current unit.
    pub fn skip_observed(&mut self, engine_empty: bool) -> (r: bool)
        ensures
            final(self)@ == old(self)@.skipped(engine_empty),
            r == old(self)@.skip_applies(engine_empty),
            final(self).end_of_song_signal == old(self).end_of_song_signal,
    {
        if !engine_empty && self.m_song_infos.len() > 0 && self.skipped_unsignalled < u32::MAX {
            let ghost before = self.m_song_infos@;
            self.m_song_infos.remove(0);
            assert(track_views(self.m_song_infos@) =~= track_views(before).drop_first());
            self.skipped_unsignalled = self.skipped_unsignalled + 1;
            true
        } else {
            false
        }
    }

    /// Skips the current track: on an empty engine nothing happens;
    /// otherwise pending completions are observed first, then the head is
    /// skipped (see [`Player::skip_observed`]). Returns whether the engine
    /// should now discard its current unit.
    pub fn skip_current(&mut self, engine_empty: bool) -> (r: bool)
        ensures
            engine_empty ==> !r && final(self)@ == old(self)@,
            !engine_empty ==> exists|signal: u32|
                {
                    let mid = #[trigger] old(self)@.observed(signal as nat);
                    &&& final(self)@ == mid.skipped(engine_empty)
                    &&& r == mid.skip_applies(engine_empty)
                },
            final(self).end_of_song_signal == old(self).end_of_song_signal,
    {
        if engine_empty {
            return false;
        }
        self.observe_and_advance();
        self.skip_observed(engine_empty)
    }
}

} // verus!
