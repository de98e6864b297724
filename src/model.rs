//! A model of a whole session: the synchronizer together with the engine's
//! queue of units and the completion signal between them, and the laws that
//! hold of every sequence of operations and engine events.
//!
//! The engine receives each track as an audio unit followed by a sentinel,
//! so its queue is always some number of such pairs, possibly preceded by a
//! lone sentinel (the audio before it has ended, the sentinel has not been
//! reached yet). Its length alone therefore determines its layout.
//!
//! The foreground steps change the synchronizer by the same spec functions
//! that the executable operations ensure: `Player::observe_and_advance`
//! (`QueueView::observed`), `Player::push_track` (`QueueView::enqueued`) and
//! `Player::skip_current` (`QueueView::observed`, then `QueueView::skipped`).
use vstd::prelude::*;

use crate::sync::{idle_artist, idle_title, snapshot_of, QueueView, SnapshotView};
use crate::track::TrackView;

verus! {

/// An operation of the foreground, or an event of the engine.
pub enum Step {
    /// A track is enqueued: its metadata is appended, its audio unit and its
    /// sentinel are submitted.
    Enqueue(TrackView),
    /// The audio unit at the head of the engine's queue finishes.
    AudioEnds,
    /// The engine reaches the sentinel at its head, which signals.
    SentinelFires,
    /// The user skips: on an empty engine nothing happens; otherwise the
    /// synchronizer observes and pops, then the engine discards its current
    /// audio unit. The skipped track's sentinel stays
    /// and fires in a later `SentinelFires`.
    Skip,
    /// The synchronizer observes the signal (before each snapshot).
    Observe,
}

/// The state of a session.
pub struct Session {
    pub sync: QueueView,
    /// The number of units in the engine's queue.
    pub units: nat,
    /// The completion flag: 1 when set, 0 when clear.
    pub signal: nat,
}

pub open spec fn initial() -> Session {
    Session { sync: QueueView { queue: Seq::empty(), owed: 0 }, units: 0, signal: 0 }
}

/// The engine discarding its current audio unit, as units left and
/// the completion flag: a lone sentinel at its head is reached first;
/// the sentinel after the discarded audio stays in the queue.
pub open spec fn engine_discard(units: nat) -> (nat, nat) {
    if units % 2 == 1 {
        if units >= 3 {
            ((units - 2) as nat, 1)
        } else {
            (0, 1)
        }
    } else if units >= 2 {
        ((units - 1) as nat, 0)
    } else {
        (units, 0)
    }
}

pub open spec fn step(s: Session, e: Step) -> Session {
    match e {
        Step::Enqueue(t) => Session { sync: s.sync.enqueued(t), units: s.units + 2, signal: s.signal },
        Step::AudioEnds => if s.units > 0 && s.units % 2 == 0 {
            Session { sync: s.sync, units: (s.units - 1) as nat, signal: s.signal }
        } else {
            s
        },
        Step::SentinelFires => if s.units % 2 == 1 {
            Session { sync: s.sync, units: (s.units - 1) as nat, signal: 1 }
        } else {
            s
        },
        Step::Skip => if s.units == 0 {
            s
        } else {
            let mid = s.sync.observed(s.signal);
            let engine_empty = false;
            if mid.skip_applies(engine_empty) {
                let (u, c) = engine_discard(s.units);
                Session { sync: mid.skipped(engine_empty), units: u, signal: c }
            } else {
                Session { sync: mid, units: s.units, signal: 0 }
            }
        },
        Step::Observe => Session { sync: s.sync.observed(s.signal), units: s.units, signal: 0 },
    }
}

/// The state reached from a fresh session by `steps`, in order.
pub open spec fn reachable(steps: Seq<Step>) -> Session
    decreases steps.len(),
{
    if steps.len() == 0 {
        initial()
    } else {
        step(reachable(steps.drop_last()), steps.last())
    }
}

/// Whether no sentinel fires while the flag is still set. The flag keeps
/// no count, so a second completion signalled before the first was
/// observed is lost (a track shorter than the polling interval); the
/// accounting holds of the sequences where that does not happen.
pub open spec fn paced(steps: Seq<Step>) -> bool {
    forall|i: int|
        0 <= i < steps.len() && #[trigger] steps[i] is SentinelFires ==> reachable(
            steps.take(i),
        ).signal == 0
}

/// The accounting that every state keeps: each track is in the logical
/// queue or is a skipped one still owed its sentinel, exactly as each is in
/// the engine (a lone sentinel at its head counting as one) or signalled
/// and not yet observed; and the owed sentinels are the signalled one plus
/// at most the one at the engine's head.
pub open spec fn accounted(s: Session) -> bool {
    &&& s.signal <= 1
    &&& s.sync.queue.len() + s.sync.owed == (s.units + 1) / 2 + s.signal
    &&& s.sync.owed <= s.signal + s.units % 2
}

proof fn lemma_step_keeps_accounting(s: Session, e: Step)
    requires
        accounted(s),
        e is SentinelFires ==> s.signal == 0,
    ensures
        accounted(step(s, e)),
{
    match e {
        Step::Skip => {
            if s.units > 0 {
                let mid = s.sync.observed(s.signal);
                assert(mid.queue.len() + mid.owed == (s.units + 1) / 2);
                assert(mid.owed <= s.units % 2);
            }
        },
        _ => {},
    }
}

proof fn lemma_paced_prefix(steps: Seq<Step>)
    requires
        steps.len() > 0,
        paced(steps),
    ensures
        paced(steps.drop_last()),
        steps.last() is SentinelFires ==> reachable(steps.drop_last()).signal == 0,
{
    let d = steps.drop_last();
    assert forall|i: int| 0 <= i < d.len() && #[trigger] d[i] is SentinelFires implies reachable(
        d.take(i),
    ).signal == 0 by {
        assert(steps[i] == d[i]);
        assert(d.take(i) =~= steps.take(i));
    }
    if steps.last() is SentinelFires {
        assert(steps.take(steps.len() - 1) =~= d);
        assert(steps[steps.len() - 1] is SentinelFires);
    }
}

proof fn lemma_paced_observe(steps: Seq<Step>)
    requires
        paced(steps),
    ensures
        paced(steps.push(Step::Observe)),
        steps.push(Step::Observe).drop_last() == steps,
{
    let p = steps.push(Step::Observe);
    assert(p.drop_last() =~= steps);
    assert forall|i: int| 0 <= i < p.len() && #[trigger] p[i] is SentinelFires implies reachable(
        p.take(i),
    ).signal == 0 by {
        assert(i < steps.len());
        assert(p[i] == steps[i]);
        assert(p.take(i) =~= steps.take(i));
    }
}

/// Every state reached from a fresh session by a paced sequence keeps the
/// accounting.
pub proof fn lemma_reachable_accounted(steps: Seq<Step>)
    requires
        paced(steps),
    ensures
        accounted(reachable(steps)),
    decreases steps.len(),
{
    if steps.len() > 0 {
        lemma_paced_prefix(steps);
        lemma_reachable_accounted(steps.drop_last());
        lemma_step_keeps_accounting(reachable(steps.drop_last()), steps.last());
    }
}

/// At every observation point where no skipped track's sentinel is still
/// to come, whatever enqueues, skips and engine events came before (no
/// sentinel firing while the flag is set), the logical queue holds exactly
/// one entry per track that the engine still holds: half its units,
/// rounded up for a sentinel at its head.
pub proof fn lemma_queue_matches_engine(steps: Seq<Step>)
    requires
        paced(steps),
        reachable(steps.push(Step::Observe)).sync.owed == 0,
    ensures
        ({
            let s = reachable(steps.push(Step::Observe));
            s.sync.queue.len() == (s.units + 1) / 2
        }),
{
    lemma_paced_observe(steps);
    lemma_reachable_accounted(steps.push(Step::Observe));
}

/// At every observation point after a paced sequence, at most one skipped
/// track is still owed its sentinel, and it is the one at the engine's head.
pub proof fn lemma_at_most_one_owed(steps: Seq<Step>)
    requires
        paced(steps),
    ensures
        ({
            let s = reachable(steps.push(Step::Observe));
            &&& s.sync.owed <= s.units % 2
            &&& s.sync.queue.len() + s.sync.owed == (s.units + 1) / 2
        }),
{
    lemma_paced_observe(steps);
    lemma_reachable_accounted(steps.push(Step::Observe));
}

/// A skip on an observed state with at least two tracks reports the second
/// track at once; when the skipped track's sentinel is observed later, it
/// is absorbed and the second track is still reported.
pub proof fn lemma_skip_moves_to_next(q: QueueView, position: u64)
    requires
        q.queue.len() >= 2,
        q.owed < u32::MAX,
    ensures
        snapshot_of(q.skipped(false), false, position) == Some(
            SnapshotView {
                title: q.queue[1].title,
                artist: q.queue[1].artist,
                position,
                duration: q.queue[1].duration,
            },
        ),
        q.skipped(false).observed(1).queue == q.queue.drop_first(),
        snapshot_of(q.skipped(false).observed(1), false, position) == snapshot_of(
            q.skipped(false),
            false,
            position,
        ),
{
}

/// An empty engine always reports the idle snapshot, whatever the logical
/// queue holds and whatever position the engine gives.
pub proof fn lemma_idle_when_engine_empty(q: QueueView, position: u64)
    ensures
        snapshot_of(q, true, position) == Some(
            SnapshotView { title: idle_title(), artist: idle_artist(), position: 0, duration: 0 },
        ),
{
}

/// An observation of no completion leaves the state as it is.
pub proof fn lemma_no_pop_without_signal(q: QueueView)
    ensures
        q.observed(0) == q,
{
    assert(q.queue.skip(0) =~= q.queue);
}

/// Observing twice with no completion in between reports the same snapshot
/// both times.
pub proof fn lemma_observe_idempotent(q: QueueView, signal: nat, engine_empty: bool, position: u64)
    ensures
        q.observed(signal).observed(0) == q.observed(signal),
        snapshot_of(q.observed(signal).observed(0), engine_empty, position) == snapshot_of(
            q.observed(signal),
            engine_empty,
            position,
        ),
{
    lemma_no_pop_without_signal(q.observed(signal));
}

} // verus!
