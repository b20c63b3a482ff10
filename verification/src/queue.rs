use vstd::math::min;
use vstd::prelude::*;

use crate::error::CommandError;
use crate::track::TrackRecord;

verus! {

/// Ordered sequence of track records for one group; insertion order is
/// play order. The entry at position 0, when present, is the currently
/// loaded track (playing, paused, or about to start); entries at
/// positions >= 1 are pending. Positions are 0-based throughout; the
/// front-end translates to whatever user-facing numbering it wants.
/// An empty queue is a valid terminal state, not an error.
pub struct PlaybackQueue {
    entries: Vec<TrackRecord>,
}

impl View for PlaybackQueue {
    type V = Seq<TrackRecord>;

    closed spec fn view(&self) -> Seq<TrackRecord> {
        self.entries@
    }
}

impl PlaybackQueue {
    pub fn new() -> (q: PlaybackQueue)
        ensures
            q@ == Seq::<TrackRecord>::empty(),
    {
        PlaybackQueue { entries: Vec::new() }
    }

    pub fn len(&self) -> (n: usize)
        ensures
            n == self@.len(),
    {
        self.entries.len()
    }

    pub fn is_empty(&self) -> (b: bool)
        ensures
            b == (self@.len() == 0),
    {
        self.entries.len() == 0
    }

    /// Appends the track and returns its 1-based display position. The
    /// display position counts the current entry as 1, so it equals the
    /// queue's new length; position 0 ("current") is never returned.
    pub fn enqueue(&mut self, track: TrackRecord) -> (position: usize)
        ensures
            final(self)@ == old(self)@.push(track),
            position == old(self)@.len() + 1,
    {
        self.entries.push(track);
        self.entries.len()
    }

    /// The currently loaded track: position 0, if present.
    pub fn peek_current(&self) -> (r: Option<&TrackRecord>)
        ensures
            match r {
                Some(t) => self@.len() > 0 && *t == self@[0],
                None => self@.len() == 0,
            },
    {
        if self.entries.len() > 0 {
            Some(&self.entries[0])
        } else {
            None
        }
    }

    /// Read-only copy of the whole queue, current entry first. It
    /// reflects the single state the queue had at the call.
    pub fn snapshot(&self) -> (r: Vec<TrackRecord>)
        ensures
            r@ == self@,
    {
        let mut out: Vec<TrackRecord> = Vec::new();
        let n = self.entries.len();
        let mut i: usize = 0;
        while i < n
            invariant
                i <= n,
                n == self.entries@.len(),
                out@ == self.entries@.take(i as int),
            decreases n - i,
        {
            out.push(self.entries[i].clone());
            assert(out@ =~= self.entries@.take(i + 1));
            i = i + 1;
        }
        assert(out@ =~= self.entries@);
        out
    }

    /// Removes the entry at `position` (0-based) and re-indexes every
    /// later entry down by one. Fails with `NotFound`, and leaves the
    /// queue unchanged, exactly when the position is out of bounds.
    pub fn remove_at(&mut self, position: usize) -> (r: Result<TrackRecord, CommandError>)
        ensures
            position < old(self)@.len() ==> {
                &&& r matches Ok(t) && t == old(self)@[position as int]
                &&& final(self)@ == old(self)@.remove(position as int)
            },
            position >= old(self)@.len() ==> {
                &&& r matches Err(e) && e == CommandError::NotFound
                &&& final(self)@ == old(self)@
            },
    {
        if position < self.entries.len() {
            Ok(self.entries.remove(position))
        } else {
            Err(CommandError::NotFound)
        }
    }

    /// Drops the current entry and promotes the next; returns the new
    /// current track, if any. Explicit skips and the transport's
    /// track-finished notification both come through here.
    pub fn advance(&mut self) -> (r: Option<TrackRecord>)
        ensures
            old(self)@.len() == 0 ==> final(self)@ == old(self)@,
            old(self)@.len() > 0 ==> final(self)@ == old(self)@.skip(1),
            final(self)@.len() == if old(self)@.len() == 0 { 0int } else { old(self)@.len() - 1 },
            match r {
                Some(t) => old(self)@.len() > 1 && t == old(self)@[1],
                None => old(self)@.len() <= 1,
            },
    {
        if self.entries.len() == 0 {
            None
        } else {
            self.entries.remove(0);
            assert(self.entries@ =~= old(self).entries@.skip(1));
            match self.peek_current() {
                Some(t) => Some(t.clone()),
                None => None,
            }
        }
    }

    /// Drops up to `count` entries from the front; dropping the current
    /// entry counts as one of them. A count larger than the queue means
    /// "drop everything", not an error.
    pub fn drop_front(&mut self, count: usize) -> (dropped: usize)
        ensures
            final(self)@ == old(self)@.skip(min(count as int, old(self)@.len() as int)),
            dropped == min(count as int, old(self)@.len() as int),
    {
        let mut k: usize = 0;
        let m = if count < self.entries.len() {
            count
        } else {
            self.entries.len()
        };
        while k < m
            invariant
                k <= m,
                m <= old(self)@.len(),
                m == min(count as int, old(self)@.len() as int),
                self.entries@ == old(self)@.skip(k as int),
            decreases m - k,
        {
            self.entries.remove(0);
            assert(self.entries@ =~= old(self)@.skip(k + 1));
            k = k + 1;
        }
        m
    }

    /// Drops every entry.
    pub fn clear(&mut self)
        ensures
            final(self)@ == Seq::<TrackRecord>::empty(),
    {
        self.entries.clear();
    }
}

/// The queue contents that appending the given tracks one after another
/// onto an empty queue builds up, exactly as each `enqueue` promises to
/// extend the view by one `push`.
pub open spec fn enqueued_in_order(tracks: Seq<TrackRecord>) -> Seq<TrackRecord> {
    tracks.fold_left(
        Seq::<TrackRecord>::empty(),
        |q: Seq<TrackRecord>, t: TrackRecord| q.push(t),
    )
}

/// Queue ordering law: enqueueing tracks one after another, with nothing
/// removed in between, leaves exactly those tracks in that order, which
/// is what `snapshot` then returns.
pub proof fn lemma_queue_ordering(tracks: Seq<TrackRecord>)
    ensures
        enqueued_in_order(tracks) == tracks,
    decreases tracks.len(),
{
    if tracks.len() == 0 {
        assert(enqueued_in_order(tracks) =~= tracks);
    } else {
        lemma_queue_ordering(tracks.drop_last());
        assert(enqueued_in_order(tracks) =~= tracks);
    }
}

/// Remove reindexing law: removing position `p` keeps every entry before
/// `p` in place, shifts every entry after `p` down by one, and shortens
/// the queue by one, exactly as `remove_at` leaves the view.
pub proof fn lemma_remove_reindexing(q: Seq<TrackRecord>, p: int)
    requires
        0 <= p < q.len(),
    ensures
        q.remove(p).len() == q.len() - 1,
        forall|i: int| 0 <= i < p ==> q.remove(p)[i] == q[i],
        forall|i: int| p < i < q.len() ==> q.remove(p)[i - 1] == q[i],
{
}

} // verus!
