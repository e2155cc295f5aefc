//! Per-guild playback state: the current track and the upcoming queue.

use std::collections::VecDeque;

use vstd::prelude::*;

verus! {

/// Metadata for a single track in the queue.
#[derive(Debug, PartialEq, Eq)]
pub struct Track {
    pub title: String,
    /// The resolved URL that yt-dlp will stream from.
    pub url: String,
    /// The Discord user id of the member who asked for the track.
    pub requested_by: u64,
}

impl Clone for Track {
    fn clone(&self) -> (r: Self)
        ensures
            r == *self,
    {
        Track { title: self.title.clone(), url: self.url.clone(), requested_by: self.requested_by }
    }
}

/// State for a single guild: current track + upcoming queue.
/// One of these is created per guild on first use.
pub struct GuildMusicState {
    pub queue: VecDeque<Track>,
    pub current: Option<Track>,
    /// The link played between tracks while pre-play is enabled.
    pub preplay_url: Option<String>,
}

/// Playback as `(current, upcoming)`.
pub type Playback = (Option<Track>, Seq<Track>);

/// Playback after recording an ordered batch appended to the player's queue:
/// when the player was idle the first track becomes current and the rest are
/// queued, else the whole batch is queued behind the existing tracks.
pub open spec fn after_batch(p: Playback, tracks: Seq<Track>, was_idle: bool) -> Playback {
    if was_idle {
        if tracks.len() > 0 {
            (Some(tracks[0]), p.1 + tracks.drop_first())
        } else {
            (None, p.1)
        }
    } else {
        (p.0, p.1 + tracks)
    }
}

/// Playback after moving to the next queued track (none when the queue is empty).
pub open spec fn after_advance(p: Playback) -> Playback {
    if p.1.len() > 0 {
        (Some(p.1[0]), p.1.drop_first())
    } else {
        (None, p.1)
    }
}

/// Playback after `n` successive advances.
pub open spec fn after_advances(p: Playback, n: nat) -> Playback
    decreases n,
{
    if n == 0 {
        p
    } else {
        after_advance(after_advances(p, (n - 1) as nat))
    }
}

impl GuildMusicState {
    pub open spec fn playback(&self) -> Playback {
        (self.current, self.queue@)
    }

    pub fn new() -> (r: Self)
        ensures
            r.current is None,
            r.queue@ == Seq::<Track>::empty(),
            r.preplay_url is None,
    {
        Self { queue: VecDeque::new(), current: None, preplay_url: None }
    }

    /// Add a track to the end of the queue.
    pub fn enqueue(&mut self, track: Track)
        ensures
            final(self).queue@ == old(self).queue@.push(track),
            final(self).current == old(self).current,
            final(self).preplay_url == old(self).preplay_url,
    {
        self.queue.push_back(track);
    }

    /// Record an ordered group of tracks that was appended to the player's queue.
    /// If playback was idle, the first track becomes current and the remainder
    /// become the upcoming queue.
    pub fn enqueue_batch(&mut self, tracks: Vec<Track>, was_idle: bool)
        ensures
            final(self).playback() == after_batch(old(self).playback(), tracks@, was_idle),
            final(self).preplay_url == old(self).preplay_url,
    {
        let ghost q0 = self.queue@;
        let ghost c0 = self.current;
        let ghost ts = tracks@;
        if was_idle {
            self.current = None;
        }
        let mut first = was_idle;
        for t in it: tracks.into_iter()
            invariant
                it.seq() == ts,
                first == (was_idle && it.index() == 0),
                self.preplay_url == old(self).preplay_url,
                was_idle && it.index() > 0 ==> self.current == Some(ts[0]) && self.queue@ == q0 + ts.subrange(1, it.index() as int),
                was_idle && it.index() == 0 ==> self.current is None && self.queue@ == q0,
                !was_idle ==> self.current == c0 && self.queue@ == q0 + ts.take(it.index() as int),
        {
            if first {
                self.current = Some(t);
                first = false;
            } else {
                let ghost before = self.queue@;
                self.queue.push_back(t);
                proof {
                    if was_idle {
                        assert(ts.subrange(1, it.index() + 1) =~= ts.subrange(1, it.index() as int).push(t));
                    } else {
                        assert(ts.take(it.index() + 1) =~= ts.take(it.index() as int).push(t));
                    }
                }
            }
        }
        proof {
            if was_idle && ts.len() > 0 {
                assert(ts.subrange(1, ts.len() as int) =~= ts.drop_first());
            }
            if !was_idle {
                assert(ts.take(ts.len() as int) =~= ts);
            }
            if was_idle && ts.len() == 0 {
                assert(q0 + ts =~= q0);
            }
        }
    }

    /// Advance to the next track: returns it if the queue is non-empty.
    pub fn advance(&mut self) -> (r: Option<Track>)
        ensures
            final(self).playback() == after_advance(old(self).playback()),
            r == final(self).current,
            final(self).preplay_url == old(self).preplay_url,
    {
        let next = self.queue.pop_front();
        self.current = match &next {
            Some(t) => Some(t.clone()),
            None => None,
        };
        proof {
            if old(self).queue@.len() > 0 {
                assert(self.queue@ =~= old(self).queue@.drop_first());
            }
        }
        next
    }

    /// Clear current track and queue (used when leaving).
    pub fn clear(&mut self)
        ensures
            final(self).current is None,
            final(self).queue@ == Seq::<Track>::empty(),
            final(self).preplay_url == old(self).preplay_url,
    {
        self.current = None;
        self.queue.clear();
    }

    /// Remove every upcoming track but keep the current one; returns how many
    /// were removed.
    pub fn clear_queue(&mut self) -> (r: usize)
        ensures
            r == old(self).queue@.len(),
            final(self).queue@ == Seq::<Track>::empty(),
            final(self).current == old(self).current,
            final(self).preplay_url == old(self).preplay_url,
    {
        let n = self.queue.len();
        self.queue.clear();
        n
    }

    /// Enable between-track audio with `url`.
    pub fn enable_preplay(&mut self, url: String)
        ensures
            final(self).preplay_url == Some(url),
            final(self).playback() == old(self).playback(),
    {
        self.preplay_url = Some(url);
    }

    /// Disable between-track audio; returns whether it was enabled.
    pub fn disable_preplay(&mut self) -> (r: bool)
        ensures
            r == old(self).preplay_url is Some,
            final(self).preplay_url is None,
            final(self).playback() == old(self).playback(),
    {
        let was_enabled = self.preplay_url.is_some();
        self.preplay_url = None;
        was_enabled
    }
}

/// Recording a batch never disturbs the tracks already waiting: they stay at
/// the front of the queue, in their order, and the rest of the queue is the
/// batch (without its first track when the player was idle). A batch
/// recorded while busy keeps the current track.
pub proof fn lemma_batch_keeps_waiting_tracks(p: Playback, tracks: Seq<Track>, was_idle: bool)
    ensures
        after_batch(p, tracks, was_idle).1.len() >= p.1.len(),
        after_batch(p, tracks, was_idle).1.take(p.1.len() as int) == p.1,
        !was_idle ==> after_batch(p, tracks, was_idle).1.skip(p.1.len() as int) == tracks,
        !was_idle ==> after_batch(p, tracks, was_idle).0 == p.0,
        was_idle && tracks.len() == 0 ==> after_batch(p, tracks, was_idle).0 is None,
        was_idle && tracks.len() > 0 ==> after_batch(p, tracks, was_idle).0 == Some(tracks[0])
            && seq![tracks[0]] + after_batch(p, tracks, was_idle).1.skip(p.1.len() as int) == tracks,
{
    let b = after_batch(p, tracks, was_idle);
    assert(b.1.take(p.1.len() as int) =~= p.1);
    if !was_idle {
        assert(b.1.skip(p.1.len() as int) =~= tracks);
    }
    if was_idle && tracks.len() > 0 {
        assert(seq![tracks[0]] + b.1.skip(p.1.len() as int) =~= tracks);
    }
}

/// Advancing takes the first waiting track and leaves the others in order;
/// with nothing waiting, nothing plays.
pub proof fn lemma_advance_takes_front(p: Playback)
    ensures
        p.1.len() > 0 ==> after_advance(p).0 == Some(p.1[0]) && seq![p.1[0]] + after_advance(p).1 == p.1,
        p.1.len() == 0 ==> after_advance(p).0 is None && after_advance(p).1.len() == 0,
{
    if p.1.len() > 0 {
        assert(seq![p.1[0]] + after_advance(p).1 =~= p.1);
    }
}

/// Queued tracks play in queue order: after `k + 1` advances from a state
/// whose upcoming queue is `q`, the `k`-th queued track is current and the
/// tracks behind it remain queued.
pub proof fn lemma_queue_plays_in_order(p: Playback, k: nat)
    requires
        k < p.1.len(),
    ensures
        after_advances(p, k + 1) == (Some(p.1[k as int]), p.1.subrange((k + 1) as int, p.1.len() as int)),
    decreases k,
{
    if k == 0 {
        assert(after_advances(p, 0) == p);
        assert(p.1.drop_first() =~= p.1.subrange(1, p.1.len() as int));
    } else {
        lemma_queue_plays_in_order(p, (k - 1) as nat);
        let prev = after_advances(p, k);
        assert(prev.1 == p.1.subrange(k as int, p.1.len() as int));
        assert(prev.1.drop_first() =~= p.1.subrange((k + 1) as int, p.1.len() as int));
    }
}

/// A batch recorded while idle plays in batch order: the first track is
/// current at once, and after `k` advances the `k`-th track is current.
pub proof fn lemma_idle_batch_plays_in_order(p: Playback, tracks: Seq<Track>, k: nat)
    requires
        p.1.len() == 0,
        k < tracks.len(),
    ensures
        after_advances(after_batch(p, tracks, true), k).0 == Some(tracks[k as int]),
{
    let b = after_batch(p, tracks, true);
    assert(b.1 =~= tracks.drop_first());
    if k > 0 {
        lemma_queue_plays_in_order(b, (k - 1) as nat);
    }
}

/// A batch recorded while a track plays is queued behind the tracks already
/// waiting, in batch order, and leaves the current track playing.
pub proof fn lemma_busy_batch_plays_after_queue(p: Playback, tracks: Seq<Track>, k: nat)
    requires
        k < tracks.len(),
    ensures
        after_batch(p, tracks, false).0 == p.0,
        after_advances(after_batch(p, tracks, false), p.1.len() + k + 1).0 == Some(tracks[k as int]),
{
    let b = after_batch(p, tracks, false);
    lemma_queue_plays_in_order(b, p.1.len() + k);
}

} // verus!
