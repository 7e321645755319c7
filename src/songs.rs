//! The library as the player sees it: the track index, the view filter
//! over it, the play queue (front = current track), the history of tracks
//! played or skipped past, and the supervisor of the player process.

use vstd::prelude::*;
use random_number::rand::seq::SliceRandom;
use crate::player::{kill_spec, live, reaped_spec, spawned_spec, poll_spec, retire_spec, ActiveSong, PlayerState, PlayerView, StartStep};
use crate::query::song_matches;
use crate::text::{lower_of, lowercase};
use crate::track::{failure_texts, index_outcome, IndexError, Song};

verus! {

/// The direction the queue moves in when the current track ends.
#[derive(Clone, Copy, Debug, PartialEq, Eq, Structural)]
pub enum SongLoadingState {
    Backward,
    Forward,
}

/// The view filter: the whole index, or the index positions that matched a
/// query, in index order.
#[derive(Debug)]
pub enum SongList {
    All,
    Filtered(Vec<usize>),
}

impl SongList {
    /// Every position the filter holds is below `n`.
    pub open spec fn valid_for(&self, n: nat) -> bool {
        match self {
            SongList::All => true,
            SongList::Filtered(v) => forall|i: int| 0 <= i < v.len() ==> (#[trigger] v@[i] as int) < n,
        }
    }

    /// The positions the filter shows, for an index of `n` tracks.
    pub open spec fn positions(&self, n: nat) -> Seq<usize> {
        match self {
            SongList::All => Seq::new(n, |i: int| i as usize),
            SongList::Filtered(v) => v@,
        }
    }

    /// The index position of the `index`-th shown track.
    pub fn real_index(&self, index: usize) -> (r: usize)
        requires
            match self {
                SongList::All => true,
                SongList::Filtered(v) => index < v.len(),
            },
        ensures
            r == match self {
                SongList::All => index,
                SongList::Filtered(v) => v@[index as int],
            },
    {
        match self {
            SongList::All => index,
            SongList::Filtered(v) => v[index],
        }
    }

    /// Empties a filter; the unfiltered view stays unfiltered.
    pub fn clear(&mut self)
        ensures
            match *old(self) {
                SongList::All => *final(self) is All,
                SongList::Filtered(_) => *final(self) matches SongList::Filtered(v) && v@.len()
                    == 0,
            },
    {
        if let SongList::Filtered(v) = self {
            v.clear();
        }
    }
}

/// Queue and history after one step: forward moves the current track onto
/// the history, backward moves the last played track back to the front.
pub open spec fn advance_spec(q: Seq<usize>, h: Seq<usize>, dir: SongLoadingState) -> (
    Seq<usize>,
    Seq<usize>,
) {
    match dir {
        SongLoadingState::Forward => if q.len() > 0 {
            (q.drop_first(), h.push(q[0]))
        } else {
            (q, h)
        },
        SongLoadingState::Backward => if h.len() > 0 {
            (seq![h.last()] + q, h.drop_last())
        } else {
            (q, h)
        },
    }
}

/// Forward then backward gives back the queue and the history as they
/// were; on an empty queue forward changes nothing, and on an empty history
/// backward changes nothing.
pub proof fn lemma_forward_backward_round_trip(q: Seq<usize>, h: Seq<usize>)
    ensures
        q.len() > 0 ==> ({
            let (q1, h1) = advance_spec(q, h, SongLoadingState::Forward);
            advance_spec(q1, h1, SongLoadingState::Backward) == (q, h)
        }),
        q.len() == 0 ==> advance_spec(q, h, SongLoadingState::Forward) == (q, h),
        h.len() == 0 ==> advance_spec(q, h, SongLoadingState::Backward) == (q, h),
{
    if q.len() > 0 {
        let (q1, h1) = advance_spec(q, h, SongLoadingState::Forward);
        assert(h1.drop_last() =~= h);
        assert(seq![h1.last()] + q1 =~= q);
    }
}

/// The tracks at the given positions, skipping positions outside the index.
pub open spec fn songs_at(lib: Seq<Song>, ps: Seq<usize>) -> Seq<Song>
    decreases ps.len(),
{
    if ps.len() == 0 {
        Seq::empty()
    } else {
        let rest = songs_at(lib, ps.drop_last());
        if (ps.last() as int) < lib.len() {
            rest.push(lib[ps.last() as int])
        } else {
            rest
        }
    }
}

/// The queue after `pos` is put right after the current track.
pub open spec fn insert_after_current(q: Seq<usize>, pos: usize) -> Seq<usize> {
    if q.len() == 0 {
        seq![pos]
    } else {
        q.insert(1, pos)
    }
}

/// Whether the view filter keeps a track for the query (none keeps all).
pub open spec fn keeps(s: Song, query: Option<Seq<char>>) -> bool {
    match query {
        None => true,
        Some(q) => song_matches(s, lower_of(q)),
    }
}

/// The positions among the first `n` tracks that the query keeps.
pub open spec fn matching_positions(lib: Seq<Song>, query: Option<Seq<char>>, n: nat) -> Seq<usize>
    decreases n,
{
    if n == 0 {
        Seq::empty()
    } else {
        let rest = matching_positions(lib, query, (n - 1) as nat);
        if keeps(lib[n - 1], query) {
            rest.push((n - 1) as usize)
        } else {
            rest
        }
    }
}

/// The library, its view filter, the queue, the history and the player.
pub struct Songs {
    showing_songs_library: SongList,
    songs_data_library: Vec<Song>,
    songs_next: Vec<usize>,
    songs_history: Vec<usize>,
    active: ActiveSong,
}

impl Songs {
    pub closed spec fn library(&self) -> Seq<Song> {
        self.songs_data_library@
    }

    pub closed spec fn queue(&self) -> Seq<usize> {
        self.songs_next@
    }

    pub closed spec fn history(&self) -> Seq<usize> {
        self.songs_history@
    }

    pub closed spec fn player(&self) -> PlayerView {
        self.active.view()
    }

    pub closed spec fn filter(&self) -> SongList {
        self.showing_songs_library
    }

    /// The positions the view filter shows.
    pub closed spec fn visible(&self) -> Seq<usize> {
        self.showing_songs_library.positions(self.songs_data_library@.len())
    }

    /// The view filter only holds positions of the index.
    pub closed spec fn wf(&self) -> bool {
        self.showing_songs_library.valid_for(self.songs_data_library@.len())
    }

    /// The current track's position: the queue's front.
    pub open spec fn current(&self) -> Option<usize> {
        if self.queue().len() > 0 {
            Some(self.queue()[0])
        } else {
            None
        }
    }

    /// Everything but the queue and history is as in `other`.
    pub open spec fn same_but_queue(&self, other: &Songs) -> bool {
        &&& self.library() == other.library()
        &&& self.filter() == other.filter()
        &&& self.player() == other.player()
    }

    /// Everything but the player is as in `other`.
    pub open spec fn same_but_player(&self, other: &Songs) -> bool {
        &&& self.library() == other.library()
        &&& self.filter() == other.filter()
        &&& self.queue() == other.queue()
        &&& self.history() == other.history()
    }

    /// A player state over the given index: unfiltered, nothing queued,
    /// nothing played, no process.
    pub fn new(library: Vec<Song>) -> (r: Songs)
        ensures
            r.library() == library@,
            r.filter() is All,
            r.queue().len() == 0,
            r.history().len() == 0,
            r.player() == (PlayerView { state: PlayerState::Idle, killed: false }),
    {
        Songs {
            showing_songs_library: SongList::All,
            songs_data_library: library,
            songs_next: Vec::new(),
            songs_history: Vec::new(),
            active: ActiveSong::new(),
        }
    }

    /// The view filter.
    pub fn showing(&self) -> (r: &SongList)
        ensures
            *r == self.filter(),
    {
        &self.showing_songs_library
    }

    /// The tracks the view filter shows, in order. (Every position of a
    /// filter names a track of the index: see `filter_apply`.)
    pub fn showing_songs_library(&self) -> (r: Vec<&Song>)
        ensures
            r@.map_values(|s: &Song| *s) == songs_at(self.library(), self.visible()),
    {
        let ghost vis = self.visible();
        let mut r: Vec<&Song> = Vec::new();
        let n = match &self.showing_songs_library {
            SongList::All => self.songs_data_library.len(),
            SongList::Filtered(v) => v.len(),
        };
        let mut i: usize = 0;
        assert(vis.subrange(0, 0) =~= Seq::<usize>::empty());
        while i < n
            invariant
                vis == self.visible(),
                n == vis.len(),
                i <= n,
                r@.map_values(|s: &Song| *s) == songs_at(self.library(), vis.subrange(0, i as int)),
            decreases n - i,
        {
            let p = self.showing_songs_library.real_index(i);
            let ghost pre = vis.subrange(0, i + 1);
            assert(pre.drop_last() =~= vis.subrange(0, i as int));
            assert(pre.last() == p);
            if p < self.songs_data_library.len() {
                r.push(&self.songs_data_library[p]);
                assert(r@.map_values(|s: &Song| *s) =~= songs_at(
                    self.library(),
                    vis.subrange(0, i as int),
                ).push(self.library()[p as int]));
            }
            i += 1;
        }
        assert(vis.subrange(0, n as int) =~= vis);
        r
    }

    /// The current track's position: the queue's front.
    pub fn current_song_index(&self) -> (r: Option<usize>)
        ensures
            r == self.current(),
    {
        if self.songs_next.len() > 0 {
            Some(self.songs_next[0])
        } else {
            None
        }
    }

    /// The current track, when the queue's front is a position of the index.
    pub fn current_song(&self) -> (r: Option<&Song>)
        ensures
            match self.current() {
                Some(p) => if (p as int) < self.library().len() {
                    r matches Some(s) && *s == self.library()[p as int]
                } else {
                    r is None
                },
                None => r is None,
            },
    {
        match self.current_song_index() {
            Some(p) => {
                if p < self.songs_data_library.len() {
                    Some(&self.songs_data_library[p])
                } else {
                    None
                }
            },
            None => None,
        }
    }

    /// The tracks queued after the current one.
    pub fn next_playing(&self) -> (r: Vec<&Song>)
        ensures
            r@.map_values(|s: &Song| *s) == songs_at(
                self.library(),
                if self.queue().len() > 0 {
                    self.queue().drop_first()
                } else {
                    self.queue()
                },
            ),
    {
        let ghost up = if self.queue().len() > 0 {
            self.queue().drop_first()
        } else {
            self.queue()
        };
        let mut r: Vec<&Song> = Vec::new();
        let mut i: usize = 1;
        if self.songs_next.len() == 0 {
            assert(r@.map_values(|s: &Song| *s) =~= songs_at(self.library(), up));
            return r;
        }
        assert(up.subrange(0, 0) =~= Seq::<usize>::empty());
        while i < self.songs_next.len()
            invariant
                1 <= i <= self.songs_next.len(),
                up == self.queue().drop_first(),
                r@.map_values(|s: &Song| *s) == songs_at(self.library(), up.subrange(0, i - 1)),
            decreases self.songs_next.len() - i,
        {
            let p = self.songs_next[i];
            let ghost pre = up.subrange(0, i as int);
            assert(pre.drop_last() =~= up.subrange(0, i - 1));
            assert(pre.last() == p);
            if p < self.songs_data_library.len() {
                r.push(&self.songs_data_library[p]);
                assert(r@.map_values(|s: &Song| *s) =~= songs_at(self.library(), up.subrange(0, i - 1)).push(self.library()[p as int]));
            }
            i += 1;
        }
        assert(up.subrange(0, up.len() as int) =~= up);
        r
    }

    /// Moves the queue one step: forward puts the current track on the
    /// history, backward puts the last played track back in front. A step
    /// with nothing to move is a no-op.
    pub fn next(&mut self, song_state: &SongLoadingState)
        ensures
            (final(self).queue(), final(self).history()) == advance_spec(
                old(self).queue(),
                old(self).history(),
                *song_state,
            ),
            final(self).same_but_queue(old(self)),
    {
        match song_state {
            SongLoadingState::Backward => {
                self.previous();
            },
            SongLoadingState::Forward => {
                if self.songs_next.len() > 0 {
                    let current = self.songs_next.remove(0);
                    self.songs_history.push(current);
                    assert(self.songs_next@ =~= old(self).songs_next@.drop_first());
                }
            },
        }
    }

    /// Puts the last played track back in front of the queue, if any.
    pub fn previous(&mut self)
        ensures
            (final(self).queue(), final(self).history()) == advance_spec(
                old(self).queue(),
                old(self).history(),
                SongLoadingState::Backward,
            ),
            final(self).same_but_queue(old(self)),
    {
        if let Some(previous) = self.songs_history.pop() {
            self.songs_next.insert(0, previous);
            assert(self.songs_next@ =~= seq![previous] + old(self).songs_next@);
            assert(self.songs_history@ =~= old(self).songs_history@.drop_last());
        }
    }

    /// The supervisor of the player process.
    pub fn active(&self) -> (r: &ActiveSong)
        ensures
            r.view() == self.player(),
    {
        &self.active
    }

    /// Asks for the player process to be terminated; returns whether there
    /// is a process for the caller to kill and reap.
    pub fn kill_current(&mut self) -> (r: bool)
        ensures
            (final(self).player(), r) == kill_spec(old(self).player()),
            final(self).same_but_player(old(self)),
    {
        self.active.try_kill()
    }

    /// Reports the end of a kill.
    pub fn kill_finished(&mut self, reaped: bool)
        ensures
            final(self).player() == reaped_spec(old(self).player(), reaped),
            final(self).same_but_player(old(self)),
    {
        self.active.kill_finished(reaped)
    }

    /// Reports the outcome of a spawn.
    pub fn spawn_finished(&mut self, ok: bool)
        ensures
            final(self).player() == spawned_spec(old(self).player(), ok),
            final(self).same_but_player(old(self)),
    {
        self.active.spawn_finished(ok)
    }

    /// Reports a liveness check of the player process.
    pub fn poll_player(&mut self, exited: bool) -> (r: PlayerState)
        ensures
            final(self).player() == poll_spec(old(self).player(), exited),
            r == final(self).player().state,
            final(self).same_but_player(old(self)),
    {
        self.active.poll(exited)
    }

    /// Whether the player process is known to be alive.
    pub fn song_is_running(&self) -> (r: bool)
        ensures
            r == (self.player().state == PlayerState::Running),
    {
        self.active.is_running()
    }

    /// Whether a player process exists.
    pub fn active_exists(&self) -> (r: bool)
        ensures
            r == live(self.player().state),
    {
        self.active.has_process()
    }

    /// Starts the current track when no process is live: returns its
    /// position, which the caller is to spawn a process for, or `None` when
    /// the queue's front is no track of the index.
    pub fn try_play_current_song(&mut self) -> (r: Option<usize>)
        requires
            !live(old(self).player().state),
        ensures
            final(self).same_but_player(old(self)),
            match old(self).current() {
                Some(p) => if (p as int) < old(self).library().len() {
                    r == Some(p) && final(self).player() == (PlayerView {
                        state: PlayerState::Starting,
                        killed: false,
                    })
                } else {
                    r is None && final(self).player() == retire_spec(old(self).player())
                },
                None => r is None && final(self).player() == retire_spec(old(self).player()),
            },
    {
        self.active.retire();
        match self.current_song_index() {
            Some(p) => {
                if p < self.songs_data_library.len() {
                    let step = self.active.start();
                    assert(step == StartStep::Spawn);
                    Some(p)
                } else {
                    None
                }
            },
            None => None,
        }
    }

    /// The last played track's position: the history's top.
    pub fn last_played_index(&self) -> (r: Option<usize>)
        ensures
            r == if self.history().len() > 0 {
                Some(self.history().last())
            } else {
                None::<usize>
            },
    {
        if self.songs_history.len() > 0 {
            Some(self.songs_history[self.songs_history.len() - 1])
        } else {
            None
        }
    }

    /// The last played track, when it is a track of the index.
    pub fn last_played(&self) -> (r: Option<&Song>)
        ensures
            self.history().len() > 0 && (self.history().last() as int) < self.library().len()
                ==> (r matches Some(s) && *s == self.library()[self.history().last() as int]),
            !(self.history().len() > 0 && (self.history().last() as int) < self.library().len())
                ==> r is None,
    {
        match self.last_played_index() {
            Some(p) => {
                if p < self.songs_data_library.len() {
                    Some(&self.songs_data_library[p])
                } else {
                    None
                }
            },
            None => None,
        }
    }

    /// Appends a track to the queue.
    pub fn push_song_back(&mut self, selected: usize)
        ensures
            final(self).queue() == old(self).queue().push(selected),
            final(self).history() == old(self).history(),
            final(self).same_but_queue(old(self)),
    {
        self.songs_next.push(selected);
    }

    /// Puts a track right after the current one, never in its place; on an
    /// empty queue it becomes the only entry.
    pub fn push_song_front(&mut self, selected: usize)
        ensures
            final(self).queue() == insert_after_current(old(self).queue(), selected),
            final(self).history() == old(self).history(),
            final(self).same_but_queue(old(self)),
    {
        if self.songs_next.len() == 0 {
            self.songs_next.push(selected);
            assert(self.songs_next@ =~= seq![selected]);
        } else {
            self.songs_next.insert(1, selected);
        }
    }

    /// The whole index, in index order.
    pub fn songs_library(&self) -> (r: &Vec<Song>)
        ensures
            r@ == self.library(),
    {
        &self.songs_data_library
    }

    pub fn songs_in_library(&self) -> (r: usize)
        ensures
            r == self.library().len(),
    {
        self.songs_data_library.len()
    }

    pub fn songs_in_next_up(&self) -> (r: usize)
        ensures
            r == self.queue().len(),
    {
        self.songs_next.len()
    }

    /// Drops everything queued after the current track; the history stays.
    pub fn clear_up_next(&mut self)
        ensures
            final(self).queue() == if old(self).queue().len() > 1 {
                old(self).queue().subrange(0, 1)
            } else {
                old(self).queue()
            },
            final(self).history() == old(self).history(),
            final(self).same_but_queue(old(self)),
    {
        self.songs_next.truncate(1);
    }

    /// Removes the queue entry at `selected`; a position past the end (a
    /// stale selection) changes nothing.
    pub fn remove_next_up(&mut self, selected: usize)
        ensures
            final(self).queue() == if (selected as int) < old(self).queue().len() {
                old(self).queue().remove(selected as int)
            } else {
                old(self).queue()
            },
            final(self).history() == old(self).history(),
            final(self).same_but_queue(old(self)),
    {
        if selected < self.songs_next.len() {
            self.songs_next.remove(selected);
        }
    }

    /// Moves the queue entry at `selected` right after the current track.
    /// Returns whether it moved; a position past the end changes nothing.
    pub fn reorder_to_front(&mut self, selected: usize) -> (r: bool)
        ensures
            r == ((selected as int) < old(self).queue().len()),
            final(self).queue() == if r {
                insert_after_current(
                    old(self).queue().remove(selected as int),
                    old(self).queue()[selected as int],
                )
            } else {
                old(self).queue()
            },
            final(self).history() == old(self).history(),
            final(self).same_but_queue(old(self)),
    {
        if selected < self.songs_next.len() {
            let p = self.songs_next.remove(selected);
            self.push_song_front(p);
            true
        } else {
            false
        }
    }

    /// The queue entry at `selected`, if there is one.
    pub fn next_by_index(&self, selected: usize) -> (r: Option<usize>)
        ensures
            r == if (selected as int) < self.queue().len() {
                Some(self.queue()[selected as int])
            } else {
                None::<usize>
            },
    {
        if selected < self.songs_next.len() {
            Some(self.songs_next[selected])
        } else {
            None
        }
    }

    /// Appends the given positions to the queue, in order.
    pub fn enqueue_all(&mut self, order: &Vec<usize>)
        ensures
            final(self).queue() == old(self).queue() + order@,
            final(self).history() == old(self).history(),
            final(self).same_but_queue(old(self)),
    {
        let mut i: usize = 0;
        while i < order.len()
            invariant
                i <= order.len(),
                self.songs_next@ == old(self).songs_next@ + order@.subrange(0, i as int),
                self.songs_history@ == old(self).songs_history@,
                self.songs_data_library@ == old(self).songs_data_library@,
                self.showing_songs_library == old(self).showing_songs_library,
                self.active.view() == old(self).active.view(),
            decreases order.len() - i,
        {
            self.songs_next.push(order[i]);
            assert(order@.subrange(0, i + 1) =~= order@.subrange(0, i as int).push(order@[i as int]));
            assert(self.songs_next@ =~= old(self).songs_next@ + order@.subrange(0, i + 1));
            i += 1;
        }
        assert(order@.subrange(0, order.len() as int) =~= order@);
    }

    /// The positions the view filter shows.
    pub fn visible_positions(&self) -> (r: Vec<usize>)
        ensures
            r@ == self.visible(),
    {
        match &self.showing_songs_library {
            SongList::All => {
                let mut r: Vec<usize> = Vec::new();
                let n = self.songs_data_library.len();
                let mut i: usize = 0;
                while i < n
                    invariant
                        i <= n,
                        n == self.library().len(),
                        r@ == Seq::new(i as nat, |k: int| k as usize),
                    decreases n - i,
                {
                    r.push(i);
                    assert(r@ =~= Seq::new((i + 1) as nat, |k: int| k as usize));
                    i += 1;
                }
                r
            },
            SongList::Filtered(v) => v.clone(),
        }
    }

    /// Appends every shown track to the queue in a random order.
    pub fn push_back_all(&mut self)
        ensures
            final(self).queue().subrange(0, old(self).queue().len() as int) == old(self).queue(),
            final(self).queue().subrange(
                old(self).queue().len() as int,
                final(self).queue().len() as int,
            ).to_multiset() == old(self).visible().to_multiset(),
            final(self).history() == old(self).history(),
            final(self).same_but_queue(old(self)),
    {
        let mut order = self.visible_positions();
        shuffle_positions(&mut order);
        let ghost q = self.songs_next@;
        self.enqueue_all(&order);
        assert(self.songs_next@.subrange(0, q.len() as int) =~= q);
        assert(self.songs_next@.subrange(q.len() as int, self.songs_next@.len() as int) =~= order@);
    }

    /// Shows only the tracks the query matches (it is lowercased first);
    /// with no query every track is shown.
    pub fn filter_apply(&mut self, query: Option<&String>)
        ensures
            final(self).wf(),
            final(self).filter() matches SongList::Filtered(v) && v@ == matching_positions(
                old(self).library(),
                match query {
                    Some(q) => Some(q@),
                    None => None,
                },
                old(self).library().len(),
            ),
            final(self).library() == old(self).library(),
            final(self).queue() == old(self).queue(),
            final(self).history() == old(self).history(),
            final(self).player() == old(self).player(),
    {
        let ghost qv = match query {
            Some(q) => Some(q@),
            None => None,
        };
        let lowered = match query {
            Some(q) => Some(lowercase(q.as_str())),
            None => None,
        };
        let n = self.songs_data_library.len();
        let mut filtered: Vec<usize> = Vec::new();
        let mut i: usize = 0;
        while i < n
            invariant
                i <= n,
                n == self.songs_data_library@.len(),
                filtered@ == matching_positions(self.songs_data_library@, qv, i as nat),
                forall|k: int| 0 <= k < filtered.len() ==> (#[trigger] filtered@[k] as int) < i,
                match lowered {
                    Some(l) => qv matches Some(q) && l@ == lower_of(q),
                    None => qv is None,
                },
            decreases n - i,
        {
            let keep = match &lowered {
                Some(l) => self.songs_data_library[i].matches_query(l),
                None => true,
            };
            if keep {
                filtered.push(i);
            }
            i += 1;
        }
        self.showing_songs_library = SongList::Filtered(filtered);
    }

    /// Shows the whole index.
    pub fn unfiltered_apply(&mut self)
        ensures
            final(self).filter() is All,
            final(self).library() == old(self).library(),
            final(self).queue() == old(self).queue(),
            final(self).history() == old(self).history(),
            final(self).player() == old(self).player(),
    {
        self.showing_songs_library = SongList::All;
    }

    /// What a reload with the given outcome does: a new index replaces the
    /// old one and empties the filter, the queue and the history (their
    /// positions belong to the old index); a failed load changes nothing.
    pub closed spec fn reload_outcome(
        before: Songs,
        outcome: Result<Vec<Song>, IndexError>,
        after: Songs,
    ) -> bool {
        match outcome {
            Ok(v) => {
                &&& after.songs_data_library@ == v@
                &&& after.songs_next@.len() == 0
                &&& after.songs_history@.len() == 0
                &&& after.active == before.active
                &&& match before.showing_songs_library {
                    SongList::All => after.showing_songs_library is All,
                    SongList::Filtered(_) => after.showing_songs_library matches SongList::Filtered(
                        f,
                    ) && f@.len() == 0,
                }
            },
            Err(_) => after == before,
        }
    }

    /// Puts a newly assembled index in place, or keeps everything as it was
    /// when the load failed.
    pub fn reload(&mut self, outcome: Result<Vec<Song>, IndexError>) -> (r: Result<(), IndexError>)
        ensures
            Songs::reload_outcome(*old(self), outcome, *final(self)),
            old(self).wf() ==> final(self).wf(),
            outcome matches Ok(v) ==> final(self).library() == v@ && final(self).queue().len() == 0
                && final(self).history().len() == 0 && final(self).player() == old(self).player(),
            outcome is Err ==> *final(self) == *old(self),
            r == match outcome {
                Ok(_) => Ok::<(), IndexError>(()),
                Err(e) => Err(e),
            },
    {
        match outcome {
            Ok(library) => {
                self.showing_songs_library.clear();
                self.songs_data_library = library;
                self.songs_next.clear();
                self.songs_history.clear();
                Ok(())
            },
            Err(e) => Err(e),
        }
    }
}

/// All or nothing: when a load fails on one file or more, the library, its
/// filter, the queue, the history and the player stay exactly as they were
/// before the attempt.
pub proof fn lemma_failed_load_keeps_state(
    results: Seq<Result<Song, String>>,
    outcome: Result<Vec<Song>, IndexError>,
    before: Songs,
    after: Songs,
)
    requires
        failure_texts(results).len() >= 1,
        index_outcome(results, outcome),
        Songs::reload_outcome(before, outcome, after),
    ensures
        after == before,
{
}

/// Relies on rand's `SliceRandom::shuffle` with `thread_rng` (re-exported
/// by random_number): it permutes the slice in place by swaps.
#[verifier::external_body]
fn shuffle_positions(v: &mut Vec<usize>)
    ensures
        final(v)@.to_multiset() == old(v)@.to_multiset(),
{
    v.shuffle(&mut random_number::rand::thread_rng());
}

} // verus!
