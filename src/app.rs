//! The application core: the sole mutator of the library, the queue, the
//! player supervisor and the navigation state, driven by a closed set of
//! commands. Work outside the process (killing or spawning the player,
//! talking to it, re-reading files) is handed back to the caller as an
//! `Effect`, whose outcome the caller reports through the matching method.

use vstd::prelude::*;
use crate::mpv::MpvCommand;
use crate::player::{kill_spec, live, retire_spec, PlayerState, PlayerView};
use crate::songs::{advance_spec, SongLoadingState, Songs};
use crate::text::{append_chars, chars_of, string_of, text_from_chars};
use crate::track::{IndexError, Song};

verus! {

/// The focus regions of the display, in a fixed ring; the list-bearing ones
/// carry their selection cursor.
#[derive(Clone, Copy, Debug, PartialEq, Eq, Structural)]
pub enum NavState {
    Player,
    UpNext(Option<usize>),
    Library(Option<usize>),
    Search,
    Exit,
}

/// The commands that drive the core.
#[derive(Clone, Copy, Debug, PartialEq, Eq, Structural)]
pub enum Message {
    /// No input arrived.
    Nothing,
    Exit,
    PauseToggle(bool),
    Stop,
    SongNext,
    SongPrevious,
    NavStateNext,
    NavStatePrev,
    /// Move the cursor down: one row (`true`) or a page, in a list of the
    /// given length.
    NavStateInnerNext(bool, usize),
    /// Move the cursor up: one row (`true`) or a page.
    NavStateInnerPrev(bool, usize),
    MoveSong,
    DeleteNextUp(usize),
    PlayAll,
    ReloadConfig,
    ReloadMusic,
    Escape,
    Find,
    ModifyFind(Option<char>),
    ClearUpNext,
    SongSeek(i32),
}

/// Outside work asked of the caller, who reports the outcome back.
#[derive(Clone, Copy, Debug, PartialEq, Eq, Structural)]
pub enum Effect {
    Nothing,
    /// Kill the player process and wait until it is reaped; report with
    /// `Songs::kill_finished`.
    Kill,
    /// Spawn a player process for the track at this index position; report
    /// with `App::spawn_finished`.
    Spawn(usize),
    /// Send a transport command to the player; report with
    /// `App::transport_finished`.
    Transport(MpvCommand),
    /// Re-read the configuration; report with `App::config_reloaded`.
    ReloadConfig,
    /// Re-index the library; report with `App::library_indexed`.
    ReloadLibrary,
}

pub open spec fn skip_rows(is_single_row: bool) -> int {
    if is_single_row {
        1
    } else {
        10
    }
}

/// The cursor after moving up by `skips` rows in a list of `n` entries.
pub open spec fn cursor_up(sel: Option<usize>, skips: int, n: usize) -> Option<usize> {
    if n > 0 {
        let from = match sel {
            Some(s) => s as int,
            None => 0,
        };
        Some((if from - skips > 0 {
            from - skips
        } else {
            0
        }) as usize)
    } else {
        sel
    }
}

/// The cursor after moving down by `skips` rows in a list of `n` entries.
pub open spec fn cursor_down(sel: Option<usize>, skips: int, n: usize) -> Option<usize> {
    if n > 0 {
        let from = match sel {
            Some(s) => s as int,
            None => 0,
        };
        Some((if from + skips < n - 1 {
            from + skips
        } else {
            n - 1
        }) as usize)
    } else {
        sel
    }
}

pub open spec fn move_cursor(nav: NavState, down: bool, is_single: bool, n: usize) -> NavState {
    let skips = skip_rows(is_single);
    match nav {
        NavState::UpNext(sel) => NavState::UpNext(
            if down {
                cursor_down(sel, skips, n)
            } else {
                cursor_up(sel, skips, n)
            },
        ),
        NavState::Library(sel) => NavState::Library(
            if down {
                cursor_down(sel, skips, n)
            } else {
                cursor_up(sel, skips, n)
            },
        ),
        _ => nav,
    }
}

/// A list region entered afresh: its cursor on the first row when the list
/// has any.
pub open spec fn fresh_cursor(len: nat) -> Option<usize> {
    if len != 0 {
        Some(0)
    } else {
        None
    }
}

/// The region after `nav` in the ring Player -> Search -> Library -> UpNext
/// -> Player, entered afresh; Exit stays.
pub open spec fn nav_next(nav: NavState, queue_len: nat, library_len: nat) -> NavState {
    match nav {
        NavState::Player => NavState::Search,
        NavState::Search => NavState::Library(fresh_cursor(library_len)),
        NavState::Library(_) => NavState::UpNext(fresh_cursor(queue_len)),
        NavState::UpNext(_) => NavState::Player,
        NavState::Exit => NavState::Exit,
    }
}

/// The region before `nav` in the same ring.
pub open spec fn nav_prev(nav: NavState, queue_len: nat, library_len: nat) -> NavState {
    match nav {
        NavState::Player => NavState::UpNext(fresh_cursor(queue_len)),
        NavState::UpNext(_) => NavState::Library(fresh_cursor(library_len)),
        NavState::Library(_) => NavState::Search,
        NavState::Search => NavState::Player,
        NavState::Exit => NavState::Exit,
    }
}

/// The player after a kill request, and whether the caller has a process
/// to kill.
pub open spec fn kill_step(before: PlayerView, after: PlayerView, r: Effect) -> bool {
    (after, r == Effect::Kill) == kill_spec(before) && (r == Effect::Kill || r == Effect::Nothing)
}

/// The current track of `q` is started: a spawn is asked for when the
/// queue's front is a track of the index, else the player rests idle.
pub open spec fn start_step(
    q: Seq<usize>,
    library_len: nat,
    before: PlayerView,
    after: PlayerView,
    r: Effect,
) -> bool {
    if q.len() > 0 && (q[0] as int) < library_len {
        r == Effect::Spawn(q[0]) && after == (PlayerView {
            state: PlayerState::Starting,
            killed: false,
        })
    } else {
        r == Effect::Nothing && after == retire_spec(before)
    }
}

fn cursor_up_exec(sel: Option<usize>, skips: usize, n: usize) -> (r: Option<usize>)
    ensures
        r == cursor_up(sel, skips as int, n),
{
    if n > 0 {
        let from = match sel {
            Some(s) => s,
            None => 0,
        };
        Some(
            if from > skips {
                from - skips
            } else {
                0
            },
        )
    } else {
        sel
    }
}

fn cursor_down_exec(sel: Option<usize>, skips: usize, n: usize) -> (r: Option<usize>)
    ensures
        r == cursor_down(sel, skips as int, n),
{
    if n > 0 {
        let from = match sel {
            Some(s) => s,
            None => 0,
        };
        let last = n - 1;
        Some(
            if from < last && last - from > skips {
                from + skips
            } else {
                last
            },
        )
    } else {
        sel
    }
}

/// The search text as characters, when there is one.
pub open spec fn query_view(q: Option<String>) -> Option<Seq<char>> {
    match q {
        Some(s) => Some(s@),
        None => None,
    }
}

/// The search text after typing `c`, or deleting the last character when
/// `c` is `None`; with no search under way there is nothing to edit.
pub open spec fn edited_query(q: Option<String>, c: Option<char>) -> Option<Seq<char>> {
    match q {
        None => None,
        Some(s) => Some(
            match c {
                Some(ch) => s@.push(ch),
                None => if s@.len() > 0 {
                    s@.drop_last()
                } else {
                    s@
                },
            },
        ),
    }
}

/// The display state other than the library is as in `b`.
pub open spec fn same_ui(a: App, b: App) -> bool {
    &&& a.paused == b.paused
    &&& a.nav_state == b.nav_state
    &&& a.song_state == b.song_state
    &&& a.alert == b.alert
    &&& a.song_query == b.song_query
}

/// Only the queue and the history changed, to `q` and `h`.
pub open spec fn queue_step(a: App, b: App, q: Seq<usize>, h: Seq<usize>) -> bool {
    &&& b.songs.queue() == q
    &&& b.songs.history() == h
    &&& b.songs.same_but_queue(&a.songs)
    &&& same_ui(a, b)
}

/// The queue after the queue entry at `pos` is moved right after the
/// current track, when there is such an entry.
pub open spec fn promoted(q: Seq<usize>, pos: int) -> Seq<usize> {
    crate::songs::insert_after_current(q.remove(pos), q[pos])
}

/// What applying command `m` to state `a` gives: state `b` and effect `r`.
pub open spec fn message_step(a: App, m: Message, b: App, r: Effect) -> bool {
    match m {
        Message::Nothing => b == a && r == Effect::Nothing,
        Message::Exit => {
            &&& b.nav_state == NavState::Exit
            &&& kill_step(a.songs.player(), b.songs.player(), r)
            &&& b.songs.same_but_player(&a.songs)
            &&& same_ui(a, App { nav_state: a.nav_state, ..b })
        },
        Message::Escape => {
            &&& b.alert is None
            &&& b.song_query is None
            &&& b.songs.filter() is All
            &&& b.songs.library() == a.songs.library()
            &&& b.songs.queue() == a.songs.queue()
            &&& b.songs.history() == a.songs.history()
            &&& b.songs.player() == a.songs.player()
            &&& b.paused == a.paused && b.nav_state == a.nav_state && b.song_state == a.song_state
            &&& r == Effect::Nothing
        },
        Message::Stop => {
            &&& b.songs.queue() == (if a.songs.queue().len() > 1 {
                a.songs.queue().subrange(0, 1)
            } else {
                a.songs.queue()
            })
            &&& b.songs.history() == a.songs.history()
            &&& b.songs.library() == a.songs.library() && b.songs.filter() == a.songs.filter()
            &&& kill_step(a.songs.player(), b.songs.player(), r)
            &&& same_ui(a, b)
        },
        Message::PauseToggle(p) => b == a && r == (if a.songs.player().state == PlayerState::Running {
            Effect::Transport(MpvCommand::TogglePause(p))
        } else {
            Effect::Nothing
        }),
        Message::SongSeek(t) => b == a && r == (if a.songs.player().state == PlayerState::Running {
            Effect::Transport(MpvCommand::Seek(t))
        } else {
            Effect::Nothing
        }),
        Message::SongNext | Message::SongPrevious => {
            &&& b.song_state == (if m == Message::SongNext {
                SongLoadingState::Forward
            } else {
                SongLoadingState::Backward
            })
            &&& kill_step(a.songs.player(), b.songs.player(), r)
            &&& b.songs.same_but_player(&a.songs)
            &&& same_ui(a, App { song_state: a.song_state, ..b })
        },
        Message::NavStateNext => b == App {
            nav_state: nav_next(a.nav_state, a.songs.queue().len(), a.songs.library().len()),
            ..a
        } && r == Effect::Nothing,
        Message::NavStatePrev => b == App {
            nav_state: nav_prev(a.nav_state, a.songs.queue().len(), a.songs.library().len()),
            ..a
        } && r == Effect::Nothing,
        Message::NavStateInnerNext(single, n) => b == App {
            nav_state: move_cursor(a.nav_state, true, single, n),
            ..a
        } && r == Effect::Nothing,
        Message::NavStateInnerPrev(single, n) => b == App {
            nav_state: move_cursor(a.nav_state, false, single, n),
            ..a
        } && r == Effect::Nothing,
        Message::DeleteNextUp(sel) => r == Effect::Nothing && queue_step(
            a,
            b,
            if (sel as int) < a.songs.queue().len() {
                a.songs.queue().remove(sel as int)
            } else {
                a.songs.queue()
            },
            a.songs.history(),
        ),
        Message::ClearUpNext => r == Effect::Nothing && queue_step(
            a,
            b,
            if a.songs.queue().len() > 1 {
                a.songs.queue().subrange(0, 1)
            } else {
                a.songs.queue()
            },
            a.songs.history(),
        ),
        Message::PlayAll => {
            let n = a.songs.queue().len() as int;
            &&& b.songs.queue().subrange(0, n) == a.songs.queue()
            &&& b.songs.queue().subrange(n, b.songs.queue().len() as int).to_multiset()
                == a.songs.visible().to_multiset()
            &&& b.songs.history() == a.songs.history()
            &&& b.songs.same_but_queue(&a.songs)
            &&& same_ui(a, b)
            &&& r == Effect::Nothing
        },
        Message::Find => {
            &&& query_view(b.song_query) == Some(Seq::<char>::empty())
            &&& (b.songs.filter() matches crate::songs::SongList::Filtered(v) && v@
                == crate::songs::matching_positions(
                a.songs.library(),
                Some(Seq::<char>::empty()),
                a.songs.library().len(),
            ))
            &&& b.nav_state == NavState::Search
            &&& b.songs.library() == a.songs.library()
            &&& b.songs.queue() == a.songs.queue()
            &&& b.songs.history() == a.songs.history()
            &&& b.songs.player() == a.songs.player()
            &&& b.paused == a.paused && b.song_state == a.song_state && b.alert == a.alert
            &&& r == Effect::Nothing
        },
        Message::ModifyFind(c) => {
            &&& query_view(b.song_query) == edited_query(a.song_query, c)
            &&& (b.songs.filter() matches crate::songs::SongList::Filtered(v) && v@
                == crate::songs::matching_positions(
                a.songs.library(),
                edited_query(a.song_query, c),
                a.songs.library().len(),
            ))
            &&& b.songs.library() == a.songs.library()
            &&& b.songs.queue() == a.songs.queue()
            &&& b.songs.history() == a.songs.history()
            &&& b.songs.player() == a.songs.player()
            &&& b.paused == a.paused && b.nav_state == a.nav_state && b.song_state
                == a.song_state && b.alert == a.alert
            &&& r == Effect::Nothing
        },
        Message::ReloadConfig => b == a && r == Effect::ReloadConfig,
        Message::ReloadMusic => b == a && r == Effect::ReloadLibrary,
        Message::MoveSong => match a.nav_state {
            NavState::UpNext(Some(sel)) => if (sel as int) + 1 < a.songs.queue().len() {
                &&& b.songs.queue() == promoted(a.songs.queue(), sel + 1)
                &&& b.songs.history() == a.songs.history()
                &&& b.songs.library() == a.songs.library() && b.songs.filter()
                    == a.songs.filter()
                &&& kill_step(a.songs.player(), b.songs.player(), r)
                &&& same_ui(a, b)
            } else {
                b == a && r == Effect::Nothing
            },
            NavState::Library(Some(sel)) => r == Effect::Nothing && queue_step(
                a,
                b,
                if (sel as int) < a.songs.visible().len() {
                    a.songs.queue().push(a.songs.visible()[sel as int])
                } else {
                    a.songs.queue()
                },
                a.songs.history(),
            ),
            _ => b == a && r == Effect::Nothing,
        },
    }
}

/// What one tick gives from state `a`: state `b` and effect `r`. On Exit
/// the player is killed. A player that died (naturally or killed) moves the
/// queue in the pending direction and the new current track is started; a
/// live one is left alone (a pending kill is asked for again); with no
/// player, a pending backward step is taken, else the current track is
/// started.
pub open spec fn tick_step(a: App, b: App, r: Effect) -> bool {
    let lib_len = a.songs.library().len();
    if a.nav_state == NavState::Exit {
        &&& kill_step(a.songs.player(), b.songs.player(), r)
        &&& b.songs.same_but_player(&a.songs)
        &&& same_ui(a, b)
    } else {
        match a.songs.player().state {
            PlayerState::DeadNatural | PlayerState::DeadKilled => {
                let (q, h) = advance_spec(a.songs.queue(), a.songs.history(), a.song_state);
                &&& b.songs.queue() == q
                &&& b.songs.history() == h
                &&& b.songs.library() == a.songs.library() && b.songs.filter() == a.songs.filter()
                &&& start_step(q, lib_len, a.songs.player(), b.songs.player(), r)
                &&& b.song_state == SongLoadingState::Forward
                &&& !b.paused
                &&& b.nav_state == a.nav_state && b.alert == a.alert && b.song_query
                    == a.song_query
            },
            PlayerState::Running => b == a && r == (if a.songs.player().killed {
                Effect::Kill
            } else {
                Effect::Nothing
            }),
            PlayerState::Starting => b == a && r == Effect::Nothing,
            PlayerState::Idle => match a.song_state {
                SongLoadingState::Backward => {
                    let (q, h) = advance_spec(
                        a.songs.queue(),
                        a.songs.history(),
                        SongLoadingState::Backward,
                    );
                    &&& b.songs.queue() == q
                    &&& b.songs.history() == h
                    &&& b.songs.same_but_queue(&a.songs)
                    &&& b.song_state == SongLoadingState::Forward
                    &&& b.paused == a.paused && b.nav_state == a.nav_state && b.alert
                        == a.alert && b.song_query == a.song_query
                    &&& r == Effect::Nothing
                },
                SongLoadingState::Forward => {
                    &&& b.songs.same_but_player(&a.songs)
                    &&& start_step(a.songs.queue(), lib_len, a.songs.player(), b.songs.player(), r)
                    &&& same_ui(a, b)
                },
            },
        }
    }
}

/// At most one player process: no command asks for a spawn, and a tick
/// asks for one only when no process is live, so a command followed by the
/// tick never starts a second process.
pub proof fn lemma_no_second_process(a: App, m: Message, b: App, r: Effect, c: App, t: Effect)
    requires
        message_step(a, m, b, r),
        tick_step(b, c, t),
    ensures
        !(r is Spawn),
        t is Spawn ==> !live(b.songs.player().state),
{
}

impl NavState {
    pub fn rows_per_skip(is_single_row: bool) -> (r: usize)
        ensures
            r == skip_rows(is_single_row),
    {
        if is_single_row {
            1
        } else {
            10
        }
    }

    /// Moves the cursor of a list region up; other regions, and empty
    /// lists, are left alone.
    pub fn event_list_up(&mut self, is_single: bool, num_entries: usize)
        ensures
            *final(self) == move_cursor(*old(self), false, is_single, num_entries),
    {
        let skips = Self::rows_per_skip(is_single);
        match *self {
            NavState::UpNext(sel) => *self = NavState::UpNext(cursor_up_exec(sel, skips, num_entries)),
            NavState::Library(sel) => *self = NavState::Library(
                cursor_up_exec(sel, skips, num_entries),
            ),
            _ => {},
        }
    }

    /// Moves the cursor of a list region down, stopping at the last entry.
    pub fn event_list_down(&mut self, is_single: bool, num_entries: usize)
        ensures
            *final(self) == move_cursor(*old(self), true, is_single, num_entries),
    {
        let skips = Self::rows_per_skip(is_single);
        match *self {
            NavState::UpNext(sel) => *self = NavState::UpNext(
                cursor_down_exec(sel, skips, num_entries),
            ),
            NavState::Library(sel) => *self = NavState::Library(
                cursor_down_exec(sel, skips, num_entries),
            ),
            _ => {},
        }
    }

    /// The region entered afresh: list cursors go to the first row, or to
    /// none when the list is empty.
    pub fn as_stateful_default(&self, songs: &Songs) -> (r: NavState)
        ensures
            r == match *self {
                NavState::UpNext(_) => NavState::UpNext(fresh_cursor(songs.queue().len())),
                NavState::Library(_) => NavState::Library(fresh_cursor(songs.library().len())),
                other => other,
            },
    {
        match self {
            NavState::UpNext(_) => NavState::UpNext(
                if songs.songs_in_next_up() != 0 {
                    Some(0)
                } else {
                    None
                },
            ),
            NavState::Library(_) => NavState::Library(
                if songs.songs_in_library() != 0 {
                    Some(0)
                } else {
                    None
                },
            ),
            other => *other,
        }
    }
}

/// The whole mutable state of the player, behind one lock.
pub struct App {
    pub songs: Songs,
    pub paused: bool,
    pub nav_state: NavState,
    pub song_state: SongLoadingState,
    pub alert: Option<String>,
    pub song_query: Option<String>,
}

impl App {
    /// Only the queue, the history and the player may differ from `other`.
    pub open spec fn same_view(&self, other: &App) -> bool {
        &&& self.songs.library() == other.songs.library()
        &&& self.songs.filter() == other.songs.filter()
        &&& self.paused == other.paused
        &&& self.nav_state == other.nav_state
        &&& self.alert == other.alert
        &&& self.song_query == other.song_query
    }

    pub fn new(songs: Songs) -> (r: App)
        ensures
            r.songs == songs,
            r.nav_state == NavState::Player,
            r.song_state == SongLoadingState::Forward,
            !r.paused,
            r.alert is None,
            r.song_query is None,
    {
        App {
            songs,
            paused: false,
            nav_state: NavState::Player,
            song_state: SongLoadingState::Forward,
            alert: None,
            song_query: None,
        }
    }

    /// Enters the Exit state and asks for the player to be killed.
    pub fn exit(&mut self) -> (r: Effect)
        ensures
            final(self).nav_state == NavState::Exit,
            kill_step(old(self).songs.player(), final(self).songs.player(), r),
            final(self).songs.same_but_player(&old(self).songs),
            final(self).paused == old(self).paused,
            final(self).song_state == old(self).song_state,
            final(self).alert == old(self).alert,
            final(self).song_query == old(self).song_query,
    {
        self.nav_state = NavState::Exit;
        self.kill_effect()
    }

    fn kill_effect(&mut self) -> (r: Effect)
        ensures
            kill_step(old(self).songs.player(), final(self).songs.player(), r),
            final(self).songs.same_but_player(&old(self).songs),
            final(self).nav_state == old(self).nav_state,
            final(self).paused == old(self).paused,
            final(self).song_state == old(self).song_state,
            final(self).alert == old(self).alert,
            final(self).song_query == old(self).song_query,
    {
        if self.songs.kill_current() {
            Effect::Kill
        } else {
            Effect::Nothing
        }
    }

    pub fn set_nav_state(&mut self, state: NavState)
        ensures
            final(self).nav_state == state,
            final(self).songs == old(self).songs,
    {
        self.nav_state = state;
    }

    /// Moves the focus one region back around the ring.
    pub fn previous_nav_state(&mut self)
        ensures
            final(self).nav_state == nav_prev(
                old(self).nav_state,
                old(self).songs.queue().len(),
                old(self).songs.library().len(),
            ),
            *final(self) == (App { nav_state: final(self).nav_state, ..*old(self) }),
    {
        let next = match self.nav_state {
            NavState::Player => NavState::UpNext(None).as_stateful_default(&self.songs),
            NavState::UpNext(_) => NavState::Library(None).as_stateful_default(&self.songs),
            NavState::Library(_) => NavState::Search,
            NavState::Search => NavState::Player,
            NavState::Exit => NavState::Exit,
        };
        self.nav_state = next;
    }

    /// Moves the focus one region forward around the ring.
    pub fn next_nav_state(&mut self)
        ensures
            final(self).nav_state == nav_next(
                old(self).nav_state,
                old(self).songs.queue().len(),
                old(self).songs.library().len(),
            ),
            *final(self) == (App { nav_state: final(self).nav_state, ..*old(self) }),
    {
        let next = match self.nav_state {
            NavState::Player => NavState::Search,
            NavState::UpNext(_) => NavState::Player,
            NavState::Library(_) => NavState::UpNext(None).as_stateful_default(&self.songs),
            NavState::Search => NavState::Library(None).as_stateful_default(&self.songs),
            NavState::Exit => NavState::Exit,
        };
        self.nav_state = next;
    }

    fn set_query(&mut self, q: Option<String>)
        ensures
            final(self).song_query == q,
            final(self).songs == old(self).songs,
            final(self).paused == old(self).paused,
            final(self).nav_state == old(self).nav_state,
            final(self).song_state == old(self).song_state,
            final(self).alert == old(self).alert,
    {
        self.song_query = q;
    }

    fn refilter(&mut self)
        ensures
            final(self).songs.filter() matches crate::songs::SongList::Filtered(v) && v@
                == crate::songs::matching_positions(
                old(self).songs.library(),
                query_view(old(self).song_query),
                old(self).songs.library().len(),
            ),
            final(self).songs.library() == old(self).songs.library(),
            final(self).songs.queue() == old(self).songs.queue(),
            final(self).songs.history() == old(self).songs.history(),
            final(self).songs.player() == old(self).songs.player(),
            same_ui(*final(self), *old(self)),
    {
        match &self.song_query {
            Some(q) => self.songs.filter_apply(Some(q)),
            None => self.songs.filter_apply(None),
        }
    }

    fn edit_query(&mut self, addition: Option<char>)
        ensures
            query_view(final(self).song_query) == edited_query(old(self).song_query, addition),
            final(self).songs == old(self).songs,
            final(self).paused == old(self).paused,
            final(self).nav_state == old(self).nav_state,
            final(self).song_state == old(self).song_state,
            final(self).alert == old(self).alert,
    {
        let edited = match &self.song_query {
            Some(q) => {
                let mut cs = chars_of(q.as_str());
                match addition {
                    Some(c) => cs.push(c),
                    None => {
                        if cs.len() > 0 {
                            cs.pop();
                        }
                    },
                }
                Some(text_from_chars(&cs))
            },
            None => None,
        };
        self.set_query(edited);
    }

    /// Plays the selected queue entry next (the current track is stopped),
    /// or queues the selected library track.
    fn move_song(&mut self) -> (r: Effect)
        ensures
            message_step(*old(self), Message::MoveSong, *final(self), r),
    {
        match self.nav_state {
            NavState::UpNext(Some(selected)) => {
                let queued = self.songs.songs_in_next_up();
                if selected < usize::MAX && selected + 1 < queued {
                    self.songs.reorder_to_front(selected + 1);
                    self.kill_effect()
                } else {
                    Effect::Nothing
                }
            },
            NavState::Library(Some(selected)) => {
                let shown = self.songs.visible_positions();
                if selected < shown.len() {
                    self.songs.push_song_back(shown[selected]);
                }
                Effect::Nothing
            },
            _ => Effect::Nothing,
        }
    }

    /// Applies one command. Returns the outside work it asks for.
    pub fn handle_message(&mut self, message: Message) -> (r: Effect)
        ensures
            message_step(*old(self), message, *final(self), r),
    {
        match message {
            Message::Nothing => Effect::Nothing,
            Message::Exit => self.exit(),
            Message::Escape => {
                self.alert = None;
                self.song_query = None;
                self.songs.unfiltered_apply();
                Effect::Nothing
            },
            Message::Stop => {
                self.songs.clear_up_next();
                self.kill_effect()
            },
            Message::PauseToggle(paused) => {
                if self.songs.song_is_running() {
                    Effect::Transport(MpvCommand::TogglePause(paused))
                } else {
                    Effect::Nothing
                }
            },
            Message::SongSeek(time) => {
                if self.songs.song_is_running() {
                    Effect::Transport(MpvCommand::Seek(time))
                } else {
                    Effect::Nothing
                }
            },
            Message::SongNext => {
                self.song_state = SongLoadingState::Forward;
                self.kill_effect()
            },
            Message::SongPrevious => {
                self.song_state = SongLoadingState::Backward;
                self.kill_effect()
            },
            Message::NavStateNext => {
                self.next_nav_state();
                Effect::Nothing
            },
            Message::NavStatePrev => {
                self.previous_nav_state();
                Effect::Nothing
            },
            Message::NavStateInnerNext(is_single, elements) => {
                self.nav_state.event_list_down(is_single, elements);
                Effect::Nothing
            },
            Message::NavStateInnerPrev(is_single, elements) => {
                self.nav_state.event_list_up(is_single, elements);
                Effect::Nothing
            },
            Message::DeleteNextUp(selected) => {
                self.songs.remove_next_up(selected);
                Effect::Nothing
            },
            Message::PlayAll => {
                self.songs.push_back_all();
                Effect::Nothing
            },
            Message::Find => {
                self.set_query(Some(String::new()));
                self.refilter();
                self.nav_state = NavState::Search;
                Effect::Nothing
            },
            Message::ModifyFind(addition) => {
                self.edit_query(addition);
                self.refilter();
                Effect::Nothing
            },
            Message::ClearUpNext => {
                self.songs.clear_up_next();
                Effect::Nothing
            },
            Message::ReloadConfig => Effect::ReloadConfig,
            Message::ReloadMusic => Effect::ReloadLibrary,
            Message::MoveSong => self.move_song(),
        }
    }

    /// The tick, run once per command-loop iteration after the player was
    /// polled: turns a finished track into the next one starting.
    pub fn handle_song_state(&mut self) -> (r: Effect)
        ensures
            tick_step(*old(self), *final(self), r),
    {
        if self.nav_state == NavState::Exit {
            return self.kill_effect();
        }
        match self.songs.active().state() {
            PlayerState::DeadNatural | PlayerState::DeadKilled => {
                let dir = self.song_state;
                self.songs.next(&dir);
                self.song_state = SongLoadingState::Forward;
                self.paused = false;
                match self.songs.try_play_current_song() {
                    Some(p) => Effect::Spawn(p),
                    None => Effect::Nothing,
                }
            },
            PlayerState::Running => {
                if self.songs.active().marked_dead() {
                    Effect::Kill
                } else {
                    Effect::Nothing
                }
            },
            PlayerState::Starting => Effect::Nothing,
            PlayerState::Idle => match self.song_state {
                SongLoadingState::Backward => {
                    self.songs.previous();
                    self.song_state = SongLoadingState::Forward;
                    Effect::Nothing
                },
                SongLoadingState::Forward => match self.songs.try_play_current_song() {
                    Some(p) => Effect::Spawn(p),
                    None => Effect::Nothing,
                },
            },
        }
    }

    /// Reports a spawn: `None` when the process started, else why it did
    /// not, which becomes the alert; the player then rests idle.
    pub fn spawn_finished(&mut self, error: Option<String>)
        ensures
            final(self).songs.player() == crate::player::spawned_spec(
                old(self).songs.player(),
                error is None,
            ),
            final(self).songs.same_but_player(&old(self).songs),
            final(self).alert == match error {
                Some(m) => Some(m),
                None => old(self).alert,
            },
            final(self).paused == old(self).paused,
            final(self).nav_state == old(self).nav_state,
            final(self).song_state == old(self).song_state,
            final(self).song_query == old(self).song_query,
    {
        self.songs.spawn_finished(error.is_none());
        if let Some(m) = error {
            self.alert = Some(m);
        }
    }

    /// Reports a transport command: a pause request that went through sets
    /// the paused flag; a failed pause or seek becomes the alert.
    pub fn transport_finished(&mut self, command: MpvCommand, ok: bool)
        ensures
            final(self).songs == old(self).songs,
            final(self).nav_state == old(self).nav_state,
            final(self).song_state == old(self).song_state,
            final(self).song_query == old(self).song_query,
            match command {
                MpvCommand::TogglePause(p) => if ok {
                    final(self).paused == p && final(self).alert == old(self).alert
                } else {
                    final(self).paused == old(self).paused && (final(self).alert matches Some(t)
                        && t@ == "Error querying MPV for pause information"@)
                },
                MpvCommand::Seek(_) => final(self).paused == old(self).paused && if ok {
                    final(self).alert == old(self).alert
                } else {
                    (final(self).alert matches Some(t) && t@ == "Error seeking forward with MPV"@)
                },
                _ => final(self).paused == old(self).paused && final(self).alert == old(
                    self,
                ).alert,
            },
    {
        match command {
            MpvCommand::TogglePause(p) => {
                if ok {
                    self.paused = p;
                } else {
                    self.alert = Some(string_of("Error querying MPV for pause information"));
                }
            },
            MpvCommand::Seek(_) => {
                if !ok {
                    self.alert = Some(string_of("Error seeking forward with MPV"));
                }
            },
            _ => {},
        }
    }

    /// Reports a configuration reload; a failure becomes the alert.
    pub fn config_reloaded(&mut self, result: Result<(), String>)
        ensures
            final(self).songs == old(self).songs,
            final(self).paused == old(self).paused,
            final(self).nav_state == old(self).nav_state,
            final(self).song_state == old(self).song_state,
            final(self).song_query == old(self).song_query,
            final(self).alert == match result {
                Ok(_) => old(self).alert,
                Err(m) => Some(m),
            },
    {
        if let Err(m) = result {
            self.alert = Some(m);
        }
    }

    /// Reports a re-index of the library read from `source`. A new index is
    /// put in place (the queue and history emptied, list cursors reset, the
    /// player asked to stop) and announced; a failed load leaves the library
    /// and the queue as they were and becomes the alert.
    pub fn library_indexed(&mut self, outcome: Result<Vec<Song>, IndexError>, source: &str) -> (r: Effect)
        ensures
            match outcome {
                Ok(v) => {
                    &&& final(self).songs.library() == v@
                    &&& final(self).songs.queue().len() == 0
                    &&& final(self).songs.history().len() == 0
                    &&& kill_step(old(self).songs.player(), final(self).songs.player(), r)
                    &&& final(self).nav_state == match old(self).nav_state {
                        NavState::UpNext(_) => NavState::UpNext(None),
                        NavState::Library(_) => NavState::Library(fresh_cursor(v@.len())),
                        other => other,
                    }
                    &&& (final(self).alert matches Some(t) && t@ == "New music library loaded from "@
                        + source@)
                },
                Err(e) => {
                    &&& final(self).songs == old(self).songs
                    &&& final(self).alert == Some(e.message)
                    &&& final(self).nav_state == old(self).nav_state
                    &&& r == Effect::Nothing
                },
            },
            final(self).paused == old(self).paused,
            final(self).song_state == old(self).song_state,
            final(self).song_query == old(self).song_query,
    {
        match self.songs.reload(outcome) {
            Ok(()) => {
                self.nav_state = self.nav_state.as_stateful_default(&self.songs);
                let mut text = chars_of("New music library loaded from ");
                let src = chars_of(source);
                append_chars(&mut text, &src);
                self.alert = Some(text_from_chars(&text));
                self.kill_effect()
            },
            Err(e) => {
                self.alert = Some(e.message);
                Effect::Nothing
            },
        }
    }
}

} // verus!
