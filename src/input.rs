//! The key bindings: which command a key press stands for, given the
//! focus region and the search state.

use vstd::prelude::*;
use crate::app::{App, Message, NavState};

verus! {

/// A key as the terminal reports it.
#[derive(Clone, Copy, Debug, PartialEq, Eq, Structural)]
pub enum Key {
    Char(char),
    Enter,
    Esc,
    Backspace,
    Tab,
    BackTab,
    Left,
    Right,
    Up,
    Down,
    PageUp,
    PageDown,
    Other,
}

/// The command for a key press while the search field takes the typing.
pub open spec fn search_key_message(key: Key) -> Message {
    match key {
        Key::Esc => Message::Escape,
        Key::Backspace => Message::ModifyFind(None),
        Key::Char(c) => Message::ModifyFind(Some(c)),
        Key::Tab => Message::NavStateNext,
        Key::BackTab => Message::NavStatePrev,
        _ => Message::Nothing,
    }
}

/// The number of entries of the focused list, if a list has the focus.
pub open spec fn focused_len(nav: NavState, queue_len: nat, library_len: nat) -> usize {
    match nav {
        NavState::UpNext(_) => queue_len as usize,
        NavState::Library(_) => library_len as usize,
        _ => 0,
    }
}

/// The command for a key press. Control-C and Control-D always exit; while
/// a search is being typed keys edit it; otherwise the bindings apply.
pub open spec fn key_message(
    key: Key,
    control: bool,
    searching: bool,
    nav: NavState,
    paused: bool,
    queue_len: nat,
    library_len: nat,
) -> Message {
    if control && (key == Key::Char('c') || key == Key::Char('d')) {
        Message::Exit
    } else if searching && nav == NavState::Search {
        search_key_message(key)
    } else {
        let n = focused_len(nav, queue_len, library_len);
        match key {
            Key::Char('q') => Message::Exit,
            Key::Char('R') => Message::ReloadConfig,
            Key::Char('r') => Message::ReloadMusic,
            Key::Char('c') => Message::ClearUpNext,
            Key::Char('/') => Message::Find,
            Key::Char(' ') => Message::PauseToggle(!paused),
            Key::Char('>') | Key::Char('n') => Message::SongNext,
            Key::Char('<') | Key::Char('p') => Message::SongPrevious,
            Key::Right => Message::SongSeek(5i32),
            Key::Left => Message::SongSeek(-5i32),
            Key::Char('a') => Message::PlayAll,
            Key::BackTab => Message::NavStatePrev,
            Key::Tab => Message::NavStateNext,
            Key::Esc => Message::Escape,
            Key::Enter => if nav == NavState::Search {
                Message::Find
            } else {
                Message::MoveSong
            },
            Key::Backspace | Key::Char('d') => match nav {
                NavState::UpNext(Some(sel)) => if (sel as int) < usize::MAX {
                    Message::DeleteNextUp((sel + 1) as usize)
                } else {
                    Message::Nothing
                },
                _ => Message::Nothing,
            },
            Key::Char('j') | Key::Down => Message::NavStateInnerNext(true, n),
            Key::PageDown => Message::NavStateInnerNext(false, n),
            Key::Char('k') | Key::Up => Message::NavStateInnerPrev(true, n),
            Key::PageUp => Message::NavStateInnerPrev(false, n),
            _ => Message::Nothing,
        }
    }
}

fn search_key_exec(key: Key) -> (r: Message)
    ensures
        r == search_key_message(key),
{
    match key {
        Key::Esc => Message::Escape,
        Key::Backspace => Message::ModifyFind(None),
        Key::Char(c) => Message::ModifyFind(Some(c)),
        Key::Tab => Message::NavStateNext,
        Key::BackTab => Message::NavStatePrev,
        _ => Message::Nothing,
    }
}

impl App {
    /// The command a key press stands for; `control` tells whether Control
    /// (and no other modifier) was held.
    pub fn message_for_key(&self, key: Key, control: bool) -> (r: Message)
        ensures
            r == key_message(
                key,
                control,
                self.song_query is Some,
                self.nav_state,
                self.paused,
                self.songs.queue().len(),
                self.songs.library().len(),
            ),
    {
        if control && (key == Key::Char('c') || key == Key::Char('d')) {
            return Message::Exit;
        }
        if self.song_query.is_some() && self.nav_state == NavState::Search {
            return search_key_exec(key);
        }
        let n = match self.nav_state {
            NavState::UpNext(_) => self.songs.songs_in_next_up(),
            NavState::Library(_) => self.songs.songs_in_library(),
            _ => 0,
        };
        match key {
            Key::Char('q') => Message::Exit,
            Key::Char('R') => Message::ReloadConfig,
            Key::Char('r') => Message::ReloadMusic,
            Key::Char('c') => Message::ClearUpNext,
            Key::Char('/') => Message::Find,
            Key::Char(' ') => Message::PauseToggle(!self.paused),
            Key::Char('>') | Key::Char('n') => Message::SongNext,
            Key::Char('<') | Key::Char('p') => Message::SongPrevious,
            Key::Right => Message::SongSeek(5),
            Key::Left => Message::SongSeek(-5),
            Key::Char('a') => Message::PlayAll,
            Key::BackTab => Message::NavStatePrev,
            Key::Tab => Message::NavStateNext,
            Key::Esc => Message::Escape,
            Key::Enter => {
                if self.nav_state == NavState::Search {
                    Message::Find
                } else {
                    Message::MoveSong
                }
            },
            Key::Backspace | Key::Char('d') => match self.nav_state {
                NavState::UpNext(Some(sel)) => {
                    if sel < usize::MAX {
                        Message::DeleteNextUp(sel + 1)
                    } else {
                        Message::Nothing
                    }
                },
                _ => Message::Nothing,
            },
            Key::Char('j') | Key::Down => Message::NavStateInnerNext(true, n),
            Key::PageDown => Message::NavStateInnerNext(false, n),
            Key::Char('k') | Key::Up => Message::NavStateInnerPrev(true, n),
            Key::PageUp => Message::NavStateInnerPrev(false, n),
            _ => Message::Nothing,
        }
    }
}

} // verus!
