use auditorium::app::{App, Effect, Message, NavState};
use auditorium::input::Key;
use auditorium::mpv::MpvCommand;
use auditorium::player::PlayerState;
use auditorium::songs::{SongLoadingState, Songs};
use auditorium::track::{index_from_results, Song};

fn song(n: usize) -> Song {
    Song {
        id: n as u64,
        title: format!("Title {}", n),
        genres: vec!["Rock".to_string()],
        artist: format!("Artist {}", n),
        album: "Album".to_string(),
        track: format!("{}", n),
        path: format!("/music/{}.mp3", n),
        cover: None,
    }
}

fn app_with(n: usize, queue: &[usize]) -> App {
    let mut songs = Songs::new((0..n).map(song).collect());
    for p in queue {
        songs.push_song_back(*p);
    }
    App::new(songs)
}

fn start_playing(app: &mut App) -> usize {
    match app.handle_song_state() {
        Effect::Spawn(p) => {
            app.spawn_finished(None);
            p
        }
        other => panic!("expected a spawn, got {:?}", other),
    }
}

#[test]
fn tick_starts_the_current_track() {
    let mut app = app_with(3, &[1, 2]);
    assert_eq!(start_playing(&mut app), 1);
    assert!(app.songs.song_is_running());
    assert_eq!(app.handle_song_state(), Effect::Nothing);
}

#[test]
fn natural_end_advances_to_the_next_track() {
    let mut app = app_with(3, &[1, 2]);
    start_playing(&mut app);
    assert_eq!(app.songs.poll_player(true), PlayerState::DeadNatural);
    assert_eq!(app.handle_song_state(), Effect::Spawn(2));
    assert_eq!(app.songs.last_played_index(), Some(1));
}

#[test]
fn skip_next_kills_then_advances() {
    let mut app = app_with(3, &[0, 1]);
    start_playing(&mut app);
    assert_eq!(app.handle_message(Message::SongNext), Effect::Kill);
    app.songs.kill_finished(true);
    assert_eq!(app.handle_song_state(), Effect::Spawn(1));
    assert_eq!(app.song_state, SongLoadingState::Forward);
}

#[test]
fn skip_previous_goes_back() {
    let mut app = app_with(3, &[0, 1]);
    start_playing(&mut app);
    app.songs.poll_player(true);
    assert_eq!(app.handle_song_state(), Effect::Spawn(1));
    app.spawn_finished(None);
    assert_eq!(app.handle_message(Message::SongPrevious), Effect::Kill);
    app.songs.kill_finished(true);
    assert_eq!(app.handle_song_state(), Effect::Spawn(0));
}

#[test]
fn stop_clears_upcoming_and_ends_playback() {
    let mut app = app_with(4, &[0, 1, 2]);
    start_playing(&mut app);
    assert_eq!(app.handle_message(Message::Stop), Effect::Kill);
    app.songs.kill_finished(true);
    assert_eq!(app.handle_song_state(), Effect::Nothing);
    assert_eq!(app.songs.songs_in_next_up(), 0);
}

#[test]
fn exit_kills_the_player() {
    let mut app = app_with(2, &[0]);
    start_playing(&mut app);
    assert_eq!(app.handle_message(Message::Exit), Effect::Kill);
    assert_eq!(app.nav_state, NavState::Exit);
}

#[test]
fn pause_goes_to_the_player_only_while_running() {
    let mut app = app_with(2, &[0]);
    assert_eq!(app.handle_message(Message::PauseToggle(true)), Effect::Nothing);
    start_playing(&mut app);
    assert_eq!(
        app.handle_message(Message::PauseToggle(true)),
        Effect::Transport(MpvCommand::TogglePause(true))
    );
    app.transport_finished(MpvCommand::TogglePause(true), true);
    assert!(app.paused);
    app.transport_finished(MpvCommand::TogglePause(false), false);
    assert!(app.paused);
    assert_eq!(app.alert.as_deref(), Some("Error querying MPV for pause information"));
}

#[test]
fn failed_seek_becomes_an_alert() {
    let mut app = app_with(2, &[0]);
    start_playing(&mut app);
    assert_eq!(app.handle_message(Message::SongSeek(-5)), Effect::Transport(MpvCommand::Seek(-5)));
    app.transport_finished(MpvCommand::Seek(-5), false);
    assert_eq!(app.alert.as_deref(), Some("Error seeking forward with MPV"));
}

#[test]
fn failed_spawn_becomes_an_alert_and_stays_idle() {
    let mut app = app_with(2, &[0]);
    assert_eq!(app.handle_song_state(), Effect::Spawn(0));
    app.spawn_finished(Some("mpv: not found".to_string()));
    assert_eq!(app.alert.as_deref(), Some("mpv: not found"));
    assert_eq!(app.songs.active().state(), PlayerState::Idle);
}

#[test]
fn navigation_ring() {
    let mut app = app_with(3, &[]);
    app.handle_message(Message::NavStateNext);
    assert_eq!(app.nav_state, NavState::Search);
    app.handle_message(Message::NavStateNext);
    assert_eq!(app.nav_state, NavState::Library(Some(0)));
    app.handle_message(Message::NavStateNext);
    assert_eq!(app.nav_state, NavState::UpNext(None));
    app.handle_message(Message::NavStateNext);
    assert_eq!(app.nav_state, NavState::Player);
    app.handle_message(Message::NavStatePrev);
    assert_eq!(app.nav_state, NavState::UpNext(None));
    app.handle_message(Message::NavStatePrev);
    assert_eq!(app.nav_state, NavState::Library(Some(0)));
    app.handle_message(Message::NavStatePrev);
    assert_eq!(app.nav_state, NavState::Search);
    app.handle_message(Message::NavStatePrev);
    assert_eq!(app.nav_state, NavState::Player);
}

#[test]
fn list_scrolling_stays_in_bounds() {
    let mut nav = NavState::Library(Some(0));
    nav.event_list_down(true, 3);
    assert_eq!(nav, NavState::Library(Some(1)));
    nav.event_list_down(false, 3);
    assert_eq!(nav, NavState::Library(Some(2)));
    nav.event_list_up(true, 3);
    assert_eq!(nav, NavState::Library(Some(1)));
    nav.event_list_up(false, 3);
    assert_eq!(nav, NavState::Library(Some(0)));
    let mut none = NavState::UpNext(None);
    none.event_list_down(true, 0);
    assert_eq!(none, NavState::UpNext(None));
    none.event_list_down(false, 25);
    assert_eq!(none, NavState::UpNext(Some(10)));
    let mut player = NavState::Player;
    player.event_list_down(true, 5);
    assert_eq!(player, NavState::Player);
    assert_eq!(NavState::rows_per_skip(true), 1);
    assert_eq!(NavState::rows_per_skip(false), 10);
}

#[test]
fn move_song_from_queue_plays_it_next() {
    let mut app = app_with(5, &[0, 1, 2, 3]);
    start_playing(&mut app);
    app.set_nav_state(NavState::UpNext(Some(2)));
    assert_eq!(app.handle_message(Message::MoveSong), Effect::Kill);
    app.songs.kill_finished(true);
    assert_eq!(app.handle_song_state(), Effect::Spawn(3));
}

#[test]
fn stale_move_song_is_a_no_op() {
    let mut app = app_with(5, &[0, 1]);
    app.set_nav_state(NavState::UpNext(Some(5)));
    assert_eq!(app.handle_message(Message::MoveSong), Effect::Nothing);
    assert_eq!(app.songs.songs_in_next_up(), 2);
    app.set_nav_state(NavState::Library(Some(9)));
    assert_eq!(app.handle_message(Message::MoveSong), Effect::Nothing);
    assert_eq!(app.songs.songs_in_next_up(), 2);
}

#[test]
fn move_song_from_library_queues_it() {
    let mut app = app_with(5, &[]);
    app.handle_message(Message::Find);
    app.handle_message(Message::ModifyFind(Some('3')));
    assert_eq!(app.song_query.as_deref(), Some("3"));
    app.set_nav_state(NavState::Library(Some(0)));
    app.handle_message(Message::MoveSong);
    assert_eq!(app.songs.next_by_index(0), Some(3));
}

#[test]
fn search_typing_and_deleting() {
    let mut app = app_with(3, &[]);
    app.handle_message(Message::ModifyFind(Some('x')));
    assert_eq!(app.song_query, None);
    app.handle_message(Message::Find);
    assert_eq!(app.nav_state, NavState::Search);
    assert_eq!(app.songs.showing_songs_library().len(), 3);
    app.handle_message(Message::ModifyFind(Some('1')));
    assert_eq!(app.songs.showing_songs_library().len(), 1);
    app.handle_message(Message::ModifyFind(None));
    app.handle_message(Message::ModifyFind(None));
    assert_eq!(app.song_query.as_deref(), Some(""));
    assert_eq!(app.songs.showing_songs_library().len(), 3);
    app.handle_message(Message::Escape);
    assert_eq!(app.song_query, None);
}

#[test]
fn reload_requests_go_to_the_caller() {
    let mut app = app_with(1, &[]);
    assert_eq!(app.handle_message(Message::ReloadConfig), Effect::ReloadConfig);
    assert_eq!(app.handle_message(Message::ReloadMusic), Effect::ReloadLibrary);
    assert_eq!(app.handle_message(Message::Nothing), Effect::Nothing);
    app.config_reloaded(Err("bad config".to_string()));
    assert_eq!(app.alert.as_deref(), Some("bad config"));
}

#[test]
fn library_reload_outcomes() {
    let mut app = app_with(2, &[0]);
    start_playing(&mut app);
    let failed = index_from_results(vec![Err("x.mp3: broken".to_string())]);
    assert_eq!(app.library_indexed(failed, "/music"), Effect::Nothing);
    assert_eq!(app.alert.as_deref(), Some("x.mp3: broken"));
    assert_eq!(app.songs.songs_in_library(), 2);
    assert!(app.songs.song_is_running());
    let fresh = index_from_results(vec![Ok(song(7))]);
    assert_eq!(app.library_indexed(fresh, "/music"), Effect::Kill);
    assert_eq!(app.alert.as_deref(), Some("New music library loaded from /music"));
    assert_eq!(app.songs.songs_in_library(), 1);
    assert_eq!(app.songs.songs_in_next_up(), 0);
}

#[test]
fn play_all_from_core() {
    let mut app = app_with(4, &[]);
    assert_eq!(app.handle_message(Message::PlayAll), Effect::Nothing);
    assert_eq!(app.songs.songs_in_next_up(), 4);
    app.handle_message(Message::DeleteNextUp(10));
    assert_eq!(app.songs.songs_in_next_up(), 4);
    app.handle_message(Message::DeleteNextUp(1));
    assert_eq!(app.songs.songs_in_next_up(), 3);
    app.handle_message(Message::ClearUpNext);
    assert_eq!(app.songs.songs_in_next_up(), 1);
}

#[test]
fn key_bindings() {
    let mut app = app_with(3, &[0, 1]);
    assert_eq!(app.message_for_key(Key::Char('q'), false), Message::Exit);
    assert_eq!(app.message_for_key(Key::Char('c'), true), Message::Exit);
    assert_eq!(app.message_for_key(Key::Char('c'), false), Message::ClearUpNext);
    assert_eq!(app.message_for_key(Key::Char(' '), false), Message::PauseToggle(true));
    assert_eq!(app.message_for_key(Key::Right, false), Message::SongSeek(5));
    assert_eq!(app.message_for_key(Key::Left, false), Message::SongSeek(-5));
    assert_eq!(app.message_for_key(Key::Enter, false), Message::MoveSong);
    assert_eq!(app.message_for_key(Key::Other, false), Message::Nothing);
    app.set_nav_state(NavState::UpNext(Some(0)));
    assert_eq!(app.message_for_key(Key::Backspace, false), Message::DeleteNextUp(1));
    assert_eq!(app.message_for_key(Key::Down, false), Message::NavStateInnerNext(true, 2));
    assert_eq!(app.message_for_key(Key::PageUp, false), Message::NavStateInnerPrev(false, 2));
    app.set_nav_state(NavState::Library(None));
    assert_eq!(app.message_for_key(Key::Char('j'), false), Message::NavStateInnerNext(true, 3));
    app.handle_message(Message::Find);
    assert_eq!(app.message_for_key(Key::Char('q'), false), Message::ModifyFind(Some('q')));
    assert_eq!(app.message_for_key(Key::Backspace, false), Message::ModifyFind(None));
    assert_eq!(app.message_for_key(Key::Esc, false), Message::Escape);
    assert_eq!(app.message_for_key(Key::Enter, false), Message::Nothing);
    assert_eq!(app.message_for_key(Key::Char('d'), true), Message::Exit);
}
