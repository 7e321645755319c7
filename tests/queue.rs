use auditorium::songs::{SongList, SongLoadingState, Songs};
use auditorium::track::Song;

fn song(n: usize) -> Song {
    Song {
        id: n as u64,
        title: format!("Title {}", n),
        genres: vec!["Rock".to_string()],
        artist: format!("Artist {}", n),
        album: "Album".to_string(),
        track: "1".to_string(),
        path: format!("/music/{}.mp3", n),
        cover: None,
    }
}

fn library(n: usize) -> Vec<Song> {
    (0..n).map(song).collect()
}

fn queue_of(songs: &Songs) -> Vec<usize> {
    (0..songs.songs_in_next_up())
        .map(|i| songs.next_by_index(i).unwrap())
        .collect()
}

fn history_len_and_top(songs: &Songs) -> Option<usize> {
    songs.last_played_index()
}

#[test]
fn forward_then_backward_restores_queue_and_history() {
    let mut songs = Songs::new(library(5));
    songs.push_song_back(0);
    songs.push_song_back(1);
    songs.push_song_back(2);
    songs.next(&SongLoadingState::Forward);
    assert_eq!(queue_of(&songs), vec![1, 2]);
    assert_eq!(history_len_and_top(&songs), Some(0));
    songs.next(&SongLoadingState::Backward);
    assert_eq!(queue_of(&songs), vec![0, 1, 2]);
    assert_eq!(history_len_and_top(&songs), None);
}

#[test]
fn forward_on_empty_queue_is_a_no_op() {
    let mut songs = Songs::new(library(3));
    songs.next(&SongLoadingState::Forward);
    assert_eq!(queue_of(&songs), Vec::<usize>::new());
    assert_eq!(songs.last_played_index(), None);
}

#[test]
fn backward_on_empty_history_is_a_no_op() {
    let mut songs = Songs::new(library(3));
    songs.push_song_back(2);
    songs.previous();
    assert_eq!(queue_of(&songs), vec![2]);
}

#[test]
fn stale_remove_is_a_no_op() {
    let mut songs = Songs::new(library(5));
    songs.push_song_back(0);
    songs.push_song_back(1);
    songs.push_song_back(2);
    songs.remove_next_up(3);
    songs.remove_next_up(usize::MAX);
    assert_eq!(queue_of(&songs), vec![0, 1, 2]);
    songs.remove_next_up(1);
    assert_eq!(queue_of(&songs), vec![0, 2]);
}

#[test]
fn stale_reorder_is_a_no_op() {
    let mut songs = Songs::new(library(5));
    songs.push_song_back(0);
    songs.push_song_back(1);
    songs.push_song_back(2);
    assert!(!songs.reorder_to_front(3));
    assert_eq!(queue_of(&songs), vec![0, 1, 2]);
    assert!(songs.reorder_to_front(2));
    assert_eq!(queue_of(&songs), vec![0, 2, 1]);
}

#[test]
fn push_front_never_displaces_current() {
    let mut songs = Songs::new(library(5));
    songs.push_song_front(4);
    assert_eq!(queue_of(&songs), vec![4]);
    songs.push_song_back(1);
    songs.push_song_front(3);
    assert_eq!(queue_of(&songs), vec![4, 3, 1]);
}

#[test]
fn clear_up_next_keeps_current_and_history() {
    let mut songs = Songs::new(library(5));
    for p in [0, 1, 2, 3] {
        songs.push_song_back(p);
    }
    songs.next(&SongLoadingState::Forward);
    songs.clear_up_next();
    assert_eq!(queue_of(&songs), vec![1]);
    assert_eq!(songs.last_played_index(), Some(0));
}

#[test]
fn current_and_upcoming_songs() {
    let mut songs = Songs::new(library(3));
    assert!(songs.current_song().is_none());
    songs.push_song_back(2);
    songs.push_song_back(7);
    songs.push_song_back(0);
    assert_eq!(songs.current_song_index(), Some(2));
    assert_eq!(songs.current_song().unwrap().title, "Title 2");
    let upcoming: Vec<String> = songs.next_playing().iter().map(|s| s.title.clone()).collect();
    assert_eq!(upcoming, vec!["Title 0".to_string()]);
}

#[test]
fn play_all_appends_every_shown_track_once() {
    let mut songs = Songs::new(library(6));
    songs.push_song_back(5);
    songs.push_back_all();
    let q = queue_of(&songs);
    assert_eq!(q.len(), 7);
    assert_eq!(q[0], 5);
    let mut tail = q[1..].to_vec();
    tail.sort();
    assert_eq!(tail, vec![0, 1, 2, 3, 4, 5]);
}

#[test]
fn play_all_on_empty_library_queues_nothing() {
    let mut songs = Songs::new(Vec::new());
    songs.push_back_all();
    assert_eq!(songs.songs_in_next_up(), 0);
}

#[test]
fn filter_shows_matching_tracks_only() {
    let mut lib = library(3);
    lib[1].title = "Hello World".to_string();
    lib[2].genres = vec!["Jazz".to_string()];
    let mut songs = Songs::new(lib);
    songs.filter_apply(Some(&"HELLO".to_string()));
    let shown: Vec<String> = songs.showing_songs_library().iter().map(|s| s.title.clone()).collect();
    assert_eq!(shown, vec!["Hello World".to_string()]);
    songs.filter_apply(Some(&"genre(jazz)".to_string()));
    match songs.showing() {
        SongList::Filtered(v) => assert_eq!(v, &vec![2]),
        SongList::All => panic!("expected a filter"),
    }
    songs.filter_apply(Some(&String::new()));
    assert_eq!(songs.showing_songs_library().len(), 3);
    songs.unfiltered_apply();
    assert!(matches!(songs.showing(), SongList::All));
}

#[test]
fn real_index_goes_through_the_filter() {
    assert_eq!(SongList::All.real_index(4), 4);
    assert_eq!(SongList::Filtered(vec![3, 9]).real_index(1), 9);
    let mut f = SongList::Filtered(vec![1, 2]);
    f.clear();
    assert!(matches!(f, SongList::Filtered(ref v) if v.is_empty()));
}
