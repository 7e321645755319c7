use auditorium::songs::Songs;
use auditorium::track::{
    cover_path, index_from_results, normalize_track, sort_songs, Extraction, IndexError,
    ProbeFields, Song, TagFields,
};

fn song(artist: &str, album: &str, track: &str, title: &str) -> Song {
    Song {
        id: 0,
        title: title.to_string(),
        genres: vec!["Unknown".to_string()],
        artist: artist.to_string(),
        album: album.to_string(),
        track: track.to_string(),
        path: format!("/m/{}-{}", artist, title),
        cover: None,
    }
}

fn keys(v: &[Song]) -> Vec<(String, String, String, String)> {
    v.iter()
        .map(|s| (s.artist.clone(), s.album.clone(), s.track.clone(), s.title.clone()))
        .collect()
}

fn no_probe_fields() -> ProbeFields {
    ProbeFields { title: None, genre: None, artist: None, album: None, track: None }
}

#[test]
fn probe_track_numbers_are_normalised() {
    let mut a = no_probe_fields();
    a.track = Some("03/12".to_string());
    let mut b = no_probe_fields();
    b.track = Some("7".to_string());
    let results = vec![
        Song::from_extraction(Extraction::ProbeTag(a), "/m/a.flac".to_string(), "/art"),
        Song::from_extraction(Extraction::ProbeTag(b), "/m/b.flac".to_string(), "/art"),
    ];
    let index = match index_from_results(results) {
        Ok(v) => v,
        Err(_) => panic!("both files were read"),
    };
    let mut tracks: Vec<String> = index.iter().map(|s| s.track.clone()).collect();
    tracks.sort();
    assert_eq!(tracks, vec!["3".to_string(), "7".to_string()]);
}

#[test]
fn normalize_track_edge_cases() {
    assert_eq!(normalize_track("03/12"), "3");
    assert_eq!(normalize_track("7"), "7");
    assert_eq!(normalize_track("007"), "7");
    assert_eq!(normalize_track("0"), "0");
    assert_eq!(normalize_track("00"), "0");
    assert_eq!(normalize_track("0/5"), "0");
    assert_eq!(normalize_track("12/"), "12");
    assert_eq!(normalize_track(""), "");
}

#[test]
fn probe_defaults() {
    let s = Song::from_probe(no_probe_fields(), "/m/x.ogg".to_string());
    assert_eq!(s.title, "Unknown");
    assert_eq!(s.artist, "Unknown");
    assert_eq!(s.album, "Single");
    assert_eq!(s.genres, vec!["Unknown".to_string()]);
    assert_eq!(s.track, "1");
    assert_eq!(s.path, "/m/x.ogg");
    assert_eq!(s.cover, None);
}

#[test]
fn probe_fields_are_kept() {
    let p = ProbeFields {
        title: Some("Song".to_string()),
        genre: Some("Folk".to_string()),
        artist: Some("Band".to_string()),
        album: Some("Record".to_string()),
        track: Some("04".to_string()),
    };
    let s = Song::from_probe(p, "/m/y.ogg".to_string());
    assert_eq!(s.title, "Song");
    assert_eq!(s.genres, vec!["Folk".to_string()]);
    assert_eq!(s.artist, "Band");
    assert_eq!(s.album, "Record");
    assert_eq!(s.track, "4");
}

#[test]
fn structured_tag_defaults_and_cover() {
    let t = TagFields {
        title: None,
        artist: None,
        album: None,
        genres: Some(vec![String::new()]),
        track: None,
        has_picture: true,
    };
    let s = Song::from_tags(t, "/m/z.mp3".to_string(), "/cache/art");
    assert_eq!(s.title, "Unknown");
    assert_eq!(s.artist, "Unknown");
    assert_eq!(s.album, "Single");
    assert_eq!(s.genres, vec!["Unknown".to_string()]);
    assert_eq!(s.track, "1");
    assert_eq!(s.cover, Some(format!("/cache/art/{}.jpg", s.id)));
}

#[test]
fn structured_tag_fields_are_kept() {
    let t = TagFields {
        title: Some("T".to_string()),
        artist: Some("A".to_string()),
        album: Some("B".to_string()),
        genres: Some(vec!["Pop".to_string(), "Rock".to_string()]),
        track: Some(12),
        has_picture: false,
    };
    let s = Song::from_tags(t, "/m/t.mp3".to_string(), "/art");
    assert_eq!(s.title, "T");
    assert_eq!(s.genres, vec!["Pop".to_string(), "Rock".to_string()]);
    assert_eq!(s.track, "12");
    assert_eq!(s.cover, None);
}

#[test]
fn cover_path_names_the_id() {
    assert_eq!(cover_path("/a", 0), "/a/0.jpg");
    assert_eq!(cover_path("/a/b", 18446744073709551615), "/a/b/18446744073709551615.jpg");
}

#[test]
fn failed_extraction_gives_its_message() {
    let r = Song::from_extraction(Extraction::Failed("bad file".to_string()), "/x".to_string(), "/a");
    assert_eq!(r.err(), Some("bad file".to_string()));
}

#[test]
fn index_is_sorted_by_artist_album_track_title() {
    let v = vec![
        song("B", "X", "1", "z"),
        song("A", "Y", "2", "b"),
        song("A", "Y", "10", "c"),
        song("A", "X", "3", "a"),
        song("A", "Y", "2", "a"),
    ];
    let sorted = sort_songs(v);
    assert_eq!(
        keys(&sorted),
        vec![
            ("A".into(), "X".into(), "3".into(), "a".into()),
            ("A".into(), "Y".into(), "10".into(), "c".into()),
            ("A".into(), "Y".into(), "2".into(), "a".into()),
            ("A".into(), "Y".into(), "2".into(), "b".into()),
            ("B".into(), "X".into(), "1".into(), "z".into()),
        ]
    );
}

#[test]
fn indexing_does_not_depend_on_discovery_order() {
    let found = vec![
        song("C", "A", "1", "x"),
        song("A", "B", "2", "y"),
        song("B", "A", "1", "z"),
        song("A", "A", "1", "w"),
    ];
    let mut reversed = found.clone();
    reversed.reverse();
    let a = index_from_results(found.into_iter().map(Ok).collect()).ok().unwrap();
    let b = index_from_results(reversed.into_iter().map(Ok).collect()).ok().unwrap();
    assert_eq!(keys(&a), keys(&b));
}

#[test]
fn one_failed_file_fails_the_whole_load() {
    let results = vec![
        Ok(song("A", "A", "1", "a")),
        Err("first.mp3: unreadable".to_string()),
        Ok(song("B", "B", "1", "b")),
    ];
    match index_from_results(results) {
        Ok(_) => panic!("a failed file must fail the load"),
        Err(IndexError { message }) => assert_eq!(message, "first.mp3: unreadable"),
    }
}

#[test]
fn all_failure_messages_are_joined_by_lines() {
    let results: Vec<Result<Song, String>> = vec![
        Err("one".to_string()),
        Ok(song("A", "A", "1", "a")),
        Err("two".to_string()),
        Err("three".to_string()),
    ];
    let e = index_from_results(results).err().unwrap();
    assert_eq!(e.message, "one\ntwo\nthree");
}

#[test]
fn empty_directory_gives_empty_index() {
    let r = index_from_results(Vec::new());
    assert_eq!(r.ok().map(|v| v.len()), Some(0));
}

#[test]
fn failed_reload_keeps_the_old_library() {
    let mut songs = Songs::new(vec![song("A", "A", "1", "a"), song("B", "B", "1", "b")]);
    songs.push_song_back(1);
    let outcome = index_from_results(vec![Ok(song("C", "C", "1", "c")), Err("broken".to_string())]);
    let r = songs.reload(outcome);
    assert_eq!(r.err().map(|e| e.message), Some("broken".to_string()));
    assert_eq!(songs.songs_in_library(), 2);
    assert_eq!(songs.current_song().unwrap().title, "b");
}

#[test]
fn successful_reload_replaces_library_and_clears_queue() {
    let mut songs = Songs::new(vec![song("A", "A", "1", "a")]);
    songs.push_song_back(0);
    songs.next(&auditorium::songs::SongLoadingState::Forward);
    songs.push_song_back(0);
    let outcome = index_from_results(vec![Ok(song("C", "C", "1", "c")), Ok(song("B", "B", "1", "b"))]);
    assert!(songs.reload(outcome).is_ok());
    assert_eq!(songs.songs_in_library(), 2);
    assert_eq!(songs.songs_in_next_up(), 0);
    assert_eq!(songs.last_played_index(), None);
    assert_eq!(songs.showing_songs_library()[0].title, "b");
}
