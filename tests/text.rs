use auditorium::mpv::{progress_formatted, MpvCommand, MpvCommandFeedback};
use auditorium::query::matches_folded;
use auditorium::text::{chars_of, compare_text, contains_text, digits_chars, decimal_chars};
use auditorium::track::Song;

#[test]
fn progress_is_minutes_and_seconds() {
    assert_eq!(progress_formatted(0), "00:00");
    assert_eq!(progress_formatted(5), "00:05");
    assert_eq!(progress_formatted(75), "01:15");
    assert_eq!(progress_formatted(3600), "60:00");
    assert_eq!(progress_formatted(-5), format!("{:02}:{:02}", 0, -5));
    assert_eq!(progress_formatted(-65), format!("{:02}:{:02}", -1, -5));
    assert_eq!(progress_formatted(i32::MAX), format!("{:02}:{:02}", i32::MAX / 60, i32::MAX % 60));
    assert_eq!(progress_formatted(i32::MIN), format!("{:02}:{:02}", i32::MIN / 60, i32::MIN % 60));
}

#[test]
fn requests_are_json_lines() {
    assert_eq!(MpvCommand::Seek(5).requests(), vec![r#"{"command":["seek","5","relative"]}"#.to_string()]);
    assert_eq!(MpvCommand::Seek(-5).requests(), vec![r#"{"command":["seek","-5","relative"]}"#.to_string()]);
    assert_eq!(
        MpvCommand::TogglePause(true).requests(),
        vec![r#"{"command":["set_property","pause",true]}"#.to_string()]
    );
    assert_eq!(
        MpvCommand::TogglePause(false).requests(),
        vec![r#"{"command":["set_property","pause",false]}"#.to_string()]
    );
    assert_eq!(
        MpvCommand::GetPosition.requests(),
        vec![r#"{"command":["get_property","playback-time"]}"#.to_string()]
    );
    assert_eq!(
        MpvCommand::GetProgress.requests(),
        vec![
            r#"{"command":["get_property","playback-time"]}"#.to_string(),
            r#"{"command":["get_property","duration"]}"#.to_string()
        ]
    );
}

#[test]
fn replies_become_feedback() {
    assert!(matches!(MpvCommand::GetPosition.run(&vec![42]), MpvCommandFeedback::Int(42)));
    match MpvCommand::GetProgress.run(&vec![75, 200]) {
        MpvCommandFeedback::String(s) => assert_eq!(s, "01:15 / 03:20"),
        _ => panic!("expected text"),
    }
    assert!(matches!(MpvCommand::Seek(1).run(&vec![]), MpvCommandFeedback::Void));
    assert!(MpvCommand::GetProgress.expects_replies());
    assert!(!MpvCommand::TogglePause(true).expects_replies());
}

#[test]
fn decimal_text() {
    assert_eq!(digits_chars(0), vec!['0']);
    assert_eq!(digits_chars(1203), vec!['1', '2', '0', '3']);
    assert_eq!(decimal_chars(-40), vec!['-', '4', '0']);
}

#[test]
fn text_order_and_search() {
    assert_eq!(compare_text(&chars_of("abc"), &chars_of("abd")), -1);
    assert_eq!(compare_text(&chars_of("b"), &chars_of("abc")), 1);
    assert_eq!(compare_text(&chars_of("ab"), &chars_of("ab")), 0);
    assert_eq!(compare_text(&chars_of("ab"), &chars_of("abc")), -1);
    assert!(contains_text(&chars_of("hello"), &chars_of("ell")));
    assert!(contains_text(&chars_of("hello"), &chars_of("")));
    assert!(!contains_text(&chars_of("hello"), &chars_of("hello!")));
    assert!(!contains_text(&chars_of(""), &chars_of("a")));
}

fn genres(v: &[&str]) -> Vec<String> {
    v.iter().map(|s| s.to_string()).collect()
}

#[test]
fn query_terms() {
    let g = genres(&["rock", "indie rock"]);
    assert!(matches_folded("night", "night drive", "someone", "album", &g));
    assert!(matches_folded("some", "night drive", "someone", "album", &g));
    assert!(!matches_folded("day", "night drive", "someone", "album", &g));
    assert!(matches_folded("genre(rock)", "t", "a", "b", &g));
    assert!(!matches_folded("genre(indie)", "t", "a", "b", &g));
    assert!(matches_folded("!genre(jazz)", "t", "a", "b", &g));
    assert!(!matches_folded("!genre(rock)", "t", "a", "b", &g));
    assert!(matches_folded("album(live)", "t", "a", "live at home", &g));
    assert!(!matches_folded("album(studio)", "t", "a", "live at home", &g));
    assert!(matches_folded("night,genre(rock)", "night drive", "a", "b", &g));
    assert!(!matches_folded("night,genre(jazz)", "night drive", "a", "b", &g));
    assert!(matches_folded("", "x", "y", "z", &g));
    // a negated term is looked for as written, `!` included
    assert!(matches_folded("!night", "night drive", "a", "b", &g));
    assert!(!matches_folded("!night", "a !night", "a", "b", &g));
    // too short to be a genre term: looked for in title and artist
    assert!(!matches_folded("genre(r)", "t", "a", "b", &g));
}

#[test]
fn track_matching_lowercases_fields() {
    let s = Song {
        id: 1,
        title: "Hello World".to_string(),
        genres: vec!["Synth POP".to_string()],
        artist: "The BAND".to_string(),
        album: "Greatest".to_string(),
        track: "1".to_string(),
        path: "/m/h.mp3".to_string(),
        cover: None,
    };
    assert!(s.matches_query(&"hello".to_string()));
    assert!(s.matches_query(&"the band".to_string()));
    assert!(s.matches_query(&"genre(synth)".to_string()));
    assert!(s.matches_query(&"album(greatest)".to_string()));
    assert!(!s.matches_query(&"Hello".to_string()));
}
