use now_playing_osc::decimal::decimal_string;
use now_playing_osc::status::{format_music, join_with, PlaybackState, Track};

const MARKER: &str = "\u{0003}\u{00f1}";

fn track(status: PlaybackState, artists: Option<Vec<&str>>, title: Option<&str>, pos: u64, len: u64) -> Track {
    Track {
        status,
        artists: artists.map(|v| v.into_iter().map(|a| a.to_string()).collect()),
        title: title.map(|t| t.to_string()),
        position_secs: pos,
        length_secs: len,
    }
}

#[test]
fn decimal_values() {
    assert_eq!(decimal_string(0), "0");
    assert_eq!(decimal_string(7), "7");
    assert_eq!(decimal_string(10), "10");
    assert_eq!(decimal_string(125), "125");
    assert_eq!(decimal_string(u64::MAX), "18446744073709551615");
}

#[test]
fn join_names() {
    let v: Vec<String> = vec![];
    assert_eq!(join_with(&v, ", "), "");
    assert_eq!(join_with(&vec!["A".to_string()], ", "), "A");
    assert_eq!(join_with(&vec!["A".to_string(), "B".to_string(), "C".to_string()], ", "), "A, B, C");
}

#[test]
fn stopped_is_empty() {
    for compact in [true, false] {
        let t = track(PlaybackState::Stopped, Some(vec!["A"]), Some("T"), 10, 20);
        assert_eq!(format_music(compact, &t), "");
        let t = track(PlaybackState::Stopped, None, None, 0, 0);
        assert_eq!(format_music(compact, &t), "");
    }
}

#[test]
fn no_artist_prefix() {
    let t = track(PlaybackState::Playing, None, Some("T"), 1, 2);
    assert_eq!(format_music(false, &t), "T\n00:01/00:02");
    let t = track(PlaybackState::Playing, Some(vec!["", "B"]), Some("T"), 1, 2);
    assert_eq!(format_music(false, &t), "T\n00:01/00:02");
    let t = track(PlaybackState::Playing, Some(vec![]), Some("T"), 1, 2);
    assert_eq!(format_music(false, &t), "T\n00:01/00:02");
}

#[test]
fn artists_joined() {
    let t = track(PlaybackState::Playing, Some(vec!["A", "B"]), Some("T"), 0, 0);
    let r = format_music(true, &t);
    assert!(r.starts_with("A, B - T\n"));
    assert_eq!(r, format!("A, B - T\n00:00/00:00{}", MARKER));
}

#[test]
fn missing_title_is_untitled() {
    let t = track(PlaybackState::Playing, Some(vec!["A"]), None, 0, 0);
    assert_eq!(format_music(false, &t), "A - Untitled\n00:00/00:00");
}

#[test]
fn time_segment() {
    let t = track(PlaybackState::Playing, None, Some("T"), 125, 65);
    let r = format_music(false, &t);
    assert!(r.contains("02:05/01:05"));
    assert_eq!(r, "T\n02:05/01:05");
}

#[test]
fn minutes_are_not_capped() {
    let t = track(PlaybackState::Playing, None, Some("T"), 3725, 6000);
    assert_eq!(format_music(false, &t), "T\n62:05/100:00");
}

#[test]
fn compact_marker() {
    let t = track(PlaybackState::Playing, Some(vec!["A"]), Some("T"), 5, 9);
    let on = format_music(true, &t);
    let off = format_music(false, &t);
    assert!(on.ends_with(MARKER));
    assert!(!off.ends_with(MARKER));
    assert!(!off.contains('\u{00f1}'));
    assert_eq!(on, format!("{}{}", off, MARKER));
}

#[test]
fn pause_glyph() {
    let t = track(PlaybackState::Paused, Some(vec!["A"]), Some("T"), 61, 122);
    assert_eq!(format_music(false, &t), "A - T\n\u{23f8} 01:01/02:02");
    let t = track(PlaybackState::Playing, Some(vec!["A"]), Some("T"), 61, 122);
    assert_eq!(format_music(false, &t), "A - T\n01:01/02:02");
}
