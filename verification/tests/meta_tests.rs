use termixer::meta::{
    meta_label, note_track_signature, route_meta_label, route_text_signature,
    route_track_signature, MetaField,
};

fn text_field(key: &str, value: &str) -> MetaField {
    MetaField { key: key.to_string(), text: Some(value.to_string()), signed: None, unsigned: None }
}

fn integer(key: &str, value: i64) -> MetaField {
    MetaField {
        key: key.to_string(),
        text: None,
        signed: Some(value),
        unsigned: if value >= 0 { Some(value as u64) } else { None },
    }
}

#[test]
fn label_joins_title_artist_album() {
    let raw = r#"{"title": "Song", "artist": "Band", "album": "Record"}"#;
    assert_eq!(route_meta_label(raw), Some("Song - Band [Record]".to_string()));
}

#[test]
fn label_leaves_out_missing_parts() {
    assert_eq!(route_meta_label(r#"{"title": "Song", "artist": "Band"}"#), Some("Song - Band".to_string()));
    assert_eq!(route_meta_label(r#"{"title": "Song", "album": "Record"}"#), Some("Song [Record]".to_string()));
    assert_eq!(route_meta_label(r#"{"media_title": "Song"}"#), Some("Song".to_string()));
    assert_eq!(route_meta_label(r#"{"ARTIST": "Band", "ALBUM": "Record"}"#), Some("Band [Record]".to_string()));
    assert_eq!(route_meta_label(r#"{"artist": "Band"}"#), Some("Band".to_string()));
    assert_eq!(route_meta_label(r#"{"album": "Record"}"#), Some("Record".to_string()));
    assert_eq!(route_meta_label(r#"{"bpm": 120}"#), None);
}

#[test]
fn label_trims_and_skips_blank_text() {
    assert_eq!(route_meta_label(r#"{"title": "  Song  "}"#), Some("Song".to_string()));
    // a blank title is no title, and the next key is not tried
    assert_eq!(route_meta_label(r#"{"title": "   ", "media_title": "Other"}"#), None);
    // a title that is not text lets the next key speak
    assert_eq!(route_meta_label(r#"{"title": 5, "media_title": "Other"}"#), Some("Other".to_string()));
}

#[test]
fn label_needs_a_json_object() {
    assert_eq!(route_meta_label("not json"), None);
    assert_eq!(route_meta_label(r#"["title", "Song"]"#), None);
    assert_eq!(route_meta_label(""), None);
}

#[test]
fn label_from_fields_prefers_earlier_keys() {
    let fields = vec![text_field("TITLE", "Third"), text_field("title", "First"), text_field("media_title", "Second")];
    assert_eq!(meta_label(&fields), Some("First".to_string()));
}

#[test]
fn signature_is_zero_when_nothing_names_the_track() {
    assert_eq!(route_track_signature(&vec![]), 0);
    assert_eq!(route_track_signature(&vec![text_field("title", "  ")]), 0);
    assert_eq!(route_text_signature(r#"{"bpm": 128}"#), Some(0));
    assert_eq!(route_text_signature("nope"), None);
}

#[test]
fn signature_tells_tracks_apart() {
    let a = route_track_signature(&vec![text_field("title", "Song"), integer("playlist_pos", 1)]);
    let b = route_track_signature(&vec![text_field("title", "Song"), integer("playlist_pos", 2)]);
    let a2 = route_track_signature(&vec![integer("playlist_pos", 1), text_field("title", " Song ")]);
    assert_ne!(a, 0);
    assert_ne!(a, b);
    assert_eq!(a, a2);
}

#[test]
fn signature_reads_integers_from_text() {
    let from_int = route_track_signature(&vec![integer("playlist-count", 7)]);
    let from_text = route_track_signature(&vec![text_field("playlist_count", " 7 ")]);
    assert_eq!(from_int, from_text);
    let from_json = route_text_signature(r#"{"playlist_count": "7"}"#);
    assert_eq!(from_json, Some(from_int));
}

#[test]
fn track_change_is_noticed_after_the_first_signature() {
    let mut last = 0u64;
    assert!(!note_track_signature(&mut last, 11));
    assert_eq!(last, 11);
    assert!(!note_track_signature(&mut last, 11));
    assert!(!note_track_signature(&mut last, 0));
    assert_eq!(last, 11);
    assert!(note_track_signature(&mut last, 12));
    assert_eq!(last, 12);
}

#[test]
fn integer_text_follows_the_i64_syntax() {
    let seven = route_track_signature(&vec![integer("playlist_pos", 7)]);
    assert_eq!(route_track_signature(&vec![text_field("playlist_pos", "+7")]), seven);
    assert_eq!(route_track_signature(&vec![text_field("playlist_pos", "\t007\n")]), seven);
    let minus = route_track_signature(&vec![integer("playlist_pos", -3)]);
    assert_eq!(route_track_signature(&vec![text_field("playlist_pos", "-3")]), minus);
    let least = route_track_signature(&vec![integer("playlist_pos", i64::MIN)]);
    assert_eq!(route_track_signature(&vec![text_field("playlist_pos", "-9223372036854775808")]), least);
    // Text that is no i64 counts as a missing number.
    for bad in ["", "+", "-", "7a", "1 2", "9223372036854775808", "99999999999999999999"] {
        assert_eq!(route_track_signature(&vec![text_field("playlist_pos", bad)]), 0);
    }
}

#[test]
fn unicode_whitespace_is_trimmed() {
    assert_eq!(route_meta_label("{\"title\": \"\u{3000}Song\u{a0}\"}"), Some("Song".to_string()));
    assert_eq!(route_meta_label("{\"title\": \"\u{2003}\u{85}\"}"), None);
    assert_eq!(route_meta_label("{\"title\": \"Ünïcode Sóng\"}"), Some("Ünïcode Sóng".to_string()));
}
