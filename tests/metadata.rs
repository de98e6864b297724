use mimusic::track::{get_audio_duration, get_song_infos_from_file, MetadataError, TagFrame};

fn text(id: &str, t: &str) -> TagFrame {
    TagFrame { id: id.to_string(), text: Some(t.to_string()) }
}

#[test]
fn duration_in_whole_seconds() {
    assert_eq!(get_audio_duration(Some(44100), Some(441000)), Ok(10));
    assert_eq!(get_audio_duration(Some(44100), Some(441000 + 44099)), Ok(10));
    assert_eq!(get_audio_duration(Some(48000), Some(180 * 48000)), Ok(180));
    assert_eq!(get_audio_duration(Some(1), Some(u64::MAX)), Ok(u32::MAX));
}

#[test]
fn duration_unknown() {
    assert_eq!(get_audio_duration(None, Some(10)), Err(MetadataError::UnknownDuration));
    assert_eq!(get_audio_duration(Some(44100), None), Err(MetadataError::UnknownDuration));
    assert_eq!(get_audio_duration(Some(0), Some(10)), Err(MetadataError::UnknownDuration));
}

#[test]
fn title_and_artist_from_text_frames() {
    let frames = vec![
        text("TALB", "Album"),
        text("TIT2", "First title"),
        TagFrame { id: "APIC".to_string(), text: None },
        text("TPE1", "Artist"),
        text("TIT2", "Second title"),
        TagFrame { id: "TPE1".to_string(), text: None },
    ];
    let t = get_song_infos_from_file("songs/song0.mp3", Some(frames), Some(44100), Some(44100 * 200)).unwrap();
    assert_eq!(t.path, "songs/song0.mp3");
    assert_eq!(t.title, "Second title");
    assert_eq!(t.artist, "Artist");
    assert_eq!(t.duration, 200);
}

#[test]
fn missing_fields_are_unknown() {
    let t = get_song_infos_from_file("a.mp3", Some(vec![text("TALB", "x")]), Some(8000), Some(0)).unwrap();
    assert_eq!(t.title, "Unknown");
    assert_eq!(t.artist, "Unknown");
    assert_eq!(t.duration, 0);
}

#[test]
fn unreadable_metadata_is_an_error() {
    assert!(matches!(
        get_song_infos_from_file("a.mp3", None, Some(44100), Some(1)),
        Err(MetadataError::UnreadableTag)
    ));
    assert!(matches!(
        get_song_infos_from_file("a.mp3", Some(vec![text("TIT2", "t")]), None, Some(1)),
        Err(MetadataError::UnknownDuration)
    ));
}

#[test]
fn copied_keeps_every_field() {
    let t = get_song_infos_from_file("p.mp3", Some(vec![text("TIT2", "T"), text("TPE1", "A")]), Some(10), Some(95)).unwrap();
    let c = t.copied();
    assert_eq!((c.path, c.title, c.artist, c.duration), ("p.mp3".to_string(), "T".to_string(), "A".to_string(), 9));
}
