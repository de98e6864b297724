use mimusic::presenter::{App, Command, EngineStatus, Key};
use mimusic::sync::signal_completion;
use mimusic::track::TrackMetadata;

fn track(name: &str) -> TrackMetadata {
    TrackMetadata {
        path: format!("songs/{}.mp3", name),
        title: name.to_string(),
        artist: "Someone".to_string(),
        duration: 60,
    }
}

const PLAYING: EngineStatus = EngineStatus { empty: false, paused: false };

#[test]
fn empty_catalog_navigation_stays_at_zero() {
    let mut app = App::new(Vec::new());
    app.previous_song();
    assert_eq!(app.selected, Some(0));
    app.next_song();
    assert_eq!(app.selected, Some(0));
    assert!(matches!(app.handle_key_event(Key::Up, PLAYING), Command::Nothing));
    assert!(matches!(app.handle_key_event(Key::Down, PLAYING), Command::Nothing));
    assert_eq!(app.selected, Some(0));
    assert!(matches!(app.handle_key_event(Key::Enter, PLAYING), Command::Nothing));
}

#[test]
fn navigation_wraps() {
    let mut app = App::new(vec![track("a"), track("b"), track("c")]);
    app.previous_song();
    assert_eq!(app.selected, Some(2));
    app.next_song();
    assert_eq!(app.selected, Some(0));
    app.next_song();
    assert_eq!(app.selected, Some(1));
    app.selected = None;
    app.next_song();
    assert_eq!(app.selected, Some(0));
    app.selected = Some(7);
    app.previous_song();
    assert_eq!(app.selected, Some(2));
}

#[test]
fn new_app_state() {
    let app = App::new(vec![track("a")]);
    assert!(app.is_running);
    assert!(!app.is_editing);
    assert_eq!(app.input_editing, "ex: https://youtube.com/watch?=miMusic");
    let s = app.playing_infos.as_ref().unwrap();
    assert_eq!(s.title, "No song is currently playing.");
    assert_eq!(s.artist, "--");
}

#[test]
fn editing_the_address() {
    let mut app = App::new(Vec::new());
    assert!(matches!(app.handle_key_event(Key::Tab, PLAYING), Command::Nothing));
    assert!(app.is_editing);
    app.input_editing = String::new();
    app.handle_key_event(Key::Char('h'), PLAYING);
    app.handle_key_event(Key::Char('q'), PLAYING);
    app.handle_key_event(Key::Backspace, PLAYING);
    app.handle_key_event(Key::Char('i'), PLAYING);
    assert_eq!(app.input_editing, "hi");
    assert!(app.is_running);
    match app.handle_key_event(Key::Enter, PLAYING) {
        Command::Download(url) => assert_eq!(url, "hi"),
        other => panic!("unexpected {:?}", other),
    }
    assert_eq!(app.input_editing, "");
    app.handle_key_event(Key::Backspace, PLAYING);
    assert_eq!(app.input_editing, "");
    app.handle_key_event(Key::Esc, PLAYING);
    assert!(!app.is_editing);
}

#[test]
fn browsing_keys() {
    let mut app = App::new(vec![track("a"), track("b")]);
    app.handle_key_event(Key::Down, PLAYING);
    match app.handle_key_event(Key::Enter, PLAYING) {
        Command::Enqueue(path) => assert_eq!(path, "songs/b.mp3"),
        other => panic!("unexpected {:?}", other),
    }
    assert!(matches!(app.handle_key_event(Key::Char(' '), PLAYING), Command::Pause));
    assert!(matches!(
        app.handle_key_event(Key::Char(' '), EngineStatus { empty: false, paused: true }),
        Command::Resume
    ));
    assert!(matches!(app.handle_key_event(Key::Other, PLAYING), Command::Nothing));
    app.handle_key_event(Key::Char('q'), PLAYING);
    assert!(!app.is_running);
}

#[test]
fn enqueue_then_skip_through_keys() {
    let mut app = App::new(vec![track("a"), track("b")]);
    assert!(app.add_song_to_queue());
    app.next_song();
    assert!(app.add_song_to_queue());
    app.on_tick(false, 12);
    assert_eq!(app.playing_infos.as_ref().unwrap().title, "a");
    assert_eq!(app.playing_infos.as_ref().unwrap().position, 12);
    assert!(matches!(app.handle_key_event(Key::Right, PLAYING), Command::Skip));
    app.on_tick(false, 0);
    assert_eq!(app.playing_infos.as_ref().unwrap().title, "b");
    signal_completion(&app.player.end_of_song_signal);
    app.on_tick(false, 1);
    assert_eq!(app.playing_infos.as_ref().unwrap().title, "b");
    assert!(matches!(app.handle_key_event(Key::Right, EngineStatus { empty: true, paused: false }), Command::Nothing));
}

#[test]
fn enqueue_out_of_catalog_changes_nothing() {
    let mut app = App::new(vec![track("a")]);
    app.selected = Some(3);
    assert!(!app.add_song_to_queue());
    assert!(app.player.m_song_infos.is_empty());
}

#[test]
fn minutes_and_seconds() {
    assert_eq!(App::seconds_to_minsec(185), (3, 5));
    assert_eq!(App::seconds_to_minsec(59), (0, 59));
    assert_eq!(App::seconds_to_minsec(0), (0, 0));
}
