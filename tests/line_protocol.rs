use mimusic::commands::{parse_command, LineCommand};
use mimusic::text::split_pieces;

#[test]
fn play_with_a_path_enqueues() {
    match parse_command("play songs/song0.mp3") {
        LineCommand::Enqueue(p) => assert_eq!(p, "songs/song0.mp3"),
        other => panic!("unexpected {:?}", other),
    }
}

#[test]
fn play_without_path_resumes() {
    assert!(matches!(parse_command("play"), LineCommand::Resume));
}

#[test]
fn plain_commands() {
    assert!(matches!(parse_command("pause"), LineCommand::Pause));
    assert!(matches!(parse_command("skip"), LineCommand::Skip));
    assert!(matches!(parse_command("infos"), LineCommand::Infos));
    assert!(matches!(parse_command("list"), LineCommand::List));
    assert!(matches!(parse_command("exit"), LineCommand::Exit));
    assert!(matches!(parse_command("exit now"), LineCommand::Exit));
}

#[test]
fn unknown_commands_are_reported() {
    match parse_command("stop it") {
        LineCommand::Unknown(w) => assert_eq!(w, "stop"),
        other => panic!("unexpected {:?}", other),
    }
    match parse_command("") {
        LineCommand::Unknown(w) => assert_eq!(w, ""),
        other => panic!("unexpected {:?}", other),
    }
    assert!(matches!(parse_command(" play"), LineCommand::Unknown(_)));
}

#[test]
fn splitting_keeps_empty_pieces() {
    assert_eq!(split_pieces("a  b", ' '), vec!["a", "", "b"]);
    assert_eq!(split_pieces("", ' '), vec![""]);
    assert_eq!(split_pieces("x\n", '\n'), vec!["x", ""]);
    assert_eq!(split_pieces("héllo wörld", ' '), vec!["héllo", "wörld"]);
}
