//! The line protocol: one command per input line, its words separated by
//! single spaces.
use vstd::prelude::*;

use crate::text::{pieces, split_pieces, string_views};

verus! {

/// What a line asks for.
#[derive(Debug)]
pub enum LineCommand {
    /// Queue the file at this path and play.
    Enqueue(String),
    Resume,
    Pause,
    Skip,
    /// Print the current snapshot.
    Infos,
    /// Print every known track.
    List,
    Exit,
    /// An unrecognized first word: reported, and the loop goes on.
    Unknown(String),
}

pub open spec fn words(line: Seq<char>) -> Seq<Seq<char>> {
    pieces(line, ' ')
}

pub open spec fn is_keyword(w: Seq<char>) -> bool {
    w == "play"@ || w == "pause"@ || w == "skip"@ || w == "infos"@ || w == "list"@ || w
        == "exit"@
}

/// The command of a line: `play` with a path queues it and plays, `play`
/// alone resumes.
pub fn parse_command(line: &str) -> (r: LineCommand)
    ensures
        words(line@)[0] == "play"@ && words(line@).len() >= 2 ==> (r matches LineCommand::Enqueue(
            p,
        ) && p@ == words(line@)[1]),
        words(line@)[0] == "play"@ && words(line@).len() < 2 ==> r is Resume,
        words(line@)[0] == "pause"@ ==> r is Pause,
        words(line@)[0] == "skip"@ ==> r is Skip,
        words(line@)[0] == "infos"@ ==> r is Infos,
        words(line@)[0] == "list"@ ==> r is List,
        words(line@)[0] == "exit"@ ==> r is Exit,
        !is_keyword(words(line@)[0]) ==> (r matches LineCommand::Unknown(u) && u@ == words(
            line@,
        )[0]),
{
    proof {
        reveal_strlit("play");
        reveal_strlit("pause");
        reveal_strlit("skip");
        reveal_strlit("infos");
        reveal_strlit("list");
        reveal_strlit("exit");
        assert("skip"@[0] != "play"@[0]);
        assert("list"@[0] != "play"@[0] && "list"@[0] != "skip"@[0]);
        assert("exit"@[0] != "play"@[0] && "exit"@[0] != "skip"@[0] && "exit"@[0] != "list"@[0]);
        assert("infos"@[0] != "pause"@[0]);
    }
    let parts = split_pieces(line, ' ');
    proof {
        crate::text::lemma_pieces_len(line@, ' ');
    }
    assert(string_views(parts@)[0] == parts@[0]@);
    let first = &parts[0];
    if *first == "play".to_owned() {
        if parts.len() >= 2 {
            assert(string_views(parts@)[1] == parts@[1]@);
            LineCommand::Enqueue(parts[1].clone())
        } else {
            LineCommand::Resume
        }
    } else if *first == "pause".to_owned() {
        LineCommand::Pause
    } else if *first == "skip".to_owned() {
        LineCommand::Skip
    } else if *first == "infos".to_owned() {
        LineCommand::Infos
    } else if *first == "list".to_owned() {
        LineCommand::List
    } else if *first == "exit".to_owned() {
        LineCommand::Exit
    } else {
        LineCommand::Unknown(first.clone())
    }
}

} // verus!
