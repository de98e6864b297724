//! Splitting text at a separator character.
use vstd::prelude::*;

verus! {

/// The pieces of `s` between occurrences of `sep`, in order; always at
/// least one (an empty text is one empty piece).
pub open spec fn pieces(s: Seq<char>, sep: char) -> Seq<Seq<char>>
    decreases s.len(),
{
    if s.len() == 0 {
        seq![Seq::<char>::empty()]
    } else {
        let rest = pieces(s.drop_last(), sep);
        if s.last() == sep {
            rest.push(Seq::<char>::empty())
        } else {
            rest.update(rest.len() - 1, rest.last().push(s.last()))
        }
    }
}

pub open spec fn string_views(v: Seq<String>) -> Seq<Seq<char>> {
    v.map_values(|x: String| x@)
}

/// There is at most one piece more than characters, and no more pieces than
/// characters where the last piece is not empty.
pub proof fn lemma_pieces_len(s: Seq<char>, sep: char)
    ensures
        1 <= pieces(s, sep).len() <= s.len() + 1,
        pieces(s, sep).last().len() > 0 ==> pieces(s, sep).len() <= s.len(),
    decreases s.len(),
{
    if s.len() > 0 {
        lemma_pieces_len(s.drop_last(), sep);
    }
}

/// The pieces of `s` between occurrences of `sep`.
pub fn split_pieces(s: &str, sep: char) -> (r: Vec<String>)
    ensures
        string_views(r@) == pieces(s@, sep),
{
    let n = s.unicode_len();
    let mut done: Vec<String> = Vec::new();
    let mut start: usize = 0;
    let mut i: usize = 0;
    proof {
        let e = s@.take(0);
        assert(e =~= Seq::<char>::empty());
        assert(pieces(e, sep) =~= seq![Seq::<char>::empty()]);
        assert(s@.subrange(0, 0) =~= Seq::<char>::empty());
        assert(pieces(e, sep) =~= string_views(done@).push(s@.subrange(0, 0)));
    }
    while i < n
        invariant
            n == s@.len(),
            start <= i <= n,
            pieces(s@.take(i as int), sep) == string_views(done@).push(
                s@.subrange(start as int, i as int),
            ),
        decreases n - i,
    {
        let c = s.get_char(i);
        let ghost t = s@.take(i + 1);
        let ghost before = string_views(done@);
        assert(t.drop_last() =~= s@.take(i as int));
        if c == sep {
            let piece = s.substring_char(start, i).to_owned();
            done.push(piece);
            proof {
                assert(string_views(done@) =~= before.push(s@.subrange(start as int, i as int)));
                assert(s@.subrange(i + 1, i + 1) =~= Seq::<char>::empty());
                assert(pieces(t, sep) =~= string_views(done@).push(s@.subrange(i + 1, i + 1)));
            }
            start = i + 1;
        } else {
            proof {
                assert(s@.subrange(start as int, i + 1) =~= s@.subrange(
                    start as int,
                    i as int,
                ).push(c));
                assert(pieces(t, sep) =~= before.push(s@.subrange(start as int, i + 1)));
            }
        }
        i = i + 1;
    }
    assert(s@.take(n as int) =~= s@);
    let ghost before = string_views(done@);
    done.push(s.substring_char(start, n).to_owned());
    assert(string_views(done@) =~= before.push(s@.subrange(start as int, n as int)));
    done
}

} // verus!
