//! Planning a download: the downloader first lists the addresses of the
//! tracks behind an address, one per line; each is then fetched into the
//! songs directory under a file name numbered after the files already there.
use vstd::prelude::*;

use crate::text::{lemma_pieces_len, pieces, split_pieces, string_views};

verus! {

/// Whether `c` has the Unicode White_Space property.
pub open spec fn is_white_space(c: char) -> bool {
    let u = c as u32;
    (0x9 <= u <= 0xD) || u == 0x20 || u == 0x85 || u == 0xA0 || u == 0x1680 || (0x2000 <= u
        <= 0x200A) || u == 0x2028 || u == 0x2029 || u == 0x202F || u == 0x205F || u == 0x3000
}

/// `s` without its leading white space.
pub open spec fn trim_front(s: Seq<char>) -> Seq<char>
    decreases s.len(),
{
    if s.len() > 0 && is_white_space(s[0]) {
        trim_front(s.drop_first())
    } else {
        s
    }
}

/// `s` without its trailing white space.
pub open spec fn trim_back(s: Seq<char>) -> Seq<char>
    decreases s.len(),
{
    if s.len() > 0 && is_white_space(s.last()) {
        trim_back(s.drop_last())
    } else {
        s
    }
}

/// `s` without its leading and trailing white space.
pub open spec fn trimmed(s: Seq<char>) -> Seq<char> {
    trim_back(trim_front(s))
}

/// Relies on `str::trim`: the text without its leading and trailing
/// characters of the Unicode White_Space property.
#[verifier::external_body]
fn trim_text(s: &str) -> (r: &str)
    ensures
        r@ == trimmed(s@),
{
    s.trim()
}

/// The lines of `s`: its pieces between newlines, without the empty piece
/// after a final newline (so an empty text has no lines).
pub open spec fn lines_of(s: Seq<char>) -> Seq<Seq<char>> {
    let p = pieces(s, '\n');
    if p.last().len() == 0 {
        p.drop_last()
    } else {
        p
    }
}

/// One track to fetch: its address and the number in its file name.
#[derive(Debug)]
pub struct DownloadJob {
    pub url: String,
    pub id: usize,
}

/// The downloads that a listing asks for: one per line of `listing`, its
/// address being the trimmed line, numbered from `existing` (the number of
/// files already in the songs directory) upwards.
pub fn download_songs_from(listing: &str, existing: usize) -> (r: Vec<DownloadJob>)
    requires
        existing + listing@.len() <= usize::MAX,
    ensures
        r@.len() == lines_of(listing@).len(),
        forall|k: int|
            0 <= k < r@.len() ==> r@[k].url@ == trimmed(lines_of(listing@)[k]) && r@[k].id
                == existing + k,
{
    let parts = split_pieces(listing, '\n');
    proof {
        lemma_pieces_len(listing@, '\n');
    }
    let last = parts.len() - 1;
    assert(string_views(parts@)[last as int] == parts@[last as int]@);
    let n: usize = if parts[last].unicode_len() == 0 {
        last
    } else {
        parts.len()
    };
    assert(n == lines_of(listing@).len());
    let mut jobs: Vec<DownloadJob> = Vec::new();
    let mut k: usize = 0;
    while k < n
        invariant
            n == lines_of(listing@).len(),
            n <= parts@.len(),
            n <= listing@.len(),
            existing + listing@.len() <= usize::MAX,
            string_views(parts@) == pieces(listing@, '\n'),
            k <= n,
            jobs@.len() == k,
            forall|j: int|
                0 <= j < k ==> jobs@[j].url@ == trimmed(lines_of(listing@)[j]) && jobs@[j].id
                    == existing + j,
        decreases n - k,
    {
        assert(string_views(parts@)[k as int] == parts@[k as int]@);
        let url = trim_text(parts[k].as_str()).to_owned();
        jobs.push(DownloadJob { url, id: existing + k });
        k = k + 1;
    }
    jobs
}

} // verus!
