use mimusic::download::download_songs_from;

#[test]
fn one_job_per_line_trimmed_and_numbered() {
    let jobs = download_songs_from("  https://a.example/1  \nhttps://a.example/2\r\n", 4);
    assert_eq!(jobs.len(), 2);
    assert_eq!(jobs[0].url, "https://a.example/1");
    assert_eq!(jobs[0].id, 4);
    assert_eq!(jobs[1].url, "https://a.example/2");
    assert_eq!(jobs[1].id, 5);
}

#[test]
fn last_line_without_newline_counts() {
    let jobs = download_songs_from("x\ny", 0);
    assert_eq!(jobs.len(), 2);
    assert_eq!(jobs[1].url, "y");
    assert_eq!(jobs[1].id, 1);
}

#[test]
fn empty_listing_gives_no_job() {
    assert!(download_songs_from("", 3).is_empty());
}

#[test]
fn blank_lines_give_empty_addresses() {
    let jobs = download_songs_from("\n \n", 0);
    assert_eq!(jobs.len(), 2);
    assert_eq!(jobs[0].url, "");
    assert_eq!(jobs[1].url, "");
}

#[test]
fn unicode_white_space_is_trimmed() {
    let jobs = download_songs_from("\u{3000}\tx y\u{a0}\u{2003}\n", 0);
    assert_eq!(jobs.len(), 1);
    assert_eq!(jobs[0].url, "x y");
}
