use selfllama::progress::{split_ansi_lines, AnsiLineSplitter};

fn collect_lines(input: &[u8]) -> Vec<String> {
    split_ansi_lines(input).iter().map(|l| String::from_utf8_lossy(l).into_owned()).collect()
}

#[test]
fn passes_plain_newline_delimited_text_through_unchanged() {
    assert_eq!(collect_lines(b"line one\nline two\n"), vec!["line one", "line two"]);
}

#[test]
fn flushes_a_trailing_line_with_no_terminator_at_eof() {
    assert_eq!(collect_lines(b"line one\nno newline at the end"), vec!["line one", "no newline at the end"]);
}

#[test]
fn treats_bare_carriage_return_as_a_line_boundary() {
    assert_eq!(collect_lines(b"downloading 10%\rdownloading 20%\r"), vec!["downloading 10%", "downloading 20%"]);
}

#[test]
fn treats_cursor_to_column_1_as_a_line_boundary() {
    let input = b"downloading 10%\x1b[1Gdownloading 20%\x1b[1G";
    assert_eq!(collect_lines(input), vec!["downloading 10%", "downloading 20%"]);
}

#[test]
fn drops_other_csi_sequences_without_flushing_a_line() {
    let input = b"pulling manifest\x1b[K\x1b[?25l done\n";
    assert_eq!(collect_lines(input), vec!["pulling manifest done"]);
}

#[test]
fn preserves_a_byte_following_a_lone_escape_not_starting_a_csi_sequence() {
    let input = b"before\x1bxafter\n";
    assert_eq!(collect_lines(input), vec!["beforexafter"]);
}

#[test]
fn curl_style_dotted_progress_bar_redraws_via_bare_carriage_return() {
    let input = b"#####    38.7%\r######   40.0%\r######## 100.0%\n";
    assert_eq!(collect_lines(input), vec!["#####    38.7%", "######   40.0%", "######## 100.0%"]);
}

#[test]
fn empty_input_gives_no_line() {
    assert!(collect_lines(b"").is_empty());
}

#[test]
fn crlf_ends_one_line_not_two() {
    assert_eq!(collect_lines(b"line one\r\nline two\r\n"), vec!["line one", "line two"]);
    assert_eq!(collect_lines(b"a\r\nb"), vec!["a", "b"]);
}

#[test]
fn a_bare_carriage_return_after_one_still_ends_an_empty_line() {
    assert_eq!(collect_lines(b"a\r\rb\n"), vec!["a", "", "b"]);
    assert_eq!(collect_lines(b"a\n\nb\n"), vec!["a", "", "b"]);
}

#[test]
fn a_line_feed_after_an_escape_ended_line_still_ends_a_line() {
    assert_eq!(collect_lines(b"a\x1b[1G\nb\n"), vec!["a", "", "b"]);
}

#[test]
fn an_unfinished_escape_at_the_end_is_dropped() {
    assert_eq!(collect_lines(b"tail\x1b"), vec!["tail"]);
    assert_eq!(collect_lines(b"tail\x1b[12"), vec!["tail"]);
}

#[test]
fn cursor_to_any_column_is_a_line_boundary() {
    assert_eq!(collect_lines(b"a\x1b[12Gb\n"), vec!["a", "b"]);
}

#[test]
fn display_lines_never_hold_control_bytes() {
    let input = b"x\x1b[2K\x1b[?25h\ry\x1bz\n";
    for line in split_ansi_lines(input) {
        assert!(!line.contains(&b'\n'));
        assert!(!line.contains(&b'\r'));
        assert!(!line.contains(&0x1b));
    }
}

#[test]
fn the_splitter_fed_byte_by_byte_matches_the_whole_input_split() {
    let input = b"one\x1b[1Gtwo\rthree\x1b[Kfour\nrest";
    let mut s = AnsiLineSplitter::new();
    let mut lines: Vec<Vec<u8>> = Vec::new();
    for b in input.iter() {
        if let Some(l) = s.feed(*b) {
            lines.push(l);
        }
    }
    if let Some(l) = s.finish() {
        lines.push(l);
    }
    assert_eq!(lines, split_ansi_lines(input));
}
