use log_follow::local::{line_info, LocalLog};
use log_follow::window::{determine_log_line_amount, seek_to_last_lines};

fn numbered_lines(count: usize) -> Vec<u8> {
    let mut content = Vec::new();
    for number in 1..=count {
        content.extend_from_slice(format!("line {number}\n").as_bytes());
    }
    content
}

#[test]
fn window_keeps_a_short_log_whole() {
    let content = numbered_lines(5);
    assert_eq!(seek_to_last_lines(&content, 10), (0, true));
    assert_eq!(seek_to_last_lines(&content, 5), (0, true));
}

#[test]
fn window_cuts_a_long_log_to_its_last_lines() {
    let content = numbered_lines(100);
    let (start, complete) = seek_to_last_lines(&content, 10);
    assert!(!complete);
    let mut expected = Vec::new();
    for number in 91..=100 {
        expected.extend_from_slice(format!("line {number}\n").as_bytes());
    }
    assert_eq!(&content[start..], &expected[..]);
}

#[test]
fn window_gives_exact_positions() {
    assert_eq!(seek_to_last_lines(b"a\nb\nc\n", 2), (2, false));
    assert_eq!(seek_to_last_lines(b"a\nb\nc\n", 1), (4, false));
    assert_eq!(seek_to_last_lines(b"a\nb\nc\n", 3), (0, true));
    assert_eq!(seek_to_last_lines(b"a\nb\nc\n", 4), (0, true));
}

#[test]
fn window_of_no_lines_keeps_only_what_is_open() {
    assert_eq!(seek_to_last_lines(b"a\nb\n", 0), (4, false));
    assert_eq!(seek_to_last_lines(b"a\nb\nrest", 0), (4, false));
    assert_eq!(seek_to_last_lines(b"rest", 0), (0, true));
    assert_eq!(seek_to_last_lines(b"", 0), (0, true));
}

#[test]
fn window_does_not_count_the_open_line() {
    assert_eq!(seek_to_last_lines(b"a\nb\nc", 2), (0, true));
    assert_eq!(seek_to_last_lines(b"a\nb\nc", 1), (2, false));
}

#[test]
fn window_counts_empty_lines() {
    assert_eq!(seek_to_last_lines(b"\n\n\n", 2), (1, false));
    assert_eq!(seek_to_last_lines(b"\n", 1), (0, true));
}

#[test]
fn window_takes_the_largest_limit() {
    assert_eq!(seek_to_last_lines(b"a\nb\n", usize::MAX), (0, true));
}

#[test]
fn line_amount_follows_the_wishes() {
    assert_eq!(determine_log_line_amount(true, &None), None);
    assert_eq!(determine_log_line_amount(true, &Some(7)), None);
    assert_eq!(determine_log_line_amount(false, &Some(7)), Some(7));
    assert_eq!(determine_log_line_amount(false, &Some(0)), Some(0));
    assert_eq!(determine_log_line_amount(false, &None), Some(15));
}

#[test]
fn line_info_names_the_limit_of_a_cut_log() {
    assert_eq!(line_info(false, Some(10)), " (last 10 lines)");
    assert_eq!(line_info(false, Some(0)), " (last 0 lines)");
    assert_eq!(line_info(false, Some(18446744073709551615)), " (last 18446744073709551615 lines)");
    assert_eq!(line_info(true, Some(10)), "");
    assert_eq!(line_info(false, None), "");
    assert_eq!(line_info(true, None), "");
}

#[test]
fn local_log_in_memory_without_limit_is_the_whole_content() {
    let content = b"line1\nline2\nline3\n".to_vec();
    assert_eq!(
        LocalLog::from_content(&content, None),
        LocalLog::Read { complete: true, rest: content.clone(), error: None }
    );
}

#[test]
fn local_log_in_memory_applies_the_limit() {
    let content = numbered_lines(100);
    let log = LocalLog::from_content(&content, Some(10));
    let kept: Vec<u8> = (91..=100).flat_map(|n| format!("line {n}\n").into_bytes()).collect();
    assert_eq!(log, LocalLog::Read { complete: false, rest: kept, error: None });
    let short = numbered_lines(5);
    assert_eq!(
        LocalLog::from_content(&short, Some(10)),
        LocalLog::Read { complete: true, rest: short.clone(), error: None }
    );
}

#[test]
fn local_log_in_memory_of_nothing_is_empty() {
    assert_eq!(LocalLog::from_content(b"", None), LocalLog::Empty);
    assert_eq!(LocalLog::from_content(b"", Some(3)), LocalLog::Empty);
}
