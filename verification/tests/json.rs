use log_follow::json::{
    add_timestamps_to_string, get_local_log, get_remote_log, join_rendered, print_log_json,
    remote_log_text, LocalRead, LogEntry, LogSource, TaskLog,
};
use log_follow::moment::Moment;
use log_follow::stamp::StampedLine;
use log_follow::task::{TaskRef, TaskResult, TaskStatus};
use std::io::Write;

fn snappy_payload(data: &[u8]) -> Vec<u8> {
    let mut payload = Vec::new();
    {
        let mut encoder = snap::write::FrameEncoder::new(&mut payload);
        encoder.write_all(data).unwrap();
    }
    payload
}

fn json_task(id: usize) -> TaskRef {
    let mut task = bare_json_task(id);
    task.envs = vec![
        ("PATH".to_string(), "/usr/bin".to_string()),
        ("TOKEN".to_string(), "hidden".to_string()),
    ];
    task
}

fn bare_json_task(id: usize) -> TaskRef {
    TaskRef {
        id,
        status: TaskStatus::Done(TaskResult::Failed(3)),
        command: "false".to_string(),
        path: "/home".to_string(),
        envs: Vec::new(),
        label: Some("nightly".to_string()),
        start: Some(Moment { seconds: 1704103200, offset: 0 }),
        end: Some(Moment { seconds: 1704103201, offset: 0 }),
    }
}

fn strip_stamps(text: &str) -> Vec<String> {
    text.split('\n')
        .map(|line| {
            assert!(line.starts_with('['), "{line:?}");
            let close = line.find("] ").expect("a stamp");
            assert_eq!(close, 24, "{line:?}");
            line[close + 2..].to_string()
        })
        .collect()
}

#[test]
fn json_remote_log_is_decoded() {
    let payload = snappy_payload(b"hello\nworld\n");
    assert_eq!(get_remote_log(Some(payload), false), "hello\nworld\n");
}

#[test]
fn json_remote_log_without_payload_is_empty() {
    assert_eq!(get_remote_log(None, false), "");
    assert_eq!(get_remote_log(None, true), "");
}

#[test]
fn json_remote_log_of_an_empty_payload_is_empty() {
    assert_eq!(get_remote_log(Some(Vec::new()), false), "");
    assert_eq!(get_remote_log(Some(Vec::new()), true), "");
}

#[test]
fn json_remote_log_of_a_corrupt_payload_is_a_placeholder() {
    let text = get_remote_log(Some(b"not snappy".to_vec()), false);
    assert_eq!(
        text,
        "(Pueue error) Failed to decompress remote log output: Custom { kind: Other, error: StreamHeader { byte: 110 } }"
    );
    let stamped = get_remote_log(Some(b"not snappy".to_vec()), true);
    assert_eq!(stamped, text);
}

#[test]
fn json_remote_log_that_is_no_text_is_a_placeholder() {
    let text = get_remote_log(Some(snappy_payload(&[b'a', 0xff, b'b'])), false);
    assert!(text.starts_with("(Pueue error) Failed to decompress remote log output: "), "{text}");
    assert!(text.contains("stream did not contain valid UTF-8"), "{text}");
}

#[test]
fn json_remote_log_with_stamps_has_no_line_feed_at_the_end() {
    let text = get_remote_log(Some(snappy_payload(b"one\ntwo\r\nthree\n")), true);
    assert_eq!(strip_stamps(&text), vec!["one", "two", "three"]);
    assert!(!text.ends_with('\n'));
}

#[test]
fn remote_log_text_for_each_result() {
    assert_eq!(remote_log_text(Ok("as it is\n".to_string()), false), "as it is\n");
    assert_eq!(
        remote_log_text(Err("broken".to_string()), true),
        "(Pueue error) Failed to decompress remote log output: broken"
    );
    assert_eq!(
        remote_log_text(Err(String::new()), false),
        "(Pueue error) Failed to decompress remote log output: "
    );
    assert_eq!(strip_stamps(&remote_log_text(Ok("a\nb".to_string()), true)), vec!["a", "b"]);
}

#[test]
fn add_timestamps_stamps_every_line() {
    let text = add_timestamps_to_string("first\n\nthird");
    assert_eq!(strip_stamps(&text), vec!["first", "", "third"]);
    assert_eq!(text.matches('\n').count(), 2);
}

#[test]
fn add_timestamps_to_nothing_gives_nothing() {
    assert_eq!(add_timestamps_to_string(""), "");
}

#[test]
fn join_rendered_puts_line_feeds_between() {
    let lines = vec![
        StampedLine { stamp: "t1".to_string(), text: "a".to_string() },
        StampedLine { stamp: "t2".to_string(), text: String::new() },
        StampedLine { stamp: "t3".to_string(), text: "c".to_string() },
    ];
    assert_eq!(join_rendered(&lines), "[t1] a\n[t2] \n[t3] c");
    assert_eq!(join_rendered(&lines[..1].to_vec()), "[t1] a");
    assert_eq!(join_rendered(&Vec::new()), "");
}

#[test]
fn json_local_log_for_each_reading() {
    assert_eq!(
        get_local_log(&LocalRead::Unopened("missing".to_string()), false),
        "(Pueue error) Failed to get log file handle: missing"
    );
    assert_eq!(
        get_local_log(&LocalRead::Unread("Kind(InvalidData)".to_string()), true),
        "(Pueue error) Failed to read local log output file: Kind(InvalidData)"
    );
    assert_eq!(get_local_log(&LocalRead::Text("a\nb\n".to_string()), false), "a\nb\n");
    let stamped = get_local_log(&LocalRead::Text("a\nb\n".to_string()), true);
    assert_eq!(strip_stamps(&stamped), vec!["a", "b"]);
}

#[test]
fn json_gathers_tasks_and_texts_in_order() {
    let entries = vec![
        LogEntry {
            task: json_task(3),
            source: LogSource::Remote(Some(snappy_payload(b"three\n"))),
        },
        LogEntry { task: json_task(5), source: LogSource::Remote(None) },
        LogEntry {
            task: json_task(8),
            source: LogSource::Local(LocalRead::Text("eight".to_string())),
        },
        LogEntry {
            task: json_task(9),
            source: LogSource::Local(LocalRead::Unopened("gone".to_string())),
        },
    ];
    assert_eq!(
        print_log_json(entries, false),
        vec![
            TaskLog { task: bare_json_task(3), output: "three\n".to_string() },
            TaskLog { task: bare_json_task(5), output: String::new() },
            TaskLog { task: bare_json_task(8), output: "eight".to_string() },
            TaskLog {
                task: bare_json_task(9),
                output: "(Pueue error) Failed to get log file handle: gone".to_string()
            },
        ]
    );
    assert!(print_log_json(Vec::new(), true).is_empty());
}

#[test]
fn json_takes_the_environment_out() {
    let entries = vec![LogEntry { task: json_task(1), source: LogSource::Remote(None) }];
    let logs = print_log_json(entries, false);
    assert_eq!(json_task(1).envs.len(), 2);
    assert!(logs[0].task.envs.is_empty());
    assert_eq!(logs[0].task.command, "false");
    assert_eq!(logs[0].task.label, Some("nightly".to_string()));
}
