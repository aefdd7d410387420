use log_follow::output::Output;
use log_follow::engine::Opened;
use log_follow::session::{follow_local_task_logs, poll_log, Session, Tick};
use log_follow::tail::{
    flush_failed, missing_step, open_failed, seek_failed, status_step, wait_step, Found,
    TailCursor, TailOutcome, Wait, LOG_CHECK_INTERVAL, START_CHECK_INTERVAL,
};
use log_follow::task::{TaskResult, TaskStatus};

fn data_tick(data: &[u8], task: Option<TaskStatus>) -> Tick {
    Tick { found: Found::Data(data.to_vec()), task }
}

fn running() -> Option<TaskStatus> {
    Some(TaskStatus::Running)
}

fn done() -> Option<TaskStatus> {
    Some(TaskStatus::Done(TaskResult::Success))
}

fn line_texts(outputs: &[Output]) -> Vec<String> {
    outputs
        .iter()
        .filter_map(|output| match output {
            Output::Line(line) => Some(line.text.clone()),
            _ => None,
        })
        .collect()
}

fn raw_bytes(outputs: &[Output]) -> Vec<u8> {
    let mut bytes = Vec::new();
    for output in outputs {
        if let Output::Bytes(more) = output {
            bytes.extend_from_slice(more);
        }
    }
    bytes
}

#[test]
fn tail_shows_a_finished_log_as_it_is() {
    let report = poll_log(vec![data_tick(b"line1\nline2\nline3\n", done())], false);
    assert_eq!(report.outputs, vec![Output::Bytes(b"line1\nline2\nline3\n".to_vec())]);
    assert_eq!(report.outcome, Some(TailOutcome::TaskFinished));
    assert_eq!(report.ticks, 1);
}

#[test]
fn tail_shows_what_the_last_poll_read_before_it_ends() {
    let ticks = [
        data_tick(b"early ", running()),
        data_tick(b"middle ", None),
        data_tick(b"late", done()),
        data_tick(b"never read", done()),
    ];
    let report = poll_log(ticks.to_vec(), false);
    assert_eq!(raw_bytes(&report.outputs), b"early middle late".to_vec());
    assert_eq!(report.outcome, Some(TailOutcome::TaskFinished));
    assert_eq!(report.ticks, 3);
}

#[test]
fn tail_looks_at_the_task_in_every_second_poll() {
    // The second poll does not ask, so a finished task goes unnoticed until the third.
    let ticks = [
        data_tick(b"a", running()),
        data_tick(b"b", done()),
        data_tick(b"c", done()),
        data_tick(b"d", done()),
    ];
    let report = poll_log(ticks.to_vec(), false);
    assert_eq!(report.ticks, 3);
    assert_eq!(raw_bytes(&report.outputs), b"abc".to_vec());
    assert_eq!(report.outcome, Some(TailOutcome::TaskFinished));
}

#[test]
fn tail_ends_within_two_polls_of_the_task_ending() {
    for quiet in 0..6usize {
        let mut ticks = Vec::new();
        for _ in 0..quiet {
            ticks.push(data_tick(b"", running()));
        }
        for _ in 0..4 {
            ticks.push(data_tick(b"", done()));
        }
        let report = poll_log(ticks.to_vec(), true);
        assert_eq!(report.outcome, Some(TailOutcome::TaskFinished));
        assert!(report.ticks >= quiet + 1 && report.ticks <= quiet + 2, "after {quiet} polls");
        let expected = if quiet % 2 == 0 { quiet + 1 } else { quiet + 2 };
        assert_eq!(report.ticks, expected);
    }
}

#[test]
fn tail_goes_on_while_the_task_is_paused() {
    let ticks = [
        data_tick(b"x", Some(TaskStatus::Paused)),
        data_tick(b"", None),
        data_tick(b"y", Some(TaskStatus::Paused)),
    ];
    let report = poll_log(ticks.to_vec(), false);
    assert_eq!(report.outcome, None);
    assert_eq!(report.ticks, 3);
    assert_eq!(report.outputs, vec![Output::Bytes(b"x".to_vec()), Output::Bytes(b"y".to_vec())]);
}

#[test]
fn tail_ends_when_the_task_was_removed() {
    let report = poll_log(vec![data_tick(b"last words\n", None)], false);
    assert_eq!(
        report.outputs,
        vec![
            Output::Bytes(b"last words\n".to_vec()),
            Output::Note("Pueue: The followed task has been removed.".to_string()),
        ]
    );
    assert_eq!(report.outcome, Some(TailOutcome::TaskMissing));
    assert_eq!(report.outcome.unwrap().exit_code(), 1);
}

#[test]
fn tail_ends_when_the_file_is_gone() {
    let ticks = [data_tick(b"a\n", running()), Tick { found: Found::Gone, task: running() }];
    let report = poll_log(ticks.to_vec(), false);
    assert_eq!(
        report.outputs,
        vec![
            Output::Bytes(b"a\n".to_vec()),
            Output::Note("Pueue: Log file has gone away. Has the task been removed?".to_string()),
        ]
    );
    assert_eq!(report.outcome, Some(TailOutcome::FileMissing));
    assert_eq!(report.outcome.unwrap().exit_code(), 0);
    assert_eq!(report.ticks, 2);
}

#[test]
fn tail_ends_when_reading_fails() {
    let ticks = [Tick { found: Found::Failed("disk on fire".to_string()), task: running() }];
    let report = poll_log(ticks.to_vec(), true);
    assert_eq!(
        report.outputs,
        vec![Output::Note("Pueue: Error while reading file: disk on fire".to_string())]
    );
    assert_eq!(report.outcome, Some(TailOutcome::IoError));
    assert_eq!(report.outcome.unwrap().exit_code(), 0);
}

#[test]
fn tail_with_stamps_shows_the_open_line_at_the_end() {
    let ticks = [
        data_tick(b"first\nsec", running()),
        data_tick(b"ond\nthi", running()),
        data_tick(b"rd\nopen", done()),
    ];
    let report = poll_log(ticks.to_vec(), true);
    assert_eq!(line_texts(&report.outputs), vec!["first", "second", "third", "open"]);
    assert_eq!(report.outputs.len(), 4);
    assert!(report.carry.is_empty());
    assert_eq!(report.outcome, Some(TailOutcome::TaskFinished));
    let going = poll_log(ticks[..2].to_vec(), true);
    assert_eq!(line_texts(&going.outputs), vec!["first", "second"]);
    assert_eq!(going.carry, b"thi".to_vec());
    assert_eq!(going.outcome, None);
}

#[test]
fn tail_with_stamps_gives_the_same_lines_however_the_log_is_cut() {
    let log = b"alpha\nbeta\n\ngamma\ndelta";
    for first in 0..=log.len() {
        for second in first..=log.len() {
            let ticks = [
                data_tick(&log[..first], running()),
                data_tick(&log[first..second], running()),
                data_tick(&log[second..], done()),
            ];
            let report = poll_log(ticks.to_vec(), true);
            assert_eq!(
                line_texts(&report.outputs),
                vec!["alpha", "beta", "", "gamma", "delta"]
            );
            assert!(report.carry.is_empty());
            let plain = poll_log(ticks.to_vec(), false);
            assert_eq!(raw_bytes(&plain.outputs), log.to_vec());
        }
    }
}

#[test]
fn tail_with_stamps_reads_bytes_that_are_no_text_with_replacements() {
    let report = poll_log(vec![data_tick(&[b'o', b'k', 0xff, b'\n'], done())], true);
    assert_eq!(line_texts(&report.outputs), vec!["ok\u{fffd}"]);
    let wide = poll_log(vec![data_tick("gr\u{fc}n\n".as_bytes(), done())], true);
    assert_eq!(line_texts(&wide.outputs), vec!["gr\u{fc}n"]);
}

#[test]
fn tail_with_stamps_puts_characters_together_however_the_log_is_cut() {
    let log = "gr\u{fc}n \u{65e5}\u{672c}\n\u{1f600} ok\nlast\n".as_bytes();
    for first in 0..=log.len() {
        for second in first..=log.len() {
            let ticks = vec![
                data_tick(&log[..first], running()),
                data_tick(&log[first..second], running()),
                data_tick(&log[second..], done()),
            ];
            let report = poll_log(ticks, true);
            let mut written = Vec::new();
            for output in &report.outputs {
                match output {
                    Output::Line(line) => {
                        assert_eq!(line.stamp.chars().count(), 23);
                        written.extend_from_slice(line.text.as_bytes());
                        written.push(b'\n');
                    }
                    other => panic!("not a line: {other:?}"),
                }
            }
            assert_eq!(written, log.to_vec(), "cut at {first} and {second}");
        }
    }
}

#[test]
fn tail_with_stamps_shows_a_lone_open_line_when_the_task_is_done() {
    let report = poll_log(vec![data_tick(b"abc", done())], true);
    assert_eq!(line_texts(&report.outputs), vec!["abc"]);
    assert_eq!(report.outputs.len(), 1);
    assert_eq!(report.outcome, Some(TailOutcome::TaskFinished));
    assert!(report.carry.is_empty());
}

#[test]
fn tail_with_stamps_shows_the_open_line_before_the_task_is_reported_gone() {
    let report = poll_log(vec![data_tick(b"a\nrest", None)], true);
    assert_eq!(report.outputs.len(), 3);
    assert_eq!(line_texts(&report.outputs), vec!["a", "rest"]);
    assert_eq!(
        report.outputs[2],
        Output::Note("Pueue: The followed task has been removed.".to_string())
    );
}

#[test]
fn tail_without_polls_is_still_going() {
    let report = poll_log(Vec::new(), false);
    assert!(report.outputs.is_empty());
    assert_eq!(report.outcome, None);
    assert_eq!(report.ticks, 0);
    assert!(report.carry.is_empty());
}

#[test]
fn cursor_starts_empty_and_due() {
    let cursor = TailCursor::new();
    assert_eq!(cursor.incomplete_line(), b"");
    assert_eq!(cursor.elapsed_ticks(), 0);
    assert!(cursor.status_check_due());
}

#[test]
fn cursor_check_is_due_every_second_tick() {
    let mut cursor = TailCursor::new();
    let mut due = Vec::new();
    for _ in 0..6 {
        due.push(cursor.status_check_due());
        assert_eq!(cursor.end_tick(), 250);
    }
    assert_eq!(due, vec![true, false, true, false, true, false]);
    assert_eq!(cursor.elapsed_ticks(), 6);
    assert_eq!(LOG_CHECK_INTERVAL, 250);
}

#[test]
fn cursor_read_step_carries_the_open_line() {
    let mut cursor = TailCursor::new();
    let step = cursor.read_step(&Found::Data(b"one\ntw".to_vec()), true);
    assert_eq!(line_texts(&step.outputs), vec!["one"]);
    assert_eq!(step.outcome, None);
    assert_eq!(cursor.incomplete_line(), b"tw");
    let step = cursor.read_step(&Found::Data(Vec::new()), true);
    assert!(step.outputs.is_empty());
    assert_eq!(cursor.incomplete_line(), b"tw");
    let step = cursor.read_step(&Found::Data(b"o\n".to_vec()), true);
    assert_eq!(line_texts(&step.outputs), vec!["two"]);
    assert_eq!(cursor.incomplete_line(), b"");
    assert_eq!(cursor.elapsed_ticks(), 0);
}

#[test]
fn cursor_read_step_without_stamps_carries_nothing() {
    let mut cursor = TailCursor::new();
    let step = cursor.read_step(&Found::Data(b"one\ntw".to_vec()), false);
    assert_eq!(step.outputs, vec![Output::Bytes(b"one\ntw".to_vec())]);
    assert_eq!(cursor.incomplete_line(), b"");
    let step = cursor.read_step(&Found::Data(Vec::new()), false);
    assert!(step.outputs.is_empty());
    assert_eq!(step.outcome, None);
}

#[test]
fn status_step_tells_running_from_over() {
    assert_eq!(status_step(Some(&TaskStatus::Running)).outcome, None);
    assert_eq!(status_step(Some(&TaskStatus::Paused)).outcome, None);
    for status in [
        TaskStatus::Queued,
        TaskStatus::Stashed,
        TaskStatus::Locked,
        TaskStatus::Done(TaskResult::Killed),
    ] {
        let step = status_step(Some(&status));
        assert_eq!(step.outcome, Some(TailOutcome::TaskFinished));
        assert!(step.outputs.is_empty());
    }
    let step = status_step(None);
    assert_eq!(step.outcome, Some(TailOutcome::TaskMissing));
    assert_eq!(
        step.outputs,
        vec![Output::Note("Pueue: The followed task has been removed.".to_string())]
    );
}

#[test]
fn wait_step_starts_once_the_task_runs_or_is_done() {
    assert_eq!(wait_step(None), Wait::Missing);
    assert_eq!(wait_step(Some(&TaskStatus::Queued)), Wait::Sleep(1000));
    assert_eq!(wait_step(Some(&TaskStatus::Stashed)), Wait::Sleep(START_CHECK_INTERVAL));
    assert_eq!(wait_step(Some(&TaskStatus::Locked)), Wait::Sleep(1000));
    assert_eq!(wait_step(Some(&TaskStatus::Running)), Wait::Start);
    assert_eq!(wait_step(Some(&TaskStatus::Paused)), Wait::Start);
    assert_eq!(wait_step(Some(&TaskStatus::Done(TaskResult::Failed(2)))), Wait::Start);
}

#[test]
fn failure_steps_name_what_failed() {
    let step = missing_step();
    assert_eq!(
        step.outputs,
        vec![Output::Note("Pueue: The task to be followed doesn't exist.".to_string())]
    );
    assert_eq!(step.outcome, Some(TailOutcome::TaskMissing));
    let step = open_failed("no such file");
    assert_eq!(
        step.outputs,
        vec![Output::Note("Failed to get log file handles: no such file".to_string())]
    );
    assert_eq!(step.outcome, Some(TailOutcome::IoError));
    let step = seek_failed("bad seek");
    assert_eq!(
        step.outputs,
        vec![Output::Note("Error seeking to last lines from log: bad seek".to_string())]
    );
    assert_eq!(step.outcome, None);
    let step = flush_failed("pipe closed");
    assert_eq!(
        step.outputs,
        vec![Output::Note("Pueue: Error while flushing stdout: pipe closed".to_string())]
    );
    assert_eq!(step.outcome, Some(TailOutcome::IoError));
}

#[test]
fn outcome_exit_codes() {
    assert_eq!(TailOutcome::TaskFinished.exit_code(), 0);
    assert_eq!(TailOutcome::TaskMissing.exit_code(), 1);
    assert_eq!(TailOutcome::FileMissing.exit_code(), 0);
    assert_eq!(TailOutcome::IoError.exit_code(), 0);
}

#[test]
fn session_waits_for_the_task_to_start() {
    let session = Session {
        looks: vec![Some(TaskStatus::Queued), Some(TaskStatus::Queued), running(), None],
        opened: Opened::Ready,
        ticks: vec![data_tick(b"out\n", done())],
    };
    let report = follow_local_task_logs(session, None, false);
    assert_eq!(report.looks, 3);
    assert_eq!(report.ticks, 1);
    assert_eq!(report.outputs, vec![Output::Bytes(b"out\n".to_vec())]);
    assert_eq!(report.outcome, Some(TailOutcome::TaskFinished));
}

#[test]
fn session_that_only_waits_shows_nothing() {
    let session = Session {
        looks: vec![Some(TaskStatus::Queued), Some(TaskStatus::Stashed)],
        opened: Opened::Ready,
        ticks: vec![data_tick(b"out\n", done())],
    };
    let report = follow_local_task_logs(session, None, false);
    assert_eq!(report.looks, 2);
    assert_eq!(report.ticks, 0);
    assert!(report.outputs.is_empty());
    assert_eq!(report.outcome, None);
}

#[test]
fn session_ends_when_the_task_is_unknown() {
    let session = Session {
        looks: vec![Some(TaskStatus::Queued), None, running()],
        opened: Opened::Ready,
        ticks: vec![data_tick(b"out\n", done())],
    };
    let report = follow_local_task_logs(session, None, true);
    assert_eq!(report.looks, 2);
    assert_eq!(report.ticks, 0);
    assert_eq!(
        report.outputs,
        vec![Output::Note("Pueue: The task to be followed doesn't exist.".to_string())]
    );
    assert_eq!(report.outcome, Some(TailOutcome::TaskMissing));
}

#[test]
fn session_ends_when_the_log_cannot_be_opened() {
    let session = Session {
        looks: vec![done()],
        opened: Opened::Failed("denied".to_string()),
        ticks: vec![data_tick(b"out\n", done())],
    };
    let report = follow_local_task_logs(session, None, false);
    assert_eq!(
        report.outputs,
        vec![Output::Note("Failed to get log file handles: denied".to_string())]
    );
    assert_eq!(report.outcome, Some(TailOutcome::IoError));
    assert_eq!(report.ticks, 0);
}

#[test]
fn session_goes_on_when_the_line_limit_cannot_be_applied() {
    let session = Session {
        looks: vec![running()],
        opened: Opened::Unsought("bad seek".to_string()),
        ticks: vec![data_tick(b"out\n", done())],
    };
    let report = follow_local_task_logs(session, None, false);
    assert_eq!(
        report.outputs,
        vec![
            Output::Note("Error seeking to last lines from log: bad seek".to_string()),
            Output::Bytes(b"out\n".to_vec()),
        ]
    );
    assert_eq!(report.outcome, Some(TailOutcome::TaskFinished));
}

#[test]
fn cursor_finish_shows_what_is_carried() {
    let mut cursor = TailCursor::new();
    assert!(cursor.finish().is_empty());
    cursor.read_step(&Found::Data(b"one\ntw".to_vec()), true);
    let last = cursor.finish();
    assert_eq!(line_texts(&last), vec!["tw"]);
    assert_eq!(cursor.incomplete_line(), b"");
    assert!(cursor.finish().is_empty());
}

#[test]
fn session_shows_an_open_line_when_the_task_is_found_done() {
    let session = Session {
        looks: vec![running()],
        opened: Opened::Ready,
        ticks: vec![data_tick(b"abc", done())],
    };
    let report = follow_local_task_logs(session, None, true);
    assert_eq!(line_texts(&report.outputs), vec!["abc"]);
    assert_eq!(report.outputs.len(), 1);
    assert_eq!(report.outcome, Some(TailOutcome::TaskFinished));
    assert_eq!(report.outcome.unwrap().exit_code(), 0);
    assert!(report.carry.is_empty());
}
