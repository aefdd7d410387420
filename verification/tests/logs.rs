use log_follow::follow::{follow, local_follow, FollowPath};
use log_follow::local::LocalLog;
use log_follow::moment::Moment;
use log_follow::logs::{
    log_request, nothing_found, print_log, print_logs, selection_from_params, LogRequest,
    TaskLogs, TaskSelection,
};
use log_follow::output::Output;
use log_follow::remote::TaskLogEntry;
use log_follow::task::{
    join_ids, print_task_info, select_running_task, Selection, TaskInfo, TaskRef, TaskResult,
    TaskStatus, Tint,
};
use std::io::Write;

fn packed(data: &[u8]) -> Vec<u8> {
    let mut payload = Vec::new();
    {
        let mut encoder = snap::write::FrameEncoder::new(&mut payload);
        encoder.write_all(data).unwrap();
    }
    payload
}

fn task(id: usize, status: TaskStatus) -> TaskRef {
    TaskRef {
        id,
        status,
        command: "sleep 60".to_string(),
        path: "/srv/work".to_string(),
        envs: Vec::new(),
        label: None,
        start: None,
        end: None,
    }
}

fn remote_logs(id: usize, status: TaskStatus, log: &[u8]) -> TaskLogs {
    TaskLogs {
        entry: TaskLogEntry { task: task(id, status), output: Some(packed(log)), output_complete: true },
        local: None,
    }
}

fn plain_info(id: usize, status: &str, tint: Tint) -> TaskInfo {
    TaskInfo {
        title: format!("Task {id}: "),
        status: status.to_string(),
        tint,
        rows: vec![
            ("Command:".to_string(), "sleep 60".to_string()),
            ("Path:".to_string(), "/srv/work".to_string()),
        ],
    }
}

#[test]
fn task_info_names_id_status_command_and_path() {
    let info = print_task_info(&task(12, TaskStatus::Running));
    assert_eq!(info, plain_info(12, "running", Tint::Yellow));
}

#[test]
fn task_info_adds_label_start_and_end_if_there() {
    let mut finished = task(0, TaskStatus::Done(TaskResult::Success));
    finished.label = Some("backup".to_string());
    finished.start = Some(Moment { seconds: 1704161045, offset: 3600 });
    finished.end = Some(Moment { seconds: 1704161100, offset: 3600 });
    let info = print_task_info(&finished);
    assert_eq!(info.title, "Task 0: ");
    assert_eq!(info.status, "completed successfully");
    assert_eq!(info.tint, Tint::Green);
    assert_eq!(
        info.rows,
        vec![
            ("Command:".to_string(), "sleep 60".to_string()),
            ("Path:".to_string(), "/srv/work".to_string()),
            ("Label:".to_string(), "backup".to_string()),
            ("Start:".to_string(), "Tue, 2 Jan 2024 03:04:05 +0100".to_string()),
            ("End:".to_string(), "Tue, 2 Jan 2024 03:05:00 +0100".to_string()),
        ]
    );
    let mut started = task(1, TaskStatus::Paused);
    started.start = Some(Moment { seconds: 0, offset: 0 });
    let info = print_task_info(&started);
    assert_eq!(info.rows.len(), 3);
    assert_eq!(info.rows[2], ("Start:".to_string(), "Thu, 1 Jan 1970 00:00:00 +0000".to_string()));
}

#[test]
fn status_labels_for_every_status() {
    let cases = [
        (TaskStatus::Paused, "paused", Tint::White),
        (TaskStatus::Running, "running", Tint::Yellow),
        (TaskStatus::Done(TaskResult::Success), "completed successfully", Tint::Green),
        (TaskStatus::Done(TaskResult::Failed(1)), "failed with exit code 1", Tint::Red),
        (TaskStatus::Done(TaskResult::Failed(-9)), "failed with exit code -9", Tint::Red),
        (TaskStatus::Done(TaskResult::Failed(0)), "failed with exit code 0", Tint::Red),
        (
            TaskStatus::Done(TaskResult::Failed(i32::MAX)),
            "failed with exit code 2147483647",
            Tint::Red,
        ),
        (
            TaskStatus::Done(TaskResult::Failed(i32::MIN)),
            "failed with exit code -2147483648",
            Tint::Red,
        ),
        (
            TaskStatus::Done(TaskResult::FailedToSpawn("no such command".to_string())),
            "Failed to spawn",
            Tint::Red,
        ),
        (TaskStatus::Done(TaskResult::Killed), "killed by system or user", Tint::Red),
        (TaskStatus::Done(TaskResult::Errored), "some IO error.\n Check daemon log.", Tint::Red),
        (TaskStatus::Done(TaskResult::DependencyFailed), "dependency failed", Tint::Red),
        (TaskStatus::Queued, "Queued", Tint::White),
        (TaskStatus::Stashed, "Stashed", Tint::White),
        (TaskStatus::Locked, "Locked", Tint::White),
    ];
    for (status, text, tint) in cases {
        assert_eq!(status.label(), (text.to_string(), tint), "for {status:?}");
    }
}

#[test]
fn status_kinds() {
    assert!(TaskStatus::Running.is_running());
    assert!(TaskStatus::Paused.is_running());
    assert!(!TaskStatus::Queued.is_running());
    assert!(!TaskStatus::Done(TaskResult::Success).is_running());
    assert!(TaskStatus::Done(TaskResult::Killed).is_done());
    assert!(!TaskStatus::Running.is_done());
    assert!(TaskStatus::Done(TaskResult::Success).is_shown());
    assert!(TaskStatus::Running.is_shown());
    assert!(TaskStatus::Paused.is_shown());
    assert!(!TaskStatus::Queued.is_shown());
    assert!(!TaskStatus::Stashed.is_shown());
    assert!(!TaskStatus::Locked.is_shown());
}

#[test]
fn select_the_single_running_task() {
    let tasks = [
        task(0, TaskStatus::Done(TaskResult::Success)),
        task(1, TaskStatus::Queued),
        task(2, TaskStatus::Running),
        task(3, TaskStatus::Stashed),
    ];
    assert_eq!(select_running_task(&tasks), Selection::Selected(2));
    assert_eq!(local_follow(None, &tasks), Ok(2));
}

#[test]
fn select_nothing_when_no_task_runs() {
    let tasks = [task(0, TaskStatus::Done(TaskResult::Success)), task(1, TaskStatus::Queued)];
    assert_eq!(select_running_task(&tasks), Selection::NoneRunning);
    assert_eq!(select_running_task(&[]), Selection::NoneRunning);
    assert_eq!(local_follow(None, &tasks), Err("There are no running tasks.".to_string()));
}

#[test]
fn select_lists_several_running_tasks() {
    let tasks = [
        task(4, TaskStatus::Running),
        task(7, TaskStatus::Queued),
        task(10, TaskStatus::Paused),
        task(123, TaskStatus::Running),
    ];
    assert_eq!(select_running_task(&tasks), Selection::Ambiguous(vec![4, 10, 123]));
    assert_eq!(
        local_follow(None, &tasks),
        Err("Multiple tasks are running, please select one of the following: 4, 10, 123"
            .to_string())
    );
}

#[test]
fn follow_the_task_that_was_named() {
    let tasks = [task(4, TaskStatus::Running), task(5, TaskStatus::Running)];
    assert_eq!(local_follow(Some(5), &tasks), Ok(5));
    assert_eq!(local_follow(Some(99), &[]), Ok(99));
}

#[test]
fn follow_picks_the_way() {
    assert_eq!(follow(true), FollowPath::Local);
    assert_eq!(follow(false), FollowPath::Remote);
}

#[test]
fn join_ids_in_decimal() {
    assert_eq!(join_ids(&[]), "");
    assert_eq!(join_ids(&[0]), "0");
    assert_eq!(join_ids(&[1, 20, 300]), "1, 20, 300");
    assert_eq!(join_ids(&[usize::MAX]), usize::MAX.to_string());
}

#[test]
fn selection_prefers_all_then_group_then_ids() {
    assert_eq!(selection_from_params(true, Some("g".to_string()), vec![1]), TaskSelection::All);
    assert_eq!(
        selection_from_params(false, Some("g".to_string()), vec![1]),
        TaskSelection::Group("g".to_string())
    );
    assert_eq!(selection_from_params(false, None, vec![1, 2]), TaskSelection::TaskIds(vec![1, 2]));
}

#[test]
fn log_request_asks_for_logs_unless_read_locally() {
    assert_eq!(
        log_request(TaskSelection::All, false, None, false),
        LogRequest { tasks: TaskSelection::All, send_logs: true, lines: Some(15) }
    );
    assert_eq!(
        log_request(TaskSelection::TaskIds(vec![3]), true, Some(4), false),
        LogRequest { tasks: TaskSelection::TaskIds(vec![3]), send_logs: false, lines: Some(4) }
    );
    assert_eq!(
        log_request(TaskSelection::Group("slow".to_string()), false, Some(4), true),
        LogRequest { tasks: TaskSelection::Group("slow".to_string()), send_logs: true, lines: None }
    );
}

#[test]
fn nothing_found_fits_the_selection() {
    assert_eq!(
        nothing_found(&TaskSelection::TaskIds(vec![1])),
        Output::Note("There are no finished tasks for your specified ids".to_string())
    );
    assert_eq!(
        nothing_found(&TaskSelection::Group("slow".to_string())),
        Output::Note("There are no finished tasks for group 'slow'".to_string())
    );
    assert_eq!(
        nothing_found(&TaskSelection::All),
        Output::Note("There are no finished tasks".to_string())
    );
}

#[test]
fn print_log_shows_heading_and_remote_log() {
    let logs = remote_logs(2, TaskStatus::Done(TaskResult::Success), b"out\n");
    assert_eq!(
        print_log(&logs, "output:", None, false),
        vec![
            Output::Header(plain_info(2, "completed successfully", Tint::Green)),
            Output::Text("\noutput:\n".to_string()),
            Output::Bytes(b"out\n".to_vec()),
        ]
    );
}

#[test]
fn print_log_prefers_the_local_file() {
    let mut logs = remote_logs(2, TaskStatus::Running, b"from the daemon\n");
    logs.local = Some(LocalLog::from_content(b"from the file\n", Some(15)));
    assert_eq!(
        print_log(&logs, "output:", Some(15), false),
        vec![
            Output::Header(plain_info(2, "running", Tint::Yellow)),
            Output::Note("\noutput:".to_string()),
            Output::Bytes(b"from the file\n".to_vec()),
        ]
    );
}

#[test]
fn print_log_shows_nothing_for_a_task_that_never_ran() {
    for status in [TaskStatus::Queued, TaskStatus::Stashed, TaskStatus::Locked] {
        let logs = remote_logs(2, status, b"out\n");
        assert!(print_log(&logs, "output:", None, false).is_empty());
    }
}

#[test]
fn print_log_reports_a_missing_log() {
    let logs = TaskLogs {
        entry: TaskLogEntry {
            task: task(6, TaskStatus::Paused),
            output: None,
            output_complete: true,
        },
        local: None,
    };
    assert_eq!(
        print_log(&logs, "output:", None, false),
        vec![
            Output::Header(plain_info(6, "paused", Tint::White)),
            Output::Text(
                "Logs requested from pueue daemon, but none received. Please report this bug.\n"
                    .to_string()
            ),
        ]
    );
}

#[test]
fn print_logs_says_when_there_is_nothing() {
    assert_eq!(
        print_logs(&[], &TaskSelection::All, "output:", Some(15), false),
        vec![Output::Note("There are no finished tasks".to_string())]
    );
    assert_eq!(
        print_logs(&[], &TaskSelection::Group("g".to_string()), "output:", None, true),
        vec![Output::Note("There are no finished tasks for group 'g'".to_string())]
    );
}

#[test]
fn print_logs_puts_an_empty_line_before_each_further_log() {
    let logs = [
        remote_logs(1, TaskStatus::Done(TaskResult::Success), b"one\n"),
        remote_logs(2, TaskStatus::Queued, b""),
        remote_logs(3, TaskStatus::Running, b"three\n"),
    ];
    assert_eq!(
        print_logs(&logs, &TaskSelection::All, "output:", Some(15), false),
        vec![
            Output::Header(plain_info(1, "completed successfully", Tint::Green)),
            Output::Text("\noutput:\n".to_string()),
            Output::Bytes(b"one\n".to_vec()),
            Output::Text("\n".to_string()),
            Output::Header(plain_info(3, "running", Tint::Yellow)),
            Output::Text("\noutput:\n".to_string()),
            Output::Bytes(b"three\n".to_vec()),
        ]
    );
}

#[test]
fn print_logs_of_one_task_has_no_empty_line() {
    let logs = [remote_logs(1, TaskStatus::Done(TaskResult::Killed), b"x")];
    let outputs = print_logs(&logs, &TaskSelection::TaskIds(vec![1]), "output:", None, false);
    assert_eq!(outputs.len(), 3);
    assert!(!outputs.contains(&Output::Text("\n".to_string())));
}
