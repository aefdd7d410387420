//! Tasks as the log viewer sees them.
//!
//! The daemon owns the tasks. The viewer reads snapshots of them and never changes one.

use crate::decimal::{decimal, push_decimal, push_signed_decimal, signed_decimal};
use crate::moment::Moment;
use vstd::prelude::*;
use vstd::string::StringExecFns;

verus! {

/// How a task that was started came to its end.
#[derive(Clone, Debug, PartialEq, Eq)]
pub enum TaskResult {
    /// The command exited with 0.
    Success,
    /// The command exited with this code.
    Failed(i32),
    /// The command could not be started; the reason is kept.
    FailedToSpawn(String),
    /// The command was killed by the user or by the daemon.
    Killed,
    /// An error of the daemon's own.
    Errored,
    /// A task that this one depends on failed.
    DependencyFailed,
}

/// Where a task stands in its life.
#[derive(Clone, Debug, PartialEq, Eq)]
pub enum TaskStatus {
    /// Held back while its command is edited.
    Locked,
    /// Put aside until it is enqueued by hand or at a set time.
    Stashed,
    /// Waiting for a free slot.
    Queued,
    /// Its command is running.
    Running,
    /// Its command was started and is paused.
    Paused,
    /// Its command has ended.
    Done(TaskResult),
}

/// The colour in which a status is shown.
#[derive(Clone, Copy, Debug, PartialEq, Eq)]
pub enum Tint {
    White,
    Yellow,
    Green,
    Red,
}

/// A snapshot of a task.
#[derive(Clone, Debug, PartialEq, Eq)]
pub struct TaskRef {
    pub id: usize,
    pub status: TaskStatus,
    pub command: String,
    /// The directory in which the command runs.
    pub path: String,
    /// The environment in which the command runs: names and values.
    pub envs: Vec<(String, String)>,
    pub label: Option<String>,
    /// When the command was started.
    pub start: Option<Moment>,
    /// When the command ended.
    pub end: Option<Moment>,
}

/// What stands above a task's log: which task it is, how it fared, and what is known of
/// it. How this is laid out is the caller's choice.
#[derive(Clone, Debug, PartialEq, Eq)]
pub struct TaskInfo {
    /// The word "Task", the task's id and a colon.
    pub title: String,
    /// How the task fared, in words.
    pub status: String,
    /// The colour for those words.
    pub tint: Tint,
    /// What is known of the task: pairs of a key and a value, in the order in which they
    /// are shown.
    pub rows: Vec<(String, String)>,
}

/// A task's heading as a plain value.
pub struct TaskInfoView {
    pub title: Seq<char>,
    pub status: Seq<char>,
    pub tint: Tint,
    pub rows: Seq<(Seq<char>, Seq<char>)>,
}

impl View for TaskInfo {
    type V = TaskInfoView;

    open spec fn view(&self) -> TaskInfoView {
        TaskInfoView {
            title: self.title@,
            status: self.status@,
            tint: self.tint,
            rows: self.rows@.map_values(|row: (String, String)| (row.0@, row.1@)),
        }
    }
}

/// One row of a task's heading, if there is a value for it.
pub open spec fn optional_row(key: Seq<char>, value: Option<Seq<char>>) -> Seq<
    (Seq<char>, Seq<char>),
> {
    match value {
        Some(value) => seq![(key, value)],
        None => Seq::empty(),
    }
}

/// The text of a label, if there is one.
pub open spec fn label_view(label: Option<String>) -> Option<Seq<char>> {
    match label {
        Some(label) => Some(label@),
        None => None,
    }
}

/// A moment as it is shown, if there is one.
pub open spec fn moment_view(moment: Option<Moment>) -> Option<Seq<char>> {
    match moment {
        Some(moment) => Some(moment.shown()),
        None => None,
    }
}

impl TaskRef {
    /// `self` is `other` with the environment taken out and nothing else changed.
    pub open spec fn is_without_envs(self, other: TaskRef) -> bool {
        &&& self.envs@.len() == 0
        &&& self.id == other.id
        &&& self.status == other.status
        &&& self.command == other.command
        &&& self.path == other.path
        &&& self.label == other.label
        &&& self.start == other.start
        &&& self.end == other.end
    }

    /// What stands above the task's log.
    pub open spec fn info(self) -> TaskInfoView {
        TaskInfoView {
            title: "Task "@ + decimal(self.id as nat) + ": "@,
            status: self.status.label_text(),
            tint: self.status.label_tint(),
            rows: seq![("Command:"@, self.command@), ("Path:"@, self.path@)] + optional_row(
                "Label:"@,
                label_view(self.label),
            ) + optional_row("Start:"@, moment_view(self.start)) + optional_row(
                "End:"@,
                moment_view(self.end),
            ),
        }
    }
}

/// The pairs as plain values.
pub open spec fn row_views(rows: Seq<(String, String)>) -> Seq<(Seq<char>, Seq<char>)> {
    rows.map_values(|row: (String, String)| (row.0@, row.1@))
}

/// Adds a row for `value` under `key`, if there is a value.
fn push_optional_row(rows: &mut Vec<(String, String)>, key: &str, value: Option<String>)
    ensures
        row_views(final(rows)@) == row_views(old(rows)@) + optional_row(key@, label_view(value)),
{
    match value {
        Some(value) => {
            let row = (String::from_str(key), value);
            rows.push(row);
        },
        None => {},
    }
}

/// Gathers what stands above a task's log: the task's id, how it fared, its command and
/// its directory, and, where the task has them, its label, its start and its end.
pub fn print_task_info(task: &TaskRef) -> (info: TaskInfo)
    ensures
        info@ == task.info(),
{
    let mut title = String::from_str("Task ");
    push_decimal(&mut title, task.id as u64);
    title.append(": ");
    let (status, tint) = task.status.label();
    let mut rows: Vec<(String, String)> = Vec::new();
    let command = (String::from_str("Command:"), task.command.clone());
    let path = (String::from_str("Path:"), task.path.clone());
    rows.push(command);
    rows.push(path);
    proof {
        assert(row_views(rows@) == seq![("Command:"@, task.command@), ("Path:"@, task.path@)]);
    }
    let label = match &task.label {
        Some(label) => Some(label.clone()),
        None => None,
    };
    let start = match &task.start {
        Some(start) => Some(start.text()),
        None => None,
    };
    let end = match &task.end {
        Some(end) => Some(end.text()),
        None => None,
    };
    push_optional_row(&mut rows, "Label:", label);
    push_optional_row(&mut rows, "Start:", start);
    push_optional_row(&mut rows, "End:", end);
    TaskInfo { title, status, tint, rows }
}

impl TaskStatus {
    /// A task is running while the daemon holds a process for it, paused or not.
    pub open spec fn running(self) -> bool {
        self is Running || self is Paused
    }

    /// A task is done when its process has ended.
    pub open spec fn done(self) -> bool {
        self is Done
    }

    /// Logs are shown of tasks that were started.
    pub open spec fn has_log(self) -> bool {
        self is Done || self is Running || self is Paused
    }

    /// How the status is worded above a task's log.
    pub open spec fn label_text(self) -> Seq<char> {
        match self {
            TaskStatus::Locked => "Locked"@,
            TaskStatus::Stashed => "Stashed"@,
            TaskStatus::Queued => "Queued"@,
            TaskStatus::Running => "running"@,
            TaskStatus::Paused => "paused"@,
            TaskStatus::Done(TaskResult::Success) => "completed successfully"@,
            TaskStatus::Done(TaskResult::Failed(code)) => "failed with exit code "@
                + signed_decimal(code as int),
            TaskStatus::Done(TaskResult::FailedToSpawn(_)) => "Failed to spawn"@,
            TaskStatus::Done(TaskResult::Killed) => "killed by system or user"@,
            TaskStatus::Done(TaskResult::Errored) => "some IO error.\n Check daemon log."@,
            TaskStatus::Done(TaskResult::DependencyFailed) => "dependency failed"@,
        }
    }

    /// The colour that goes with the wording.
    pub open spec fn label_tint(self) -> Tint {
        match self {
            TaskStatus::Running => Tint::Yellow,
            TaskStatus::Done(TaskResult::Success) => Tint::Green,
            TaskStatus::Done(_) => Tint::Red,
            _ => Tint::White,
        }
    }

    /// Whether the daemon holds a process for the task.
    pub fn is_running(&self) -> (yes: bool)
        ensures
            yes == self.running(),
    {
        match self {
            TaskStatus::Running => true,
            TaskStatus::Paused => true,
            _ => false,
        }
    }

    /// Whether the task's process has ended.
    pub fn is_done(&self) -> (yes: bool)
        ensures
            yes == self.done(),
    {
        match self {
            TaskStatus::Done(_) => true,
            _ => false,
        }
    }

    /// Whether a log is shown for a task in this status.
    pub fn is_shown(&self) -> (yes: bool)
        ensures
            yes == self.has_log(),
    {
        match self {
            TaskStatus::Done(_) => true,
            TaskStatus::Running => true,
            TaskStatus::Paused => true,
            _ => false,
        }
    }

    /// The wording and the colour of the status above a task's log.
    pub fn label(&self) -> (label: (String, Tint))
        ensures
            label.0@ == self.label_text(),
            label.1 == self.label_tint(),
    {
        match self {
            TaskStatus::Locked => (String::from_str("Locked"), Tint::White),
            TaskStatus::Stashed => (String::from_str("Stashed"), Tint::White),
            TaskStatus::Queued => (String::from_str("Queued"), Tint::White),
            TaskStatus::Running => (String::from_str("running"), Tint::Yellow),
            TaskStatus::Paused => (String::from_str("paused"), Tint::White),
            TaskStatus::Done(result) => match result {
                TaskResult::Success => (String::from_str("completed successfully"), Tint::Green),
                TaskResult::Failed(code) => {
                    let mut text = String::from_str("failed with exit code ");
                    push_signed_decimal(&mut text, *code as i64);
                    (text, Tint::Red)
                },
                TaskResult::FailedToSpawn(_) => (String::from_str("Failed to spawn"), Tint::Red),
                TaskResult::Killed => (String::from_str("killed by system or user"), Tint::Red),
                TaskResult::Errored => (
                    String::from_str("some IO error.\n Check daemon log."),
                    Tint::Red,
                ),
                TaskResult::DependencyFailed => (
                    String::from_str("dependency failed"),
                    Tint::Red,
                ),
            },
        }
    }
}

/// The ids of the running tasks among `tasks`, in the order of `tasks`.
pub open spec fn running_ids(tasks: Seq<TaskRef>) -> Seq<usize>
    decreases tasks.len(),
{
    if tasks.len() == 0 {
        Seq::empty()
    } else if tasks.last().status.running() {
        running_ids(tasks.drop_last()).push(tasks.last().id)
    } else {
        running_ids(tasks.drop_last())
    }
}

/// The numbers in decimal with a comma and a space between each two.
pub open spec fn comma_list(ids: Seq<usize>) -> Seq<char>
    decreases ids.len(),
{
    if ids.len() == 0 {
        Seq::empty()
    } else if ids.len() == 1 {
        decimal(ids[0] as nat)
    } else {
        comma_list(ids.drop_last()) + ", "@ + decimal(ids.last() as nat)
    }
}

/// Which task to follow when none was named.
#[derive(Clone, Debug, PartialEq, Eq)]
pub enum Selection {
    /// The one task that is running.
    Selected(usize),
    /// No task is running.
    NoneRunning,
    /// Several tasks are running: their ids.
    Ambiguous(Vec<usize>),
}

/// What each choice is, as a plain value.
pub enum SelectionView {
    Selected(usize),
    NoneRunning,
    Ambiguous(Seq<usize>),
}

impl View for Selection {
    type V = SelectionView;

    open spec fn view(&self) -> SelectionView {
        match self {
            Selection::Selected(id) => SelectionView::Selected(*id),
            Selection::NoneRunning => SelectionView::NoneRunning,
            Selection::Ambiguous(ids) => SelectionView::Ambiguous(ids@),
        }
    }
}

/// The choice that a list of running ids leads to.
pub open spec fn selection_of(ids: Seq<usize>) -> SelectionView {
    if ids.len() == 0 {
        SelectionView::NoneRunning
    } else if ids.len() == 1 {
        SelectionView::Selected(ids[0])
    } else {
        SelectionView::Ambiguous(ids)
    }
}

/// Picks the task to follow from a snapshot of all tasks: the one that is running, if
/// exactly one is.
pub fn select_running_task(tasks: &[TaskRef]) -> (choice: Selection)
    ensures
        choice@ == selection_of(running_ids(tasks@)),
{
    let mut ids: Vec<usize> = Vec::new();
    let mut i: usize = 0;
    while i < tasks.len()
        invariant
            i <= tasks.len(),
            ids@ == running_ids(tasks@.take(i as int)),
        decreases tasks.len() - i,
    {
        proof {
            assert(tasks@.take(i + 1).drop_last() == tasks@.take(i as int));
        }
        if tasks[i].status.is_running() {
            ids.push(tasks[i].id);
        }
        i += 1;
    }
    proof {
        assert(tasks@.take(tasks@.len() as int) == tasks@);
    }
    if ids.len() == 0 {
        Selection::NoneRunning
    } else if ids.len() == 1 {
        Selection::Selected(ids[0])
    } else {
        Selection::Ambiguous(ids)
    }
}

/// Writes the numbers in decimal with a comma and a space between each two.
pub fn join_ids(ids: &[usize]) -> (text: String)
    ensures
        text@ == comma_list(ids@),
{
    let mut text = String::new();
    let mut i: usize = 0;
    while i < ids.len()
        invariant
            i <= ids.len(),
            text@ == comma_list(ids@.take(i as int)),
        decreases ids.len() - i,
    {
        proof {
            assert(ids@.take(i + 1).drop_last() == ids@.take(i as int));
        }
        if i > 0 {
            text.append(", ");
        }
        push_decimal(&mut text, ids[i] as u64);
        i += 1;
    }
    proof {
        assert(ids@.take(ids@.len() as int) == ids@);
    }
    text
}

} // verus!
