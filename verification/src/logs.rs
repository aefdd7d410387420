//! The logs of finished tasks, shown one after the other.

use crate::local::{local_shown, print_local_log, LocalLog};
use crate::output::{
    lemma_shown_add, lemma_stamps_add, lemma_timeless_add, shown, stamps_hold, timeless, Output,
    Shown,
};
use crate::remote::{print_remote_log, remote_shown, TaskLogEntry};
use crate::task::print_task_info;
use crate::window::determine_log_line_amount;
use vstd::prelude::*;
use vstd::string::StringExecFns;

verus! {

/// The tasks that a request is about.
#[derive(Clone, Debug, PartialEq, Eq)]
pub enum TaskSelection {
    /// The tasks with these ids.
    TaskIds(Vec<usize>),
    /// The tasks of this group.
    Group(String),
    /// All tasks.
    All,
}

/// The request for the logs of finished tasks.
#[derive(Clone, Debug, PartialEq, Eq)]
pub struct LogRequest {
    pub tasks: TaskSelection,
    /// Whether the daemon is to send the logs along; not if they are read locally.
    pub send_logs: bool,
    /// The line limit.
    pub lines: Option<usize>,
}

/// The selection that the command line asks for: all tasks if `all` is set, else the group
/// if one is named, else the tasks by id.
pub fn selection_from_params(all: bool, group: Option<String>, task_ids: Vec<usize>) -> (selection:
    TaskSelection)
    ensures
        all ==> selection is All,
        !all && group is Some ==> selection == TaskSelection::Group(group->0),
        !all && group is None ==> selection == TaskSelection::TaskIds(task_ids),
{
    if all {
        TaskSelection::All
    } else {
        match group {
            Some(group) => TaskSelection::Group(group),
            None => TaskSelection::TaskIds(task_ids),
        }
    }
}

/// Makes the request for the logs of finished tasks. The full log is asked for only on
/// demand; without any wish 15 lines per task are.
pub fn log_request(
    selection: TaskSelection,
    read_local_logs: bool,
    lines: Option<usize>,
    full: bool,
) -> (request: LogRequest)
    ensures
        request.tasks == selection,
        request.send_logs == !read_local_logs,
        request.lines == if full {
            None
        } else if lines is Some {
            lines
        } else {
            Some(15usize)
        },
{
    let lines = determine_log_line_amount(full, &lines);
    LogRequest { tasks: selection, send_logs: !read_local_logs, lines }
}

/// What is said when no task has a log to show.
pub open spec fn nothing_text(selection: TaskSelection) -> Seq<char> {
    match selection {
        TaskSelection::TaskIds(_) => "There are no finished tasks for your specified ids"@,
        TaskSelection::Group(group) => "There are no finished tasks for group '"@ + group@ + "'"@,
        TaskSelection::All => "There are no finished tasks"@,
    }
}

/// Words what is said when no task has a log to show.
pub fn nothing_found(selection: &TaskSelection) -> (output: Output)
    ensures
        output@ == Shown::Note(nothing_text(*selection)),
{
    match selection {
        TaskSelection::TaskIds(_) => Output::Note(
            String::from_str("There are no finished tasks for your specified ids"),
        ),
        TaskSelection::Group(group) => {
            let mut text = String::from_str("There are no finished tasks for group '");
            text.append(group.as_str());
            text.append("'");
            Output::Note(text)
        },
        TaskSelection::All => Output::Note(String::from_str("There are no finished tasks")),
    }
}

/// A task with its log: what the daemon sent, and what the caller read from the task's
/// file if logs are read locally.
#[derive(Clone, Debug, PartialEq, Eq)]
pub struct TaskLogs {
    pub entry: TaskLogEntry,
    /// What came of reading the task's file; nothing if logs are not read locally.
    pub local: Option<LocalLog>,
}

/// What is shown for one task, stamps blanked.
pub open spec fn log_shown(
    log: TaskLogs,
    header: Seq<char>,
    lines: Option<usize>,
    timestamps: bool,
) -> Seq<Shown> {
    if !log.entry.task.status.has_log() {
        Seq::empty()
    } else {
        seq![Shown::Header(log.entry.task.info())] + match log.local {
            Some(local) => local_shown(local, lines, header, timestamps),
            None => if log.entry.output is Some {
                remote_shown(log.entry, header, lines, timestamps)
            } else {
                seq![
                    Shown::Text(
                        "Logs requested from pueue daemon, but none received. Please report this bug.\n"@,
                    ),
                ]
            },
        }
    }
}

/// Shows the log of one task: nothing for a task that was never started, else the task's
/// heading and then its log, from its file if that was read, else from what the daemon
/// sent.
pub fn print_log(log: &TaskLogs, header: &str, lines: Option<usize>, timestamps: bool) -> (outputs:
    Vec<Output>)
    ensures
        timeless(shown(outputs@)) == log_shown(*log, header@, lines, timestamps),
        stamps_hold(shown(outputs@)),
{
    let mut outputs: Vec<Output> = Vec::new();
    if !log.entry.task.status.is_shown() {
        return outputs;
    }
    let top = Output::Header(print_task_info(&log.entry.task));
    outputs.push(top);
    proof {
        assert(shown(outputs@) == seq![top@]);
    }
    let mut body = match &log.local {
        Some(local) => print_local_log(local, lines, header, timestamps),
        None => {
            if log.entry.output.is_some() {
                print_remote_log(&log.entry, header, lines, timestamps)
            } else {
                let mut body: Vec<Output> = Vec::new();
                let text = Output::Text(
                    String::from_str(
                        "Logs requested from pueue daemon, but none received. Please report this bug.\n",
                    ),
                );
                body.push(text);
                proof {
                    assert(shown(body@) == seq![text@]);
                }
                body
            }
        },
    };
    proof {
        lemma_shown_add(outputs@, body@);
        lemma_timeless_add(shown(outputs@), shown(body@));
        lemma_stamps_add(shown(outputs@), shown(body@));
    }
    outputs.append(&mut body);
    outputs
}

/// What is shown for the tasks one after the other, stamps blanked. An empty line stands
/// before each task but the first if that task has a log to show.
pub open spec fn logs_shown(
    logs: Seq<TaskLogs>,
    header: Seq<char>,
    lines: Option<usize>,
    timestamps: bool,
) -> Seq<Shown>
    decreases logs.len(),
{
    if logs.len() == 0 {
        Seq::empty()
    } else {
        let gap = if logs.len() > 1 && logs.last().entry.task.status.has_log() {
            seq![Shown::Text("\n"@)]
        } else {
            Seq::empty()
        };
        logs_shown(logs.drop_last(), header, lines, timestamps) + gap + log_shown(
            logs.last(),
            header,
            lines,
            timestamps,
        )
    }
}

/// Shows the logs of the tasks that the daemon answered with, in their order. If it
/// answered with none, that is said in the words that fit the selection.
pub fn print_logs(
    logs: &[TaskLogs],
    selection: &TaskSelection,
    header: &str,
    lines: Option<usize>,
    timestamps: bool,
) -> (outputs: Vec<Output>)
    ensures
        timeless(shown(outputs@)) == if logs@.len() == 0 {
            seq![Shown::Note(nothing_text(*selection))]
        } else {
            logs_shown(logs@, header@, lines, timestamps)
        },
        stamps_hold(shown(outputs@)),
{
    let mut outputs: Vec<Output> = Vec::new();
    if logs.len() == 0 {
        let message = nothing_found(selection);
        outputs.push(message);
        proof {
            assert(shown(outputs@) == seq![message@]);
        }
        return outputs;
    }
    let mut i: usize = 0;
    while i < logs.len()
        invariant
            i <= logs.len(),
            timeless(shown(outputs@)) == logs_shown(
                logs@.take(i as int),
                header@,
                lines,
                timestamps,
            ),
            stamps_hold(shown(outputs@)),
        decreases logs.len() - i,
    {
        proof {
            assert(logs@.take(i + 1).drop_last() == logs@.take(i as int));
        }
        if i > 0 && logs[i].entry.task.status.is_shown() {
            let gap = Output::Text(String::from_str("\n"));
            proof {
                assert(shown(outputs@.push(gap)) == shown(outputs@).push(gap@));
            }
            outputs.push(gap);
        }
        let mut body = print_log(&logs[i], header, lines, timestamps);
        proof {
            lemma_shown_add(outputs@, body@);
            lemma_timeless_add(shown(outputs@), shown(body@));
            lemma_stamps_add(shown(outputs@), shown(body@));
        }
        outputs.append(&mut body);
        i += 1;
    }
    proof {
        assert(logs@.take(logs@.len() as int) == logs@);
    }
    outputs
}

} // verus!
