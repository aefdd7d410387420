//! Logs gathered for output as JSON.
//!
//! The library gathers, per task, the task and the text of its log. Writing the JSON is
//! the caller's part.

use crate::codec::{decode_text, snap_text};
use crate::lines::{all_lines, join_separated, text_lines};
use crate::stamp::{is_stamp, rendered, rendered_texts, stamp_lines, StampedLine};
use crate::task::TaskRef;
use vstd::prelude::*;
use vstd::string::StringExecFns;

verus! {

/// A task and the text of its log.
#[derive(Clone, Debug, PartialEq, Eq)]
pub struct TaskLog {
    pub task: TaskRef,
    pub output: String,
}

/// The lines, each shown with its stamp, with a line feed between each two.
pub open spec fn stamped_text(stamps: Seq<Seq<char>>, lines: Seq<Seq<char>>) -> Seq<char> {
    join_separated(Seq::new(lines.len(), |i: int| rendered(stamps[i], lines[i])), '\n')
}

/// Each of `stamps` is a stamp.
pub open spec fn are_stamps(stamps: Seq<Seq<char>>) -> bool {
    forall|i: int| 0 <= i < stamps.len() ==> is_stamp(#[trigger] stamps[i])
}

/// `out` is `lines` with a stamp in front of each and a line feed between each two,
/// whichever moments the stamps name.
pub open spec fn is_stamping(out: Seq<char>, lines: Seq<Seq<char>>) -> bool {
    exists|stamps: Seq<Seq<char>>|
        stamps.len() == lines.len() && are_stamps(stamps) && out == #[trigger] stamped_text(
            stamps,
            lines,
        )
}

/// The lines as they are shown, with a line feed between each two and none at the end.
pub fn join_rendered(lines: &Vec<StampedLine>) -> (text: String)
    ensures
        text@ == join_separated(rendered_texts(lines@), '\n'),
{
    let mut text = String::new();
    let mut i: usize = 0;
    while i < lines.len()
        invariant
            i <= lines.len(),
            text@ == join_separated(rendered_texts(lines@.take(i as int)), '\n'),
        decreases lines.len() - i,
    {
        let shown = lines[i].render();
        proof {
            let before = rendered_texts(lines@.take(i as int));
            let after = rendered_texts(lines@.take(i + 1));
            assert(after.drop_last() == before);
        }
        if i > 0 {
            text.push('\n');
        }
        text.append(shown.as_str());
        i += 1;
    }
    proof {
        assert(lines@.take(lines@.len() as int) == lines@);
    }
    text
}

/// Puts the current local time in front of each line of `content`. The lines come back
/// with a line feed between each two and none at the end.
pub fn add_timestamps_to_string(content: &str) -> (text: String)
    ensures
        is_stamping(text@, all_lines(content@, '\n', '\r')),
{
    let lines = text_lines(content);
    let stamped = stamp_lines(lines);
    let text = join_rendered(&stamped);
    proof {
        let plain = all_lines(content@, '\n', '\r');
        let stamps = stamped@.map_values(|line: StampedLine| line.stamp@);
        assert(rendered_texts(stamped@) == Seq::new(
            plain.len(),
            |i: int| rendered(stamps[i], plain[i]),
        ));
        assert(text@ == stamped_text(stamps, plain));
    }
    text
}

/// What a log's file gave when it was read as text.
#[derive(Clone, Debug, PartialEq, Eq)]
pub enum LocalRead {
    /// The file could not be opened, with this error.
    Unopened(String),
    /// The file could not be read, with this error.
    Unread(String),
    /// The text that was read.
    Text(String),
}

/// The text of a log that was read from its file: the text as it is or stamped, or a
/// placeholder that names what failed.
pub fn get_local_log(read: &LocalRead, timestamps: bool) -> (text: String)
    ensures
        match *read {
            LocalRead::Unopened(error) => text@ == "(Pueue error) Failed to get log file handle: "@
                + error@,
            LocalRead::Unread(error) => text@
                == "(Pueue error) Failed to read local log output file: "@ + error@,
            LocalRead::Text(content) => if timestamps {
                is_stamping(text@, all_lines(content@, '\n', '\r'))
            } else {
                text@ == content@
            },
        },
{
    match read {
        LocalRead::Unopened(error) => {
            let mut text = String::from_str("(Pueue error) Failed to get log file handle: ");
            text.append(error.as_str());
            text
        },
        LocalRead::Unread(error) => {
            let mut text = String::from_str(
                "(Pueue error) Failed to read local log output file: ",
            );
            text.append(error.as_str());
            text
        },
        LocalRead::Text(content) => {
            if timestamps {
                add_timestamps_to_string(content.as_str())
            } else {
                content.clone()
            }
        },
    }
}

/// The text that stands for a payload, given what decoding it gave.
pub open spec fn remote_text_is(
    text: Seq<char>,
    decoded: Result<Seq<char>, Seq<char>>,
    timestamps: bool,
) -> bool {
    match decoded {
        Ok(content) => if timestamps {
            is_stamping(text, all_lines(content, '\n', '\r'))
        } else {
            text == content
        },
        Err(error) => text == "(Pueue error) Failed to decompress remote log output: "@ + error,
    }
}

/// The text of a log from what decoding its payload gave: the decoded text as it is or
/// stamped, or, if the payload could not be decoded, a placeholder that says so. The
/// placeholder is never empty.
pub fn remote_log_text(decoded: Result<String, String>, timestamps: bool) -> (text: String)
    ensures
        remote_text_is(
            text@,
            match decoded {
                Ok(content) => Ok(content@),
                Err(error) => Err(error@),
            },
            timestamps,
        ),
        decoded is Err ==> text@.len() > 0,
{
    match decoded {
        Ok(content) => {
            if timestamps {
                add_timestamps_to_string(content.as_str())
            } else {
                content
            }
        },
        Err(error) => {
            let mut text = String::from_str(
                "(Pueue error) Failed to decompress remote log output: ",
            );
            text.append(error.as_str());
            proof {
                reveal_strlit("(Pueue error) Failed to decompress remote log output: ");
            }
            text
        },
    }
}

/// The text of a log that the daemon sent compressed. No payload and an empty payload give
/// the empty text. A payload that cannot be decoded gives a placeholder, not a failure.
pub fn get_remote_log(output_bytes: Option<Vec<u8>>, timestamps: bool) -> (text: String)
    ensures
        match output_bytes {
            Some(bytes) => remote_text_is(text@, snap_text(bytes@), timestamps),
            None => text@.len() == 0,
        },
        output_bytes matches Some(bytes) ==> (bytes@.len() == 0 ==> text@.len() == 0),
        output_bytes matches Some(bytes) ==> (snap_text(bytes@) is Err ==> text@.len() > 0),
{
    match output_bytes {
        None => String::new(),
        Some(bytes) => {
            let decoded = decode_text(bytes.as_slice());
            remote_log_text(decoded, timestamps)
        },
    }
}

/// Where the text of a task's log comes from.
#[derive(Clone, Debug, PartialEq, Eq)]
pub enum LogSource {
    /// From the task's file, read by the caller.
    Local(LocalRead),
    /// From the payload that the daemon sent, if it sent one.
    Remote(Option<Vec<u8>>),
}

/// A task with the source of its log.
#[derive(Clone, Debug, PartialEq, Eq)]
pub struct LogEntry {
    pub task: TaskRef,
    pub source: LogSource,
}

/// `text` is the text of the log that comes from `source`.
pub open spec fn log_text_is(text: Seq<char>, source: LogSource, timestamps: bool) -> bool {
    match source {
        LogSource::Local(LocalRead::Unopened(error)) => text
            == "(Pueue error) Failed to get log file handle: "@ + error@,
        LogSource::Local(LocalRead::Unread(error)) => text
            == "(Pueue error) Failed to read local log output file: "@ + error@,
        LogSource::Local(LocalRead::Text(content)) => if timestamps {
            is_stamping(text, all_lines(content@, '\n', '\r'))
        } else {
            text == content@
        },
        LogSource::Remote(Some(bytes)) => remote_text_is(text, snap_text(bytes@), timestamps),
        LogSource::Remote(None) => text.len() == 0,
    }
}

/// Gathers what is written as JSON: for each entry, in order, the task and the text of its
/// log. The task's environment is taken out: it is bulky and may hold secrets.
pub fn print_log_json(entries: Vec<LogEntry>, timestamps: bool) -> (logs: Vec<TaskLog>)
    ensures
        logs@.len() == entries@.len(),
        forall|i: int|
            0 <= i < logs@.len() ==> (#[trigger] logs@[i]).task.is_without_envs(entries@[i].task)
                && log_text_is(logs@[i].output@, entries@[i].source, timestamps),
{
    let mut logs: Vec<TaskLog> = Vec::new();
    for entry in it: entries
        invariant
            it.seq() == entries@,
            logs@.len() == it.index(),
            forall|i: int|
                0 <= i < logs@.len() ==> (#[trigger] logs@[i]).task.is_without_envs(
                    entries@[i].task,
                ) && log_text_is(logs@[i].output@, entries@[i].source, timestamps),
    {
        let output = match entry.source {
            LogSource::Local(read) => get_local_log(&read, timestamps),
            LogSource::Remote(payload) => get_remote_log(payload, timestamps),
        };
        let mut task = entry.task;
        task.envs = Vec::new();
        logs.push(TaskLog { task, output });
    }
    logs
}

} // verus!
