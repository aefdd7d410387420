//! The steps of following a log file on the local machine.
//!
//! A follow polls: it reads what is new in the file, shows it, and sleeps. Every second
//! poll it also asks the daemon for the task. What was read in a poll is shown before that
//! poll can end the follow. With stamps, the bytes behind the last line feed are carried
//! to the next poll, so that a line, and a character, that two polls bring is shown whole;
//! when the follow ends, what is carried is shown as the last line. So no output is lost.
//! Here each of these steps stands on its own: what it shows, what it carries to the next
//! poll, and whether it ends the follow.

use crate::annotate::annotate_bytes;
use crate::lines::{complete_lines, lemma_tail_start, open_tail, CR, LF};
use crate::output::{blank_lines, push_lines, shown, stamps_hold, timeless, Output, Shown};
use crate::stamp::StampedLine;
use crate::task::TaskStatus;
use crate::text::{read_text, text_of, texts_of};
use vstd::prelude::*;
use vstd::string::StringExecFns;

verus! {

/// The pause between two polls of the log file, in milliseconds.
pub const LOG_CHECK_INTERVAL: u64 = 250;

/// The pause between two looks at a task that has not started yet, in milliseconds.
pub const START_CHECK_INTERVAL: u64 = 1000;

/// Why a follow session ended.
#[derive(Clone, Copy, Debug, PartialEq, Eq, Structural)]
pub enum TailOutcome {
    /// The task is no longer running.
    TaskFinished,
    /// The daemon does not know the task.
    TaskMissing,
    /// The log file is gone.
    FileMissing,
    /// The log could not be opened, read or written out.
    IoError,
}

impl TailOutcome {
    /// The exit status that goes with the outcome.
    pub open spec fn status(self) -> i32 {
        if self is TaskMissing {
            1
        } else {
            0
        }
    }

    /// The exit status of the process: 1 if the task was missing, else 0.
    pub fn exit_code(&self) -> (code: i32)
        ensures
            code == self.status(),
    {
        match self {
            TailOutcome::TaskMissing => 1,
            _ => 0,
        }
    }
}

/// What a poll of the log file found.
#[derive(Clone, Debug, PartialEq, Eq)]
pub enum Found {
    /// The file does not exist any more.
    Gone,
    /// Reading failed, with this error.
    Failed(String),
    /// These bytes are new; none is normal while the task is quiet.
    Data(Vec<u8>),
}

/// What to show, and whether the session ends.
#[derive(Clone, Debug, PartialEq, Eq)]
pub struct TailStep {
    pub outputs: Vec<Output>,
    /// The reason to end the session, if it ends.
    pub outcome: Option<TailOutcome>,
}

/// What to do about a task that may not have started yet.
#[derive(Clone, Copy, Debug, PartialEq, Eq, Structural)]
pub enum Wait {
    /// The task is running or done: open its log.
    Start,
    /// The task has not started: look again after this many milliseconds.
    Sleep(u64),
    /// The daemon does not know the task.
    Missing,
}

/// What a look at the task before the log is opened leads to.
pub open spec fn wait_of(task: Option<TaskStatus>) -> Wait {
    match task {
        None => Wait::Missing,
        Some(status) => if status.running() || status.done() {
            Wait::Start
        } else {
            Wait::Sleep(START_CHECK_INTERVAL)
        },
    }
}

/// Decides, from a look at the task, whether its log can be opened yet.
pub fn wait_step(task: Option<&TaskStatus>) -> (wait: Wait)
    ensures
        wait == wait_of(
            match task {
                Some(status) => Some(*status),
                None => None,
            },
        ),
{
    match task {
        None => Wait::Missing,
        Some(status) => if status.is_running() || status.is_done() {
            Wait::Start
        } else {
            Wait::Sleep(START_CHECK_INTERVAL)
        },
    }
}

/// What a follow session carries from one poll to the next. The position in the file is
/// the caller's, with the file.
pub struct TailCursor {
    incomplete_line: Vec<u8>,
    elapsed_ticks: u64,
}

/// What a poll shows, stamps blanked, given what was carried into it. With stamps these
/// are the lines that the carried bytes and the new bytes complete, each read as text.
pub open spec fn read_shown(carry: Seq<u8>, found: Found, timestamps: bool) -> Seq<Shown> {
    match found {
        Found::Gone => seq![
            Shown::Note("Pueue: Log file has gone away. Has the task been removed?"@),
        ],
        Found::Failed(error) => seq![Shown::Note("Pueue: Error while reading file: "@ + error@)],
        Found::Data(data) => if data@.len() == 0 {
            Seq::empty()
        } else if timestamps {
            blank_lines(texts_of(complete_lines(carry + data@, LF, CR)))
        } else {
            seq![Shown::Bytes(data@)]
        },
    }
}

/// What is carried out of a poll, given what was carried into it: the bytes behind the
/// last line feed.
pub open spec fn read_carry(carry: Seq<u8>, found: Found, timestamps: bool) -> Seq<u8> {
    match found {
        Found::Data(data) => if timestamps && data@.len() > 0 {
            open_tail(carry + data@, LF)
        } else {
            carry
        },
        _ => carry,
    }
}

/// What is shown of what is carried when the follow ends, stamp blanked: the open line as
/// one more line, if there is one. Nothing that was read is kept back.
pub open spec fn last_shown(carry: Seq<u8>) -> Seq<Shown> {
    if carry.len() > 0 {
        seq![Shown::Line(Seq::empty(), text_of(carry))]
    } else {
        Seq::empty()
    }
}

/// Whether what a poll found ends the session.
pub open spec fn read_outcome(found: Found) -> Option<TailOutcome> {
    match found {
        Found::Gone => Some(TailOutcome::FileMissing),
        Found::Failed(_) => Some(TailOutcome::IoError),
        Found::Data(_) => None,
    }
}

/// What a look at the followed task shows.
pub open spec fn status_shown(task: Option<TaskStatus>) -> Seq<Shown> {
    if task is None {
        seq![Shown::Note("Pueue: The followed task has been removed."@)]
    } else {
        Seq::empty()
    }
}

/// Whether a look at the followed task ends the session.
pub open spec fn status_outcome(task: Option<TaskStatus>) -> Option<TailOutcome> {
    match task {
        None => Some(TailOutcome::TaskMissing),
        Some(status) => if status.running() {
            None
        } else {
            Some(TailOutcome::TaskFinished)
        },
    }
}

impl TailCursor {
    #[verifier::type_invariant]
    spec fn holds_one_open_line(self) -> bool {
        forall|i: int| 0 <= i < self.incomplete_line@.len() ==> self.incomplete_line@[i] != LF
    }

    /// The bytes that were read of a line that is not terminated yet.
    pub closed spec fn carry(self) -> Seq<u8> {
        self.incomplete_line@
    }

    /// The number of polls that were completed.
    pub closed spec fn ticks(self) -> nat {
        self.elapsed_ticks as nat
    }

    /// The task is looked at in every second poll, the first one included.
    pub open spec fn check_due(self) -> bool {
        self.ticks() % 2 == 0
    }

    /// The cursor at the start of a session.
    pub fn new() -> (cursor: TailCursor)
        ensures
            cursor.carry() == Seq::<u8>::empty(),
            cursor.ticks() == 0,
    {
        TailCursor { incomplete_line: Vec::new(), elapsed_ticks: 0 }
    }

    /// The bytes that were read of a line that is not terminated yet. They hold no line
    /// feed: they are at most one line, and that line is open.
    pub fn incomplete_line(&self) -> (line: &[u8])
        ensures
            line@ == self.carry(),
            forall|i: int| 0 <= i < line@.len() ==> line@[i] != LF,
    {
        proof {
            use_type_invariant(self);
        }
        self.incomplete_line.as_slice()
    }

    /// Ends the follow for the cursor: what is carried is shown as one more stamped line,
    /// and nothing is carried any more.
    pub fn finish(&mut self) -> (outputs: Vec<Output>)
        ensures
            timeless(shown(outputs@)) == last_shown(old(self).carry()),
            stamps_hold(shown(outputs@)),
            final(self).carry() == Seq::<u8>::empty(),
            final(self).ticks() == old(self).ticks(),
    {
        let mut outputs: Vec<Output> = Vec::new();
        if self.incomplete_line.len() > 0 {
            let line = StampedLine::now(read_text(self.incomplete_line.as_slice()));
            let last = Output::Line(line);
            outputs.push(last);
            proof {
                assert(shown(outputs@) == seq![last@]);
            }
            self.incomplete_line = Vec::new();
        }
        outputs
    }

    /// The number of polls that were completed.
    pub fn elapsed_ticks(&self) -> (ticks: u64)
        ensures
            ticks == self.ticks(),
    {
        self.elapsed_ticks
    }

    /// Takes what a poll of the file found. New bytes are shown as they are, or, with
    /// `timestamps`, line by line, each complete line read as text and stamped; the bytes
    /// that follow the last line feed are carried to the next poll. A file that is gone
    /// or cannot be read ends the follow.
    pub fn read_step(&mut self, found: &Found, timestamps: bool) -> (step: TailStep)
        ensures
            timeless(shown(step.outputs@)) == read_shown(old(self).carry(), *found, timestamps),
            stamps_hold(shown(step.outputs@)),
            step.outcome == read_outcome(*found),
            final(self).carry() == read_carry(old(self).carry(), *found, timestamps),
            final(self).ticks() == old(self).ticks(),
    {
        let mut outputs: Vec<Output> = Vec::new();
        match found {
            Found::Gone => {
                let note = Output::Note(
                    String::from_str("Pueue: Log file has gone away. Has the task been removed?"),
                );
                outputs.push(note);
                TailStep { outputs, outcome: Some(TailOutcome::FileMissing) }
            },
            Found::Failed(error) => {
                let mut text = String::from_str("Pueue: Error while reading file: ");
                text.append(error.as_str());
                let note = Output::Note(text);
                outputs.push(note);
                TailStep { outputs, outcome: Some(TailOutcome::IoError) }
            },
            Found::Data(data) => {
                if data.len() > 0 {
                    if timestamps {
                        let mut carry = self.incomplete_line.clone();
                        let lines = annotate_bytes(data.as_slice(), &mut carry);
                        proof {
                            lemma_tail_start(self.incomplete_line@ + data@, LF);
                        }
                        self.incomplete_line = carry;
                        push_lines(&mut outputs, lines);
                    } else {
                        let bytes = Output::Bytes(data.clone());
                        outputs.push(bytes);
                    }
                }
                TailStep { outputs, outcome: None }
            },
        }
    }

    /// Whether the task is to be looked at in this poll.
    pub fn status_check_due(&self) -> (due: bool)
        ensures
            due == self.check_due(),
    {
        self.elapsed_ticks % 2 == 0
    }

    /// Ends a poll. Returns the pause before the next one, in milliseconds. A count that
    /// is full starts again at 0, so that the task is still looked at in every second
    /// poll.
    pub fn end_tick(&mut self) -> (pause: u64)
        ensures
            pause == LOG_CHECK_INTERVAL,
            final(self).ticks() == if old(self).ticks() == u64::MAX {
                0
            } else {
                old(self).ticks() + 1
            },
            final(self).check_due() == !old(self).check_due(),
            final(self).carry() == old(self).carry(),
    {
        proof {
            use_type_invariant(&*self);
        }
        if self.elapsed_ticks == u64::MAX {
            self.elapsed_ticks = 0;
        } else {
            self.elapsed_ticks = self.elapsed_ticks + 1;
        }
        LOG_CHECK_INTERVAL
    }
}

/// Takes what the daemon said of the followed task. A task that is gone or no longer
/// running ends the session.
pub fn status_step(task: Option<&TaskStatus>) -> (step: TailStep)
    ensures
        shown(step.outputs@) == status_shown(
            match task {
                Some(status) => Some(*status),
                None => None,
            },
        ),
        step.outcome == status_outcome(
            match task {
                Some(status) => Some(*status),
                None => None,
            },
        ),
{
    let mut outputs: Vec<Output> = Vec::new();
    match task {
        None => {
            let note = Output::Note(String::from_str("Pueue: The followed task has been removed."));
            outputs.push(note);
            TailStep { outputs, outcome: Some(TailOutcome::TaskMissing) }
        },
        Some(status) => {
            if status.is_running() {
                TailStep { outputs, outcome: None }
            } else {
                TailStep { outputs, outcome: Some(TailOutcome::TaskFinished) }
            }
        },
    }
}

/// A step that shows one message on standard error and ends the session, or not.
fn note_step(prefix: &str, error: &str, outcome: Option<TailOutcome>) -> (step: TailStep)
    ensures
        shown(step.outputs@) == seq![Shown::Note(prefix@ + error@)],
        step.outcome == outcome,
{
    let mut text = String::from_str(prefix);
    text.append(error);
    let note = Output::Note(text);
    let mut outputs: Vec<Output> = Vec::new();
    outputs.push(note);
    TailStep { outputs, outcome }
}

/// The task was looked for before its log was opened, and the daemon does not know it.
pub fn missing_step() -> (step: TailStep)
    ensures
        shown(step.outputs@) == seq![
            Shown::Note("Pueue: The task to be followed doesn't exist."@),
        ],
        step.outcome == Some(TailOutcome::TaskMissing),
{
    let note = Output::Note(String::from_str("Pueue: The task to be followed doesn't exist."));
    let mut outputs: Vec<Output> = Vec::new();
    outputs.push(note);
    TailStep { outputs, outcome: Some(TailOutcome::TaskMissing) }
}

/// The log could not be opened: the error is shown and the session ends.
pub fn open_failed(error: &str) -> (step: TailStep)
    ensures
        shown(step.outputs@) == seq![Shown::Note("Failed to get log file handles: "@ + error@)],
        step.outcome == Some(TailOutcome::IoError),
{
    note_step("Failed to get log file handles: ", error, Some(TailOutcome::IoError))
}

/// The line limit could not be applied: the error is shown and the session goes on with
/// the file as it was opened.
pub fn seek_failed(error: &str) -> (step: TailStep)
    ensures
        shown(step.outputs@) == seq![
            Shown::Note("Error seeking to last lines from log: "@ + error@),
        ],
        step.outcome is None,
{
    note_step("Error seeking to last lines from log: ", error, None)
}

/// What was shown could not be written out: the error is shown and the session ends.
pub fn flush_failed(error: &str) -> (step: TailStep)
    ensures
        shown(step.outputs@) == seq![
            Shown::Note("Pueue: Error while flushing stdout: "@ + error@),
        ],
        step.outcome == Some(TailOutcome::IoError),
{
    note_step("Pueue: Error while flushing stdout: ", error, Some(TailOutcome::IoError))
}

} // verus!
