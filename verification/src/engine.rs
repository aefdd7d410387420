//! The engine of a local follow.
//!
//! The engine decides; its driver acts. The driver hands the engine what happened and gets
//! back what to show and what to do next: ask the daemon for the task, open the log, read
//! what is new, sleep, or stop. The engine never waits and never touches a file, so a
//! follow can be driven by a program as well as played through from a list of events.

use crate::output::{
    lemma_shown_add, lemma_stamps_add, lemma_timeless_add, shown, stamps_hold, timeless, Output,
    Shown,
};
use crate::tail::{
    flush_failed, last_shown, missing_step, open_failed, read_carry, read_outcome, read_shown,
    seek_failed,
    status_outcome, status_shown, status_step, wait_of, wait_step, Found, TailCursor,
    TailOutcome, TailStep, Wait, LOG_CHECK_INTERVAL, START_CHECK_INTERVAL,
};
use crate::task::TaskStatus;
use vstd::prelude::*;

verus! {

/// Where a follow stands.
#[derive(Clone, Copy, Debug, PartialEq, Eq, Structural)]
pub enum Phase {
    /// Nothing has happened yet.
    Idle,
    /// The daemon is asked whether the task has started.
    Looking,
    /// The task has not started; the follow sleeps before it asks again.
    Waiting,
    /// The log is being opened.
    Opening,
    /// The log is being read.
    Reading,
    /// The daemon is asked whether the task is still running.
    Asking,
    /// The follow sleeps before the next poll.
    Pausing,
    /// The follow is over.
    Ended(TailOutcome),
}

/// What the driver is to do next.
#[derive(Clone, Copy, Debug, PartialEq, Eq, Structural)]
pub enum Command {
    /// Ask the daemon for the task and hand over its status.
    QueryTask,
    /// Sleep for this many milliseconds.
    Sleep(u64),
    /// Open the log and, if a line limit is given, put the cursor before its last lines.
    Open(Option<usize>),
    /// Read what the log holds behind the cursor.
    Read,
    /// Stop, for this reason.
    Stop(TailOutcome),
}

/// How opening the log went.
#[derive(Clone, Debug, PartialEq, Eq)]
pub enum Opened {
    /// The log is open, and the line limit, if there is one, is applied.
    Ready,
    /// The log is open, but the line limit could not be applied, with this error.
    Unsought(String),
    /// The log could not be opened, with this error.
    Failed(String),
}

/// What happened.
#[derive(Clone, Debug, PartialEq, Eq)]
pub enum Event {
    /// The follow begins.
    Start,
    /// The daemon answered: the status of the task, or nothing if it does not know the
    /// task.
    Task(Option<TaskStatus>),
    /// The log was opened, or not.
    Opened(Opened),
    /// The log was read, or not.
    Found(Found),
    /// The sleep is over.
    Woke,
    /// What was to be shown could not be written out, with this error.
    WriteFailed(String),
}

/// What to show and what to do next.
#[derive(Clone, Debug, PartialEq, Eq)]
pub struct EngineStep {
    pub outputs: Vec<Output>,
    pub command: Command,
}

/// The engine of a local follow.
pub struct Engine {
    phase: Phase,
    cursor: TailCursor,
    lines: Option<usize>,
    timestamps: bool,
}

/// An engine as a plain value.
pub struct EngineView {
    pub phase: Phase,
    /// The bytes that were read of a line that is not terminated yet.
    pub carry: Seq<u8>,
    /// The number of polls that were completed.
    pub ticks: nat,
    /// The line limit for what the log holds when it is opened.
    pub lines: Option<usize>,
    /// Whether lines are stamped.
    pub timestamps: bool,
}

/// The command that a phase waits to have carried out.
pub open spec fn awaited(phase: Phase, lines: Option<usize>) -> Command {
    match phase {
        Phase::Idle => Command::QueryTask,
        Phase::Looking => Command::QueryTask,
        Phase::Waiting => Command::Sleep(START_CHECK_INTERVAL),
        Phase::Opening => Command::Open(lines),
        Phase::Reading => Command::Read,
        Phase::Asking => Command::QueryTask,
        Phase::Pausing => Command::Sleep(LOG_CHECK_INTERVAL),
        Phase::Ended(outcome) => Command::Stop(outcome),
    }
}

/// The count of completed polls after one more; a count that is full starts again at 0.
pub open spec fn next_tick(ticks: nat) -> nat {
    if ticks == u64::MAX {
        0
    } else {
        ticks + 1
    }
}

/// The phase that follows on an event, where the event is one that the phase waits for.
pub open spec fn next_phase(engine: EngineView, event: Event) -> Phase {
    match (engine.phase, event) {
        (Phase::Ended(outcome), _) => Phase::Ended(outcome),
        (_, Event::WriteFailed(_)) => Phase::Ended(TailOutcome::IoError),
        (Phase::Idle, _) => Phase::Looking,
        (Phase::Looking, Event::Task(task)) => match wait_of(task) {
            Wait::Start => Phase::Opening,
            Wait::Sleep(_) => Phase::Waiting,
            Wait::Missing => Phase::Ended(TailOutcome::TaskMissing),
        },
        (Phase::Waiting, Event::Woke) => Phase::Looking,
        (Phase::Opening, Event::Opened(opened)) => match opened {
            Opened::Failed(_) => Phase::Ended(TailOutcome::IoError),
            _ => Phase::Reading,
        },
        (Phase::Reading, Event::Found(found)) => match read_outcome(found) {
            Some(outcome) => Phase::Ended(outcome),
            None => if engine.ticks % 2 == 0 {
                Phase::Asking
            } else {
                Phase::Pausing
            },
        },
        (Phase::Asking, Event::Task(task)) => match status_outcome(task) {
            Some(outcome) => Phase::Ended(outcome),
            None => Phase::Pausing,
        },
        (Phase::Pausing, Event::Woke) => Phase::Reading,
        (phase, _) => phase,
    }
}

/// The event ends the follow.
pub open spec fn ends(engine: EngineView, event: Event) -> bool {
    !(engine.phase is Ended) && next_phase(engine, event) is Ended
}

/// What is shown on an event, stamps blanked. Where the event ends the follow, what is
/// carried is shown first, as one more line, so that nothing that was read is lost.
pub open spec fn step_shown(engine: EngineView, event: Event) -> Seq<Shown> {
    if ends(engine, event) {
        last_shown(engine.carry) + step_notes(engine, event)
    } else {
        step_notes(engine, event)
    }
}

/// What an event itself brings to show, stamps blanked.
pub open spec fn step_notes(engine: EngineView, event: Event) -> Seq<Shown> {
    match (engine.phase, event) {
        (Phase::Ended(_), _) => Seq::empty(),
        (_, Event::WriteFailed(error)) => seq![
            Shown::Note("Pueue: Error while flushing stdout: "@ + error@),
        ],
        (Phase::Looking, Event::Task(None)) => seq![
            Shown::Note("Pueue: The task to be followed doesn't exist."@),
        ],
        (Phase::Opening, Event::Opened(Opened::Unsought(error))) => seq![
            Shown::Note("Error seeking to last lines from log: "@ + error@),
        ],
        (Phase::Opening, Event::Opened(Opened::Failed(error))) => seq![
            Shown::Note("Failed to get log file handles: "@ + error@),
        ],
        (Phase::Reading, Event::Found(found)) => read_shown(
            engine.carry,
            found,
            engine.timestamps,
        ),
        (Phase::Asking, Event::Task(task)) => status_shown(task),
        _ => Seq::empty(),
    }
}

/// The engine after an event. An event that the phase does not wait for changes nothing.
/// An event that ends the follow leaves nothing carried.
pub open spec fn stepped(engine: EngineView, event: Event) -> EngineView {
    let phase = next_phase(engine, event);
    let polled = !(engine.phase is Pausing) && phase is Pausing;
    EngineView {
        phase,
        carry: if ends(engine, event) {
            Seq::empty()
        } else {
            match (engine.phase, event) {
                (Phase::Reading, Event::Found(found)) => read_carry(
                    engine.carry,
                    found,
                    engine.timestamps,
                ),
                _ => engine.carry,
            }
        },
        ticks: if polled {
            next_tick(engine.ticks)
        } else {
            engine.ticks
        },
        ..engine
    }
}

impl View for Engine {
    type V = EngineView;

    closed spec fn view(&self) -> EngineView {
        EngineView {
            phase: self.phase,
            carry: self.cursor.carry(),
            ticks: self.cursor.ticks(),
            lines: self.lines,
            timestamps: self.timestamps,
        }
    }
}

impl Engine {
    /// An engine for a follow that has not begun, with the line limit for what the log
    /// already holds and with the choice of stamping lines.
    pub fn new(lines: Option<usize>, timestamps: bool) -> (engine: Engine)
        ensures
            engine@ == (EngineView {
                phase: Phase::Idle,
                carry: Seq::<u8>::empty(),
                ticks: 0,
                lines,
                timestamps,
            }),
    {
        Engine { phase: Phase::Idle, cursor: TailCursor::new(), lines, timestamps }
    }

    /// Where the follow stands.
    pub fn phase(&self) -> (phase: Phase)
        ensures
            phase == self@.phase,
    {
        self.phase
    }

    /// The bytes that were read of a line that is not terminated yet.
    pub fn incomplete_line(&self) -> (line: &[u8])
        ensures
            line@ == self@.carry,
    {
        self.cursor.incomplete_line()
    }

    /// The number of polls that were completed.
    pub fn elapsed_ticks(&self) -> (ticks: u64)
        ensures
            ticks == self@.ticks,
    {
        self.cursor.elapsed_ticks()
    }

    fn sleep_after_poll(&mut self) -> (command: Command)
        requires
            !(old(self)@.phase is Pausing),
        ensures
            command == Command::Sleep(LOG_CHECK_INTERVAL),
            final(self)@ == (EngineView {
                phase: Phase::Pausing,
                ticks: next_tick(old(self)@.ticks),
                ..old(self)@
            }),
    {
        self.phase = Phase::Pausing;
        Command::Sleep(self.cursor.end_tick())
    }

    fn end(&mut self, step: TailStep, outcome: TailOutcome) -> (done: EngineStep)
        requires
            stamps_hold(shown(step.outputs@)),
        ensures
            timeless(shown(done.outputs@)) == last_shown(old(self)@.carry) + timeless(
                shown(step.outputs@),
            ),
            stamps_hold(shown(done.outputs@)),
            done.command == Command::Stop(outcome),
            final(self)@ == (EngineView {
                phase: Phase::Ended(outcome),
                carry: Seq::empty(),
                ..old(self)@
            }),
    {
        let mut step = step;
        let mut outputs = self.cursor.finish();
        proof {
            lemma_shown_add(outputs@, step.outputs@);
            lemma_timeless_add(shown(outputs@), shown(step.outputs@));
            lemma_stamps_add(shown(outputs@), shown(step.outputs@));
        }
        outputs.append(&mut step.outputs);
        self.phase = Phase::Ended(outcome);
        EngineStep { outputs, command: Command::Stop(outcome) }
    }

    /// Takes an event and says what to show and what to do next. Only an event that the
    /// phase waits for moves the follow on; on any other the command that is waited for is
    /// given again. Once the follow is over, every event is answered with the stop.
    pub fn step(&mut self, event: &Event) -> (step: EngineStep)
        ensures
            final(self)@ == stepped(old(self)@, *event),
            timeless(shown(step.outputs@)) == step_shown(old(self)@, *event),
            stamps_hold(shown(step.outputs@)),
            step.command == awaited(final(self)@.phase, final(self)@.lines),
    {
        let quiet: Vec<Output> = Vec::new();
        if let Phase::Ended(outcome) = self.phase {
            return EngineStep { outputs: quiet, command: Command::Stop(outcome) };
        }
        if let Event::WriteFailed(error) = event {
            let failed = flush_failed(error.as_str());
            return self.end(failed, TailOutcome::IoError);
        }
        match (self.phase, event) {
            (Phase::Idle, _) => {
                self.phase = Phase::Looking;
                EngineStep { outputs: quiet, command: Command::QueryTask }
            },
            (Phase::Looking, Event::Task(task)) => match wait_step(task.as_ref()) {
                Wait::Start => {
                    self.phase = Phase::Opening;
                    EngineStep { outputs: quiet, command: Command::Open(self.lines) }
                },
                Wait::Sleep(pause) => {
                    self.phase = Phase::Waiting;
                    EngineStep { outputs: quiet, command: Command::Sleep(pause) }
                },
                Wait::Missing => {
                    let missing = missing_step();
                    self.end(missing, TailOutcome::TaskMissing)
                },
            },
            (Phase::Waiting, Event::Woke) => {
                self.phase = Phase::Looking;
                EngineStep { outputs: quiet, command: Command::QueryTask }
            },
            (Phase::Opening, Event::Opened(opened)) => match opened {
                Opened::Ready => {
                    self.phase = Phase::Reading;
                    EngineStep { outputs: quiet, command: Command::Read }
                },
                Opened::Unsought(error) => {
                    let sought = seek_failed(error.as_str());
                    self.phase = Phase::Reading;
                    EngineStep { outputs: sought.outputs, command: Command::Read }
                },
                Opened::Failed(error) => {
                    let failed = open_failed(error.as_str());
                    self.end(failed, TailOutcome::IoError)
                },
            },
            (Phase::Reading, Event::Found(found)) => {
                let read = self.cursor.read_step(found, self.timestamps);
                match read.outcome {
                    Some(outcome) => self.end(read, outcome),
                    None => {
                        let command = if self.cursor.status_check_due() {
                            self.phase = Phase::Asking;
                            Command::QueryTask
                        } else {
                            self.sleep_after_poll()
                        };
                        EngineStep { outputs: read.outputs, command }
                    },
                }
            },
            (Phase::Asking, Event::Task(task)) => {
                let looked = status_step(task.as_ref());
                match looked.outcome {
                    Some(outcome) => self.end(looked, outcome),
                    None => {
                        let command = self.sleep_after_poll();
                        EngineStep { outputs: looked.outputs, command }
                    },
                }
            },
            (Phase::Pausing, Event::Woke) => {
                self.phase = Phase::Reading;
                EngineStep { outputs: quiet, command: Command::Read }
            },
            (Phase::Looking, _) => EngineStep { outputs: quiet, command: Command::QueryTask },
            (Phase::Waiting, _) => EngineStep {
                outputs: quiet,
                command: Command::Sleep(START_CHECK_INTERVAL),
            },
            (Phase::Opening, _) => EngineStep {
                outputs: quiet,
                command: Command::Open(self.lines),
            },
            (Phase::Reading, _) => EngineStep { outputs: quiet, command: Command::Read },
            (Phase::Asking, _) => EngineStep { outputs: quiet, command: Command::QueryTask },
            (Phase::Pausing, _) => EngineStep {
                outputs: quiet,
                command: Command::Sleep(LOG_CHECK_INTERVAL),
            },
            (Phase::Ended(outcome), _) => EngineStep {
                outputs: quiet,
                command: Command::Stop(outcome),
            },
        }
    }
}

} // verus!
