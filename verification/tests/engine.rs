use log_follow::engine::{Command, Engine, EngineStep, Event, Opened, Phase};
use log_follow::output::Output;
use log_follow::tail::{Found, TailOutcome};
use log_follow::task::{TaskResult, TaskStatus};

fn found(data: &[u8]) -> Event {
    Event::Found(Found::Data(data.to_vec()))
}

fn task(status: TaskStatus) -> Event {
    Event::Task(Some(status))
}

fn reading_engine(timestamps: bool) -> Engine {
    let mut engine = Engine::new(Some(5), timestamps);
    assert_eq!(engine.step(&Event::Start).command, Command::QueryTask);
    assert_eq!(engine.step(&task(TaskStatus::Running)).command, Command::Open(Some(5)));
    assert_eq!(engine.step(&Event::Opened(Opened::Ready)).command, Command::Read);
    engine
}

fn quiet(command: Command) -> EngineStep {
    EngineStep { outputs: Vec::new(), command }
}

#[test]
fn engine_starts_idle_and_asks_for_the_task() {
    let mut engine = Engine::new(None, false);
    assert_eq!(engine.phase(), Phase::Idle);
    assert_eq!(engine.elapsed_ticks(), 0);
    assert_eq!(engine.incomplete_line(), b"");
    assert_eq!(engine.step(&Event::Start), quiet(Command::QueryTask));
    assert_eq!(engine.phase(), Phase::Looking);
}

#[test]
fn engine_waits_a_second_for_a_task_that_has_not_started() {
    let mut engine = Engine::new(None, false);
    engine.step(&Event::Start);
    for status in [TaskStatus::Queued, TaskStatus::Stashed, TaskStatus::Locked] {
        assert_eq!(engine.step(&task(status)), quiet(Command::Sleep(1000)));
        assert_eq!(engine.phase(), Phase::Waiting);
        assert_eq!(engine.step(&Event::Woke), quiet(Command::QueryTask));
        assert_eq!(engine.phase(), Phase::Looking);
    }
    assert_eq!(engine.step(&task(TaskStatus::Paused)), quiet(Command::Open(None)));
    assert_eq!(engine.phase(), Phase::Opening);
}

#[test]
fn engine_opens_the_log_of_a_task_that_is_done() {
    let mut engine = Engine::new(Some(3), true);
    engine.step(&Event::Start);
    let step = engine.step(&task(TaskStatus::Done(TaskResult::Killed)));
    assert_eq!(step, quiet(Command::Open(Some(3))));
}

#[test]
fn engine_ends_when_the_task_is_unknown_at_the_start() {
    let mut engine = Engine::new(None, false);
    engine.step(&Event::Start);
    let step = engine.step(&Event::Task(None));
    assert_eq!(
        step,
        EngineStep {
            outputs: vec![Output::Note(
                "Pueue: The task to be followed doesn't exist.".to_string()
            )],
            command: Command::Stop(TailOutcome::TaskMissing),
        }
    );
    assert_eq!(engine.phase(), Phase::Ended(TailOutcome::TaskMissing));
}

#[test]
fn engine_ends_when_the_log_cannot_be_opened() {
    let mut engine = Engine::new(None, false);
    engine.step(&Event::Start);
    engine.step(&task(TaskStatus::Running));
    let step = engine.step(&Event::Opened(Opened::Failed("denied".to_string())));
    assert_eq!(
        step,
        EngineStep {
            outputs: vec![Output::Note("Failed to get log file handles: denied".to_string())],
            command: Command::Stop(TailOutcome::IoError),
        }
    );
}

#[test]
fn engine_reads_on_when_the_line_limit_cannot_be_applied() {
    let mut engine = Engine::new(Some(2), false);
    engine.step(&Event::Start);
    engine.step(&task(TaskStatus::Running));
    let step = engine.step(&Event::Opened(Opened::Unsought("bad seek".to_string())));
    assert_eq!(
        step,
        EngineStep {
            outputs: vec![Output::Note(
                "Error seeking to last lines from log: bad seek".to_string()
            )],
            command: Command::Read,
        }
    );
    assert_eq!(engine.phase(), Phase::Reading);
}

#[test]
fn engine_asks_for_the_task_in_every_second_poll() {
    let mut engine = reading_engine(false);
    let mut commands = Vec::new();
    for _ in 0..4 {
        let read = engine.step(&found(b"x"));
        commands.push(read.command);
        if read.command == Command::QueryTask {
            assert_eq!(engine.phase(), Phase::Asking);
            assert_eq!(engine.step(&task(TaskStatus::Running)), quiet(Command::Sleep(250)));
        }
        assert_eq!(engine.phase(), Phase::Pausing);
        assert_eq!(engine.step(&Event::Woke), quiet(Command::Read));
    }
    assert_eq!(
        commands,
        vec![Command::QueryTask, Command::Sleep(250), Command::QueryTask, Command::Sleep(250)]
    );
    assert_eq!(engine.elapsed_ticks(), 4);
}

#[test]
fn engine_shows_what_was_read_before_it_asks() {
    let mut engine = reading_engine(false);
    let read = engine.step(&found(b"last words\n"));
    assert_eq!(read.outputs, vec![Output::Bytes(b"last words\n".to_vec())]);
    assert_eq!(read.command, Command::QueryTask);
    let asked = engine.step(&task(TaskStatus::Done(TaskResult::Success)));
    assert_eq!(asked, quiet(Command::Stop(TailOutcome::TaskFinished)));
    assert_eq!(engine.phase(), Phase::Ended(TailOutcome::TaskFinished));
}

#[test]
fn engine_ends_when_the_followed_task_was_removed() {
    let mut engine = reading_engine(false);
    engine.step(&found(b""));
    let asked = engine.step(&Event::Task(None));
    assert_eq!(
        asked,
        EngineStep {
            outputs: vec![Output::Note("Pueue: The followed task has been removed.".to_string())],
            command: Command::Stop(TailOutcome::TaskMissing),
        }
    );
}

#[test]
fn engine_ends_when_the_file_is_gone_or_unreadable() {
    let mut engine = reading_engine(true);
    let step = engine.step(&Event::Found(Found::Gone));
    assert_eq!(step.command, Command::Stop(TailOutcome::FileMissing));
    assert_eq!(
        step.outputs,
        vec![Output::Note("Pueue: Log file has gone away. Has the task been removed?".to_string())]
    );
    let mut engine = reading_engine(true);
    let step = engine.step(&Event::Found(Found::Failed("bad sector".to_string())));
    assert_eq!(step.command, Command::Stop(TailOutcome::IoError));
    assert_eq!(
        step.outputs,
        vec![Output::Note("Pueue: Error while reading file: bad sector".to_string())]
    );
}

#[test]
fn engine_carries_an_open_line_between_polls() {
    let mut engine = reading_engine(true);
    let read = engine.step(&found(b"one\ntw"));
    assert_eq!(read.outputs.len(), 1);
    assert_eq!(engine.incomplete_line(), b"tw");
    engine.step(&task(TaskStatus::Running));
    engine.step(&Event::Woke);
    let read = engine.step(&found(b"o\n"));
    match &read.outputs[..] {
        [Output::Line(line)] => assert_eq!(line.text, "two"),
        other => panic!("not one line: {other:?}"),
    }
    assert_eq!(engine.incomplete_line(), b"");
}

#[test]
fn engine_ends_when_writing_fails() {
    let mut engine = reading_engine(false);
    engine.step(&found(b"x"));
    let step = engine.step(&Event::WriteFailed("broken pipe".to_string()));
    assert_eq!(
        step,
        EngineStep {
            outputs: vec![Output::Note(
                "Pueue: Error while flushing stdout: broken pipe".to_string()
            )],
            command: Command::Stop(TailOutcome::IoError),
        }
    );
    assert_eq!(engine.phase(), Phase::Ended(TailOutcome::IoError));
}

#[test]
fn engine_repeats_its_command_on_an_event_it_does_not_wait_for() {
    let mut engine = reading_engine(false);
    assert_eq!(engine.step(&Event::Woke), quiet(Command::Read));
    assert_eq!(engine.step(&task(TaskStatus::Queued)), quiet(Command::Read));
    assert_eq!(engine.step(&Event::Opened(Opened::Ready)), quiet(Command::Read));
    assert_eq!(engine.phase(), Phase::Reading);
    assert_eq!(engine.elapsed_ticks(), 0);
    engine.step(&found(b""));
    assert_eq!(engine.step(&found(b"again")), quiet(Command::QueryTask));
    assert_eq!(engine.step(&Event::Woke), quiet(Command::QueryTask));
    engine.step(&task(TaskStatus::Running));
    assert_eq!(engine.step(&found(b"not now")), quiet(Command::Sleep(250)));
    assert_eq!(engine.elapsed_ticks(), 1);
}

#[test]
fn engine_that_has_ended_stays_ended() {
    let mut engine = reading_engine(false);
    engine.step(&Event::Found(Found::Gone));
    for event in [Event::Start, Event::Woke, found(b"more"), Event::WriteFailed("x".to_string())] {
        assert_eq!(engine.step(&event), quiet(Command::Stop(TailOutcome::FileMissing)));
    }
    assert_eq!(engine.phase(), Phase::Ended(TailOutcome::FileMissing));
}

#[test]
fn engine_shows_the_open_line_when_the_follow_ends() {
    let mut engine = reading_engine(true);
    let read = engine.step(&found(b"abc"));
    assert!(read.outputs.is_empty());
    assert_eq!(engine.incomplete_line(), b"abc");
    let asked = engine.step(&task(TaskStatus::Done(TaskResult::Success)));
    assert_eq!(asked.command, Command::Stop(TailOutcome::TaskFinished));
    match &asked.outputs[..] {
        [Output::Line(line)] => assert_eq!(line.text, "abc"),
        other => panic!("not one line: {other:?}"),
    }
    assert_eq!(engine.incomplete_line(), b"");
}

#[test]
fn engine_shows_the_open_line_before_the_message_about_the_end() {
    let mut engine = reading_engine(true);
    engine.step(&found(b"done\nhalf"));
    engine.step(&task(TaskStatus::Running));
    engine.step(&Event::Woke);
    let step = engine.step(&Event::Found(Found::Gone));
    assert_eq!(step.outputs.len(), 2);
    match &step.outputs[0] {
        Output::Line(line) => assert_eq!(line.text, "half"),
        other => panic!("not a line: {other:?}"),
    }
    assert_eq!(
        step.outputs[1],
        Output::Note("Pueue: Log file has gone away. Has the task been removed?".to_string())
    );
    assert_eq!(engine.incomplete_line(), b"");
}

#[test]
fn engine_without_stamps_has_nothing_left_to_show_at_the_end() {
    let mut engine = reading_engine(false);
    let read = engine.step(&found(b"abc"));
    assert_eq!(read.outputs, vec![Output::Bytes(b"abc".to_vec())]);
    let asked = engine.step(&task(TaskStatus::Done(TaskResult::Success)));
    assert_eq!(asked, quiet(Command::Stop(TailOutcome::TaskFinished)));
}

#[test]
fn engine_puts_a_character_together_that_two_polls_brought() {
    let bytes = "gr\u{fc}n\n".as_bytes();
    let mut engine = reading_engine(true);
    let read = engine.step(&found(&bytes[..3]));
    assert!(read.outputs.is_empty());
    engine.step(&task(TaskStatus::Running));
    engine.step(&Event::Woke);
    let read = engine.step(&found(&bytes[3..]));
    match &read.outputs[..] {
        [Output::Line(line)] => assert_eq!(line.text, "gr\u{fc}n"),
        other => panic!("not one line: {other:?}"),
    }
}
