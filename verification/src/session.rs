//! Whole follow sessions, poll by poll.
//!
//! A session is what the steps of a follow add up to when they meet a given run of events:
//! what the file holds at each poll and what the daemon says of the task. It is the model
//! against which the laws of following are stated, and it runs as well, so that a session
//! can be played through without a file, a daemon or a clock.

use crate::lines::{
    all_lines, complete_lines, join_terminated, lemma_no_crlf, lemma_rejoin, lemma_two_parts,
    no_crlf, open_tail, raw_lines, CR, LF,
};
use crate::output::{
    bytes_of, lemma_blank_lines, lemma_parts_add, lemma_shown_add, lemma_stamps_add,
    lemma_timeless_add, lines_of, shown, stamps_hold, timeless, Output, Shown,
};
use crate::engine::{Command, Engine, EngineStep, EngineView, Event, Opened, Phase};
use crate::tail::{
    last_shown, read_carry, read_outcome, read_shown, status_outcome, status_shown, wait_of,
    Found, TailOutcome,
};
use crate::task::TaskStatus;
use crate::text::{lemma_text_keeps_bytes, text_of, texts_of};
use vstd::prelude::*;
use vstd::slice::slice_to_vec;
use vstd::utf8::{encode_utf8, valid_utf8};

verus! {

/// What one poll meets: what the file holds that is new, and what the daemon says of the
/// task if it is asked in this poll.
#[derive(Clone, Debug, PartialEq, Eq)]
pub struct Tick {
    pub found: Found,
    /// The task's status, or nothing if the daemon does not know the task.
    pub task: Option<TaskStatus>,
}

/// A follow session up to some point, as plain values.
pub struct Trace {
    /// Everything shown so far, stamps blanked.
    pub shown: Seq<Shown>,
    /// The bytes that are carried to the next poll.
    pub carry: Seq<u8>,
    /// Why the session ended, if it has.
    pub outcome: Option<TailOutcome>,
    /// The number of polls made.
    pub ticks: nat,
}

/// The session after one more poll. What was read is shown first. Then, in every second
/// poll, the task is looked at. Where the poll ends the session, what is carried is shown
/// as one more line, before any message about the end, and nothing is carried any more.
pub open spec fn after_tick(before: Trace, tick: Tick, timestamps: bool) -> Trace {
    let read = read_shown(before.carry, tick.found, timestamps);
    let carry = read_carry(before.carry, tick.found, timestamps);
    let ticks = before.ticks + 1;
    if read_outcome(tick.found) is Some {
        Trace {
            shown: before.shown + last_shown(before.carry) + read,
            carry: Seq::empty(),
            outcome: read_outcome(tick.found),
            ticks,
        }
    } else if before.ticks % 2 == 0 && status_outcome(tick.task) is Some {
        Trace {
            shown: before.shown + read + last_shown(carry) + status_shown(tick.task),
            carry: Seq::empty(),
            outcome: status_outcome(tick.task),
            ticks,
        }
    } else {
        Trace { shown: before.shown + read, carry, outcome: None, ticks }
    }
}

/// The session that meets `ticks`, one per poll, until it ends or they are used up.
pub open spec fn run(ticks: Seq<Tick>, timestamps: bool) -> Trace
    decreases ticks.len(),
{
    if ticks.len() == 0 {
        Trace { shown: Seq::empty(), carry: Seq::<u8>::empty(), outcome: None, ticks: 0 }
    } else {
        let before = run(ticks.drop_last(), timestamps);
        if before.outcome is Some {
            before
        } else {
            after_tick(before, ticks.last(), timestamps)
        }
    }
}

/// What a follow session showed and how it ended.
#[derive(Clone, Debug, PartialEq, Eq)]
pub struct TailReport {
    pub outputs: Vec<Output>,
    /// Why the session ended; nothing if it was still going when what it was to meet was
    /// used up.
    pub outcome: Option<TailOutcome>,
    /// The number of looks at the task before the log was opened.
    pub looks: usize,
    /// The number of polls made.
    pub ticks: usize,
    /// The bytes that were still carried when the polls were used up; none once the
    /// session has ended.
    pub carry: Vec<u8>,
}

/// A session that has ended makes no further poll.
pub proof fn lemma_run_ends(ticks: Seq<Tick>, timestamps: bool, k: int)
    requires
        0 <= k <= ticks.len(),
        run(ticks.take(k), timestamps).outcome is Some,
    ensures
        run(ticks, timestamps) == run(ticks.take(k), timestamps),
    decreases ticks.len(),
{
    if k == ticks.len() {
        assert(ticks.take(k) == ticks);
    } else {
        assert(ticks.drop_last().take(k) == ticks.take(k));
        lemma_run_ends(ticks.drop_last(), timestamps, k);
    }
}

/// A session that is still going has made one poll per tick.
pub proof fn lemma_run_counts(ticks: Seq<Tick>, timestamps: bool)
    ensures
        run(ticks, timestamps).ticks <= ticks.len(),
        run(ticks, timestamps).outcome is None ==> run(ticks, timestamps).ticks == ticks.len(),
    decreases ticks.len(),
{
    if ticks.len() > 0 {
        lemma_run_counts(ticks.drop_last(), timestamps);
    }
}

/// The daemon reports the task as gone or as no longer running.
pub open spec fn reported_over(task: Option<TaskStatus>) -> bool {
    status_outcome(task) is Some
}

/// Once the daemon reports the task as gone or no longer running, and goes on doing so,
/// the session ends within two polls: with the poll of the first such report or with the
/// next one.
pub proof fn lemma_ends_within_two_ticks(ticks: Seq<Tick>, timestamps: bool, t: int)
    requires
        0 <= t,
        t + 2 <= ticks.len(),
        reported_over(ticks[t].task),
        reported_over(ticks[t + 1].task),
    ensures
        run(ticks.take(t + 2), timestamps).outcome is Some,
        run(ticks, timestamps).outcome is Some,
        run(ticks, timestamps).ticks <= t + 2,
{
    let two = ticks.take(t + 2);
    let one = ticks.take(t + 1);
    let none = ticks.take(t);
    assert(two.drop_last() == one);
    assert(one.drop_last() == none);
    assert(two.last() == ticks[t + 1]);
    assert(one.last() == ticks[t]);
    lemma_run_counts(none, timestamps);
    lemma_run_counts(one, timestamps);
    lemma_run_counts(two, timestamps);
    lemma_run_ends(ticks, timestamps, t + 2);
}

/// The bytes that the polls found, one poll after the other.
pub open spec fn bytes_read(ticks: Seq<Tick>) -> Seq<u8>
    decreases ticks.len(),
{
    if ticks.len() == 0 {
        Seq::empty()
    } else {
        bytes_read(ticks.drop_last()) + match ticks.last().found {
            Found::Data(data) => data@,
            _ => Seq::empty(),
        }
    }
}

/// The lines of a log that a follow with stamps has shown: the terminated lines while it
/// is going, and with them the open line at the end once it has ended.
pub open spec fn lines_seen(bytes: Seq<u8>, ended: bool) -> Seq<Seq<u8>> {
    if ended {
        all_lines(bytes, LF, CR)
    } else {
        complete_lines(bytes, LF, CR)
    }
}

/// Without stamps nothing is lost and nothing is added: what a session writes to standard
/// output is, byte for byte, what its polls read, the last poll included.
pub proof fn lemma_bytes_pass_through(ticks: Seq<Tick>)
    ensures
        bytes_of(run(ticks, false).shown) == bytes_read(
            ticks.take(run(ticks, false).ticks as int),
        ),
    decreases ticks.len(),
{
    if ticks.len() == 0 {
        assert(ticks.take(0) == ticks);
    } else {
        let front = ticks.drop_last();
        let before = run(front, false);
        lemma_bytes_pass_through(front);
        lemma_run_counts(front, false);
        if before.outcome is Some {
            assert(ticks.take(before.ticks as int) == front.take(before.ticks as int));
        } else {
            let tick = ticks.last();
            assert(front.take(front.len() as int) == front);
            assert(ticks.take(ticks.len() as int) == ticks);
            let read = read_shown(before.carry, tick.found, false);
            let carry = read_carry(before.carry, tick.found, false);
            lemma_parts_add(before.shown, last_shown(before.carry));
            lemma_parts_add(before.shown + last_shown(before.carry), read);
            lemma_parts_add(before.shown, read);
            lemma_parts_add(before.shown + read, last_shown(carry));
            lemma_parts_add(before.shown + read + last_shown(carry), status_shown(tick.task));
            assert(bytes_of(status_shown(tick.task)) == Seq::<u8>::empty()) by {
                reveal_with_fuel(bytes_of, 2);
            }
            assert(bytes_of(last_shown(before.carry)) == Seq::<u8>::empty()) by {
                reveal_with_fuel(bytes_of, 2);
            }
            assert(bytes_of(last_shown(carry)) == Seq::<u8>::empty()) by {
                reveal_with_fuel(bytes_of, 2);
            }
            assert(bytes_of(read) == match tick.found {
                Found::Data(data) => data@,
                _ => Seq::<u8>::empty(),
            }) by {
                reveal_with_fuel(bytes_of, 2);
            }
        }
    }
}

/// The text of the lines of two lists, one after the other.
proof fn lemma_texts_add(a: Seq<Seq<u8>>, b: Seq<Seq<u8>>)
    ensures
        texts_of(a + b) == texts_of(a) + texts_of(b),
{
    assert(texts_of(a + b) =~= texts_of(a) + texts_of(b));
}

/// The lines that the open line adds at the end.
proof fn lemma_last_line(bytes: Seq<u8>)
    ensures
        lines_of(last_shown(open_tail(bytes, LF))) + Seq::<Seq<char>>::empty() == lines_of(
            last_shown(open_tail(bytes, LF)),
        ),
        texts_of(complete_lines(bytes, LF, CR)) + lines_of(last_shown(open_tail(bytes, LF)))
            == texts_of(all_lines(bytes, LF, CR)),
{
    let tail = open_tail(bytes, LF);
    let lines = complete_lines(bytes, LF, CR);
    reveal_with_fuel(lines_of, 2);
    if tail.len() > 0 {
        assert(lines_of(last_shown(tail)) == seq![text_of(tail)]);
        assert(texts_of(lines.push(tail)) =~= texts_of(lines).push(text_of(tail)));
        assert(texts_of(lines) + seq![text_of(tail)] =~= texts_of(lines).push(text_of(tail)));
    } else {
        assert(lines_of(last_shown(tail)) == Seq::<Seq<char>>::empty());
        assert(texts_of(lines) + Seq::<Seq<char>>::empty() =~= texts_of(lines));
    }
}

/// With stamps the lines do not depend on how the polls cut the log, not even where a
/// poll ends in the middle of a character: the lines that a session shows are the lines
/// of the bytes that its polls read, each read as text. While the session is going these
/// are the terminated lines, and the bytes behind the last line feed are carried; once it
/// has ended the open line is among them and nothing is carried.
pub proof fn lemma_lines_pass_through(ticks: Seq<Tick>)
    ensures
        lines_of(run(ticks, true).shown) == texts_of(
            lines_seen(
                bytes_read(ticks.take(run(ticks, true).ticks as int)),
                run(ticks, true).outcome is Some,
            ),
        ),
        run(ticks, true).carry == if run(ticks, true).outcome is Some {
            Seq::<u8>::empty()
        } else {
            open_tail(bytes_read(ticks.take(run(ticks, true).ticks as int)), LF)
        },
    decreases ticks.len(),
{
    if ticks.len() == 0 {
        assert(ticks.take(0) == ticks);
        assert(texts_of(complete_lines(Seq::<u8>::empty(), LF, CR)) =~= Seq::<Seq<char>>::empty());
    } else {
        let front = ticks.drop_last();
        let before = run(front, true);
        lemma_lines_pass_through(front);
        lemma_run_counts(front, true);
        if before.outcome is Some {
            assert(ticks.take(before.ticks as int) == front.take(before.ticks as int));
        } else {
            let tick = ticks.last();
            assert(front.take(front.len() as int) == front);
            assert(ticks.take(ticks.len() as int) == ticks);
            let old_bytes = bytes_read(front);
            let read = read_shown(before.carry, tick.found, true);
            let carry = read_carry(before.carry, tick.found, true);
            let new_bytes = bytes_read(ticks);
            lemma_parts_add(before.shown, last_shown(before.carry));
            lemma_parts_add(before.shown + last_shown(before.carry), read);
            lemma_parts_add(before.shown, read);
            lemma_parts_add(before.shown + read, last_shown(carry));
            lemma_parts_add(before.shown + read + last_shown(carry), status_shown(tick.task));
            assert(lines_of(status_shown(tick.task)) == Seq::<Seq<char>>::empty()) by {
                reveal_with_fuel(lines_of, 2);
            }
            match tick.found {
                Found::Data(data) => {
                    if data@.len() > 0 {
                        lemma_two_parts(old_bytes, data@, LF, CR);
                        lemma_texts_add(
                            complete_lines(old_bytes, LF, CR),
                            complete_lines(before.carry + data@, LF, CR),
                        );
                        lemma_blank_lines(
                            texts_of(complete_lines(before.carry + data@, LF, CR)),
                        );
                    } else {
                        assert(old_bytes + Seq::<u8>::empty() == old_bytes);
                        assert(lines_of(read) == Seq::<Seq<char>>::empty());
                        assert(lines_of(before.shown) + Seq::<Seq<char>>::empty() == lines_of(
                            before.shown,
                        ));
                    }
                    assert(carry == open_tail(new_bytes, LF));
                    assert(lines_of(before.shown + read) == texts_of(
                        complete_lines(new_bytes, LF, CR),
                    ));
                    lemma_last_line(new_bytes);
                },
                _ => {
                    assert(old_bytes + Seq::<u8>::empty() == old_bytes);
                    assert(lines_of(read) == Seq::<Seq<char>>::empty()) by {
                        reveal_with_fuel(lines_of, 2);
                    }
                    lemma_last_line(old_bytes);
                },
            }
        }
    }
}

/// Stamps change neither when a session ends nor why.
pub proof fn lemma_stamps_change_no_end(ticks: Seq<Tick>)
    ensures
        run(ticks, true).ticks == run(ticks, false).ticks,
        run(ticks, true).outcome == run(ticks, false).outcome,
    decreases ticks.len(),
{
    if ticks.len() > 0 {
        lemma_stamps_change_no_end(ticks.drop_last());
    }
}

/// Both ways of showing a log show the same log: the lines that a session shows with
/// stamps are the lines of the bytes that it shows without stamps, each read as text,
/// wherever the polls cut the log.
pub proof fn lemma_both_ways_agree(ticks: Seq<Tick>)
    ensures
        lines_of(run(ticks, true).shown) == texts_of(
            lines_seen(bytes_of(run(ticks, false).shown), run(ticks, false).outcome is Some),
        ),
{
    lemma_stamps_change_no_end(ticks);
    lemma_bytes_pass_through(ticks);
    lemma_lines_pass_through(ticks);
}

/// What is written for lines of text, each followed by a line feed.
pub open spec fn written(lines: Seq<Seq<char>>) -> Seq<u8>
    decreases lines.len(),
{
    if lines.len() == 0 {
        Seq::empty()
    } else {
        written(lines.drop_last()) + encode_utf8(lines.last()).push(LF)
    }
}

/// Every line is valid UTF-8.
pub open spec fn all_text(lines: Seq<Seq<u8>>) -> bool {
    forall|i: int| 0 <= i < lines.len() ==> valid_utf8(#[trigger] lines[i])
}

/// Lines of valid UTF-8 are written as they were read.
pub proof fn lemma_written(lines: Seq<Seq<u8>>)
    requires
        all_text(lines),
    ensures
        written(texts_of(lines)) == join_terminated(lines, LF),
    decreases lines.len(),
{
    if lines.len() > 0 {
        let front = lines.drop_last();
        assert(all_text(front)) by {
            assert(forall|i: int| 0 <= i < front.len() ==> front[i] == lines[i]);
        }
        lemma_written(front);
        lemma_text_keeps_bytes(lines.last());
        assert(texts_of(lines).drop_last() == texts_of(front));
        assert(texts_of(lines).last() == text_of(lines.last()));
    }
}

/// With stamps nothing is lost either. Where a session has ended, the lines it read are
/// valid UTF-8 and no line feed of the log stands behind a carriage return, what the
/// session wrote without its stamps is the log, byte for byte, wherever the polls cut it,
/// with a line feed behind the last line if the log did not end in one.
pub proof fn lemma_session_loses_nothing(ticks: Seq<Tick>)
    requires
        run(ticks, true).outcome is Some,
        all_text(all_lines(bytes_read(ticks.take(run(ticks, true).ticks as int)), LF, CR)),
        no_crlf(bytes_read(ticks.take(run(ticks, true).ticks as int)), LF, CR),
    ensures
        written(lines_of(run(ticks, true).shown)) == if open_tail(
            bytes_read(ticks.take(run(ticks, true).ticks as int)),
            LF,
        ).len() > 0 {
            bytes_read(ticks.take(run(ticks, true).ticks as int)).push(LF)
        } else {
            bytes_read(ticks.take(run(ticks, true).ticks as int))
        },
{
    let bytes = bytes_read(ticks.take(run(ticks, true).ticks as int));
    let lines = all_lines(bytes, LF, CR);
    let tail = open_tail(bytes, LF);
    lemma_lines_pass_through(ticks);
    lemma_written(lines);
    lemma_no_crlf(bytes, LF, CR);
    lemma_rejoin(bytes, LF);
    if tail.len() > 0 {
        let raw = raw_lines(bytes, LF);
        assert(raw.push(tail).drop_last() == raw);
        assert(join_terminated(raw, LF) + tail.push(LF) == (join_terminated(raw, LF) + tail).push(
            LF,
        ));
    } else {
        assert(join_terminated(raw_lines(bytes, LF), LF) + tail == join_terminated(
            raw_lines(bytes, LF),
            LF,
        ));
    }
}

/// A session with nothing shown yet that stands where `engine` stands.
pub open spec fn standing(engine: EngineView) -> Trace {
    Trace { shown: Seq::empty(), carry: engine.carry, outcome: None, ticks: engine.ticks }
}

/// What a poll adds to a session does not depend on what was shown before.
proof fn lemma_after_tick(before: Trace, tick: Tick, timestamps: bool)
    ensures
        after_tick(before, tick, timestamps) == (Trace {
            shown: before.shown + after_tick(
                Trace { shown: Seq::empty(), ..before },
                tick,
                timestamps,
            ).shown,
            ..after_tick(Trace { shown: Seq::empty(), ..before }, tick, timestamps)
        }),
{
    let read = read_shown(before.carry, tick.found, timestamps);
    let carry = read_carry(before.carry, tick.found, timestamps);
    let none = Seq::<Shown>::empty();
    assert(before.shown + (none + last_shown(before.carry) + read) == before.shown + last_shown(
        before.carry,
    ) + read);
    assert(before.shown + (none + read + last_shown(carry) + status_shown(tick.task))
        == before.shown + read + last_shown(carry) + status_shown(tick.task));
    assert(before.shown + (none + read) == before.shown + read);
}

/// Carries one poll out: hands the engine what the file holds and, if it asks, what the
/// daemon says of the task.
fn poll_once(engine: &mut Engine, tick: Tick) -> (step: EngineStep)
    requires
        old(engine)@.phase == Phase::Reading,
        old(engine)@.ticks < u64::MAX,
    ensures
        timeless(shown(step.outputs@)) == after_tick(
            standing(old(engine)@),
            tick,
            old(engine)@.timestamps,
        ).shown,
        final(engine)@.carry == after_tick(
            standing(old(engine)@),
            tick,
            old(engine)@.timestamps,
        ).carry,
        stamps_hold(shown(step.outputs@)),
        final(engine)@.lines == old(engine)@.lines,
        final(engine)@.timestamps == old(engine)@.timestamps,
        match after_tick(standing(old(engine)@), tick, old(engine)@.timestamps).outcome {
            Some(outcome) => step.command == Command::Stop(outcome) && final(engine)@.phase
                == Phase::Ended(outcome),
            None => step.command is Sleep && final(engine)@.phase == Phase::Pausing
                && final(engine)@.ticks == old(engine)@.ticks + 1,
        },
{
    let ghost start = engine@;
    let ghost read_shown = read_shown(start.carry, tick.found, start.timestamps);
    let ghost carry = read_carry(start.carry, tick.found, start.timestamps);
    let Tick { found, task } = tick;
    let mut read = engine.step(&Event::Found(found));
    proof {
        assert(Seq::<Shown>::empty() + last_shown(start.carry) + read_shown == last_shown(
            start.carry,
        ) + read_shown);
        assert(Seq::<Shown>::empty() + read_shown == read_shown);
    }
    if let Command::QueryTask = read.command {
        let ghost asking = engine@;
        let mut looked = engine.step(&Event::Task(task));
        proof {
            lemma_shown_add(read.outputs@, looked.outputs@);
            lemma_timeless_add(shown(read.outputs@), shown(looked.outputs@));
            lemma_stamps_add(shown(read.outputs@), shown(looked.outputs@));
            assert(asking.carry == carry);
            if status_outcome(task) is Some {
                assert(Seq::<Shown>::empty() + read_shown + last_shown(carry) + status_shown(task)
                    == read_shown + (last_shown(carry) + status_shown(task)));
            } else {
                assert(status_shown(task) == Seq::<Shown>::empty());
                assert(read_shown + Seq::<Shown>::empty() == read_shown);
            }
        }
        read.outputs.append(&mut looked.outputs);
        EngineStep { outputs: read.outputs, command: looked.command }
    } else {
        read
    }
}

/// What the next poll makes of a session that is still going.
proof fn lemma_poll(all: Seq<Tick>, i: int, timestamps: bool)
    requires
        0 <= i < all.len(),
        run(all.take(i), timestamps).outcome is None,
    ensures
        run(all.take(i + 1), timestamps).shown == run(all.take(i), timestamps).shown
            + after_tick(
            Trace { shown: Seq::empty(), ..run(all.take(i), timestamps) },
            all[i],
            timestamps,
        ).shown,
        run(all.take(i + 1), timestamps).carry == after_tick(
            Trace { shown: Seq::empty(), ..run(all.take(i), timestamps) },
            all[i],
            timestamps,
        ).carry,
        run(all.take(i + 1), timestamps).outcome == after_tick(
            Trace { shown: Seq::empty(), ..run(all.take(i), timestamps) },
            all[i],
            timestamps,
        ).outcome,
        run(all.take(i + 1), timestamps).ticks == run(all.take(i), timestamps).ticks + 1,
{
    assert(all.take(i + 1).drop_last() == all.take(i));
    assert(all.take(i + 1).last() == all[i]);
    lemma_after_tick(run(all.take(i), timestamps), all[i], timestamps);
}

/// Plays the polls of a follow through: `start` stands at the first read, and `first`
/// holds what was shown before.
fn drive(start: Engine, ticks: Vec<Tick>, first: Vec<Output>, looks: usize) -> (report:
    TailReport)
    requires
        start@.phase == Phase::Reading,
        start@.carry == Seq::<u8>::empty(),
        start@.ticks == 0,
        stamps_hold(shown(first@)),
    ensures
        stamps_hold(shown(report.outputs@)),
        timeless(shown(report.outputs@)) == timeless(shown(first@)) + run(
            ticks@,
            start@.timestamps,
        ).shown,
        report.outcome == run(ticks@, start@.timestamps).outcome,
        report.ticks == run(ticks@, start@.timestamps).ticks,
        report.carry@ == run(ticks@, start@.timestamps).carry,
        report.looks == looks,
{
    let ghost all = ticks@;
    let ghost before = timeless(shown(first@));
    let ghost stamped = start@.timestamps;
    let ghost limit = start@.lines;
    proof {
        assert(ticks.len() <= usize::MAX);
        assert(before + Seq::<Shown>::empty() == before);
    }
    let mut engine = start;
    let mut outputs = first;
    let mut polls: usize = 0;
    for tick in it: ticks
        invariant
            it.seq() == all,
            all == ticks@,
            all.len() <= usize::MAX,
            stamped == start@.timestamps,
            before == timeless(shown(first@)),
            polls == it.index(),
            engine@.phase == Phase::Reading,
            engine@.carry == run(all.take(polls as int), stamped).carry,
            engine@.ticks == polls,
            engine@.timestamps == stamped,
            run(all.take(polls as int), stamped).outcome is None,
            run(all.take(polls as int), stamped).ticks == polls,
            timeless(shown(outputs@)) == before + run(all.take(polls as int), stamped).shown,
            stamps_hold(shown(outputs@)),
    {
        let ghost i = polls as int;
        let ghost prior = run(all.take(i), stamped);
        let ghost next = run(all.take(i + 1), stamped);
        proof {
            assert(tick == all[i]);
            lemma_poll(all, i, stamped);
            assert(standing(engine@) == (Trace { shown: Seq::empty(), ..prior }));
        }
        let ghost shown_before = shown(outputs@);
        let mut step = poll_once(&mut engine, tick);
        proof {
            lemma_shown_add(outputs@, step.outputs@);
            lemma_timeless_add(shown_before, shown(step.outputs@));
            lemma_stamps_add(shown_before, shown(step.outputs@));
            assert(before + prior.shown + timeless(shown(step.outputs@)) == before + next.shown);
        }
        outputs.append(&mut step.outputs);
        polls += 1;
        if let Command::Stop(outcome) = step.command {
            proof {
                lemma_run_ends(all, stamped, i + 1);
            }
            return TailReport {
                outputs,
                outcome: Some(outcome),
                looks,
                ticks: polls,
                carry: slice_to_vec(engine.incomplete_line()),
            };
        }
        engine.step(&Event::Woke);
    }
    proof {
        assert(all.take(all.len() as int) == all);
    }
    TailReport {
        outputs,
        outcome: None,
        looks,
        ticks: polls,
        carry: slice_to_vec(engine.incomplete_line()),
    }
}

/// Polls an opened log through what `ticks` describe, as a follow with a file and a daemon
/// that behave so would go: each poll shows what it read and, every second time, looks at
/// the task; the follow ends with the first poll that finds the file gone or unreadable,
/// or the task gone or no longer running.
pub fn poll_log(ticks: Vec<Tick>, timestamps: bool) -> (report: TailReport)
    ensures
        timeless(shown(report.outputs@)) == run(ticks@, timestamps).shown,
        report.outcome == run(ticks@, timestamps).outcome,
        report.ticks == run(ticks@, timestamps).ticks,
        report.carry@ == run(ticks@, timestamps).carry,
        report.looks == 0,
        stamps_hold(shown(report.outputs@)),
{
    let mut engine = Engine::new(None, timestamps);
    engine.step(&Event::Start);
    engine.step(&Event::Task(Some(TaskStatus::Running)));
    engine.step(&Event::Opened(Opened::Ready));
    let outputs: Vec<Output> = Vec::new();
    drive(engine, ticks, outputs, 0)
}

/// What a follow session meets from its start to its end.
#[derive(Clone, Debug, PartialEq, Eq)]
pub struct Session {
    /// What each look at the task finds before the log is opened.
    pub looks: Vec<Option<TaskStatus>>,
    /// How opening the log goes.
    pub opened: Opened,
    /// What each poll of the opened log meets.
    pub ticks: Vec<Tick>,
}

/// The index of the first look from `from` on that does not leave the session waiting, or
/// the number of looks if all do.
pub open spec fn first_decisive(looks: Seq<Option<TaskStatus>>, from: int) -> int
    decreases looks.len() - from,
{
    if from >= looks.len() {
        looks.len() as int
    } else if !(wait_of(looks[from]) is Sleep) {
        from
    } else {
        first_decisive(looks, from + 1)
    }
}

/// The number of looks at the task that a session makes before it opens the log or ends.
pub open spec fn looks_made(looks: Seq<Option<TaskStatus>>) -> int {
    if first_decisive(looks, 0) < looks.len() {
        first_decisive(looks, 0) + 1
    } else {
        looks.len() as int
    }
}

/// A whole follow session as plain values. The session waits until the task is running or
/// done, and ends at once if the task is not known. Then it opens the log and ends if it
/// cannot. Then it polls.
pub open spec fn session_run(session: Session, timestamps: bool) -> Trace {
    let decisive = first_decisive(session.looks@, 0);
    let waiting = Trace {
        shown: Seq::empty(),
        carry: Seq::<u8>::empty(),
        outcome: None,
        ticks: 0,
    };
    if decisive >= session.looks@.len() {
        waiting
    } else if session.looks@[decisive] is None {
        Trace {
            shown: seq![Shown::Note("Pueue: The task to be followed doesn't exist."@)],
            outcome: Some(TailOutcome::TaskMissing),
            ..waiting
        }
    } else {
        let polls = run(session.ticks@, timestamps);
        match session.opened {
            Opened::Ready => polls,
            Opened::Unsought(error) => Trace {
                shown: seq![Shown::Note("Error seeking to last lines from log: "@ + error@)]
                    + polls.shown,
                ..polls
            },
            Opened::Failed(error) => Trace {
                shown: seq![Shown::Note("Failed to get log file handles: "@ + error@)],
                outcome: Some(TailOutcome::IoError),
                ..waiting
            },
        }
    }
}

/// Follows the log of a task through a whole session, as a follow with a daemon and a file
/// that behave as `session` says would go. The line limit is handed to whoever opens the
/// log; how that went is part of the session.
#[verifier::loop_isolation(false)]
pub fn follow_local_task_logs(session: Session, lines: Option<usize>, timestamps: bool) -> (report:
    TailReport)
    ensures
        timeless(shown(report.outputs@)) == session_run(session, timestamps).shown,
        report.outcome == session_run(session, timestamps).outcome,
        report.ticks == session_run(session, timestamps).ticks,
        report.carry@ == session_run(session, timestamps).carry,
        report.looks == looks_made(session.looks@),
        stamps_hold(shown(report.outputs@)),
{
    let Session { looks, opened, ticks } = session;
    proof {
        assert(looks.len() <= usize::MAX);
    }
    let ghost all = looks@;
    let mut engine = Engine::new(lines, timestamps);
    engine.step(&Event::Start);
    let mut made: usize = 0;
    for look in it: looks
        invariant
            it.seq() == all,
            made == it.index(),
            first_decisive(all, 0) == first_decisive(all, made as int),
            engine@ == (EngineView {
                phase: Phase::Looking,
                carry: Seq::empty(),
                ticks: 0,
                lines,
                timestamps,
            }),
    {
        made += 1;
        let asked = engine.step(&Event::Task(look));
        match asked.command {
            Command::Sleep(_) => {
                engine.step(&Event::Woke);
            },
            Command::Stop(outcome) => {
                return TailReport {
                    outputs: asked.outputs,
                    outcome: Some(outcome),
                    looks: made,
                    ticks: 0,
                    carry: Vec::new(),
                };
            },
            _ => {
                let open = engine.step(&Event::Opened(opened));
                if let Command::Stop(outcome) = open.command {
                    return TailReport {
                        outputs: open.outputs,
                        outcome: Some(outcome),
                        looks: made,
                        ticks: 0,
                        carry: Vec::new(),
                    };
                }
                return drive(engine, ticks, open.outputs, made);
            },
        }
    }
    let outputs: Vec<Output> = Vec::new();
    TailReport { outputs, outcome: None, looks: made, ticks: 0, carry: Vec::new() }
}

} // verus!
