//! What the library asks its caller to show.
//!
//! Nothing is printed here. Every function that shows something returns a list of outputs,
//! in the order in which they are to be written.

use crate::stamp::{all_stamped, is_stamp, plain_texts, StampedLine};
use crate::task::{TaskInfo, TaskInfoView};
use vstd::prelude::*;

verus! {

/// One piece of output.
#[derive(Clone, Debug, PartialEq, Eq)]
pub enum Output {
    /// Text for standard output, written as it is.
    Text(String),
    /// Bytes for standard output, written as they are.
    Bytes(Vec<u8>),
    /// A stamped line for standard output, written as it is shown, with a line feed
    /// behind it.
    Line(StampedLine),
    /// A message for standard error, written with a line feed behind it.
    Note(String),
    /// The heading of a task's log, for standard error, laid out by the caller.
    Header(TaskInfo),
}

/// An output as a plain value.
pub enum Shown {
    Text(Seq<char>),
    Bytes(Seq<u8>),
    /// The stamp, then the line.
    Line(Seq<char>, Seq<char>),
    Note(Seq<char>),
    Header(TaskInfoView),
}

impl View for Output {
    type V = Shown;

    open spec fn view(&self) -> Shown {
        match self {
            Output::Text(text) => Shown::Text(text@),
            Output::Bytes(bytes) => Shown::Bytes(bytes@),
            Output::Line(line) => Shown::Line(line.stamp@, line.text@),
            Output::Note(text) => Shown::Note(text@),
            Output::Header(info) => Shown::Header(info@),
        }
    }
}

/// The outputs of `v` as plain values, in order.
pub open spec fn shown(v: Seq<Output>) -> Seq<Shown> {
    v.map_values(|output: Output| output@)
}

/// `output` with the stamp of a stamped line blanked: what is shown apart from the time at
/// which it was shown.
pub open spec fn unstamped(output: Shown) -> Shown {
    match output {
        Shown::Line(_, text) => Shown::Line(Seq::empty(), text),
        other => other,
    }
}

/// The outputs with every stamp blanked.
pub open spec fn timeless(outputs: Seq<Shown>) -> Seq<Shown> {
    outputs.map_values(|output: Shown| unstamped(output))
}

/// Every stamped line among the outputs carries a stamp: at least 23 characters, none of
/// them a line feed.
pub open spec fn stamps_hold(outputs: Seq<Shown>) -> bool {
    forall|i: int|
        0 <= i < outputs.len() ==> (#[trigger] outputs[i] matches Shown::Line(stamp, _)
            ==> is_stamp(stamp))
}

/// Stamps hold in two lists of outputs, one after the other, if they hold in each.
pub proof fn lemma_stamps_add(a: Seq<Shown>, b: Seq<Shown>)
    requires
        stamps_hold(a),
        stamps_hold(b),
    ensures
        stamps_hold(a + b),
{
    assert forall|i: int| 0 <= i < (a + b).len() implies (#[trigger] (a + b)[i] matches Shown::Line(
        stamp,
        _,
    ) ==> is_stamp(stamp)) by {
        if i < a.len() {
            assert((a + b)[i] == a[i]);
        } else {
            assert((a + b)[i] == b[i - a.len()]);
        }
    }
}

/// One stamped line, its stamp blank, for each of `texts`.
pub open spec fn blank_lines(texts: Seq<Seq<char>>) -> Seq<Shown> {
    texts.map_values(|text: Seq<char>| Shown::Line(Seq::empty(), text))
}

/// Blanking stamps goes through a concatenation.
pub proof fn lemma_timeless_add(a: Seq<Shown>, b: Seq<Shown>)
    ensures
        timeless(a + b) == timeless(a) + timeless(b),
{
    assert(timeless(a + b) =~= timeless(a) + timeless(b));
}

/// The outputs of two lists, one after the other, as plain values.
pub proof fn lemma_shown_add(a: Seq<Output>, b: Seq<Output>)
    ensures
        shown(a + b) == shown(a) + shown(b),
{
    assert(shown(a + b) =~= shown(a) + shown(b));
}

/// The bytes that the outputs write to standard output as they are, one after the other.
pub open spec fn bytes_of(outputs: Seq<Shown>) -> Seq<u8>
    decreases outputs.len(),
{
    if outputs.len() == 0 {
        Seq::empty()
    } else {
        bytes_of(outputs.drop_last()) + match outputs.last() {
            Shown::Bytes(bytes) => bytes,
            _ => Seq::empty(),
        }
    }
}

/// The stamped lines among the outputs, without their stamps, in order.
pub open spec fn lines_of(outputs: Seq<Shown>) -> Seq<Seq<char>>
    decreases outputs.len(),
{
    if outputs.len() == 0 {
        Seq::empty()
    } else {
        match outputs.last() {
            Shown::Line(_, text) => lines_of(outputs.drop_last()).push(text),
            _ => lines_of(outputs.drop_last()),
        }
    }
}

/// The bytes and the lines of two lists of outputs, one after the other.
pub proof fn lemma_parts_add(a: Seq<Shown>, b: Seq<Shown>)
    ensures
        bytes_of(a + b) == bytes_of(a) + bytes_of(b),
        lines_of(a + b) == lines_of(a) + lines_of(b),
    decreases b.len(),
{
    if b.len() == 0 {
        assert(a + b == a);
    } else {
        lemma_parts_add(a, b.drop_last());
        assert((a + b).drop_last() == a + b.drop_last());
        assert((a + b).last() == b.last());
    }
}

/// Stamped lines are lines and nothing else.
pub proof fn lemma_blank_lines(texts: Seq<Seq<char>>)
    ensures
        lines_of(blank_lines(texts)) == texts,
        bytes_of(blank_lines(texts)) == Seq::<u8>::empty(),
    decreases texts.len(),
{
    if texts.len() > 0 {
        lemma_blank_lines(texts.drop_last());
        assert(blank_lines(texts).drop_last() == blank_lines(texts.drop_last()));
    }
}

/// The stamped lines as outputs, in order.
pub open spec fn line_outputs(lines: Seq<StampedLine>) -> Seq<Shown> {
    lines.map_values(|line: StampedLine| Shown::Line(line.stamp@, line.text@))
}

/// Stamped lines with their stamps blanked are their texts.
pub proof fn lemma_line_outputs(lines: Seq<StampedLine>)
    ensures
        timeless(line_outputs(lines)) == blank_lines(plain_texts(lines)),
{
    assert(timeless(line_outputs(lines)) =~= blank_lines(plain_texts(lines)));
}

/// Puts the stamped lines behind `outputs`, in order.
pub fn push_lines(outputs: &mut Vec<Output>, lines: Vec<StampedLine>)
    ensures
        shown(final(outputs)@) == shown(old(outputs)@) + line_outputs(lines@),
        stamps_hold(shown(old(outputs)@)) && all_stamped(lines@) ==> stamps_hold(
            shown(final(outputs)@),
        ),
        timeless(shown(final(outputs)@)) == timeless(shown(old(outputs)@)) + blank_lines(
            plain_texts(lines@),
        ),
{
    let ghost before = outputs@;
    let mut i: usize = 0;
    while i < lines.len()
        invariant
            i <= lines.len(),
            shown(outputs@) == shown(before) + line_outputs(lines@.take(i as int)),
        decreases lines.len() - i,
    {
        let line = StampedLine { stamp: lines[i].stamp.clone(), text: lines[i].text.clone() };
        proof {
            let item = Output::Line(line);
            assert(shown(outputs@.push(item)) == shown(outputs@).push(item@));
        }
        outputs.push(Output::Line(line));
        i += 1;
    }
    proof {
        lemma_timeless_add(shown(before), line_outputs(lines@));
        lemma_line_outputs(lines@);
    }
}

} // verus!
