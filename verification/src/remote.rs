//! The log of a finished task, as the daemon sent it.

use crate::codec::{decode_bytes, snap_bytes, Decoded};
use crate::local::{heading, heading_text};
use crate::output::{
    lemma_shown_add, lemma_stamps_add, lemma_timeless_add, shown, stamps_hold, timeless, Output,
    Shown,
};
use crate::reading::{lines_read, lines_shown, readable, show_lines};
use crate::task::TaskRef;
use vstd::prelude::*;
use vstd::string::StringExecFns;

verus! {

/// A task and its log as the daemon sends them.
#[derive(Clone, Debug, PartialEq, Eq)]
pub struct TaskLogEntry {
    pub task: TaskRef,
    /// The compressed output; nothing if the daemon was not asked for it.
    pub output: Option<Vec<u8>>,
    /// Whether the output is the whole log, and not only its last lines.
    pub output_complete: bool,
}

/// What stands in place of what could not be decoded: a line that names the failure.
pub open spec fn placeholder_text(error: Seq<char>) -> Seq<char> {
    "(Pueue error) Failed to decompress remote log output: "@ + error + "\n"@
}

/// Words the line that stands in place of what could not be decoded. It is never empty.
pub fn placeholder(error: &str) -> (output: Output)
    ensures
        output@ == Shown::Text(placeholder_text(error@)),
        placeholder_text(error@).len() > 0,
{
    let mut text = String::from_str("(Pueue error) Failed to decompress remote log output: ");
    text.append(error);
    text.append("\n");
    proof {
        reveal_strlit("\n");
    }
    Output::Text(text)
}

/// What is shown of a decoded payload, stamps blanked: what was decoded, as it is or line
/// by line, and behind it, if the payload could not be decoded to its end, the line that
/// says so in place of the rest.
pub open spec fn decoded_shown(
    data: Seq<u8>,
    error: Option<Seq<char>>,
    timestamps: bool,
) -> Seq<Shown> {
    let read = lines_read(data, error is Some);
    let body = if timestamps {
        lines_shown(read, "Failed reading line from decompressed log: "@)
    } else {
        seq![Shown::Bytes(data)]
    };
    match error {
        Some(error) if !timestamps || readable(read) => body.push(
            Shown::Text(placeholder_text(error)),
        ),
        _ => body,
    }
}

/// Shows a payload that was decoded, or decoded in part.
pub fn show_decoded(decoded: &Decoded, timestamps: bool) -> (outputs: Vec<Output>)
    ensures
        timeless(shown(outputs@)) == decoded_shown(
            decoded.data@,
            match decoded.error {
                Some(error) => Some(error@),
                None => None,
            },
            timestamps,
        ),
        stamps_hold(shown(outputs@)),
{
    let mut outputs: Vec<Output> = Vec::new();
    let mut complete = true;
    if timestamps {
        let (lines, readable) = show_lines(
            decoded.data.as_slice(),
            decoded.error.is_some(),
            "Failed reading line from decompressed log: ",
        );
        outputs = lines;
        complete = readable;
    } else {
        let bytes = Output::Bytes(decoded.data.clone());
        outputs.push(bytes);
        proof {
            assert(shown(outputs@) == seq![bytes@]);
        }
    }
    if let Some(error) = &decoded.error {
        if complete {
            let line = placeholder(error.as_str());
            proof {
                assert(shown(outputs@.push(line)) == shown(outputs@).push(line@));
            }
            outputs.push(line);
        }
    }
    outputs
}

/// Decodes a payload and shows it. A payload that cannot be decoded is shown as far as it
/// could be, with a line in place of the rest that names the failure; it never fails the
/// caller.
pub fn decompress_and_print_remote_log(bytes: &[u8], timestamps: bool) -> (outputs: Vec<Output>)
    ensures
        timeless(shown(outputs@)) == decoded_shown(
            snap_bytes(bytes@).0,
            snap_bytes(bytes@).1,
            timestamps,
        ),
        stamps_hold(shown(outputs@)),
        bytes@.len() == 0 ==> timeless(shown(outputs@)) == if timestamps {
            Seq::<Shown>::empty()
        } else {
            seq![Shown::Bytes(Seq::empty())]
        },
{
    let decoded = decode_bytes(bytes);
    proof {
        if bytes@.len() == 0 {
            assert(decoded.data@ == Seq::<u8>::empty());
            lemma_nothing_to_read();
        }
    }
    show_decoded(&decoded, timestamps)
}

/// Of no bytes no line is shown.
proof fn lemma_nothing_to_read()
    ensures
        lines_shown(
            lines_read(Seq::empty(), false),
            "Failed reading line from decompressed log: "@,
        ) == Seq::<Shown>::empty(),
{
    let lines = lines_read(Seq::<u8>::empty(), false);
    assert(lines == Seq::<Seq<u8>>::empty());
    assert(lines.take(0) == lines);
    assert(crate::reading::decoded(lines) == Seq::<Seq<char>>::empty());
    assert(crate::output::blank_lines(Seq::<Seq<char>>::empty()) == Seq::<Shown>::empty());
}

/// What is shown of a log that the daemon sent, stamps blanked.
pub open spec fn remote_shown(
    entry: TaskLogEntry,
    header: Seq<char>,
    lines: Option<usize>,
    timestamps: bool,
) -> Seq<Shown> {
    match entry.output {
        Some(bytes) if bytes@.len() > 0 => seq![
            Shown::Text(heading_text(header, entry.output_complete, lines) + "\n"@),
        ] + decoded_shown(snap_bytes(bytes@).0, snap_bytes(bytes@).1, timestamps),
        _ => Seq::empty(),
    }
}

/// Shows the log that the daemon sent with a task. Nothing is shown if it sent none or an
/// empty one. Else the heading comes first, with the hint if the daemon left something
/// out, then the decoded output.
pub fn print_remote_log(
    task_log: &TaskLogEntry,
    header: &str,
    lines: Option<usize>,
    timestamps: bool,
) -> (outputs: Vec<Output>)
    ensures
        timeless(shown(outputs@)) == remote_shown(*task_log, header@, lines, timestamps),
        stamps_hold(shown(outputs@)),
{
    let mut outputs: Vec<Output> = Vec::new();
    if let Some(bytes) = &task_log.output {
        if bytes.len() > 0 {
            let mut text = heading(header, task_log.output_complete, lines);
            text.append("\n");
            let top = Output::Text(text);
            outputs.push(top);
            let mut body = decompress_and_print_remote_log(bytes.as_slice(), timestamps);
            proof {
                lemma_shown_add(outputs@, body@);
                lemma_timeless_add(shown(outputs@), shown(body@));
                lemma_stamps_add(shown(outputs@), shown(body@));
            }
            outputs.append(&mut body);
        }
    }
    outputs
}

} // verus!
