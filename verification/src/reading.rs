//! Raw log content shown line by line.
//!
//! A log is a sequence of bytes. To stamp its lines it is cut at the line feeds and each
//! line is read as UTF-8. The first line that is not valid UTF-8 stops the reading.

use crate::lines::{all_lines, byte_views, complete_lines, split_bytes, CR, LF};
use crate::output::{blank_lines, push_lines, shown, stamps_hold, timeless, Output, Shown};
use crate::stamp::{all_stamped, plain_texts, StampedLine};
use crate::text::utf8_strict;
use vstd::prelude::*;
use vstd::string::StringExecFns;
use vstd::utf8::{decode_utf8, valid_utf8};

verus! {

/// The index of the first line from `from` on that is not valid UTF-8, or the number of
/// lines if all are.
pub open spec fn first_unreadable(lines: Seq<Seq<u8>>, from: int) -> int
    decreases lines.len() - from,
{
    if from >= lines.len() {
        lines.len() as int
    } else if !valid_utf8(lines[from]) {
        from
    } else {
        first_unreadable(lines, from + 1)
    }
}

/// The text of each line.
pub open spec fn decoded(lines: Seq<Seq<u8>>) -> Seq<Seq<char>> {
    lines.map_values(|line: Seq<u8>| decode_utf8(line))
}

/// The lines that are read from `data`: all of them, or only the terminated ones if an
/// error cut the data short.
pub open spec fn lines_read(data: Seq<u8>, cut_short: bool) -> Seq<Seq<u8>> {
    if cut_short {
        complete_lines(data, LF, CR)
    } else {
        all_lines(data, LF, CR)
    }
}

/// Every line can be read: all are valid UTF-8.
pub open spec fn readable(lines: Seq<Seq<u8>>) -> bool {
    first_unreadable(lines, 0) == lines.len()
}

/// What is shown of `lines`, stamps blanked: the lines up to the first that cannot be
/// read, then a complaint about that line.
pub open spec fn lines_shown(lines: Seq<Seq<u8>>, complaint: Seq<char>) -> Seq<Shown> {
    let head = blank_lines(decoded(lines.take(first_unreadable(lines, 0))));
    if readable(lines) {
        head
    } else {
        head.push(Shown::Note(complaint + "stream did not contain valid UTF-8"@))
    }
}

/// Shows `data` line by line, each line stamped with the current local time. Where the
/// data was `cut_short` by an error, the open line at its end is left out. `complaint` is
/// put in front of the message about a line that is not valid UTF-8. Returns with the
/// outputs whether every line could be read.
pub fn show_lines(data: &[u8], cut_short: bool, complaint: &str) -> (shown_lines: (
    Vec<Output>,
    bool,
))
    ensures
        timeless(shown(shown_lines.0@)) == lines_shown(lines_read(data@, cut_short), complaint@),
        stamps_hold(shown(shown_lines.0@)),
        shown_lines.1 == readable(lines_read(data@, cut_short)),
{
    let (mut lines, tail) = split_bytes(data);
    if !cut_short && tail.len() > 0 {
        proof {
            assert(byte_views(lines@.push(tail)) == byte_views(lines@).push(tail@));
        }
        lines.push(tail);
    }
    let ghost all = byte_views(lines@);
    let mut stamped: Vec<StampedLine> = Vec::new();
    let mut outputs: Vec<Output> = Vec::new();
    let mut unreadable = false;
    let mut i: usize = 0;
    while i < lines.len() && !unreadable
        invariant
            i <= lines.len(),
            all == byte_views(lines@),
            first_unreadable(all, 0) == first_unreadable(all, i as int),
            plain_texts(stamped@) == decoded(all.take(i as int)),
            all_stamped(stamped@),
            unreadable ==> i < lines.len() && !valid_utf8(all[i as int]),
        decreases lines.len() - i + if unreadable { 0int } else { 1int },
    {
        match utf8_strict(lines[i].as_slice()) {
            Some(text) => {
                let line = StampedLine::now(text);
                proof {
                    assert(plain_texts(stamped@.push(line)) == plain_texts(stamped@).push(
                        line.text@,
                    ));
                }
                stamped.push(line);
                i += 1;
            },
            None => {
                unreadable = true;
            },
        }
    }
    push_lines(&mut outputs, stamped);
    if unreadable {
        let mut text = String::from_str(complaint);
        text.append("stream did not contain valid UTF-8");
        let note = Output::Note(text);
        proof {
            assert(shown(outputs@.push(note)) == shown(outputs@).push(note@));
        }
        outputs.push(note);
    }
    (outputs, !unreadable)
}

} // verus!
