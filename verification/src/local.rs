//! The log of a finished task, read from its file on the local machine.

use crate::decimal::{decimal, push_decimal};
use crate::lines::{line_feeds, LF};
use crate::output::{
    lemma_shown_add, lemma_stamps_add, lemma_timeless_add, shown, stamps_hold, timeless, Output,
    Shown,
};
use crate::reading::{lines_read, lines_shown, readable, show_lines};
use crate::window::{seek_to_last_lines, window};
use vstd::prelude::*;
use vstd::string::StringExecFns;

verus! {

/// What came of opening a task's log file and applying the line limit to it.
#[derive(Clone, Debug, PartialEq, Eq)]
pub enum LocalLog {
    /// The file could not be opened, with this error.
    Unopened(String),
    /// The file holds nothing, or its size cannot be told.
    Empty,
    /// The line limit could not be applied, with this error.
    Unsought(String),
    /// The file was read from where the line limit put the cursor.
    Read {
        /// Whether that was the start of the file, so that nothing is left out.
        complete: bool,
        /// What was read.
        rest: Vec<u8>,
        /// The error that stopped the reading, if one did.
        error: Option<String>,
    },
}

/// The hint behind the heading of a log of which only the end is shown.
pub open spec fn line_info_text(complete: bool, lines: Option<usize>) -> Seq<char> {
    match lines {
        Some(limit) if !complete => " (last "@ + decimal(limit as nat) + " lines)"@,
        _ => Seq::empty(),
    }
}

/// Words the hint for a log that was cut to its last lines; nothing for a log that is
/// shown whole.
pub fn line_info(complete: bool, lines: Option<usize>) -> (info: String)
    ensures
        info@ == line_info_text(complete, lines),
{
    match lines {
        Some(limit) => {
            if complete {
                String::new()
            } else {
                let mut info = String::from_str(" (last ");
                push_decimal(&mut info, limit as u64);
                info.append(" lines)");
                info
            }
        },
        None => String::new(),
    }
}

/// The heading above a log: an empty line, the heading's word, the hint.
pub open spec fn heading_text(header: Seq<char>, complete: bool, lines: Option<usize>) -> Seq<
    char,
> {
    "\n"@ + header + line_info_text(complete, lines)
}

/// Words the heading above a log.
pub fn heading(header: &str, complete: bool, lines: Option<usize>) -> (text: String)
    ensures
        text@ == heading_text(header@, complete, lines),
{
    let mut text = String::from_str("\n");
    text.append(header);
    let info = line_info(complete, lines);
    text.append(info.as_str());
    text
}

impl LocalLog {
    /// The log is what reading `content` under the line limit gives: nothing of empty
    /// content, else the last lines that the limit allows, with the mark of whether that
    /// is all, or the whole content where there is no limit.
    pub open spec fn reads(self, content: Seq<u8>, lines: Option<usize>) -> bool {
        if content.len() == 0 {
            self is Empty
        } else {
            &&& self matches LocalLog::Read { complete, rest, error }
            &&& error is None
            &&& match lines {
                Some(limit) => complete == (line_feeds(content, LF) <= limit) && rest@ == window(
                    content,
                    LF,
                    limit as nat,
                ),
                None => complete && rest@ == content,
            }
        }
    }

    /// Whether a file of this size is read at all: not if it is empty or its size is not
    /// known.
    pub fn worth_reading(size: Option<u64>) -> (yes: bool)
        ensures
            yes == (size matches Some(bytes) && bytes != 0),
    {
        match size {
            Some(bytes) => bytes != 0,
            None => false,
        }
    }

    /// A log held in memory, read as a file of that content would be: empty if it holds
    /// nothing, else from where the line limit puts the cursor. Without a limit that is
    /// the start.
    pub fn from_content(content: &[u8], lines: Option<usize>) -> (log: LocalLog)
        ensures
            log.reads(content@, lines),
    {
        if content.len() == 0 {
            return LocalLog::Empty;
        }
        let (start, complete) = match lines {
            Some(limit) => seek_to_last_lines(content, limit),
            None => (0, true),
        };
        proof {
            if lines is Some {
                crate::window::lemma_window(content@, LF, LF, lines->0 as nat);
            }
        }
        let mut rest: Vec<u8> = Vec::new();
        let mut i: usize = start;
        while i < content.len()
            invariant
                start <= i <= content.len(),
                rest@ == content@.subrange(start as int, i as int),
            decreases content.len() - i,
        {
            rest.push(content[i]);
            i += 1;
        }
        proof {
            assert(content@.skip(0) == content@);
        }
        LocalLog::Read { complete, rest, error: None }
    }
}

/// What is shown of a local log, stamps blanked.
pub open spec fn local_shown(
    log: LocalLog,
    lines: Option<usize>,
    header: Seq<char>,
    timestamps: bool,
) -> Seq<Shown> {
    match log {
        LocalLog::Unopened(error) => seq![
            Shown::Note("Failed to get log file handle: "@ + error@),
        ],
        LocalLog::Empty => Seq::empty(),
        LocalLog::Unsought(error) => seq![
            Shown::Note("Failed reading local log file: "@ + error@),
        ],
        LocalLog::Read { complete, rest, error } => {
            let top = seq![Shown::Note(heading_text(header, complete, lines))];
            let failure = match error {
                Some(error) => Some(error@),
                None => None,
            };
            if timestamps {
                let read = lines_read(rest@, error is Some);
                let body = top + lines_shown(read, "Failed reading line from log file: "@);
                match failure {
                    Some(failure) if readable(read) => body.push(
                        Shown::Note("Failed reading line from log file: "@ + failure),
                    ),
                    _ => body,
                }
            } else {
                match failure {
                    Some(failure) => top + seq![
                        Shown::Bytes(rest@),
                        Shown::Note("Failed reading local log file: "@ + failure),
                    ],
                    None => top + seq![Shown::Bytes(rest@)],
                }
            }
        },
    }
}

/// Asking for the whole log shows the whole log: without a line limit and without stamps,
/// what is shown of a log is its heading, without a hint, and then its content, byte for
/// byte.
pub proof fn lemma_unlimited_is_whole(log: LocalLog, content: Seq<u8>, header: Seq<char>)
    requires
        content.len() > 0,
        log.reads(content, None),
    ensures
        local_shown(log, None, header, false) == seq![
            Shown::Note("\n"@ + header),
            Shown::Bytes(content),
        ],
{
    assert("\n"@ + header + Seq::<char>::empty() == "\n"@ + header);
}

/// A log that is not longer than the line limit is shown whole and without a hint; of a
/// longer one exactly the last lines that the limit allows are shown, with the hint.
pub proof fn lemma_limit_shows_last_lines(
    log: LocalLog,
    content: Seq<u8>,
    limit: usize,
    header: Seq<char>,
)
    requires
        content.len() > 0,
        log.reads(content, Some(limit)),
    ensures
        line_feeds(content, LF) <= limit ==> local_shown(log, Some(limit), header, false) == seq![
            Shown::Note("\n"@ + header),
            Shown::Bytes(content),
        ],
        line_feeds(content, LF) > limit ==> local_shown(log, Some(limit), header, false) == seq![
            Shown::Note("\n"@ + header + " (last "@ + decimal(limit as nat) + " lines)"@),
            Shown::Bytes(window(content, LF, limit as nat)),
        ] && line_feeds(window(content, LF, limit as nat), LF) == limit,
{
    crate::window::lemma_window(content, LF, LF, limit as nat);
    assert("\n"@ + header + Seq::<char>::empty() == "\n"@ + header);
    assert("\n"@ + header + (" (last "@ + decimal(limit as nat) + " lines)"@) == "\n"@ + header
        + " (last "@ + decimal(limit as nat) + " lines)"@);
}

/// One message for standard error: `prefix`, then `error`.
pub(crate) fn note(prefix: &str, error: &str) -> (output: Output)
    ensures
        output@ == Shown::Note(prefix@ + error@),
{
    let mut text = String::from_str(prefix);
    text.append(error);
    Output::Note(text)
}

/// Shows the log of a task from its file. Nothing is shown of an empty file. Else the
/// heading comes first, on standard error, with the hint if the line limit left something
/// out; then what was read, as it is or, with `timestamps`, line by line and stamped.
/// Whatever failed is reported on standard error in place of what it kept from being
/// shown.
pub fn print_local_log(
    log: &LocalLog,
    lines: Option<usize>,
    header: &str,
    timestamps: bool,
) -> (outputs: Vec<Output>)
    ensures
        timeless(shown(outputs@)) == local_shown(*log, lines, header@, timestamps),
        stamps_hold(shown(outputs@)),
{
    let mut outputs: Vec<Output> = Vec::new();
    match log {
        LocalLog::Unopened(error) => {
            let message = note("Failed to get log file handle: ", error.as_str());
            outputs.push(message);
        },
        LocalLog::Empty => {},
        LocalLog::Unsought(error) => {
            let message = note("Failed reading local log file: ", error.as_str());
            outputs.push(message);
        },
        LocalLog::Read { complete, rest, error } => {
            let top = Output::Note(heading(header, *complete, lines));
            outputs.push(top);
            if timestamps {
                let (mut body, readable) = show_lines(
                    rest.as_slice(),
                    error.is_some(),
                    "Failed reading line from log file: ",
                );
                proof {
                    lemma_shown_add(outputs@, body@);
                    lemma_timeless_add(shown(outputs@), shown(body@));
                    lemma_stamps_add(shown(outputs@), shown(body@));
                }
                outputs.append(&mut body);
                if let Some(error) = error {
                    if readable {
                        let message = note("Failed reading line from log file: ", error.as_str());
                        proof {
                            assert(shown(outputs@.push(message)) == shown(outputs@).push(message@));
                        }
                        outputs.push(message);
                    }
                }
            } else {
                let bytes = Output::Bytes(rest.clone());
                outputs.push(bytes);
                if let Some(error) = error {
                    let message = note("Failed reading local log file: ", error.as_str());
                    outputs.push(message);
                }
            }
        },
    }
    outputs
}

} // verus!
