//! Following a log that the daemon streams.
//!
//! The caller sends one request and then hands over each response as it arrives. Chunks
//! are shown in the order in which they arrive. Only the daemon ends the stream: by closing
//! it or by reporting a failure.

use crate::lines::{all_lines, text_lines};
use crate::output::{
    blank_lines, lemma_shown_add, lemma_stamps_add, lemma_timeless_add, push_lines, shown,
    stamps_hold, timeless, Output, Shown,
};
use crate::stamp::stamp_lines;
use vstd::prelude::*;

verus! {

/// The request that opens a stream.
#[derive(Clone, Debug, PartialEq, Eq)]
pub struct StreamRequest {
    /// The tasks to follow by id; none leaves the choice to the daemon.
    pub tasks: Vec<usize>,
    /// The line limit for what the log already holds.
    pub lines: Option<usize>,
}

/// One piece of streamed output.
#[derive(Clone, Debug, PartialEq, Eq)]
pub struct LogChunk {
    pub task_id: usize,
    pub text: String,
}

/// What the daemon may answer on a stream.
#[derive(Clone, Debug, PartialEq, Eq)]
pub enum StreamResponse {
    /// The next piece of output.
    Chunk(LogChunk),
    /// The stream is over.
    Close,
    /// The daemon failed, with this message.
    Failure(String),
    /// Any other response.
    Other,
}

/// How a stream ended.
#[derive(Clone, Copy, Debug, PartialEq, Eq, Structural)]
pub enum StreamEnd {
    /// The daemon closed it.
    Closed,
    /// The daemon reported a failure.
    Failed,
}

/// What to show for a response, and whether the stream is over.
#[derive(Clone, Debug, PartialEq, Eq)]
pub struct StreamStep {
    pub outputs: Vec<Output>,
    pub end: Option<StreamEnd>,
}

/// What became of a stream.
#[derive(Clone, Debug, PartialEq, Eq)]
pub struct StreamReport {
    pub outputs: Vec<Output>,
    /// How the stream ended; nothing if the responses ran out before it did.
    pub end: Option<StreamEnd>,
    /// The number of responses that were taken.
    pub taken: usize,
}

impl StreamEnd {
    /// The exit status that goes with the end of a stream.
    pub open spec fn status(self) -> i32 {
        if self is Failed {
            1
        } else {
            0
        }
    }

    /// The exit status of the process: 0 after a close, 1 after a failure.
    pub fn exit_code(&self) -> (code: i32)
        ensures
            code == self.status(),
    {
        match self {
            StreamEnd::Closed => 0,
            StreamEnd::Failed => 1,
        }
    }
}

/// Makes the request for a stream: for the one task named, or for whatever the daemon
/// picks if none is.
pub fn stream_request(task_id: Option<usize>, lines: Option<usize>) -> (request: StreamRequest)
    ensures
        request.tasks@ == match task_id {
            Some(id) => seq![id],
            None => Seq::<usize>::empty(),
        },
        request.lines == lines,
{
    let mut tasks: Vec<usize> = Vec::new();
    if let Some(id) = task_id {
        tasks.push(id);
    }
    StreamRequest { tasks, lines }
}

/// How a chunk is shown, stamps blanked: as it is, or, with `timestamps`, line by line.
/// Each chunk is cut on its own; nothing is carried from one chunk to the next.
pub open spec fn chunk_shown(text: Seq<char>, timestamps: bool) -> Seq<Shown> {
    if timestamps {
        blank_lines(all_lines(text, '\n', '\r'))
    } else {
        seq![Shown::Text(text)]
    }
}

/// What is shown for a response, stamps blanked.
pub open spec fn response_shown(response: StreamResponse, timestamps: bool) -> Seq<Shown> {
    match response {
        StreamResponse::Chunk(chunk) => chunk_shown(chunk.text@, timestamps),
        StreamResponse::Failure(message) => seq![Shown::Note(message@)],
        _ => Seq::empty(),
    }
}

/// Whether a response ends the stream, and how.
pub open spec fn response_end(response: StreamResponse) -> Option<StreamEnd> {
    match response {
        StreamResponse::Close => Some(StreamEnd::Closed),
        StreamResponse::Failure(_) => Some(StreamEnd::Failed),
        _ => None,
    }
}

/// Takes one response. A chunk is shown and the stream goes on. A close ends it. A failure
/// is shown as an error and ends it. Anything else is passed over.
pub fn stream_step(response: &StreamResponse, timestamps: bool) -> (step: StreamStep)
    ensures
        timeless(shown(step.outputs@)) == response_shown(*response, timestamps),
        stamps_hold(shown(step.outputs@)),
        step.end == response_end(*response),
{
    let mut outputs: Vec<Output> = Vec::new();
    match response {
        StreamResponse::Chunk(chunk) => {
            if timestamps {
                let lines = stamp_lines(text_lines(chunk.text.as_str()));
                push_lines(&mut outputs, lines);
            } else {
                let text = Output::Text(chunk.text.clone());
                outputs.push(text);
            }
            StreamStep { outputs, end: None }
        },
        StreamResponse::Close => StreamStep { outputs, end: Some(StreamEnd::Closed) },
        StreamResponse::Failure(message) => {
            let note = Output::Note(message.clone());
            outputs.push(note);
            StreamStep { outputs, end: Some(StreamEnd::Failed) }
        },
        StreamResponse::Other => StreamStep { outputs, end: None },
    }
}

/// The index of the first response from `from` on that ends the stream, or the number of
/// responses if none does.
pub open spec fn first_end(responses: Seq<StreamResponse>, from: int) -> int
    decreases responses.len() - from,
{
    if from >= responses.len() {
        responses.len() as int
    } else if response_end(responses[from]) is Some {
        from
    } else {
        first_end(responses, from + 1)
    }
}

/// The number of responses that a stream takes: all up to and with the first that ends it.
pub open spec fn taken(responses: Seq<StreamResponse>) -> int {
    if first_end(responses, 0) < responses.len() {
        first_end(responses, 0) + 1
    } else {
        responses.len() as int
    }
}

/// What is shown for all of `responses`, one after the other.
pub open spec fn all_shown(responses: Seq<StreamResponse>, timestamps: bool) -> Seq<Shown>
    decreases responses.len(),
{
    if responses.len() == 0 {
        Seq::empty()
    } else {
        all_shown(responses.drop_last(), timestamps) + response_shown(
            responses.last(),
            timestamps,
        )
    }
}

/// The first response that ends the stream lies within the responses, and none before it
/// ends the stream.
pub proof fn lemma_first_end(responses: Seq<StreamResponse>, from: int)
    requires
        0 <= from <= responses.len(),
    ensures
        from <= first_end(responses, from) <= responses.len(),
        forall|i: int|
            from <= i < first_end(responses, from) ==> response_end(#[trigger] responses[i])
                is None,
        first_end(responses, from) < responses.len() ==> response_end(
            responses[first_end(responses, from)],
        ) is Some,
    decreases responses.len() - from,
{
    if from < responses.len() && response_end(responses[from]) is None {
        lemma_first_end(responses, from + 1);
    }
}

/// Consumes a stream of responses. Every chunk is shown once, in the order of arrival, up
/// to the first close or failure; a failure is shown too. What arrives after that
/// response is neither taken nor shown.
pub fn remote_follow(responses: &[StreamResponse], timestamps: bool) -> (report: StreamReport)
    ensures
        report.taken == taken(responses@),
        timeless(shown(report.outputs@)) == all_shown(
            responses@.take(taken(responses@)),
            timestamps,
        ),
        report.end == if first_end(responses@, 0) < responses@.len() {
            response_end(responses@[first_end(responses@, 0)])
        } else {
            None
        },
        stamps_hold(shown(report.outputs@)),
{
    let mut outputs: Vec<Output> = Vec::new();
    let mut i: usize = 0;
    while i < responses.len()
        invariant
            i <= responses.len(),
            first_end(responses@, 0) == first_end(responses@, i as int),
            timeless(shown(outputs@)) == all_shown(responses@.take(i as int), timestamps),
            stamps_hold(shown(outputs@)),
        decreases responses.len() - i,
    {
        let ghost shown_before = shown(outputs@);
        let mut step = stream_step(&responses[i], timestamps);
        proof {
            assert(responses@.take(i + 1).drop_last() == responses@.take(i as int));
            lemma_shown_add(outputs@, step.outputs@);
            lemma_timeless_add(shown_before, shown(step.outputs@));
            lemma_stamps_add(shown_before, shown(step.outputs@));
        }
        outputs.append(&mut step.outputs);
        if step.end.is_some() {
            return StreamReport { outputs, end: step.end, taken: i + 1 };
        }
        i += 1;
    }
    StreamReport { outputs, end: None, taken: i }
}

} // verus!
