//! Lines that carry the time at which they were shown.

use crate::lines::texts;
use vstd::prelude::*;
use vstd::string::StringExecFns;

verus! {

/// A line together with the time stamp it was given.
#[derive(Clone, Debug, PartialEq, Eq)]
pub struct StampedLine {
    /// The local time at which the line was stamped.
    pub stamp: String,
    /// The line itself, without its line ending.
    pub text: String,
}

/// How a stamped line is shown: the stamp in square brackets, a space, the line.
pub open spec fn rendered(stamp: Seq<char>, text: Seq<char>) -> Seq<char> {
    seq!['['] + stamp + seq![']', ' '] + text
}

/// The lines of `v` without their stamps, in order.
pub open spec fn plain_texts(v: Seq<StampedLine>) -> Seq<Seq<char>> {
    v.map_values(|line: StampedLine| line.text@)
}

/// The lines of `v` as they are shown, in order.
pub open spec fn rendered_texts(v: Seq<StampedLine>) -> Seq<Seq<char>> {
    v.map_values(|line: StampedLine| rendered(line.stamp@, line.text@))
}

/// What every stamp is like, whatever the clock says: at least 23 characters, none of
/// them a line feed.
pub open spec fn is_stamp(stamp: Seq<char>) -> bool {
    &&& stamp.len() >= 23
    &&& forall|i: int| 0 <= i < stamp.len() ==> stamp[i] != '\n'
}

/// Every line of `v` carries a stamp.
pub open spec fn all_stamped(v: Seq<StampedLine>) -> bool {
    forall|i: int| 0 <= i < v.len() ==> is_stamp(#[trigger] v[i].stamp@)
}

/// Reads the clock with `SystemTime::now` and `duration_since`, where a clock that stands
/// before 1970 counts as standing at the start of 1970, builds the moment with
/// `chrono::DateTime::from_timestamp`, moves it to local time with
/// `DateTime::with_timezone` and formats it with `DateTime::format` as year-month-day, a
/// space, and hour:minute:second with three decimals. The year takes at least four
/// characters and every other part has a fixed width, which makes 23 characters or more;
/// the format holds no line feed. Which moment is written depends on the clock and on the
/// machine's time zone, so no more is claimed.
#[verifier::external_body]
fn local_time_stamp() -> (stamp: String)
    ensures
        is_stamp(stamp@),
{
    let since = std::time::SystemTime::now().duration_since(std::time::UNIX_EPOCH);
    let since = since.unwrap_or_default();
    let seconds = i64::try_from(since.as_secs()).unwrap_or_default();
    let moment = chrono::DateTime::from_timestamp(seconds, since.subsec_nanos());
    let local = moment.unwrap_or_default().with_timezone(&chrono::Local);
    local.format("%Y-%m-%d %H:%M:%S%.3f").to_string()
}

impl StampedLine {
    /// Stamps `text` with the current local time.
    pub fn now(text: String) -> (line: StampedLine)
        ensures
            line.text == text,
            is_stamp(line.stamp@),
    {
        StampedLine { stamp: local_time_stamp(), text }
    }

    /// The line as it is shown.
    pub fn render(&self) -> (out: String)
        ensures
            out@ == rendered(self.stamp@, self.text@),
    {
        let mut out = String::from_str("[");
        out.append(self.stamp.as_str());
        out.append("] ");
        out.append(self.text.as_str());
        proof {
            reveal_strlit("[");
            reveal_strlit("] ");
        }
        out
    }
}

/// Stamps each line with the local time at the moment it is reached.
pub fn stamp_lines(lines: Vec<String>) -> (stamped: Vec<StampedLine>)
    ensures
        plain_texts(stamped@) == texts(lines@),
        all_stamped(stamped@),
{
    let mut stamped: Vec<StampedLine> = Vec::new();
    let mut i: usize = 0;
    while i < lines.len()
        invariant
            i <= lines.len(),
            plain_texts(stamped@) == texts(lines@.take(i as int)),
            all_stamped(stamped@),
        decreases lines.len() - i,
    {
        let line = StampedLine::now(lines[i].clone());
        proof {
            assert(plain_texts(stamped@.push(line)) == plain_texts(stamped@).push(line.text@));
        }
        stamped.push(line);
        i += 1;
    }
    stamped
}

} // verus!
