//! Points in time as they are shown with a task.

use crate::decimal::{push_signed_decimal, signed_decimal};
use vstd::prelude::*;

verus! {

/// A point in time: the seconds since the start of 1970 in universal time, and the
/// difference of the local time to universal time at that point, in seconds.
#[derive(Clone, Copy, Debug, PartialEq, Eq, Structural)]
pub struct Moment {
    pub seconds: i64,
    pub offset: i32,
}

/// The date and time of a moment as RFC 2822 writes them, such as
/// `Tue, 1 Jul 2003 10:52:37 +0200`.
pub uninterp spec fn rfc2822_text(seconds: int, offset: int) -> Seq<char>;

/// Builds the moment with `chrono::DateTime::from_timestamp`, moves it to its offset with
/// `FixedOffset::east_opt` and `DateTime::with_timezone`, and writes it with
/// `DateTime::to_rfc2822`. The result is named `rfc2822_text`. The offset has to be less
/// than a day and the local year has to lie between 0 and 9999: `to_rfc2822` panics on
/// other years. Within these bounds every step succeeds.
#[verifier::external_body]
fn to_rfc2822(seconds: i64, offset: i32) -> (text: Option<String>)
    requires
        -86_400 < offset < 86_400,
        -62_167_219_200 <= seconds + offset <= 253_402_300_799,
    ensures
        text is Some,
        text matches Some(written) ==> written@ == rfc2822_text(seconds as int, offset as int),
{
    let zone = chrono::FixedOffset::east_opt(offset)?;
    let universal = chrono::DateTime::from_timestamp(seconds, 0)?;
    Some(universal.with_timezone(&zone).to_rfc2822())
}

impl Moment {
    /// RFC 2822 can write the moment: its offset is less than a day and its local year
    /// lies between 0 and 9999.
    pub open spec fn writable(self) -> bool {
        &&& -86_400 < self.offset < 86_400
        &&& -62_167_219_200 <= self.seconds + self.offset <= 253_402_300_799
    }

    /// The moment as it is shown: as RFC 2822 writes it or, where that cannot be, as its
    /// seconds in decimal.
    pub open spec fn shown(self) -> Seq<char> {
        if self.writable() {
            rfc2822_text(self.seconds as int, self.offset as int)
        } else {
            signed_decimal(self.seconds as int)
        }
    }

    /// Whether RFC 2822 can write the moment.
    pub fn is_writable(&self) -> (yes: bool)
        ensures
            yes == self.writable(),
    {
        let local: i128 = self.seconds as i128 + self.offset as i128;
        -86_400 < self.offset && self.offset < 86_400 && -62_167_219_200 <= local && local
            <= 253_402_300_799
    }

    /// Writes the moment as it is shown.
    pub fn text(&self) -> (text: String)
        ensures
            text@ == self.shown(),
    {
        if self.is_writable() {
            if let Some(written) = to_rfc2822(self.seconds, self.offset) {
                return written;
            }
        }
        let mut text = String::new();
        push_signed_decimal(&mut text, self.seconds);
        text
    }
}

} // verus!
