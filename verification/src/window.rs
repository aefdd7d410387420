//! The line limit: showing only the last lines of a log.
//!
//! A log counts as many lines as it holds line feeds. What follows the last line feed is
//! output of a line still being written: it is shown with the lines before it and does not
//! count.

use crate::lines::{
    complete_lines, lemma_line_count, lemma_push, lemma_tail_start, line_feeds, open_tail,
    raw_lines, LF,
};
use vstd::prelude::*;

verus! {

/// Where the last `n` lines of `s` start: directly behind the line feed that has exactly
/// `n` line feeds behind it, or at 0 if `s` has no more than `n` line feeds.
pub open spec fn window_start<T>(s: Seq<T>, nl: T, n: nat) -> int
    decreases s.len(),
{
    if s.len() == 0 {
        0
    } else if s.last() == nl {
        if n == 0 {
            s.len() as int
        } else {
            window_start(s.drop_last(), nl, (n - 1) as nat)
        }
    } else {
        window_start(s.drop_last(), nl, n)
    }
}

/// What a limit of `n` lines leaves of `s`.
pub open spec fn window<T>(s: Seq<T>, nl: T, n: nat) -> Seq<T> {
    s.skip(window_start(s, nl, n))
}

/// What the line limit keeps. A log of at most `n` lines is kept whole. Of a longer one
/// exactly the last `n` lines are kept, unchanged and in order, cut directly behind a line
/// feed. What is open at the end is kept either way.
pub proof fn lemma_window<T>(s: Seq<T>, nl: T, cr: T, n: nat)
    ensures
        0 <= window_start(s, nl, n) <= s.len(),
        line_feeds(s, nl) <= n ==> window(s, nl, n) == s,
        line_feeds(s, nl) > n ==> window_start(s, nl, n) > 0 && s[window_start(s, nl, n) - 1]
            == nl,
        line_feeds(s, nl) > n ==> line_feeds(window(s, nl, n), nl) == n,
        line_feeds(s, nl) > n ==> raw_lines(window(s, nl, n), nl) == raw_lines(s, nl).skip(
            line_feeds(s, nl) - n,
        ),
        line_feeds(s, nl) > n ==> complete_lines(window(s, nl, n), nl, cr) == complete_lines(
            s,
            nl,
            cr,
        ).skip(line_feeds(s, nl) - n),
        open_tail(window(s, nl, n), nl) == open_tail(s, nl),
    decreases s.len(),
{
    let start = window_start(s, nl, n);
    if s.len() == 0 {
        assert(s.skip(0) == s);
    } else {
        let front = s.drop_last();
        let c = s.last();
        assert(front.push(c) == s);
        lemma_push(front, c, nl, cr);
        lemma_line_count(s, nl, cr);
        lemma_line_count(front, nl, cr);
        if c == nl && n == 0 {
            assert(s.skip(start) == Seq::<T>::empty());
            assert(raw_lines(s, nl).skip(line_feeds(s, nl) as int) == Seq::<Seq<T>>::empty());
            assert(complete_lines(s, nl, cr).skip(line_feeds(s, nl) as int) == Seq::<
                Seq<T>,
            >::empty());
            assert(complete_lines(Seq::<T>::empty(), nl, cr) == Seq::<Seq<T>>::empty());
            lemma_tail_start(s, nl);
        } else {
            let m = if c == nl {
                (n - 1) as nat
            } else {
                n
            };
            lemma_window(front, nl, cr, m);
            assert(start == window_start(front, nl, m));
            assert(s.skip(start) == front.skip(start).push(c));
            lemma_push(front.skip(start), c, nl, cr);
            if line_feeds(s, nl) <= n {
                assert(front.skip(0) == front);
                assert(s.skip(0) == s);
            } else if c == nl {
                let k = line_feeds(front, nl) - m;
                assert(raw_lines(front, nl).skip(k).push(open_tail(front, nl)) == raw_lines(
                    s,
                    nl,
                ).skip(k));
                assert(complete_lines(front, nl, cr).skip(k).push(
                    crate::lines::strip_cr(open_tail(front, nl), cr),
                ) == complete_lines(s, nl, cr).skip(k));
            }
        }
    }
}

/// Finds where the last `lines` lines of `content` start, reading from the end and no
/// further than needed. Returns that position, and whether the whole content is kept.
pub fn seek_to_last_lines(content: &[u8], lines: usize) -> (found: (usize, bool))
    ensures
        found.0 == window_start(content@, LF, lines as nat),
        found.1 == (line_feeds(content@, LF) <= lines),
{
    let mut i: usize = content.len();
    let mut seen: usize = 0;
    proof {
        assert(content@.take(i as int) == content@);
    }
    while i > 0
        invariant
            i <= content.len(),
            seen <= lines,
            window_start(content@, LF, lines as nat) == window_start(
                content@.take(i as int),
                LF,
                (lines - seen) as nat,
            ),
            line_feeds(content@, LF) == line_feeds(content@.take(i as int), LF) + seen,
        decreases i,
    {
        proof {
            assert(content@.take(i as int).drop_last() == content@.take(i - 1));
        }
        i -= 1;
        if content[i] == LF {
            if seen == lines {
                return (i + 1, false);
            }
            seen += 1;
        }
    }
    (0, true)
}

/// The line limit that a request for finished logs puts into effect: none where the full
/// log is asked for, else the limit asked for, else 15 lines.
pub fn determine_log_line_amount(full: bool, lines: &Option<usize>) -> (limit: Option<usize>)
    ensures
        limit == if full {
            None
        } else if lines is Some {
            *lines
        } else {
            Some(15usize)
        },
{
    if full {
        None
    } else if let Some(lines) = lines {
        Some(*lines)
    } else {
        Some(15)
    }
}

} // verus!
