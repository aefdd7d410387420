//! Cutting text into lines.
//!
//! A line ends at a line feed. A carriage return directly before that line feed belongs to
//! the line ending. What follows the last line feed is the open tail: a line that is not
//! terminated yet. The model is stated for sequences of any element, so that it serves
//! text (`char`) and raw log content (`u8`) alike.

use vstd::prelude::*;

verus! {

/// The index at which the open tail of `s` starts: one past the last line feed, or 0.
pub open spec fn tail_start<T>(s: Seq<T>, nl: T) -> int
    decreases s.len(),
{
    if s.len() == 0 {
        0
    } else if s.last() == nl {
        s.len() as int
    } else {
        tail_start(s.drop_last(), nl)
    }
}

/// What follows the last line feed of `s`.
pub open spec fn open_tail<T>(s: Seq<T>, nl: T) -> Seq<T> {
    s.skip(tail_start(s, nl))
}

/// The terminated lines of `s`, each without its line feed, a carriage return kept.
pub open spec fn raw_lines<T>(s: Seq<T>, nl: T) -> Seq<Seq<T>>
    decreases s.len(),
{
    if s.len() == 0 {
        Seq::empty()
    } else if s.last() == nl {
        raw_lines(s.drop_last(), nl).push(open_tail(s.drop_last(), nl))
    } else {
        raw_lines(s.drop_last(), nl)
    }
}

/// `line` without the carriage return that ends it, if one does.
pub open spec fn strip_cr<T>(line: Seq<T>, cr: T) -> Seq<T> {
    if line.len() > 0 && line.last() == cr {
        line.drop_last()
    } else {
        line
    }
}

/// The terminated lines of `s`, each without its line ending.
pub open spec fn complete_lines<T>(s: Seq<T>, nl: T, cr: T) -> Seq<Seq<T>> {
    raw_lines(s, nl).map_values(|line: Seq<T>| strip_cr(line, cr))
}

/// All lines of `s`: the terminated ones, then the open tail as it stands if it is not
/// empty.
pub open spec fn all_lines<T>(s: Seq<T>, nl: T, cr: T) -> Seq<Seq<T>> {
    if open_tail(s, nl).len() > 0 {
        complete_lines(s, nl, cr).push(open_tail(s, nl))
    } else {
        complete_lines(s, nl, cr)
    }
}

/// The number of line feeds in `s`.
pub open spec fn line_feeds<T>(s: Seq<T>, nl: T) -> nat
    decreases s.len(),
{
    if s.len() == 0 {
        0
    } else if s.last() == nl {
        line_feeds(s.drop_last(), nl) + 1
    } else {
        line_feeds(s.drop_last(), nl)
    }
}

/// Every line followed by a line feed, one after the other.
pub open spec fn join_terminated<T>(lines: Seq<Seq<T>>, nl: T) -> Seq<T>
    decreases lines.len(),
{
    if lines.len() == 0 {
        Seq::empty()
    } else {
        join_terminated(lines.drop_last(), nl) + lines.last().push(nl)
    }
}

/// The lines with a line feed between each two, and none at the end.
pub open spec fn join_separated<T>(lines: Seq<Seq<T>>, nl: T) -> Seq<T>
    decreases lines.len(),
{
    if lines.len() == 0 {
        Seq::empty()
    } else if lines.len() == 1 {
        lines[0]
    } else {
        join_separated(lines.drop_last(), nl).push(nl) + lines.last()
    }
}

/// No line feed of `s` stands directly behind a carriage return.
pub open spec fn no_crlf<T>(s: Seq<T>, nl: T, cr: T) -> bool {
    forall|i: int| 0 < i < s.len() && #[trigger] s[i] == nl ==> s[i - 1] != cr
}

/// The open tail starts inside `s`, directly behind a line feed or at the start, and holds
/// no line feed.
pub proof fn lemma_tail_start<T>(s: Seq<T>, nl: T)
    ensures
        0 <= tail_start(s, nl) <= s.len(),
        tail_start(s, nl) > 0 ==> s[tail_start(s, nl) - 1] == nl,
        forall|i: int| tail_start(s, nl) <= i < s.len() ==> s[i] != nl,
        tail_start(s, nl) == 0 <==> line_feeds(s, nl) == 0,
    decreases s.len(),
{
    if s.len() > 0 {
        let front = s.drop_last();
        lemma_tail_start(front, nl);
        assert forall|i: int| tail_start(s, nl) <= i < s.len() implies s[i] != nl by {
            if i < front.len() {
                assert(s[i] == front[i]);
            }
        }
    }
}

/// What one more element does to the tail and to the lines.
pub proof fn lemma_push<T>(s: Seq<T>, c: T, nl: T, cr: T)
    ensures
        c == nl ==> open_tail(s.push(c), nl) == Seq::<T>::empty(),
        c == nl ==> raw_lines(s.push(c), nl) == raw_lines(s, nl).push(open_tail(s, nl)),
        c == nl ==> complete_lines(s.push(c), nl, cr) == complete_lines(s, nl, cr).push(
            strip_cr(open_tail(s, nl), cr),
        ),
        c == nl ==> line_feeds(s.push(c), nl) == line_feeds(s, nl) + 1,
        c != nl ==> open_tail(s.push(c), nl) == open_tail(s, nl).push(c),
        c != nl ==> raw_lines(s.push(c), nl) == raw_lines(s, nl),
        c != nl ==> complete_lines(s.push(c), nl, cr) == complete_lines(s, nl, cr),
        c != nl ==> line_feeds(s.push(c), nl) == line_feeds(s, nl),
{
    lemma_tail_start(s, nl);
    assert(s.push(c).drop_last() == s);
    if c == nl {
        assert(open_tail(s.push(c), nl) == Seq::<T>::empty());
        assert(complete_lines(s.push(c), nl, cr) == complete_lines(s, nl, cr).push(
            strip_cr(open_tail(s, nl), cr),
        ));
    } else {
        assert(open_tail(s.push(c), nl) == open_tail(s, nl).push(c));
    }
}

/// A sequence without a line feed has no terminated line and is its own open tail.
pub proof fn lemma_no_line_feed<T>(s: Seq<T>, nl: T)
    requires
        forall|i: int| 0 <= i < s.len() ==> s[i] != nl,
    ensures
        raw_lines(s, nl) == Seq::<Seq<T>>::empty(),
        open_tail(s, nl) == s,
        line_feeds(s, nl) == 0,
    decreases s.len(),
{
    if s.len() > 0 {
        let front = s.drop_last();
        assert forall|i: int| 0 <= i < front.len() implies front[i] != nl by {
            assert(front[i] == s[i]);
        }
        lemma_no_line_feed(front, nl);
        lemma_tail_start(s, nl);
    }
}

/// There are as many terminated lines as line feeds.
pub proof fn lemma_line_count<T>(s: Seq<T>, nl: T, cr: T)
    ensures
        raw_lines(s, nl).len() == line_feeds(s, nl),
        complete_lines(s, nl, cr).len() == line_feeds(s, nl),
    decreases s.len(),
{
    if s.len() > 0 {
        lemma_line_count(s.drop_last(), nl, cr);
    }
}

/// Nothing is lost by cutting: the terminated lines, each with its line feed put back,
/// followed by the open tail, are the sequence that was cut.
pub proof fn lemma_rejoin<T>(s: Seq<T>, nl: T)
    ensures
        join_terminated(raw_lines(s, nl), nl) + open_tail(s, nl) == s,
    decreases s.len(),
{
    if s.len() > 0 {
        let front = s.drop_last();
        let c = s.last();
        lemma_rejoin(front, nl);
        assert(front.push(c) == s);
        lemma_push(front, c, nl, c);
        let joined = join_terminated(raw_lines(front, nl), nl);
        if c == nl {
            let lines = raw_lines(front, nl).push(open_tail(front, nl));
            assert(lines.drop_last() == raw_lines(front, nl));
            assert(join_terminated(lines, nl) == joined + open_tail(front, nl).push(nl));
            assert(joined + open_tail(front, nl).push(nl) + Seq::<T>::empty() == (joined
                + open_tail(front, nl)).push(nl));
        } else {
            assert(joined + open_tail(front, nl).push(c) == (joined + open_tail(front, nl)).push(
                c,
            ));
        }
    }
}

/// Where no line feed stands behind a carriage return, no line loses a carriage return.
pub proof fn lemma_no_crlf<T>(s: Seq<T>, nl: T, cr: T)
    requires
        no_crlf(s, nl, cr),
    ensures
        complete_lines(s, nl, cr) == raw_lines(s, nl),
    decreases s.len(),
{
    if s.len() > 0 {
        let front = s.drop_last();
        assert forall|i: int| 0 < i < front.len() && #[trigger] front[i] == nl implies front[i
            - 1] != cr by {
            assert(s[i] == nl);
        }
        lemma_no_crlf(front, nl, cr);
        lemma_push(front, s.last(), nl, cr);
        assert(front.push(s.last()) == s);
        if s.last() == nl {
            lemma_tail_start(front, nl);
            let tail = open_tail(front, nl);
            if tail.len() > 0 {
                assert(tail.last() == s[s.len() - 2]);
                assert(s[s.len() - 1] == nl);
            }
            assert(strip_cr(tail, cr) == tail);
        }
    }
}

/// Cutting a sequence that came in two parts: the lines of the first part, then the lines
/// of what the first part left open followed by the second part.
pub proof fn lemma_two_parts<T>(a: Seq<T>, b: Seq<T>, nl: T, cr: T)
    ensures
        raw_lines(a + b, nl) == raw_lines(a, nl) + raw_lines(open_tail(a, nl) + b, nl),
        complete_lines(a + b, nl, cr) == complete_lines(a, nl, cr) + complete_lines(
            open_tail(a, nl) + b,
            nl,
            cr,
        ),
        open_tail(a + b, nl) == open_tail(open_tail(a, nl) + b, nl),
    decreases b.len(),
{
    let rest = open_tail(a, nl);
    if b.len() == 0 {
        assert(a + b == a);
        assert(rest + b == rest);
        lemma_tail_start(a, nl);
        lemma_no_line_feed(rest, nl);
        assert(raw_lines(a, nl) + Seq::<Seq<T>>::empty() == raw_lines(a, nl));
        assert(complete_lines(a, nl, cr) + complete_lines(rest, nl, cr) == complete_lines(
            a,
            nl,
            cr,
        ));
    } else {
        let front = b.drop_last();
        let c = b.last();
        lemma_two_parts(a, front, nl, cr);
        assert(a + b == (a + front).push(c));
        assert(rest + b == (rest + front).push(c));
        lemma_push(a + front, c, nl, cr);
        lemma_push(rest + front, c, nl, cr);
        if c == nl {
            assert(raw_lines(a, nl) + raw_lines(rest + front, nl).push(
                open_tail(rest + front, nl),
            ) == (raw_lines(a, nl) + raw_lines(rest + front, nl)).push(
                open_tail(rest + front, nl),
            ));
            assert(complete_lines(a, nl, cr) + complete_lines(rest + front, nl, cr).push(
                strip_cr(open_tail(rest + front, nl), cr),
            ) == (complete_lines(a, nl, cr) + complete_lines(rest + front, nl, cr)).push(
                strip_cr(open_tail(rest + front, nl), cr),
            ));
        }
    }
}

/// The views of the strings of `v`, in order.
pub open spec fn texts(v: Seq<String>) -> Seq<Seq<char>> {
    v.map_values(|s: String| s@)
}

/// Cuts `text` into its terminated lines, each without its line ending, and its open tail.
pub fn split_text(text: &str) -> (parts: (Vec<String>, String))
    ensures
        texts(parts.0@) == complete_lines(text@, '\n', '\r'),
        parts.1@ == open_tail(text@, '\n'),
{
    let mut lines: Vec<String> = Vec::new();
    let mut cur = String::new();
    let mut held_cr = false;
    for c in it: text.chars()
        invariant
            it.seq() == text@,
            texts(lines@) == complete_lines(text@.take(it.index()), '\n', '\r'),
            open_tail(text@.take(it.index()), '\n') == if held_cr {
                cur@.push('\r')
            } else {
                cur@
            },
            !held_cr ==> cur@.len() == 0 || cur@.last() != '\r',
    {
        proof {
            let seen = text@.take(it.index());
            assert(text@.take(it.index() + 1) == seen.push(c));
            lemma_push(seen, c, '\n', '\r');
        }
        if c == '\n' {
            proof {
                assert(strip_cr(open_tail(text@.take(it.index()), '\n'), '\r') == cur@);
            }
            lines.push(cur);
            cur = String::new();
            held_cr = false;
        } else {
            if held_cr {
                cur.push('\r');
            }
            if c == '\r' {
                held_cr = true;
            } else {
                cur.push(c);
                held_cr = false;
            }
        }
    }
    if held_cr {
        cur.push('\r');
    }
    proof {
        assert(text@.take(text@.len() as int) == text@);
    }
    (lines, cur)
}

/// All lines of `text`, each without its line ending: the terminated ones, then what
/// follows the last line feed if anything does.
pub fn text_lines(text: &str) -> (lines: Vec<String>)
    ensures
        texts(lines@) == all_lines(text@, '\n', '\r'),
{
    let (mut lines, tail) = split_text(text);
    if !tail.as_str().is_empty() {
        lines.push(tail);
    }
    lines
}

/// The line feed byte.
pub const LF: u8 = 10;

/// The carriage return byte.
pub const CR: u8 = 13;

/// The views of the byte vectors of `v`, in order.
pub open spec fn byte_views(v: Seq<Vec<u8>>) -> Seq<Seq<u8>> {
    v.map_values(|line: Vec<u8>| line@)
}

/// Cuts `content` into its terminated lines, each without its line ending, and its open
/// tail.
pub fn split_bytes(content: &[u8]) -> (parts: (Vec<Vec<u8>>, Vec<u8>))
    ensures
        byte_views(parts.0@) == complete_lines(content@, LF, CR),
        parts.1@ == open_tail(content@, LF),
{
    let mut lines: Vec<Vec<u8>> = Vec::new();
    let mut cur: Vec<u8> = Vec::new();
    let mut held_cr = false;
    let mut i: usize = 0;
    while i < content.len()
        invariant
            i <= content.len(),
            byte_views(lines@) == complete_lines(content@.take(i as int), LF, CR),
            open_tail(content@.take(i as int), LF) == if held_cr {
                cur@.push(CR)
            } else {
                cur@
            },
            !held_cr ==> cur@.len() == 0 || cur@.last() != CR,
        decreases content.len() - i,
    {
        let c = content[i];
        proof {
            let seen = content@.take(i as int);
            assert(content@.take(i + 1) == seen.push(c));
            lemma_push(seen, c, LF, CR);
        }
        if c == LF {
            proof {
                assert(strip_cr(open_tail(content@.take(i as int), LF), CR) == cur@);
            }
            lines.push(cur);
            cur = Vec::new();
            held_cr = false;
        } else {
            if held_cr {
                cur.push(CR);
            }
            if c == CR {
                held_cr = true;
            } else {
                cur.push(c);
                held_cr = false;
            }
        }
        i += 1;
    }
    if held_cr {
        cur.push(CR);
    }
    proof {
        assert(content@.take(content@.len() as int) == content@);
    }
    (lines, cur)
}

} // verus!
