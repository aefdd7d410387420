//! Stamping the lines of text that arrives in fragments.
//!
//! A fragment may end in the middle of a line. What is read of a line that is not
//! terminated yet is carried over to the next fragment and shown only once its line feed
//! has come, or when whoever carries it says that no more will come. Text is carried as
//! text; bytes are carried as bytes and read as text line by line, so that a fragment may
//! also end in the middle of a character.

use crate::lines::{
    byte_views, complete_lines, join_terminated, lemma_no_crlf, lemma_rejoin, lemma_two_parts,
    no_crlf, open_tail, split_bytes, split_text, texts, CR, LF,
};
use crate::stamp::{all_stamped, plain_texts, stamp_lines, StampedLine};
use crate::text::{read_text, texts_of};
use vstd::prelude::*;
use vstd::string::StringExecFns;

verus! {

/// Takes the next fragment of a text. Returns the lines that `carry` and `fragment`
/// complete, each stamped with the current local time, and leaves in `carry` what follows
/// the last line feed.
pub fn annotate(fragment: &str, carry: &mut String) -> (lines: Vec<StampedLine>)
    ensures
        plain_texts(lines@) == complete_lines(old(carry)@ + fragment@, '\n', '\r'),
        all_stamped(lines@),
        final(carry)@ == open_tail(old(carry)@ + fragment@, '\n'),
{
    let mut whole = carry.clone();
    whole.append(fragment);
    let (lines, tail) = split_text(whole.as_str());
    *carry = tail;
    stamp_lines(lines)
}

/// Takes the next bytes of a log. Returns the lines that `carry` and `fragment` complete,
/// each read as text and stamped with the current local time, and leaves in `carry` the
/// bytes that follow the last line feed. A character whose bytes come in two fragments is
/// whole again in its line.
pub fn annotate_bytes(fragment: &[u8], carry: &mut Vec<u8>) -> (lines: Vec<StampedLine>)
    ensures
        plain_texts(lines@) == texts_of(complete_lines(old(carry)@ + fragment@, LF, CR)),
        all_stamped(lines@),
        final(carry)@ == open_tail(old(carry)@ + fragment@, LF),
{
    let mut whole: Vec<u8> = carry.clone();
    let mut i: usize = 0;
    while i < fragment.len()
        invariant
            i <= fragment.len(),
            whole@ == old(carry)@ + fragment@.take(i as int),
        decreases fragment.len() - i,
    {
        whole.push(fragment[i]);
        proof {
            assert(fragment@.take(i + 1) == fragment@.take(i as int).push(fragment@[i as int]));
        }
        i += 1;
    }
    proof {
        assert(fragment@.take(fragment@.len() as int) == fragment@);
    }
    let (cut, tail) = split_bytes(whole.as_slice());
    *carry = tail;
    let mut read: Vec<String> = Vec::new();
    let mut k: usize = 0;
    while k < cut.len()
        invariant
            k <= cut.len(),
            texts(read@) == texts_of(byte_views(cut@).take(k as int)),
        decreases cut.len() - k,
    {
        let text = read_text(cut[k].as_slice());
        proof {
            let lines = byte_views(cut@);
            assert(lines.take(k + 1) == lines.take(k as int).push(cut@[k as int]@));
            assert(texts_of(lines.take(k as int).push(cut@[k as int]@)) == texts_of(
                lines.take(k as int),
            ).push(text@));
            assert(texts(read@.push(text)) == texts(read@).push(text@));
        }
        read.push(text);
        k += 1;
    }
    proof {
        assert(byte_views(cut@).take(cut@.len() as int) == byte_views(cut@));
    }
    stamp_lines(read)
}

/// The parts one after the other.
pub open spec fn flat<T>(parts: Seq<Seq<T>>) -> Seq<T>
    decreases parts.len(),
{
    if parts.len() == 0 {
        Seq::empty()
    } else {
        flat(parts.drop_last()) + parts.last()
    }
}

/// What feeding the fragments one by one gives, starting with nothing carried: all lines
/// that were completed, in order, and what is carried at the end.
pub open spec fn fed<T>(fragments: Seq<Seq<T>>, nl: T, cr: T) -> (Seq<Seq<T>>, Seq<T>)
    decreases fragments.len(),
{
    if fragments.len() == 0 {
        (Seq::empty(), Seq::empty())
    } else {
        let before = fed(fragments.drop_last(), nl, cr);
        let whole = before.1 + fragments.last();
        (before.0 + complete_lines(whole, nl, cr), open_tail(whole, nl))
    }
}

/// Where a text is cut into fragments does not matter: feeding the fragments one by one
/// completes the same lines, and carries the same remainder at the end, as cutting the
/// whole text at once.
pub proof fn lemma_fragments_do_not_matter<T>(fragments: Seq<Seq<T>>, nl: T, cr: T)
    ensures
        fed(fragments, nl, cr).0 == complete_lines(flat(fragments), nl, cr),
        fed(fragments, nl, cr).1 == open_tail(flat(fragments), nl),
    decreases fragments.len(),
{
    if fragments.len() > 0 {
        lemma_fragments_do_not_matter(fragments.drop_last(), nl, cr);
        lemma_two_parts(flat(fragments.drop_last()), fragments.last(), nl, cr);
    }
}

/// Nothing is lost: if no line feed of the text stands behind a carriage return, then the
/// completed lines, each with its line feed put back, followed by what is carried at the
/// end, are the text, wherever it was cut into fragments.
pub proof fn lemma_nothing_lost<T>(fragments: Seq<Seq<T>>, nl: T, cr: T)
    requires
        no_crlf(flat(fragments), nl, cr),
    ensures
        join_terminated(fed(fragments, nl, cr).0, nl) + fed(fragments, nl, cr).1 == flat(
            fragments,
        ),
{
    lemma_fragments_do_not_matter(fragments, nl, cr);
    lemma_no_crlf(flat(fragments), nl, cr);
    lemma_rejoin(flat(fragments), nl);
}

} // verus!
