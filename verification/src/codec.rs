//! Logs that arrive compressed.
//!
//! The daemon sends a task's output as one payload in the Snappy frame format. Decoding is
//! left to the `snap` crate. A payload that cannot be decoded ends in an error text, never
//! in a failure of the caller.

use std::io::Read;
use vstd::prelude::*;

verus! {

/// What `snap` decodes from `payload` when it is read to the end as text: the text, or the
/// error in its debug form.
pub uninterp spec fn snap_text(payload: Seq<u8>) -> Result<Seq<char>, Seq<char>>;

/// What `snap` decodes from `payload` when it is read to the end as bytes: the bytes that
/// were decoded before the payload ended or an error came, and that error as it is
/// displayed.
pub uninterp spec fn snap_bytes(payload: Seq<u8>) -> (Seq<u8>, Option<Seq<char>>);

/// A payload read to its end, or as far as it could be decoded.
#[derive(Clone, Debug, PartialEq, Eq)]
pub struct Decoded {
    /// What was decoded before the payload ended or the error came.
    pub data: Vec<u8>,
    /// The error that stopped the decoding, as it is displayed.
    pub error: Option<String>,
}

/// Reads `payload` through `snap::read::FrameDecoder` with `Read::read_to_string`. The
/// result is named `snap_text`. An empty payload is at its end before any frame is read,
/// so it decodes to the empty text.
#[verifier::external_body]
pub(crate) fn decode_text(payload: &[u8]) -> (decoded: Result<String, String>)
    ensures
        match decoded {
            Ok(text) => snap_text(payload@) == Ok::<Seq<char>, Seq<char>>(text@),
            Err(error) => snap_text(payload@) == Err::<Seq<char>, Seq<char>>(error@),
        },
        payload@.len() == 0 ==> decoded is Ok && decoded->Ok_0@.len() == 0,
{
    let mut text = String::new();
    match snap::read::FrameDecoder::new(payload).read_to_string(&mut text) {
        Ok(_) => Ok(text),
        Err(error) => Err(format!("{error:?}")),
    }
}

/// Reads `payload` through `snap::read::FrameDecoder` with `Read::read_to_end`, which
/// leaves in the buffer what was read before an error. The result is named `snap_bytes`.
/// An empty payload is at its end before any frame is read, so it decodes to no bytes and
/// no error.
#[verifier::external_body]
pub(crate) fn decode_bytes(payload: &[u8]) -> (decoded: Decoded)
    ensures
        snap_bytes(payload@) == (
            decoded.data@,
            match decoded.error {
                Some(error) => Some(error@),
                None => None,
            },
        ),
        payload@.len() == 0 ==> decoded.data@.len() == 0 && decoded.error is None,
{
    let mut data = Vec::new();
    match snap::read::FrameDecoder::new(payload).read_to_end(&mut data) {
        Ok(_) => Decoded { data, error: None },
        Err(error) => Decoded { data, error: Some(error.to_string()) },
    }
}

} // verus!
