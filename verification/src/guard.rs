//! The output safety guard: the last step of a run, which refuses a result
//! that grew and then, if asked, ends the result with a line feed.

use vstd::prelude::*;
use vstd::utf8::{valid_utf8, valid_utf8_concat};

use crate::error::RunError;

verus! {

/// The byte that ends the result where a trailing line feed is asked for.
pub const LINE_FEED: u8 = 0x0a;

/// What the guard makes of `candidate`, for an input of `original_length`
/// bytes: the final bytes, or `None` where the candidate is refused.
///
/// The line feed is added after the lengths are compared, so it is never the
/// reason for a refusal.
pub open spec fn finalize_model(
    original_length: nat,
    candidate: Seq<u8>,
    allow_bigger_file: bool,
    append_newline: bool,
) -> Option<Seq<u8>> {
    if !allow_bigger_file && candidate.len() > original_length {
        None
    } else if append_newline {
        Some(candidate.push(LINE_FEED))
    } else {
        Some(candidate)
    }
}

/// A line feed at the end of well-formed UTF-8 leaves it well-formed.
pub proof fn lemma_line_feed_keeps_utf8(bytes: Seq<u8>)
    requires
        valid_utf8(bytes),
    ensures
        valid_utf8(bytes.push(LINE_FEED)),
{
    let tail = seq![LINE_FEED];
    assert(valid_utf8(tail)) by {
        reveal_with_fuel(valid_utf8, 2);
    }
    valid_utf8_concat(bytes, tail);
    assert(bytes.push(LINE_FEED) =~= bytes + tail);
}

/// Checks the candidate against the length of the input and finishes it.
///
/// Fails with `OutputTooLarge` exactly when the candidate is longer than the
/// input and `allow_bigger_file` is not set. Otherwise returns the candidate,
/// followed by one line feed if `append_newline` is set, and changed in no
/// other way.
pub fn finalize(
    original_length: usize,
    candidate: Vec<u8>,
    allow_bigger_file: bool,
    append_newline: bool,
) -> (r: Result<Vec<u8>, RunError>)
    ensures
        match r {
            Ok(out) => finalize_model(
                original_length as nat,
                candidate@,
                allow_bigger_file,
                append_newline,
            ) == Some(out@),
            Err(e) => e == RunError::OutputTooLarge && finalize_model(
                original_length as nat,
                candidate@,
                allow_bigger_file,
                append_newline,
            ) is None,
        },
        r is Err <==> !allow_bigger_file && candidate@.len() > original_length,
        r matches Ok(out) ==> (valid_utf8(candidate@) ==> valid_utf8(out@)),
{
    let mut buf = candidate;
    if !allow_bigger_file && buf.len() > original_length {
        return Err(RunError::OutputTooLarge);
    }
    // The line feed comes after the check: the result may grow by it, since
    // the caller asked for it.
    if append_newline {
        proof {
            if valid_utf8(buf@) {
                lemma_line_feed_keeps_utf8(buf@);
            }
        }
        buf.push(LINE_FEED);
    }
    Ok(buf)
}

} // verus!
