//! Text for the progress line of a run.

use vstd::prelude::*;
use vstd::utf8::{decode_utf8, encode_utf8, is_char_boundary};

verus! {

/// What marks a text as cut short.
pub const ELLIPSIS: &'static str = "...";

/// `s` as it is where it takes at most `max` bytes; else the characters
/// that its first `max` bytes hold, followed by `ELLIPSIS`.
pub open spec fn shortened(s: Seq<char>, max: int) -> Seq<char> {
    if encode_utf8(s).len() <= max {
        s
    } else {
        decode_utf8(encode_utf8(s).subrange(0, max)) + ELLIPSIS@
    }
}

/// Cuts a text down to its first `max` bytes and marks the cut. A text that
/// is longer must have a character begin at byte `max`.
pub fn short_str(s: &str, max: usize) -> (short: String)
    requires
        max < encode_utf8(s@).len() ==> is_char_boundary(encode_utf8(s@), max as int),
    ensures
        short@ == shortened(s@, max as int),
{
    if s.as_bytes().len() <= max {
        s.to_owned()
    } else {
        let (head, _) = s.split_at(max);
        proof {
            vstd::utf8::encode_utf8_decode_utf8(head@);
            assert(encode_utf8(head@) == encode_utf8(s@).subrange(0, max as int));
        }
        head.to_owned().concat(ELLIPSIS)
    }
}

} // verus!
