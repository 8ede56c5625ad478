//! What a key text must meet before it is handed to the key grammar: every
//! index it writes lies below `usize::MAX`, so that the index plus one is
//! still a `usize`.
//!
//! The test is made on the bytes of the text. A digit is one byte, and no
//! byte of a longer character is a digit.

use vstd::prelude::*;
use crate::digits::{digits_end, is_digit, run_value, scan_number};

verus! {

/// A run of digits starts at `i`: a digit with no digit before it.
pub open spec fn run_start(text: Seq<u8>, i: int) -> bool {
    0 <= i < text.len() && is_digit(text[i]) && (i == 0 || !is_digit(text[i - 1]))
}

/// Every run of digits in the text writes a number below `usize::MAX`.
pub open spec fn indices_bounded(text: Seq<u8>) -> bool {
    forall|i: int| #[trigger] run_start(text, i) ==> run_value(text, i, digits_end(text, i)) < usize::MAX
}

/// Whether every run of digits in the text writes a number below
/// `usize::MAX`.
pub fn indices_are_bounded(text: &[u8]) -> (bounded: bool)
    ensures
        bounded == indices_bounded(text@),
{
    let limit: u64 = usize::MAX as u64;
    let mut i: usize = 0;
    while i < text.len()
        invariant
            i <= text@.len(),
            limit == usize::MAX,
            forall|k: int|
                0 <= k < i && #[trigger] run_start(text@, k) ==> run_value(
                    text@,
                    k,
                    digits_end(text@, k),
                ) < usize::MAX,
            i == 0 || i == text@.len() || !is_digit(text@[i - 1]) || !is_digit(text@[i as int]),
        decreases text@.len() - i,
    {
        if 48 <= text[i] && text[i] <= 57 {
            assert(run_start(text@, i as int));
            let (end, value) = scan_number(text, i);
            match value {
                Some(number) => {
                    if number >= limit {
                        return false;
                    }
                },
                None => {
                    return false;
                },
            }
            assert forall|k: int| 0 <= k < end && #[trigger] run_start(text@, k) implies run_value(
                text@,
                k,
                digits_end(text@, k),
            ) < usize::MAX by {
                if i < k {
                    assert(is_digit(text@[k - 1]));
                }
            }
            i = end;
        } else {
            i += 1;
        }
    }
    true
}

} // verus!
