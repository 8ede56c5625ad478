//! Runs of decimal digits in a text of bytes, and the numbers they write.

use vstd::prelude::*;

verus! {

/// An ASCII decimal digit.
pub open spec fn is_digit(b: u8) -> bool {
    48 <= b <= 57
}

/// The first position at or after `start` that holds no digit.
pub open spec fn digits_end(text: Seq<u8>, start: int) -> int
    decreases text.len() - start,
{
    if start < 0 || start >= text.len() || !is_digit(text[start]) {
        start
    } else {
        digits_end(text, start + 1)
    }
}

/// The number that the digits from `start` up to `end` write in base ten.
pub open spec fn run_value(text: Seq<u8>, start: int, end: int) -> nat
    decreases end - start,
{
    if end <= start {
        0
    } else {
        run_value(text, start, end - 1) * 10 + (text[end - 1] - 48) as nat
    }
}

/// Reads the run of digits that starts at `start`: where it ends, and its
/// value where that fits in 64 bits.
pub fn scan_number(text: &[u8], start: usize) -> (r: (usize, Option<u64>))
    requires
        start <= text@.len(),
    ensures
        r.0 == digits_end(text@, start as int),
        start <= r.0 <= text@.len(),
        r.1 is Some <==> run_value(text@, start as int, r.0 as int) <= u64::MAX,
        r.1 is Some ==> r.1->0 == run_value(text@, start as int, r.0 as int),
        forall|k: int| start <= k < r.0 ==> is_digit(#[trigger] text@[k]),
        r.0 < text@.len() ==> !is_digit(text@[r.0 as int]),
{
    let mut i: usize = start;
    let mut value: Option<u64> = Some(0);
    while i < text.len() && 48 <= text[i] && text[i] <= 57
        invariant
            start <= i <= text@.len(),
            digits_end(text@, start as int) == digits_end(text@, i as int),
            value is Some <==> run_value(text@, start as int, i as int) <= u64::MAX,
            value is Some ==> value->0 == run_value(text@, start as int, i as int),
            forall|k: int| start <= k < i ==> is_digit(#[trigger] text@[k]),
        decreases text@.len() - i,
    {
        let digit: u64 = (text[i] - 48) as u64;
        assert(run_value(text@, start as int, i + 1) == run_value(text@, start as int, i as int) * 10
            + digit);
        value = match value {
            Some(v) => if v > (u64::MAX - digit) / 10 {
                None
            } else {
                Some(v * 10 + digit)
            },
            None => None,
        };
        i += 1;
    }
    (i, value)
}

} // verus!
