use vstd::prelude::*;
use vstd::string::StrSliceExecFns;

verus! {

/// The largest guess a player may enter, in degrees.
pub const MAX_GUESS: u32 = 360;

pub open spec fn is_digit(c: char) -> bool {
    '0' <= c <= '9'
}

/// The value of a string of decimal digits.
pub open spec fn digits_value(s: Seq<char>) -> int
    decreases s.len(),
{
    if s.len() == 0 {
        0
    } else {
        digits_value(s.drop_last()) * 10 + (s.last() as int - '0' as int)
    }
}

/// The guess written in `s`: one or more decimal digits whose value is at
/// most `MAX_GUESS`; anything else is no guess.
pub open spec fn guess_spec(s: Seq<char>) -> Option<u32> {
    if s.len() > 0 && (forall|i: int| 0 <= i < s.len() ==> is_digit(#[trigger] s[i]))
        && digits_value(s) <= MAX_GUESS {
        Some(digits_value(s) as u32)
    } else {
        None
    }
}

pub open spec fn capped(v: int) -> int {
    if v > MAX_GUESS {
        MAX_GUESS + 1
    } else {
        v
    }
}

/// Reads a guess in degrees from the text the player entered.
pub fn parse_guess(s: &str) -> (r: Option<u32>)
    ensures
        r == guess_spec(s@),
        r is Some ==> r->0 <= MAX_GUESS,
{
    let n = s.unicode_len();
    if n == 0 {
        return None;
    }
    let mut v: u32 = 0;
    let mut i: usize = 0;
    while i < n
        invariant
            n == s@.len(),
            i <= n,
            forall|j: int| 0 <= j < i ==> is_digit(#[trigger] s@[j]),
            v as int == capped(digits_value(s@.take(i as int))),
            0 <= digits_value(s@.take(i as int)),
        decreases n - i,
    {
        let c = s.get_char(i);
        if !('0' <= c && c <= '9') {
            return None;
        }
        let d: u32 = (c as u32) - ('0' as u32);
        assert(s@.take(i as int + 1).drop_last() =~= s@.take(i as int));
        assert(s@.take(i as int + 1).last() == c);
        let next: u32 = v * 10 + d;
        v = if next > MAX_GUESS {
            MAX_GUESS + 1
        } else {
            next
        };
        i = i + 1;
    }
    assert(s@.take(n as int) =~= s@);
    if v <= MAX_GUESS {
        Some(v)
    } else {
        None
    }
}

} // verus!
