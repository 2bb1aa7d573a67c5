//! The decision logic of the interactive chooser: validating a typed
//! answer against the number of choices on offer.

use vstd::prelude::*;

verus! {

/// Errors of the interactive command line.
#[derive(Debug)]
pub enum CliError {
    /// An input/output failure, carrying its description.
    Io(String),
}

/// Whether a character is a decimal digit.
pub open spec fn is_digit(c: char) -> bool {
    '0' <= c && c <= '9'
}

/// The value of a decimal digit.
pub open spec fn digit_val(c: char) -> int {
    c as int - '0' as int
}

/// Whether a string is all decimal digits.
pub open spec fn all_digits(s: Seq<char>) -> bool {
    forall|i: int| 0 <= i < s.len() ==> is_digit(#[trigger] s[i])
}

/// The number a digit string denotes.
pub open spec fn dec_value(s: Seq<char>) -> int
    decreases s.len(),
{
    if s.len() == 0 {
        0
    } else {
        dec_value(s.drop_last()) * 10 + digit_val(s.last())
    }
}

/// The digits of a number with an optional leading plus sign removed.
pub open spec fn digits_part(s: Seq<char>) -> Seq<char> {
    if s.len() > 0 && s[0] == '+' {
        s.drop_first()
    } else {
        s
    }
}

proof fn lemma_dec_value_bounds(s: Seq<char>)
    requires
        all_digits(s),
    ensures
        dec_value(s) >= 0,
        s.len() > 0 ==> dec_value(s) >= dec_value(s.drop_last()),
    decreases s.len(),
{
    if s.len() > 0 {
        assert(forall|i: int|
            0 <= i < s.drop_last().len() ==> is_digit(#[trigger] s.drop_last()[i]));
        lemma_dec_value_bounds(s.drop_last());
        assert(is_digit(s.last()));
    }
}

/// Parse a non-negative decimal number, allowing one leading plus sign.
/// `Some(k)` exactly when the digits denote `k` and `k` fits in a u32.
pub fn parse_u32(s: &str) -> (r: Option<u32>)
    ensures
        match r {
            Some(k) => {
                &&& all_digits(digits_part(s@))
                &&& digits_part(s@).len() > 0
                &&& dec_value(digits_part(s@)) == k as int
            },
            None => !(all_digits(digits_part(s@)) && digits_part(s@).len() > 0 && dec_value(
                digits_part(s@),
            ) <= u32::MAX),
        },
{
    let len = s.unicode_len();
    let mut start: usize = 0;
    if len > 0 && s.get_char(0) == '+' {
        start = 1;
    }
    let ghost dp = digits_part(s@);
    proof {
        if start == 1 {
            assert(dp =~= s@.drop_first());
        } else {
            assert(dp =~= s@);
        }
    }
    if start >= len {
        return None;
    }
    let mut acc: u32 = 0;
    let mut i: usize = start;
    proof {
        assert(dp.take(0) =~= Seq::<char>::empty());
    }
    while i < len
        invariant
            start <= i <= len,
            len == s@.len(),
            start == 0 || start == 1,
            start == 1 ==> s@[0] == '+' && dp =~= s@.drop_first(),
            start == 0 ==> dp =~= s@ && (len == 0 || s@[0] != '+'),
            dp == digits_part(s@),
            dp.len() == len - start,
            forall|j: int| 0 <= j < i - start ==> is_digit(#[trigger] dp[j]),
            acc as int == dec_value(dp.take(i - start)),
        decreases len - i,
    {
        let c = s.get_char(i);
        assert(dp[i - start] == s@[i as int]);
        if c < '0' || c > '9' {
            assert(!is_digit(dp[i - start]));
            assert(!all_digits(dp));
            return None;
        }
        let d: u32 = (c as u32) - 48;
        assert(d == digit_val(dp[i - start])) by {
            assert(c as int - '0' as int == c as u32 - 48);
        }
        proof {
            assert(dp.take(i - start + 1).drop_last() =~= dp.take(i - start));
            assert(dp.take(i - start + 1).last() == dp[i - start]);
        }
        let wide: u64 = (acc as u64) * 10 + (d as u64);
        proof {
            assert(dec_value(dp.take(i - start + 1)) == wide as int);
        }
        if wide > u32::MAX as u64 {
            proof {
                let done = dp.take(i - start + 1);
                assert(dec_value(done) > u32::MAX);
                if all_digits(dp) {
                    lemma_dec_value_grows(dp, i - start + 1);
                }
            }
            return None;
        }
        acc = wide as u32;
        i = i + 1;
    }
    proof {
        assert(dp.take(dp.len() as int) =~= dp);
    }
    Some(acc)
}

/// A digit string is worth at least any of its prefixes.
proof fn lemma_dec_value_grows(s: Seq<char>, i: int)
    requires
        0 <= i <= s.len(),
        all_digits(s),
    ensures
        dec_value(s) >= dec_value(s.take(i)),
    decreases s.len() - i,
{
    if i < s.len() {
        lemma_dec_value_grows(s, i + 1);
        assert(s.take(i + 1).drop_last() =~= s.take(i));
        assert(forall|j: int| 0 <= j < i + 1 ==> is_digit(#[trigger] s.take(i + 1)[j]));
        lemma_dec_value_bounds(s.take(i + 1));
    } else {
        assert(s.take(i) =~= s);
    }
}

/// Judge a typed answer against `num_choices` numbered choices: accepted
/// exactly when it denotes a number between one and the number of choices.
pub fn parse_choice(input: &str, num_choices: u32) -> (r: Option<u32>)
    ensures
        match r {
            Some(k) => {
                &&& all_digits(digits_part(input@))
                &&& digits_part(input@).len() > 0
                &&& dec_value(digits_part(input@)) == k as int
                &&& 1 <= k <= num_choices
            },
            None => !(all_digits(digits_part(input@)) && digits_part(input@).len() > 0 && 1
                <= dec_value(digits_part(input@)) <= num_choices),
        },
{
    match parse_u32(input) {
        Some(k) => if 1 <= k && k <= num_choices {
            Some(k)
        } else {
            None
        },
        None => {
            proof {
                if all_digits(digits_part(input@)) && digits_part(input@).len() > 0 {
                    lemma_dec_value_bounds(digits_part(input@));
                }
            }
            None
        },
    }
}

} // verus!
