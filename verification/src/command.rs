//! The command grammar of the chat listener.
//!
//! A chat line is classified into one of four commands or ignored. The
//! `!scremset` argument is parsed as a decimal `u32` the way `u32::from_str`
//! does it: an optional leading `+`, then one or more decimal digits, and the
//! value must fit; anything else is a parse failure, which the listener treats
//! as a no-op.

use vstd::prelude::*;
use vstd::string::StrSliceExecFns;
use crate::text::str_eq;

verus! {

/// A chat line, classified against the command grammar.
#[derive(PartialEq, Eq, Structural, Clone, Copy, Debug)]
pub enum Command {
    /// `!screm`: increment the counter.
    Screm,
    /// `!noscrem`: decrement the counter, floored at zero (edit-level).
    Noscrem,
    /// `!reset`: set the counter to zero (reset-level).
    Reset,
    /// `!scremset <value>` with a well-formed value (reset-level).
    SetTo(u32),
    /// Anything else, including `!scremset` with a malformed value.
    Other,
}

/// `c` is an ASCII decimal digit.
pub open spec fn is_dec_digit(c: char) -> bool {
    48 <= c as int <= 57
}

/// The numeric value of the digit `c`.
pub open spec fn digit_value(c: char) -> int {
    c as int - 48
}

/// Every character of `s` is a decimal digit.
pub open spec fn all_dec_digits(s: Seq<char>) -> bool {
    forall|i: int| 0 <= i < s.len() ==> is_dec_digit(s[i])
}

/// The number denoted by the digit string `s`, most significant digit first.
pub open spec fn digits_value(s: Seq<char>) -> int
    decreases s.len(),
{
    if s.len() == 0 {
        0
    } else {
        digits_value(s.drop_last()) * 10 + digit_value(s.last())
    }
}

/// The value denoted by `s` as a decimal `u32`: an optional leading `+`, then
/// one or more digits, and the value within range; `None` otherwise.
pub open spec fn spec_parse_u32(s: Seq<char>) -> Option<u32> {
    let digits = if s.len() > 0 && s[0] == '+' {
        s.skip(1)
    } else {
        s
    };
    if digits.len() > 0 && all_dec_digits(digits) && digits_value(digits) <= u32::MAX {
        Some(digits_value(digits) as u32)
    } else {
        None
    }
}

/// A digit string denotes a non-negative number.
proof fn lemma_digits_value_nonneg(s: Seq<char>)
    requires
        all_dec_digits(s),
    ensures
        digits_value(s) >= 0,
    decreases s.len(),
{
    if s.len() > 0 {
        assert(all_dec_digits(s.drop_last()));
        lemma_digits_value_nonneg(s.drop_last());
    }
}

/// A digit string denotes at least as much as any of its prefixes.
proof fn lemma_digits_value_prefix_le(s: Seq<char>, k: int)
    requires
        all_dec_digits(s),
        0 <= k <= s.len(),
    ensures
        digits_value(s.take(k)) <= digits_value(s),
    decreases s.len(),
{
    if k == s.len() {
        assert(s.take(k) =~= s);
    } else {
        assert(all_dec_digits(s.drop_last()));
        assert(s.take(k) =~= s.drop_last().take(k));
        lemma_digits_value_prefix_le(s.drop_last(), k);
        lemma_digits_value_nonneg(s.drop_last());
    }
}

/// Extending a digit prefix by one digit multiplies its value by ten and adds
/// the digit.
proof fn lemma_digits_value_step(s: Seq<char>, k: int)
    requires
        0 <= k < s.len(),
    ensures
        digits_value(s.take(k + 1)) == digits_value(s.take(k)) * 10 + digit_value(s[k]),
{
    assert(s.take(k + 1).drop_last() =~= s.take(k));
    assert(s.take(k + 1).last() == s[k]);
}

/// Parse `s` as a decimal `u32`, accepting what `u32::from_str` accepts.
pub fn parse_u32(s: &str) -> (r: Option<u32>)
    ensures
        r == spec_parse_u32(s@),
{
    let n = s.unicode_len();
    if n == 0 {
        return None;
    }
    let start: usize = if s.get_char(0) == '+' {
        1
    } else {
        0
    };
    let ghost digits: Seq<char> = if start == 1 {
        s@.skip(1)
    } else {
        s@
    };
    if start == n {
        // a lone `+` has no digits
        assert(digits.len() == 0);
        return None;
    }
    let mut value: u32 = 0;
    let mut i: usize = start;
    while i < n
        invariant
            n == s@.len(),
            start <= i <= n,
            start <= 1,
            start == 1 ==> s@[0] == '+',
            start == 0 ==> !(s@.len() > 0 && s@[0] == '+'),
            digits == (if start == 1 {
                s@.skip(1)
            } else {
                s@
            }),
            digits.len() == n - start,
            forall|j: int| 0 <= j < digits.len() ==> digits[j] == s@[j + start],
            all_dec_digits(digits.take(i - start)),
            value == digits_value(digits.take(i - start)),
        decreases n - i,
    {
        let c = s.get_char(i);
        let cv = c as u32;
        if cv < 48 || cv > 57 {
            assert(!is_dec_digit(digits[i - start]));
            return None;
        }
        let d = cv - 48;
        proof {
            lemma_digits_value_step(digits, i - start);
        }
        let scaled = value.checked_mul(10);
        let next = match scaled {
            Some(v) => v.checked_add(d),
            None => None,
        };
        match next {
            Some(v) => {
                value = v;
            },
            None => {
                // the prefix through this digit already exceeds u32::MAX; if
                // the remaining characters are all digits too, the whole
                // string denotes even more
                proof {
                    if all_dec_digits(digits) {
                        lemma_digits_value_prefix_le(digits, i - start + 1);
                    }
                }
                return None;
            },
        }
        i += 1;
    }
    proof {
        assert(digits.take(i - start) =~= digits);
    }
    Some(value)
}

/// The command denoted by a chat line: the three exact-match commands,
/// `!scremset` with a well-formed argument, or nothing.
pub open spec fn spec_parse_command(text: Seq<char>) -> Command {
    if text == "!screm"@ {
        Command::Screm
    } else if text == "!noscrem"@ {
        Command::Noscrem
    } else if text == "!reset"@ {
        Command::Reset
    } else if text.len() >= 10 && text.take(10) == "!scremset "@ {
        match spec_parse_u32(text.skip(10)) {
            Some(v) => Command::SetTo(v),
            None => Command::Other,
        }
    } else {
        Command::Other
    }
}

/// Classify a chat line against the command grammar.
pub fn parse_command(text: &str) -> (c: Command)
    ensures
        c == spec_parse_command(text@),
{
    if str_eq(text, "!screm") {
        return Command::Screm;
    }
    if str_eq(text, "!noscrem") {
        return Command::Noscrem;
    }
    if str_eq(text, "!reset") {
        return Command::Reset;
    }
    let n = text.unicode_len();
    if n >= 10 {
        let prefix = text.substring_char(0, 10);
        if str_eq(prefix, "!scremset ") {
            let rest = text.substring_char(10, n);
            return match parse_u32(rest) {
                Some(v) => Command::SetTo(v),
                None => Command::Other,
            };
        }
    }
    Command::Other
}

} // verus!
