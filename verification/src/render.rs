//! Decimal rendering of the counter value.
//!
//! Viewer connections receive the value as its base-10 text form; this module
//! produces that text and pins down exactly which characters it holds.

use vstd::prelude::*;
use vstd::string::StringExecFns;
use crate::command::{all_dec_digits, digit_value, digits_value, is_dec_digit, spec_parse_u32};

verus! {

/// The character for the digit `d`.
pub open spec fn spec_digit_char(d: int) -> char {
    if d == 0 {
        '0'
    } else if d == 1 {
        '1'
    } else if d == 2 {
        '2'
    } else if d == 3 {
        '3'
    } else if d == 4 {
        '4'
    } else if d == 5 {
        '5'
    } else if d == 6 {
        '6'
    } else if d == 7 {
        '7'
    } else if d == 8 {
        '8'
    } else {
        '9'
    }
}

/// The base-10 text of `n`, most significant digit first, no leading zeros
/// except for `n == 0` itself.
pub open spec fn spec_decimal(n: nat) -> Seq<char>
    decreases n,
{
    if n < 10 {
        seq![spec_digit_char(n as int)]
    } else {
        spec_decimal(n / 10) + seq![spec_digit_char((n % 10) as int)]
    }
}

/// The one-character string for the digit `d`.
fn digit_str(d: u32) -> (r: &'static str)
    requires
        d < 10,
    ensures
        r@ == seq![spec_digit_char(d as int)],
{
    proof {
        reveal_strlit("0");
        reveal_strlit("1");
        reveal_strlit("2");
        reveal_strlit("3");
        reveal_strlit("4");
        reveal_strlit("5");
        reveal_strlit("6");
        reveal_strlit("7");
        reveal_strlit("8");
        reveal_strlit("9");
    }
    let r = if d == 0 {
        "0"
    } else if d == 1 {
        "1"
    } else if d == 2 {
        "2"
    } else if d == 3 {
        "3"
    } else if d == 4 {
        "4"
    } else if d == 5 {
        "5"
    } else if d == 6 {
        "6"
    } else if d == 7 {
        "7"
    } else if d == 8 {
        "8"
    } else {
        "9"
    };
    proof {
        assert(r@ =~= seq![spec_digit_char(d as int)]);
    }
    r
}

/// The base-10 text of a number is made of digits alone.
proof fn lemma_decimal_all_digits(n: nat)
    ensures
        spec_decimal(n).len() >= 1,
        all_dec_digits(spec_decimal(n)),
    decreases n,
{
    assert(is_dec_digit(spec_digit_char((n % 10) as int)));
    if n < 10 {
        assert(is_dec_digit(spec_digit_char(n as int)));
    } else {
        lemma_decimal_all_digits(n / 10);
    }
}

/// The base-10 text of a number denotes that number.
proof fn lemma_decimal_value(n: nat)
    ensures
        digits_value(spec_decimal(n)) == n,
    decreases n,
{
    if n < 10 {
        assert(digits_value(Seq::<char>::empty()) == 0);
        assert(spec_decimal(n).drop_last() =~= Seq::<char>::empty());
        assert(spec_decimal(n).last() == spec_digit_char(n as int));
        assert(digit_value(spec_digit_char(n as int)) == n);
    } else {
        lemma_decimal_value(n / 10);
        let s = spec_decimal(n);
        assert(s.drop_last() =~= spec_decimal(n / 10));
        assert(s.last() == spec_digit_char((n % 10) as int));
        assert(digit_value(s.last()) == n % 10);
        assert(n / 10 * 10 + n % 10 == n) by (nonlinear_arith);
    }
}

/// Rendering then parsing is the identity: the base-10 text of a value
/// denotes exactly that value under the `!scremset` argument grammar.
pub proof fn lemma_decimal_round_trip(value: u32)
    ensures
        spec_parse_u32(spec_decimal(value as nat)) == Some(value),
{
    lemma_decimal_all_digits(value as nat);
    lemma_decimal_value(value as nat);
    assert(spec_decimal(value as nat)[0] != '+');
}

/// The base-10 text of `value`.
pub fn render_value(value: u32) -> (r: String)
    ensures
        r@ == spec_decimal(value as nat),
    decreases value,
{
    if value < 10 {
        String::from_str(digit_str(value))
    } else {
        let mut s = render_value(value / 10);
        s.append(digit_str(value % 10));
        proof {
            assert(s@ =~= spec_decimal(value as nat));
        }
        s
    }
}

} // verus!
