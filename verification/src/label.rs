//! Decimal text for slider labels.
//!
//! The slider shows its live value rendered to a configured number of
//! decimal places with trailing zero digits stripped afterwards, and its
//! bounds as plain decimal numbers. Domain values are integers, so the
//! fractional places are always zeros: rendering and stripping reduce to
//! the decimal digits, a sign, and an optional trailing separator.

use vstd::prelude::*;

verus! {

/// The digit character of `d`, for `0 <= d <= 9`.
pub open spec fn spec_digit_char(d: int) -> char {
    if d == 0 {
        '0'
    } else if d == 1 {
        '1'
    } else if d == 2 {
        '2'
    } else if d == 3 {
        '3'
    } else if d == 4 {
        '4'
    } else if d == 5 {
        '5'
    } else if d == 6 {
        '6'
    } else if d == 7 {
        '7'
    } else if d == 8 {
        '8'
    } else {
        '9'
    }
}

/// The decimal digits of a nonnegative number, most significant first.
pub open spec fn spec_decimal_nat(n: nat) -> Seq<char>
    decreases n,
{
    if n < 10 {
        seq![spec_digit_char(n as int)]
    } else {
        spec_decimal_nat(n / 10) + seq![spec_digit_char((n % 10) as int)]
    }
}

/// The decimal form of a number, with a leading minus sign when negative.
pub open spec fn spec_decimal(v: int) -> Seq<char> {
    if v < 0 {
        seq!['-'] + spec_decimal_nat((-v) as nat)
    } else {
        spec_decimal_nat(v as nat)
    }
}

/// `s` without its trailing `'0'` characters.
pub open spec fn spec_trim_zeros(s: Seq<char>) -> Seq<char>
    decreases s.len(),
{
    if s.len() > 0 && s.last() == '0' {
        spec_trim_zeros(s.drop_last())
    } else {
        s
    }
}

/// A value rendered to `precision` decimal places with trailing zeros then
/// stripped. Whole values keep a bare trailing separator when `precision`
/// is positive, exactly as the rendering host leaves it.
pub open spec fn spec_value_label(v: int, precision: nat) -> Seq<char> {
    if precision > 0 {
        spec_decimal(v) + seq!['.']
    } else {
        spec_trim_zeros(spec_decimal(v))
    }
}

fn digit_str(d: u64) -> (r: &'static str)
    requires
        d < 10,
    ensures
        r@ == seq![spec_digit_char(d as int)],
{
    if d == 0 {
        proof {
            reveal_strlit("0");
            assert("0"@ =~= seq![spec_digit_char(0)]);
        }
        "0"
    } else if d == 1 {
        proof {
            reveal_strlit("1");
            assert("1"@ =~= seq![spec_digit_char(1)]);
        }
        "1"
    } else if d == 2 {
        proof {
            reveal_strlit("2");
            assert("2"@ =~= seq![spec_digit_char(2)]);
        }
        "2"
    } else if d == 3 {
        proof {
            reveal_strlit("3");
            assert("3"@ =~= seq![spec_digit_char(3)]);
        }
        "3"
    } else if d == 4 {
        proof {
            reveal_strlit("4");
            assert("4"@ =~= seq![spec_digit_char(4)]);
        }
        "4"
    } else if d == 5 {
        proof {
            reveal_strlit("5");
            assert("5"@ =~= seq![spec_digit_char(5)]);
        }
        "5"
    } else if d == 6 {
        proof {
            reveal_strlit("6");
            assert("6"@ =~= seq![spec_digit_char(6)]);
        }
        "6"
    } else if d == 7 {
        proof {
            reveal_strlit("7");
            assert("7"@ =~= seq![spec_digit_char(7)]);
        }
        "7"
    } else if d == 8 {
        proof {
            reveal_strlit("8");
            assert("8"@ =~= seq![spec_digit_char(8)]);
        }
        "8"
    } else {
        proof {
            reveal_strlit("9");
            assert("9"@ =~= seq![spec_digit_char(9)]);
        }
        "9"
    }
}

/// The decimal digits of `n`.
pub fn decimal_u64(n: u64) -> (s: String)
    ensures
        s@ == spec_decimal_nat(n as nat),
    decreases n,
{
    if n < 10 {
        digit_str(n).to_owned()
    } else {
        let mut s = decimal_u64(n / 10);
        s.append(digit_str(n % 10));
        s
    }
}

/// The decimal form of `v`, with a minus sign when negative.
pub fn decimal_i64(v: i64) -> (s: String)
    ensures
        s@ == spec_decimal(v as int),
{
    if v >= 0 {
        decimal_u64(v as u64)
    } else {
        let n: u64 = (-(v as i128)) as u64;
        let mut s = "-".to_owned();
        proof {
            reveal_strlit("-");
            assert("-"@ =~= seq!['-']);
        }
        let digits = decimal_u64(n);
        s.append(digits.as_str());
        s
    }
}

/// Unfolding of the digits of a number with at least two of them.
proof fn lemma_decimal_step(n: nat)
    requires
        n >= 10,
    ensures
        spec_decimal_nat(n) == spec_decimal_nat(n / 10) + seq![spec_digit_char((n % 10) as int)],
        spec_decimal_nat(n).drop_last() == spec_decimal_nat(n / 10),
        spec_decimal_nat(n).last() == spec_digit_char((n % 10) as int),
{
    assert(spec_decimal_nat(n).drop_last() =~= spec_decimal_nat(n / 10));
}

/// The digits of a positive number do not strip to nothing: their first
/// digit is not zero, so a nonzero digit survives the stripping.
proof fn lemma_trim_positive(n: nat)
    requires
        n > 0,
    ensures
        spec_trim_zeros(spec_decimal_nat(n)).len() > 0,
    decreases n,
{
    if n < 10 {
        assert(spec_digit_char(n as int) != '0');
    } else {
        lemma_decimal_step(n);
        if n % 10 == 0 {
            lemma_trim_positive(n / 10);
        }
    }
}

/// Stripping trailing zeros passes over an untouched prefix as long as
/// something of the suffix survives.
proof fn lemma_trim_concat(prefix: Seq<char>, s: Seq<char>)
    requires
        spec_trim_zeros(s).len() > 0,
    ensures
        spec_trim_zeros(prefix + s) == prefix + spec_trim_zeros(s),
    decreases s.len(),
{
    if s.len() > 0 && s.last() == '0' {
        assert((prefix + s).last() == s.last());
        assert((prefix + s).drop_last() =~= prefix + s.drop_last());
        lemma_trim_concat(prefix, s.drop_last());
    } else {
        assert(s.len() > 0);
        assert((prefix + s).last() == s.last());
    }
}

/// The decimal digits of `n` with trailing zeros stripped.
fn trimmed_decimal_u64(n: u64) -> (s: String)
    ensures
        s@ == spec_trim_zeros(spec_decimal_nat(n as nat)),
    decreases n,
{
    if n == 0 {
        let s = String::new();
        proof {
            assert(spec_decimal_nat(0) =~= seq!['0']);
            assert(spec_decimal_nat(0).drop_last() =~= Seq::<char>::empty());
            assert(spec_trim_zeros(Seq::<char>::empty()) == Seq::<char>::empty());
            assert(spec_trim_zeros(spec_decimal_nat(0)) == Seq::<char>::empty());
        }
        s
    } else if n % 10 == 0 {
        proof {
            lemma_decimal_step(n as nat);
        }
        trimmed_decimal_u64(n / 10)
    } else {
        proof {
            if n >= 10 {
                lemma_decimal_step(n as nat);
            }
            assert(spec_digit_char((n % 10) as int) != '0');
        }
        decimal_u64(n)
    }
}

/// The live-value label: `v` rendered to `precision` decimal places, with
/// trailing zero digits stripped afterwards.
pub fn value_label(v: i64, precision: usize) -> (s: String)
    ensures
        s@ == spec_value_label(v as int, precision as nat),
{
    if precision > 0 {
        let mut s = decimal_i64(v);
        s.append(".");
        proof {
            reveal_strlit(".");
            assert("."@ =~= seq!['.']);
        }
        s
    } else if v >= 0 {
        trimmed_decimal_u64(v as u64)
    } else {
        let n: u64 = (-(v as i128)) as u64;
        proof {
            lemma_trim_positive(n as nat);
            lemma_trim_concat(seq!['-'], spec_decimal_nat(n as nat));
        }
        let mut s = "-".to_owned();
        proof {
            reveal_strlit("-");
            assert("-"@ =~= seq!['-']);
        }
        let digits = trimmed_decimal_u64(n);
        s.append(digits.as_str());
        s
    }
}

} // verus!
