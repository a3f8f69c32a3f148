//! Text helpers: decimal rendering of integers and ASCII case folding.

use vstd::prelude::*;
use vstd::string::*;

verus! {

/// The character that stands for a decimal digit.
pub open spec fn spec_digit(d: nat) -> char
    recommends
        d < 10,
{
    if d == 0 {
        '0'
    } else if d == 1 {
        '1'
    } else if d == 2 {
        '2'
    } else if d == 3 {
        '3'
    } else if d == 4 {
        '4'
    } else if d == 5 {
        '5'
    } else if d == 6 {
        '6'
    } else if d == 7 {
        '7'
    } else if d == 8 {
        '8'
    } else {
        '9'
    }
}

/// The decimal numeral of a natural number, most significant digit first,
/// without leading zeros (zero itself is the single digit `0`).
pub open spec fn spec_decimal(n: nat) -> Seq<char>
    decreases n,
{
    if n < 10 {
        seq![spec_digit(n)]
    } else {
        spec_decimal(n / 10).push(spec_digit(n % 10))
    }
}

/// The decimal numeral of an integer: a minus sign before the numeral of the
/// magnitude when the integer is negative.
pub open spec fn spec_signed_decimal(n: int) -> Seq<char> {
    if n < 0 {
        seq!['-'] + spec_decimal((-n) as nat)
    } else {
        spec_decimal(n as nat)
    }
}

/// ASCII lower-case folding of one character: `A`..`Z` move to `a`..`z`, every
/// other character stays.
pub open spec fn spec_ascii_lower(c: char) -> char {
    if 65 <= (c as u32) && (c as u32) <= 90 {
        (((c as u32) + 32) as u32) as char
    } else {
        c
    }
}

/// Two texts are equal up to the case of their ASCII letters.
pub open spec fn spec_eq_ignore_ascii_case(a: Seq<char>, b: Seq<char>) -> bool {
    &&& a.len() == b.len()
    &&& forall|i: int| 0 <= i < a.len() ==> spec_ascii_lower(#[trigger] a[i]) == spec_ascii_lower(b[i])
}

/// `str::eq_ignore_ascii_case` of the standard library. Its documentation
/// defines the result as the equality of the two strings after each is
/// folded to ASCII lower case; the contract says the same character by
/// character.
pub assume_specification[ str::eq_ignore_ascii_case ](a: &str, b: &str) -> (result: bool)
    ensures
        result == spec_eq_ignore_ascii_case(a@, b@),
;

fn digit_text(d: u64) -> (s: &'static str)
    requires
        d < 10,
    ensures
        s@ == seq![spec_digit(d as nat)],
{
    proof {
        reveal_strlit("0");
        reveal_strlit("1");
        reveal_strlit("2");
        reveal_strlit("3");
        reveal_strlit("4");
        reveal_strlit("5");
        reveal_strlit("6");
        reveal_strlit("7");
        reveal_strlit("8");
        reveal_strlit("9");
    }
    let s = if d == 0 {
        "0"
    } else if d == 1 {
        "1"
    } else if d == 2 {
        "2"
    } else if d == 3 {
        "3"
    } else if d == 4 {
        "4"
    } else if d == 5 {
        "5"
    } else if d == 6 {
        "6"
    } else if d == 7 {
        "7"
    } else if d == 8 {
        "8"
    } else {
        "9"
    };
    assert(s@ =~= seq![spec_digit(d as nat)]);
    s
}

/// Renders a natural number as its decimal numeral.
pub fn decimal_string(n: u64) -> (s: String)
    ensures
        s@ == spec_decimal(n as nat),
    decreases n,
{
    if n < 10 {
        String::from_str(digit_text(n))
    } else {
        let mut s = decimal_string(n / 10);
        let unit = digit_text(n % 10);
        s.append(unit);
        assert(s@ =~= spec_decimal((n / 10) as nat).push(spec_digit((n % 10) as nat)));
        s
    }
}

/// Renders a signed integer as its decimal numeral.
pub fn signed_decimal_string(n: i32) -> (s: String)
    ensures
        s@ == spec_signed_decimal(n as int),
{
    if n < 0 {
        let magnitude: u64 = (0 - (n as i64)) as u64;
        let digits = decimal_string(magnitude);
        proof {
            reveal_strlit("-");
        }
        let s = String::from_str("-").concat(digits.as_str());
        assert(s@ =~= seq!['-'] + spec_decimal((-(n as int)) as nat));
        s
    } else {
        decimal_string(n as u64)
    }
}

/// The number that a digit character stands for.
pub open spec fn spec_digit_value(c: char) -> nat {
    ((c as u32) - 48) as nat
}

/// The number that a sequence of digit characters denotes in base ten.
pub open spec fn spec_decimal_value(digits: Seq<char>) -> nat
    decreases digits.len(),
{
    if digits.len() == 0 {
        0
    } else {
        spec_decimal_value(digits.drop_last()) * 10 + spec_digit_value(digits.last())
    }
}

/// A numeral denotes the number it was made from, is never empty, and has no
/// leading zero unless it is the numeral of zero.
pub proof fn lemma_decimal_denotes(n: nat)
    ensures
        spec_decimal_value(spec_decimal(n)) == n,
        spec_decimal(n).len() >= 1,
        n > 0 ==> spec_decimal(n)[0] != '0',
    decreases n,
{
    if n < 10 {
        let numeral = spec_decimal(n);
        assert(numeral.drop_last().len() == 0);
        assert(numeral.last() == spec_digit(n));
        assert(spec_decimal_value(numeral.drop_last()) == 0);
    } else {
        lemma_decimal_denotes(n / 10);
        let front = spec_decimal(n / 10);
        let numeral = front.push(spec_digit(n % 10));
        assert(numeral.drop_last() =~= front);
        assert(numeral.last() == spec_digit(n % 10));
        assert(numeral[0] == front[0]);
    }
}

} // verus!
