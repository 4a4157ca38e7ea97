//! Decimal formatting of the unit counts that appear in the countdown
//! label.

use vstd::prelude::*;

verus! {

use vstd::string::StringExecFns;

/// The decimal digit character for a value below ten.
pub open spec fn dec_digit_char(d: int) -> char {
    if d == 0 {
        '0'
    } else if d == 1 {
        '1'
    } else if d == 2 {
        '2'
    } else if d == 3 {
        '3'
    } else if d == 4 {
        '4'
    } else if d == 5 {
        '5'
    } else if d == 6 {
        '6'
    } else if d == 7 {
        '7'
    } else if d == 8 {
        '8'
    } else {
        '9'
    }
}

/// The usual decimal rendering of a non-negative integer: no sign, no
/// leading zeros except for zero itself.
pub open spec fn dec_str(n: int) -> Seq<char>
    recommends
        n >= 0,
    decreases n,
{
    if n < 10 {
        seq![dec_digit_char(n)]
    } else {
        dec_str(n / 10) + seq![dec_digit_char(n % 10)]
    }
}

/// The ten decimal digit characters.
pub open spec fn is_dec_digit(c: char) -> bool {
    c == '0' || c == '1' || c == '2' || c == '3' || c == '4' || c == '5' || c == '6' || c == '7'
        || c == '8' || c == '9'
}

/// A decimal rendering holds digit characters and nothing else.
pub proof fn lemma_dec_str_digits(n: int)
    requires
        n >= 0,
    ensures
        forall|i: int| 0 <= i < dec_str(n).len() ==> is_dec_digit(#[trigger] dec_str(n)[i]),
    decreases n,
{
    if n < 10 {
        assert(dec_str(n) == seq![dec_digit_char(n)]);
        assert(is_dec_digit(dec_digit_char(n)));
    } else {
        vstd::arithmetic::div_mod::lemma_div_decreases(n, 10);
        vstd::arithmetic::div_mod::lemma_div_pos_is_pos(n, 10);
        lemma_dec_str_digits(n / 10);
        assert(dec_str(n) == dec_str(n / 10) + seq![dec_digit_char(n % 10)]);
        assert(is_dec_digit(dec_digit_char(n % 10)));
        assert forall|i: int| 0 <= i < dec_str(n).len() implies is_dec_digit(
            #[trigger] dec_str(n)[i],
        ) by {
            if i < dec_str(n / 10).len() {
                assert(dec_str(n)[i] == dec_str(n / 10)[i]);
            } else {
                assert(dec_str(n)[i] == dec_digit_char(n % 10));
            }
        }
    }
}

/// One decimal digit as a string slice.
fn dec_digit_str(d: u64) -> (r: &'static str)
    requires
        d < 10,
    ensures
        r@ == seq![dec_digit_char(d as int)],
{
    proof {
        reveal_strlit("0");
        reveal_strlit("1");
        reveal_strlit("2");
        reveal_strlit("3");
        reveal_strlit("4");
        reveal_strlit("5");
        reveal_strlit("6");
        reveal_strlit("7");
        reveal_strlit("8");
        reveal_strlit("9");
    }
    match d {
        0 => "0",
        1 => "1",
        2 => "2",
        3 => "3",
        4 => "4",
        5 => "5",
        6 => "6",
        7 => "7",
        8 => "8",
        _ => "9",
    }
}

/// Renders a count in decimal.
pub fn u64_to_dec(n: u64) -> (r: String)
    ensures
        r@ == dec_str(n as int),
    decreases n,
{
    if n < 10 {
        dec_digit_str(n).to_owned()
    } else {
        assert(n as int / 10 < n as int && n as int / 10 >= 0) by {
            vstd::arithmetic::div_mod::lemma_div_decreases(n as int, 10);
            vstd::arithmetic::div_mod::lemma_div_pos_is_pos(n as int, 10);
        }
        let mut s = u64_to_dec(n / 10);
        s.append(dec_digit_str(n % 10));
        s
    }
}

} // verus!
