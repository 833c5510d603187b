use vstd::prelude::*;
use crate::hexfmt::hex_digit;

verus! {

/// Decimal rendering of a non-negative value, most significant digit
/// first, with no leading zeros (a single zero for zero itself).
pub open spec fn dec_chars(n: int) -> Seq<char>
    recommends
        n >= 0,
    decreases n,
{
    if n < 10 {
        seq![hex_digit(n)]
    } else {
        dec_chars(n / 10) + seq![hex_digit(n % 10)]
    }
}

/// The one-character string for a single decimal digit.
fn decimal_digit_str(d: u128) -> (r: &'static str)
    requires
        d < 10,
    ensures
        r@ == seq![hex_digit(d as int)],
{
    proof {
        reveal_strlit("0");
        reveal_strlit("1");
        reveal_strlit("2");
        reveal_strlit("3");
        reveal_strlit("4");
        reveal_strlit("5");
        reveal_strlit("6");
        reveal_strlit("7");
        reveal_strlit("8");
        reveal_strlit("9");
    }
    if d == 0 {
        assert("0"@ =~= seq![hex_digit(0)]);
        "0"
    } else if d == 1 {
        assert("1"@ =~= seq![hex_digit(1)]);
        "1"
    } else if d == 2 {
        assert("2"@ =~= seq![hex_digit(2)]);
        "2"
    } else if d == 3 {
        assert("3"@ =~= seq![hex_digit(3)]);
        "3"
    } else if d == 4 {
        assert("4"@ =~= seq![hex_digit(4)]);
        "4"
    } else if d == 5 {
        assert("5"@ =~= seq![hex_digit(5)]);
        "5"
    } else if d == 6 {
        assert("6"@ =~= seq![hex_digit(6)]);
        "6"
    } else if d == 7 {
        assert("7"@ =~= seq![hex_digit(7)]);
        "7"
    } else if d == 8 {
        assert("8"@ =~= seq![hex_digit(8)]);
        "8"
    } else {
        assert("9"@ =~= seq![hex_digit(9)]);
        "9"
    }
}

/// Renders a balance as its decimal string, as the caller of a voting
/// balance query receives it.
pub fn u128_to_decimal(n: u128) -> (r: String)
    ensures
        r@ == dec_chars(n as int),
    decreases n,
{
    if n < 10 {
        let d = decimal_digit_str(n);
        d.to_owned()
    } else {
        let mut s = u128_to_decimal(n / 10);
        s.append(decimal_digit_str(n % 10));
        s
    }
}

} // verus!
