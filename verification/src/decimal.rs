use vstd::prelude::*;
use vstd::string::StringExecFns;

verus! {

/// The character standing for one decimal digit.
pub open spec fn spec_digit(d: int) -> char {
    if d == 0 {
        '0'
    } else if d == 1 {
        '1'
    } else if d == 2 {
        '2'
    } else if d == 3 {
        '3'
    } else if d == 4 {
        '4'
    } else if d == 5 {
        '5'
    } else if d == 6 {
        '6'
    } else if d == 7 {
        '7'
    } else if d == 8 {
        '8'
    } else {
        '9'
    }
}

/// The decimal numeral of a non-negative integer, most significant digit
/// first, with no leading zeros (zero itself is written "0").
pub open spec fn spec_decimal_nat(n: nat) -> Seq<char>
    decreases n,
{
    if n < 10 {
        seq![spec_digit(n as int)]
    } else {
        spec_decimal_nat(n / 10) + seq![spec_digit((n % 10) as int)]
    }
}

/// The decimal numeral of a signed integer: a minus sign ahead of the
/// magnitude when the value is negative.
pub open spec fn spec_decimal_int(i: int) -> Seq<char> {
    if i < 0 {
        seq!['-'] + spec_decimal_nat((-i) as nat)
    } else {
        spec_decimal_nat(i as nat)
    }
}

fn digit_str(d: u64) -> (r: &'static str)
    requires
        d < 10,
    ensures
        r@ == seq![spec_digit(d as int)],
{
    let r: &'static str = match d {
        0 => "0",
        1 => "1",
        2 => "2",
        3 => "3",
        4 => "4",
        5 => "5",
        6 => "6",
        7 => "7",
        8 => "8",
        _ => "9",
    };
    proof {
        reveal_strlit("0");
        reveal_strlit("1");
        reveal_strlit("2");
        reveal_strlit("3");
        reveal_strlit("4");
        reveal_strlit("5");
        reveal_strlit("6");
        reveal_strlit("7");
        reveal_strlit("8");
        reveal_strlit("9");
        assert(r@ =~= seq![spec_digit(d as int)]);
    }
    r
}

/// Renders an unsigned value as its decimal numeral.
pub fn u64_to_decimal(n: u64) -> (r: String)
    ensures
        r@ == spec_decimal_nat(n as nat),
    decreases n,
{
    if n < 10 {
        digit_str(n).to_owned()
    } else {
        let prefix = u64_to_decimal(n / 10);
        prefix.concat(digit_str(n % 10))
    }
}

/// Renders a signed value as its decimal numeral, minus sign included.
pub fn i32_to_decimal(i: i32) -> (r: String)
    ensures
        r@ == spec_decimal_int(i as int),
{
    if i < 0 {
        let mag: u64 = (-(i as i64)) as u64;
        proof {
            reveal_strlit("-");
            assert("-"@ =~= seq!['-']);
        }
        let s = "-".to_owned();
        let digits = u64_to_decimal(mag);
        s.concat(digits.as_str())
    } else {
        u64_to_decimal(i as u64)
    }
}

} // verus!
