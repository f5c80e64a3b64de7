use vstd::prelude::*;
use vstd::string::StringExecFns;

verus! {

/// The decimal digit character for a number below ten.
pub open spec fn digit_char(d: nat) -> char {
    if d == 0 {
        '0'
    } else if d == 1 {
        '1'
    } else if d == 2 {
        '2'
    } else if d == 3 {
        '3'
    } else if d == 4 {
        '4'
    } else if d == 5 {
        '5'
    } else if d == 6 {
        '6'
    } else if d == 7 {
        '7'
    } else if d == 8 {
        '8'
    } else {
        '9'
    }
}

/// The decimal digits of a natural number, most significant first, without
/// leading zeros (zero is `0`).
pub open spec fn decimal_digits(n: nat) -> Seq<char>
    decreases n,
{
    if n < 10 {
        seq![digit_char(n)]
    } else {
        decimal_digits(n / 10).push(digit_char(n % 10))
    }
}

/// An integer as Rust writes it in decimal: a `-` before negative numbers.
pub open spec fn decimal(n: int) -> Seq<char> {
    if n < 0 {
        seq!['-'] + decimal_digits((-n) as nat)
    } else {
        decimal_digits(n as nat)
    }
}

/// An optional integer as Rust's `Debug` writes it: `Some(N)` or `None`.
pub open spec fn debug_option_int(v: Option<i32>) -> Seq<char> {
    match v {
        Some(n) => "Some("@ + decimal(n as int) + ")"@,
        None => "None"@,
    }
}

fn digit_text(d: u64) -> (r: &'static str)
    requires
        d < 10,
    ensures
        r@ == seq![digit_char(d as nat)],
{
    proof {
        reveal_strlit("0");
        reveal_strlit("1");
        reveal_strlit("2");
        reveal_strlit("3");
        reveal_strlit("4");
        reveal_strlit("5");
        reveal_strlit("6");
        reveal_strlit("7");
        reveal_strlit("8");
        reveal_strlit("9");
    }
    if d == 0 {
        "0"
    } else if d == 1 {
        "1"
    } else if d == 2 {
        "2"
    } else if d == 3 {
        "3"
    } else if d == 4 {
        "4"
    } else if d == 5 {
        "5"
    } else if d == 6 {
        "6"
    } else if d == 7 {
        "7"
    } else if d == 8 {
        "8"
    } else {
        "9"
    }
}

fn digits_text(n: u64) -> (r: String)
    ensures
        r@ == decimal_digits(n as nat),
    decreases n,
{
    if n < 10 {
        String::from_str(digit_text(n))
    } else {
        digits_text(n / 10).concat(digit_text(n % 10))
    }
}

/// An `i32` in decimal, as `Display` writes it.
pub fn decimal_text(n: i32) -> (r: String)
    ensures
        r@ == decimal(n as int),
{
    if n < 0 {
        let magnitude: u64 = (0i64 - (n as i64)) as u64;
        proof {
            reveal_strlit("-");
        }
        let digits = digits_text(magnitude);
        let r = String::from_str("-").concat(digits.as_str());
        assert(r@ =~= seq!['-'] + decimal_digits((-n) as nat));
        r
    } else {
        digits_text(n as u64)
    }
}

/// An `Option<i32>` as `Debug` writes it.
pub fn debug_option_text(v: Option<i32>) -> (r: String)
    ensures
        r@ == debug_option_int(v),
{
    match v {
        Some(n) => String::from_str("Some(").concat(decimal_text(n).as_str()).concat(")"),
        None => String::from_str("None"),
    }
}

} // verus!
