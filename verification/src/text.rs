use vstd::prelude::*;
use vstd::string::StringExecFns;

verus! {

/// The decimal digit character for `d`, which is at most 9.
pub open spec fn digit_char(d: nat) -> char {
    if d == 0 {
        '0'
    } else if d == 1 {
        '1'
    } else if d == 2 {
        '2'
    } else if d == 3 {
        '3'
    } else if d == 4 {
        '4'
    } else if d == 5 {
        '5'
    } else if d == 6 {
        '6'
    } else if d == 7 {
        '7'
    } else if d == 8 {
        '8'
    } else {
        '9'
    }
}

/// Decimal rendering of a natural number, most significant digit first,
/// without leading zeros.
pub open spec fn dec_nat(n: nat) -> Seq<char>
    decreases n,
{
    if n < 10 {
        seq![digit_char(n)]
    } else {
        dec_nat(n / 10).push(digit_char(n % 10))
    }
}

/// Decimal rendering of an integer: a minus sign before the digits when
/// negative.
pub open spec fn dec_int(v: int) -> Seq<char> {
    if v < 0 {
        seq!['-'] + dec_nat((-v) as nat)
    } else {
        dec_nat(v as nat)
    }
}

/// The one-character string for a decimal digit.
fn digit_str(d: u64) -> (r: &'static str)
    requires
        d < 10,
    ensures
        r@ == seq![digit_char(d as nat)],
{
    proof {
        reveal_strlit("0");
        reveal_strlit("1");
        reveal_strlit("2");
        reveal_strlit("3");
        reveal_strlit("4");
        reveal_strlit("5");
        reveal_strlit("6");
        reveal_strlit("7");
        reveal_strlit("8");
        reveal_strlit("9");
    }
    if d == 0 {
        "0"
    } else if d == 1 {
        "1"
    } else if d == 2 {
        "2"
    } else if d == 3 {
        "3"
    } else if d == 4 {
        "4"
    } else if d == 5 {
        "5"
    } else if d == 6 {
        "6"
    } else if d == 7 {
        "7"
    } else if d == 8 {
        "8"
    } else {
        "9"
    }
}

/// The decimal rendering of a natural number.
fn nat_text(n: u64) -> (r: String)
    ensures
        r@ == dec_nat(n as nat),
    decreases n,
{
    if n < 10 {
        digit_str(n).to_owned()
    } else {
        let mut s = nat_text(n / 10);
        s.append(digit_str(n % 10));
        proof {
            assert(dec_nat((n / 10) as nat) + seq![digit_char((n % 10) as nat)] =~= dec_nat(
                (n / 10) as nat,
            ).push(digit_char((n % 10) as nat)));
        }
        s
    }
}

/// The decimal rendering of an integer, with a leading minus sign when it is
/// negative.
pub fn int_text(v: i64) -> (r: String)
    ensures
        r@ == dec_int(v as int),
{
    if v >= 0 {
        nat_text(v as u64)
    } else {
        let magnitude: u64 = (-(v as i128)) as u64;
        let mut s = "-".to_owned();
        s.append(nat_text(magnitude).as_str());
        proof {
            reveal_strlit("-");
            assert("-"@ + dec_nat(magnitude as nat) =~= seq!['-'] + dec_nat(
                (-(v as int)) as nat,
            ));
        }
        s
    }
}

/// Rendering of an optional integer, as its debug form.
pub open spec fn opt_int_text(v: Option<i64>) -> Seq<char> {
    match v {
        Some(x) => "Some("@ + dec_int(x as int) + ")"@,
        None => "None"@,
    }
}

pub fn opt_i64_text(v: Option<i64>) -> (r: String)
    ensures
        r@ == opt_int_text(v),
{
    match v {
        Some(x) => {
            let mut s = "Some(".to_owned();
            s.append(int_text(x).as_str());
            s.append(")");
            s
        },
        None => "None".to_owned(),
    }
}

pub fn opt_i32_text(v: Option<i32>) -> (r: String)
    ensures
        r@ == opt_int_text(match v {
            Some(x) => Some(x as i64),
            None => None,
        }),
{
    match v {
        Some(x) => opt_i64_text(Some(x as i64)),
        None => opt_i64_text(None),
    }
}

/// An optional 32-bit value widened to 64 bits.
pub open spec fn opt_widen(v: Option<i32>) -> Option<i64> {
    match v {
        Some(x) => Some(x as i64),
        None => None,
    }
}

/// Rendering of a boolean, as its display form.
pub open spec fn bool_text(b: bool) -> Seq<char> {
    if b {
        "true"@
    } else {
        "false"@
    }
}

pub fn bool_label(b: bool) -> (r: String)
    ensures
        r@ == bool_text(b),
{
    if b {
        "true".to_owned()
    } else {
        "false".to_owned()
    }
}

} // verus!
