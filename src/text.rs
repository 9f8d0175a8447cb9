//! Small text helpers shared by the printer and the emitter.
use vstd::prelude::*;

verus! {

/// The decimal digit `d` as text.
pub open spec fn digit_text(d: nat) -> Seq<char> {
    if d == 0 {
        "0"@
    } else if d == 1 {
        "1"@
    } else if d == 2 {
        "2"@
    } else if d == 3 {
        "3"@
    } else if d == 4 {
        "4"@
    } else if d == 5 {
        "5"@
    } else if d == 6 {
        "6"@
    } else if d == 7 {
        "7"@
    } else if d == 8 {
        "8"@
    } else {
        "9"@
    }
}

/// `n` written in decimal, without leading zeros.
pub open spec fn decimal(n: nat) -> Seq<char>
    decreases n,
{
    if n < 10 {
        digit_text(n)
    } else {
        decimal(n / 10) + digit_text(n % 10)
    }
}

/// `i` written in decimal, with a leading `-` when it is negative.
pub open spec fn signed_decimal(i: int) -> Seq<char> {
    if i < 0 {
        "-"@ + decimal((-i) as nat)
    } else {
        decimal(i as nat)
    }
}

/// The two texts joined by one space, or the one that is not empty.
pub open spec fn spaced(a: Seq<char>, b: Seq<char>) -> Seq<char> {
    if a.len() == 0 {
        b
    } else if b.len() == 0 {
        a
    } else {
        a + " "@ + b
    }
}

fn digit_string(d: u64) -> (r: String)
    requires
        d < 10,
    ensures
        r@ == digit_text(d as nat),
{
    if d == 0 {
        String::from_str("0")
    } else if d == 1 {
        String::from_str("1")
    } else if d == 2 {
        String::from_str("2")
    } else if d == 3 {
        String::from_str("3")
    } else if d == 4 {
        String::from_str("4")
    } else if d == 5 {
        String::from_str("5")
    } else if d == 6 {
        String::from_str("6")
    } else if d == 7 {
        String::from_str("7")
    } else if d == 8 {
        String::from_str("8")
    } else {
        String::from_str("9")
    }
}

/// Writes `n` in decimal.
pub fn decimal_string(n: u64) -> (r: String)
    ensures
        r@ == decimal(n as nat),
    decreases n,
{
    if n < 10 {
        digit_string(n)
    } else {
        let mut r = decimal_string(n / 10);
        let d = digit_string(n % 10);
        r.append(d.as_str());
        r
    }
}

/// Writes `i` in decimal, with a leading `-` when it is negative.
pub fn signed_decimal_string(i: isize) -> (r: String)
    ensures
        r@ == signed_decimal(i as int),
{
    if i < 0 {
        let m: u64 = (0i128 - (i as i128)) as u64;
        let mut r = String::from_str("-");
        let d = decimal_string(m);
        r.append(d.as_str());
        r
    } else {
        decimal_string(i as u64)
    }
}

/// Joins the two texts by one space, leaving out an empty one.
pub(crate) fn spaced_string(a: String, b: String) -> (r: String)
    ensures
        r@ == spaced(a@, b@),
{
    if a.as_str().unicode_len() == 0 {
        b
    } else if b.as_str().unicode_len() == 0 {
        a
    } else {
        let mut r = a;
        r.append(" ");
        r.append(b.as_str());
        r
    }
}

/// `a`, then `op`, then `b`.
pub(crate) fn infix_string(a: String, op: &str, b: String) -> (r: String)
    ensures
        r@ == a@ + op@ + b@,
{
    let mut r = a;
    r.append(op);
    r.append(b.as_str());
    r
}

/// `open`, then `a`, then `close`.
pub(crate) fn wrap_string(open: &str, a: String, close: &str) -> (r: String)
    ensures
        r@ == open@ + a@ + close@,
{
    let mut r = String::from_str(open);
    r.append(a.as_str());
    r.append(close);
    r
}

/// `open`, then `a`.
pub(crate) fn prefix_string(open: &str, a: String) -> (r: String)
    ensures
        r@ == open@ + a@,
{
    let mut r = String::from_str(open);
    r.append(a.as_str());
    r
}

/// `a`, then `close`.
pub(crate) fn suffix_string(a: String, close: &str) -> (r: String)
    ensures
        r@ == a@ + close@,
{
    let mut r = a;
    r.append(close);
    r
}

/// `a`, then `b`.
pub(crate) fn concat_string(a: String, b: String) -> (r: String)
    ensures
        r@ == a@ + b@,
{
    let mut r = a;
    r.append(b.as_str());
    r
}

} // verus!
