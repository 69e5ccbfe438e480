//! Small text helpers: joining strings, decimal rendering of integers and
//! the debug rendering of string lists.

use vstd::prelude::*;
use vstd::string::*;

verus! {

/// The ASCII digit for `d` (0 to 9).
pub open spec fn digit_char(d: int) -> char {
    (48 + d) as char
}

/// Decimal digits of a natural number, most significant first, without
/// leading zeros.
pub open spec fn nat_decimal(n: nat) -> Seq<char>
    decreases n,
{
    if n < 10 {
        seq![digit_char(n as int)]
    } else {
        nat_decimal(n / 10) + seq![digit_char((n % 10) as int)]
    }
}

/// Decimal rendering of an integer: a minus sign before the digits of its
/// absolute value when it is negative.
pub open spec fn int_decimal(n: int) -> Seq<char> {
    if n < 0 {
        seq!['-'] + nat_decimal((-n) as nat)
    } else {
        nat_decimal(n as nat)
    }
}

/// What `format!("{:?}", list)` produces for a list of strings.
pub uninterp spec fn debug_list_text(items: Seq<Seq<char>>) -> Seq<char>;

/// What `format!("{:#?}", list)` produces for a list of strings.
pub uninterp spec fn pretty_debug_list_text(items: Seq<Seq<char>>) -> Seq<char>;

/// Appends the decimal digits of `m`, most significant first.
fn push_decimal(s: &mut String, m: u64)
    ensures
        final(s)@ == old(s)@ + nat_decimal(m as nat),
    decreases m,
{
    if m >= 10 {
        push_decimal(s, m / 10);
    }
    let digits = "0123456789";
    proof {
        reveal_strlit("0123456789");
    }
    assert(digits.is_ascii());
    let d = (m % 10) as usize;
    let piece = digits.substring_ascii(d, d + 1);
    assert(piece@ =~= seq![digit_char(d as int)]) by {
        assert(digits@[d as int] == digit_char(d as int));
    }
    s.append(piece);
}

/// The decimal rendering of an integer: the digits of its absolute value,
/// with a leading `-` when it is negative (as `ToString` writes an `i64`).
pub(crate) fn i64_text(n: i64) -> (r: String)
    ensures
        r@ == int_decimal(n as int),
{
    let mut s = String::new();
    let m: u64 = if n < 0 {
        proof {
            reveal_strlit("-");
        }
        s.append("-");
        (-(n as i128)) as u64
    } else {
        n as u64
    };
    push_decimal(&mut s, m);
    s
}

/// Std's `Debug` rendering of a list of strings (`{:?}`); the result
/// depends on the strings alone.
#[verifier::external_body]
pub(crate) fn debug_list(items: &Vec<String>) -> (r: String)
    ensures
        r@ == debug_list_text(items.deep_view()),
{
    format!("{:?}", items)
}

/// Std's alternate `Debug` rendering of a list of strings (`{:#?}`); the
/// result depends on the strings alone.
#[verifier::external_body]
pub(crate) fn pretty_debug_list(items: &Vec<String>) -> (r: String)
    ensures
        r@ == pretty_debug_list_text(items.deep_view()),
{
    format!("{:#?}", items)
}

/// A new string holding `a` followed by `b`.
pub fn join2(a: &str, b: &str) -> (r: String)
    ensures
        r@ == a@ + b@,
{
    let mut s = String::from_str(a);
    s.append(b);
    s
}

/// A new string holding `a`, `b` and `c` in this order.
pub fn join3(a: &str, b: &str, c: &str) -> (r: String)
    ensures
        r@ == a@ + b@ + c@,
{
    let mut s = String::from_str(a);
    s.append(b);
    s.append(c);
    s
}

/// A copy of a string.
pub fn copy_str(s: &str) -> (r: String)
    ensures
        r@ == s@,
{
    String::from_str(s)
}

} // verus!
