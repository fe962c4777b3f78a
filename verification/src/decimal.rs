use vstd::prelude::*;

verus! {

/// The character of a decimal digit `d` (0 through 9).
pub open spec fn digit_char(d: int) -> char
    recommends
        0 <= d < 10,
{
    (d + 48) as char
}

/// The decimal digits of a natural number, most significant first,
/// without leading zeros (zero itself is the single digit `0`).
pub open spec fn nat_digits(n: nat) -> Seq<char>
    decreases n,
{
    if n < 10 {
        seq![digit_char(n as int)]
    } else {
        nat_digits(n / 10).push(digit_char((n % 10) as int))
    }
}

/// The text that `Display` gives an integer: an optional minus sign
/// followed by the decimal digits of its magnitude.
pub open spec fn decimal(n: int) -> Seq<char> {
    if n < 0 {
        seq!['-'] + nat_digits((-n) as nat)
    } else {
        nat_digits(n as nat)
    }
}

/// `String::push` of std: appends one character to the end of the string.
#[verifier::external_body]
fn push_char(s: &mut String, c: char)
    ensures
        final(s)@ == old(s)@.push(c),
{
    s.push(c);
}

fn digit(d: u64) -> (c: char)
    requires
        d < 10,
    ensures
        c == digit_char(d as int),
{
    let b: u8 = 48u8 + (d as u8);
    b as char
}

fn push_digits(s: &mut String, m: u64)
    ensures
        final(s)@ == old(s)@ + nat_digits(m as nat),
    decreases m,
{
    if m >= 10 {
        push_digits(s, m / 10);
    }
    push_char(s, digit(m % 10));
    assert(final(s)@ =~= old(s)@ + nat_digits(m as nat));
}

/// Renders an `i32` in decimal, as `format!("{}", n)` does.
pub fn i32_to_decimal(n: i32) -> (s: String)
    ensures
        s@ == decimal(n as int),
{
    let mut s = String::new();
    let magnitude: u64 = if n < 0 {
        push_char(&mut s, '-');
        (0i64 - (n as i64)) as u64
    } else {
        n as u64
    };
    push_digits(&mut s, magnitude);
    assert(s@ =~= decimal(n as int));
    s
}

} // verus!
