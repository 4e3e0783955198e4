//! Decimal rendering of integers, used wherever generated code embeds a
//! number: element indices, tuple arities, and signed integer literals.

use vstd::prelude::*;

verus! {

/// The decimal digit character for `d`, which must be below ten.
pub open spec fn spec_digit(d: nat) -> char {
    if d == 0 {
        '0'
    } else if d == 1 {
        '1'
    } else if d == 2 {
        '2'
    } else if d == 3 {
        '3'
    } else if d == 4 {
        '4'
    } else if d == 5 {
        '5'
    } else if d == 6 {
        '6'
    } else if d == 7 {
        '7'
    } else if d == 8 {
        '8'
    } else {
        '9'
    }
}

/// The decimal rendering of a nonnegative integer, most significant digit
/// first, without a sign and without leading zeros (except for zero itself).
pub open spec fn spec_nat_text(n: nat) -> Seq<char>
    decreases n,
{
    if n < 10 {
        seq![spec_digit(n)]
    } else {
        spec_nat_text(n / 10) + seq![spec_digit(n % 10)]
    }
}

/// The decimal rendering of an integer: a minus sign before the digits when
/// it is negative.
pub open spec fn spec_int_text(i: int) -> Seq<char> {
    if i >= 0 {
        spec_nat_text(i as nat)
    } else {
        seq!['-'] + spec_nat_text((-i) as nat)
    }
}

/// Append the decimal digit character for `d` to `out`.
fn push_digit(out: &mut String, d: usize)
    requires
        d < 10,
    ensures
        final(out)@ == old(out)@ + seq![spec_digit(d as nat)],
{
    let s: &str = if d == 0 {
        "0"
    } else if d == 1 {
        "1"
    } else if d == 2 {
        "2"
    } else if d == 3 {
        "3"
    } else if d == 4 {
        "4"
    } else if d == 5 {
        "5"
    } else if d == 6 {
        "6"
    } else if d == 7 {
        "7"
    } else if d == 8 {
        "8"
    } else {
        "9"
    };
    proof {
        reveal_strlit("0");
        reveal_strlit("1");
        reveal_strlit("2");
        reveal_strlit("3");
        reveal_strlit("4");
        reveal_strlit("5");
        reveal_strlit("6");
        reveal_strlit("7");
        reveal_strlit("8");
        reveal_strlit("9");
        assert(s@ =~= seq![spec_digit(d as nat)]);
    }
    out.append(s);
}

/// Append the decimal rendering of `n` to `out`.
pub fn push_usize(out: &mut String, n: usize)
    ensures
        final(out)@ == old(out)@ + spec_nat_text(n as nat),
    decreases n,
{
    if n >= 10 {
        push_usize(out, n / 10);
    }
    push_digit(out, n % 10);
    proof {
        assert(out@ =~= old(out)@ + spec_nat_text(n as nat));
    }
}

/// The decimal rendering of `n`.
pub fn usize_text(n: usize) -> (r: String)
    ensures
        r@ == spec_nat_text(n as nat),
{
    let mut out = String::new();
    push_usize(&mut out, n);
    proof {
        assert(out@ =~= spec_nat_text(n as nat));
    }
    out
}

/// The decimal rendering of `v`, with a minus sign when it is negative.
pub fn i32_text(v: i32) -> (r: String)
    ensures
        r@ == spec_int_text(v as int),
{
    let mut out = String::new();
    if v < 0 {
        out.append("-");
        let magnitude: usize = (-(v as i64)) as usize;
        push_usize(&mut out, magnitude);
        proof {
            reveal_strlit("-");
            assert(out@ =~= spec_int_text(v as int));
        }
    } else {
        let magnitude: usize = v as usize;
        push_usize(&mut out, magnitude);
    }
    out
}

} // verus!
