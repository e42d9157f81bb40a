//! Decimal text: how integers, and vectors of them, are written out.

use vstd::prelude::*;
use vstd::string::StringExecFns;
use crate::vec3::Vec3;

verus! {

/// The character that stands for a value below ten.
pub open spec fn digit(d: int) -> char {
    if d == 0 {
        '0'
    } else if d == 1 {
        '1'
    } else if d == 2 {
        '2'
    } else if d == 3 {
        '3'
    } else if d == 4 {
        '4'
    } else if d == 5 {
        '5'
    } else if d == 6 {
        '6'
    } else if d == 7 {
        '7'
    } else if d == 8 {
        '8'
    } else {
        '9'
    }
}

/// The decimal digits of `n`, most significant first, without leading zeros;
/// the single digit `0` for zero.
pub open spec fn decimal(n: nat) -> Seq<char>
    decreases n,
{
    if n < 10 {
        seq![digit(n as int)]
    } else {
        decimal(n / 10).push(digit((n % 10) as int))
    }
}

/// The decimal form of an integer: a minus sign before the digits of a
/// negative one.
pub open spec fn signed_decimal(v: int) -> Seq<char> {
    if v < 0 {
        seq!['-'] + decimal((-v) as nat)
    } else {
        decimal(v as nat)
    }
}

/// One blank.
pub open spec fn blank() -> Seq<char> {
    seq![' ']
}

/// The three components in decimal, separated by single blanks.
pub open spec fn display_text(x: int, y: int, z: int) -> Seq<char> {
    signed_decimal(x) + blank() + signed_decimal(y) + blank() + signed_decimal(z)
}

/// The text of one digit.
fn digit_text(d: u64) -> (s: &'static str)
    requires
        d < 10,
    ensures
        s@ == seq![digit(d as int)],
{
    proof {
        reveal_strlit("0");
        reveal_strlit("1");
        reveal_strlit("2");
        reveal_strlit("3");
        reveal_strlit("4");
        reveal_strlit("5");
        reveal_strlit("6");
        reveal_strlit("7");
        reveal_strlit("8");
        reveal_strlit("9");
    }
    let s: &'static str = if d == 0 {
        "0"
    } else if d == 1 {
        "1"
    } else if d == 2 {
        "2"
    } else if d == 3 {
        "3"
    } else if d == 4 {
        "4"
    } else if d == 5 {
        "5"
    } else if d == 6 {
        "6"
    } else if d == 7 {
        "7"
    } else if d == 8 {
        "8"
    } else {
        "9"
    };
    assert(s@ =~= seq![digit(d as int)]);
    s
}

/// Appends the decimal digits of `n` to `out`.
pub fn push_decimal(out: &mut String, n: u64)
    ensures
        final(out)@ == old(out)@ + decimal(n as nat),
    decreases n,
{
    if n >= 10 {
        push_decimal(out, n / 10);
    }
    out.append(digit_text(n % 10));
    proof {
        if n >= 10 {
            assert(final(out)@ =~= old(out)@ + decimal((n / 10) as nat).push(
                digit((n % 10) as int),
            ));
        } else {
            assert(final(out)@ =~= old(out)@ + seq![digit(n as int)]);
        }
    }
}

/// Appends the decimal form of `v` to `out`.
pub fn push_signed_decimal(out: &mut String, v: i64)
    ensures
        final(out)@ == old(out)@ + signed_decimal(v as int),
{
    if v < 0 {
        proof {
            reveal_strlit("-");
        }
        out.append("-");
        let magnitude: u64 = ((-(v + 1)) as u64) + 1;
        push_decimal(out, magnitude);
        assert(final(out)@ =~= old(out)@ + (seq!['-'] + decimal((-v) as nat)));
    } else {
        push_decimal(out, v as u64);
    }
}

/// Appends one blank to `out`.
pub fn push_blank(out: &mut String)
    ensures
        final(out)@ == old(out)@ + blank(),
{
    proof {
        reveal_strlit(" ");
    }
    out.append(" ");
    assert(final(out)@ =~= old(out)@ + blank());
}

impl Vec3<i64> {
    /// The vector as text: its three components in decimal, separated by
    /// single blanks, as in `1 2 3`.
    pub fn to_display_string(&self) -> (s: String)
        ensures
            s@ == display_text(self.x as int, self.y as int, self.z as int),
    {
        let mut s = String::new();
        push_signed_decimal(&mut s, self.x);
        push_blank(&mut s);
        push_signed_decimal(&mut s, self.y);
        push_blank(&mut s);
        push_signed_decimal(&mut s, self.z);
        assert(s@ =~= display_text(self.x as int, self.y as int, self.z as int));
        s
    }
}

} // verus!
