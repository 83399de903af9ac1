//! Decimal text for fixed-point quantities.

use vstd::prelude::*;

verus! {

/// The character of a decimal digit.
pub open spec fn digit_char(d: int) -> char {
    if d == 0 {
        '0'
    } else if d == 1 {
        '1'
    } else if d == 2 {
        '2'
    } else if d == 3 {
        '3'
    } else if d == 4 {
        '4'
    } else if d == 5 {
        '5'
    } else if d == 6 {
        '6'
    } else if d == 7 {
        '7'
    } else if d == 8 {
        '8'
    } else {
        '9'
    }
}

/// The decimal digits of `n`, without leading zeros.
pub open spec fn digits(n: nat) -> Seq<char>
    decreases n,
{
    if n < 10 {
        seq![digit_char(n as int)]
    } else {
        digits(n / 10) + seq![digit_char((n % 10) as int)]
    }
}

/// The digits after the decimal point of `f` thousandths (`0 < f < 1000`),
/// without trailing zeros.
pub open spec fn fraction_digits(f: nat) -> Seq<char> {
    let d1 = digit_char((f / 100) as int);
    let d2 = digit_char(((f / 10) % 10) as int);
    let d3 = digit_char((f % 10) as int);
    if f % 10 != 0 {
        seq![d1, d2, d3]
    } else if f % 100 != 0 {
        seq![d1, d2]
    } else {
        seq![d1]
    }
}

/// The decimal text of `m` thousandths: a minus sign when negative, the
/// whole part, and the fraction only where it is not zero (`12500` reads
/// `12.5`, `-50` reads `-0.05`).
pub open spec fn milli_text(m: int) -> Seq<char> {
    let a: nat = if m < 0 {
        (-m) as nat
    } else {
        m as nat
    };
    let sign = if m < 0 {
        seq!['-']
    } else {
        Seq::<char>::empty()
    };
    let frac = if a % 1000 == 0 {
        Seq::<char>::empty()
    } else {
        seq!['.'] + fraction_digits(a % 1000)
    };
    sign + digits(a / 1000) + frac
}

fn digit_str(d: u128) -> (r: &'static str)
    requires
        d < 10,
    ensures
        r@ == seq![digit_char(d as int)],
{
    proof {
        reveal_strlit("0");
        reveal_strlit("1");
        reveal_strlit("2");
        reveal_strlit("3");
        reveal_strlit("4");
        reveal_strlit("5");
        reveal_strlit("6");
        reveal_strlit("7");
        reveal_strlit("8");
        reveal_strlit("9");
    }
    if d == 0 {
        "0"
    } else if d == 1 {
        "1"
    } else if d == 2 {
        "2"
    } else if d == 3 {
        "3"
    } else if d == 4 {
        "4"
    } else if d == 5 {
        "5"
    } else if d == 6 {
        "6"
    } else if d == 7 {
        "7"
    } else if d == 8 {
        "8"
    } else {
        "9"
    }
}

/// Appends the decimal digits of `n` to `s`.
pub fn push_digits(s: &mut String, n: u128)
    ensures
        final(s)@ == old(s)@ + digits(n as nat),
    decreases n,
{
    if n >= 10 {
        push_digits(s, n / 10);
    }
    s.append(digit_str(n % 10));
    proof {
        assert(final(s)@ =~= old(s)@ + digits(n as nat));
    }
}

/// Appends the decimal text of `m` thousandths to `s`.
pub fn push_milli(s: &mut String, m: i128)
    ensures
        final(s)@ == old(s)@ + milli_text(m as int),
{
    let a: u128 = if m < 0 {
        s.append("-");
        (0i128 - (m + 1)) as u128 + 1
    } else {
        m as u128
    };
    proof {
        reveal_strlit("-");
    }
    push_digits(s, a / 1000);
    let f: u128 = a % 1000;
    if f != 0 {
        s.append(".");
        proof {
            reveal_strlit(".");
        }
        s.append(digit_str(f / 100));
        if f % 100 != 0 {
            s.append(digit_str((f / 10) % 10));
            if f % 10 != 0 {
                s.append(digit_str(f % 10));
            }
        }
    }
    proof {
        assert(final(s)@ =~= old(s)@ + milli_text(m as int));
    }
}

} // verus!
