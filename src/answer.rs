//! Exact answers of the formulas.

use vstd::prelude::*;

use crate::text::{milli_text, push_milli};
use vstd::arithmetic::div_mod::{lemma_fundamental_div_mod, lemma_mod_bound};

verus! {

/// The exact value of a solved quantity, in whole units.
///
/// A zero denominator stands for the quotient by zero: infinite, or not a
/// number when the numerator is zero too. The root of a negative quotient
/// is not a number either.
#[derive(Clone, Copy, Debug, PartialEq, Eq, Structural)]
pub enum EquationAnswer {
    /// `num / den`.
    Quotient { num: i64, den: i64 },
    /// The square root of `num / den`.
    Root { num: i64, den: i64 },
}

/// `num / den` written with a denominator that is not negative.
pub open spec fn normal(num: int, den: int) -> (int, int) {
    if den < 0 {
        (-num, -den)
    } else {
        (num, den)
    }
}

/// `r` is the integer square root of `x`: the largest natural number whose
/// square does not exceed `x`.
pub open spec fn is_floor_root(r: int, x: int) -> bool {
    0 <= r && r * r <= x && x < (r + 1) * (r + 1)
}

/// The integer square root of `x`, for `x >= 0`.
pub open spec fn floor_root(x: int) -> int {
    choose|r: int| is_floor_root(r, x)
}

/// The integer square root is unique.
pub proof fn lemma_floor_root_unique(r: int, s: int, x: int)
    requires
        is_floor_root(r, x),
        is_floor_root(s, x),
    ensures
        r == s,
{
    if r < s {
        assert((r + 1) * (r + 1) <= s * s) by (nonlinear_arith)
            requires
                0 <= r,
                r + 1 <= s,
        ;
    } else if s < r {
        assert((s + 1) * (s + 1) <= r * r) by (nonlinear_arith)
            requires
                0 <= s,
                s + 1 <= r,
        ;
    }
}

/// `a` truncated toward zero after division by `d > 0`.
pub open spec fn div_toward_zero(a: int, d: int) -> int {
    if a >= 0 {
        a / d
    } else {
        -((-a) / d)
    }
}

impl EquationAnswer {
    /// `|user - self| < precision`, where `user` and `precision` count
    /// thousandths of the unit. An answer that is infinite or not a number
    /// is never within reach.
    pub open spec fn within(self, user: int, precision: int) -> bool {
        match self {
            EquationAnswer::Quotient { num, den } => {
                let (n, d) = normal(num as int, den as int);
                &&& d > 0
                &&& -(precision * d) < user * d - 1000 * n < precision * d
            },
            EquationAnswer::Root { num, den } => {
                let (n, d) = normal(num as int, den as int);
                let lo = user - precision;
                let hi = user + precision;
                &&& d > 0
                &&& n >= 0
                &&& (lo < 0 || lo * lo * d < 1000000 * n)
                &&& hi > 0
                &&& 1000000 * n < hi * hi * d
            },
        }
    }

    /// The value in thousandths of the unit, truncated toward zero; `None`
    /// when it is infinite or not a number.
    pub open spec fn milli(self) -> Option<int> {
        match self {
            EquationAnswer::Quotient { num, den } => {
                let (n, d) = normal(num as int, den as int);
                if d > 0 {
                    Some(div_toward_zero(1000 * n, d))
                } else {
                    None
                }
            },
            EquationAnswer::Root { num, den } => {
                let (n, d) = normal(num as int, den as int);
                if d > 0 && n >= 0 {
                    Some(floor_root((1000000 * n) / d))
                } else {
                    None
                }
            },
        }
    }

    /// The numerator and denominator, written with a denominator that is not
    /// negative.
    pub open spec fn parts(self) -> (int, int) {
        match self {
            EquationAnswer::Quotient { num, den } => normal(num as int, den as int),
            EquationAnswer::Root { num, den } => normal(num as int, den as int),
        }
    }

    /// The answer is a finite number.
    pub open spec fn is_finite(self) -> bool {
        let (n, d) = self.parts();
        match self {
            EquationAnswer::Quotient { .. } => d > 0,
            EquationAnswer::Root { .. } => d > 0 && n >= 0,
        }
    }

    /// The answer is positive infinity.
    pub open spec fn is_pos_inf(self) -> bool {
        let (n, d) = self.parts();
        d == 0 && n > 0
    }

    /// The answer is negative infinity.
    pub open spec fn is_neg_inf(self) -> bool {
        let (n, d) = self.parts();
        self is Quotient && d == 0 && n < 0
    }

    /// `self` and `other` stand for the same number: both finite and equal,
    /// or infinities of one sign. What is not a number equals nothing.
    pub open spec fn same_value(self, other: EquationAnswer) -> bool {
        let (n1, d1) = self.parts();
        let (n2, d2) = other.parts();
        if self.is_finite() && other.is_finite() {
            match (self, other) {
                (EquationAnswer::Quotient { .. }, EquationAnswer::Root { .. }) => {
                    n1 >= 0 && n1 * n1 * d2 == n2 * d1 * d1
                },
                (EquationAnswer::Root { .. }, EquationAnswer::Quotient { .. }) => {
                    n2 >= 0 && n2 * n2 * d1 == n1 * d2 * d2
                },
                _ => n1 * d2 == n2 * d1,
            }
        } else {
            (self.is_pos_inf() && other.is_pos_inf()) || (self.is_neg_inf() && other.is_neg_inf())
        }
    }

    /// How the answer reads: its value to three decimals (truncated, with
    /// trailing zeros dropped), or `inf`, `-inf` or `NaN`.
    pub open spec fn text(self) -> Seq<char> {
        match self.milli() {
            Some(m) => milli_text(m),
            None => match self {
                EquationAnswer::Quotient { num, den } => {
                    if num > 0 {
                        "inf"@
                    } else if num < 0 {
                        "-inf"@
                    } else {
                        "NaN"@
                    }
                },
                EquationAnswer::Root { num, den } => {
                    if den == 0 && num > 0 {
                        "inf"@
                    } else {
                        "NaN"@
                    }
                },
            },
        }
    }
}


/// Two numbers written in base `2^64` with a low digit below `2^64` are
/// equal only where both digits are.
proof fn lemma_two_digits_unique(h1: int, l1: int, h2: int, l2: int)
    requires
        0 <= l1 < 0x1_0000_0000_0000_0000,
        0 <= l2 < 0x1_0000_0000_0000_0000,
        h1 * 0x1_0000_0000_0000_0000 + l1 == h2 * 0x1_0000_0000_0000_0000 + l2,
    ensures
        h1 == h2,
        l1 == l2,
{
    assert(h1 == h2) by (nonlinear_arith)
        requires
            0 <= l1 < 0x1_0000_0000_0000_0000,
            0 <= l2 < 0x1_0000_0000_0000_0000,
            h1 * 0x1_0000_0000_0000_0000 + l1 == h2 * 0x1_0000_0000_0000_0000 + l2,
    ;
}

/// The product `a * b` as a high digit and a low digit in base `2^64`.
fn wide_mul(a: u128, b: u64) -> (r: (u128, u64))
    requires
        a <= 0x4000_0000_0000_0000_0000_0000_0000_0000,
    ensures
        r.0 * 0x1_0000_0000_0000_0000 + r.1 == a * b,
{
    let base: u128 = 0x1_0000_0000_0000_0000;
    let ah = a / base;
    let al = a % base;
    proof {
        lemma_fundamental_div_mod(a as int, base as int);
        lemma_mod_bound(a as int, base as int);
    }
    assert(ah * b <= 0x4000_0000_0000_0000 * 0xFFFF_FFFF_FFFF_FFFF) by (nonlinear_arith)
        requires
            ah <= 0x4000_0000_0000_0000,
            b <= 0xFFFF_FFFF_FFFF_FFFF,
    ;
    assert(al * b <= 0xFFFF_FFFF_FFFF_FFFF * 0xFFFF_FFFF_FFFF_FFFF) by (nonlinear_arith)
        requires
            al <= 0xFFFF_FFFF_FFFF_FFFF,
            b <= 0xFFFF_FFFF_FFFF_FFFF,
    ;
    let p = ah * (b as u128);
    let q = al * (b as u128);
    let qh = q / base;
    let ql = q % base;
    proof {
        lemma_fundamental_div_mod(q as int, base as int);
        lemma_mod_bound(q as int, base as int);
        assert(a * b == (p + qh) * base + ql) by (nonlinear_arith)
            requires
                a == base * ah + al,
                q == base * qh + ql,
                p == ah * b,
                q == al * b,
        ;
    }
    (p + qh, ql as u64)
}

/// The integer square root of `x`, found by bisection.
fn floor_sqrt(x: u128) -> (r: u128)
    requires
        x < 0x1_0000_0000_0000_0000_0000_0000,
    ensures
        is_floor_root(r as int, x as int),
        r < 0x4_0000_0000_0000,
{
    let mut lo: u128 = 0;
    let mut hi: u128 = 0x4_0000_0000_0000;
    assert(0x4_0000_0000_0000 * 0x4_0000_0000_0000 == 0x10_0000_0000_0000_0000_0000_0000);
    while hi - lo > 1
        invariant
            lo < hi <= 0x4_0000_0000_0000,
            lo * lo <= x,
            x < hi * hi,
        decreases hi - lo,
    {
        let mid: u128 = lo + (hi - lo) / 2;
        assert(mid * mid <= 0x4_0000_0000_0000 * 0x4_0000_0000_0000) by (nonlinear_arith)
            requires
                mid <= 0x4_0000_0000_0000,
        ;
        if mid * mid <= x {
            lo = mid;
        } else {
            hi = mid;
        }
    }
    lo
}

impl EquationAnswer {
    fn exec_parts(&self) -> (r: (i128, i128))
        ensures
            (r.0 as int, r.1 as int) == self.parts(),
            -0x8000_0000_0000_0000 <= r.0 <= 0x8000_0000_0000_0000,
            0 <= r.1 <= 0x8000_0000_0000_0000,
    {
        let (num, den) = match *self {
            EquationAnswer::Quotient { num, den } => (num, den),
            EquationAnswer::Root { num, den } => (num, den),
        };
        if den < 0 {
            (-(num as i128), -(den as i128))
        } else {
            (num as i128, den as i128)
        }
    }

    /// Whether `self` and `other` stand for the same number.
    pub fn has_same_value(&self, other: &EquationAnswer) -> (r: bool)
        ensures
            r == self.same_value(*other),
    {
        let (n1, d1) = self.exec_parts();
        let (n2, d2) = other.exec_parts();
        let root1 = matches!(self, EquationAnswer::Root { .. });
        let root2 = matches!(other, EquationAnswer::Root { .. });
        let finite1 = d1 > 0 && (!root1 || n1 >= 0);
        let finite2 = d2 > 0 && (!root2 || n2 >= 0);
        if finite1 && finite2 {
            if root1 == root2 {
                assert(-0x4000_0000_0000_0000_0000_0000_0000_0000 <= n1 * d2
                    <= 0x4000_0000_0000_0000_0000_0000_0000_0000) by (nonlinear_arith)
                    requires
                        -0x8000_0000_0000_0000 <= n1 <= 0x8000_0000_0000_0000,
                        0 <= d2 <= 0x8000_0000_0000_0000,
                ;
                assert(-0x4000_0000_0000_0000_0000_0000_0000_0000 <= n2 * d1
                    <= 0x4000_0000_0000_0000_0000_0000_0000_0000) by (nonlinear_arith)
                    requires
                        -0x8000_0000_0000_0000 <= n2 <= 0x8000_0000_0000_0000,
                        0 <= d1 <= 0x8000_0000_0000_0000,
                ;
                n1 * d2 == n2 * d1
            } else {
                // The quotient `q / e` against the root of `m / f`.
                let (q, e, m, f) = if root2 {
                    (n1, d1, n2, d2)
                } else {
                    (n2, d2, n1, d1)
                };
                if q < 0 {
                    return false;
                }
                assert(q * q <= 0x4000_0000_0000_0000_0000_0000_0000_0000 && e * e
                    <= 0x4000_0000_0000_0000_0000_0000_0000_0000) by (nonlinear_arith)
                    requires
                        0 <= q <= 0x8000_0000_0000_0000,
                        0 <= e <= 0x8000_0000_0000_0000,
                ;
                let qq = (q * q) as u128;
                let ee = (e * e) as u128;
                let (h1, l1) = wide_mul(qq, f as u64);
                let (h2, l2) = wide_mul(ee, m as u64);
                proof {
                    assert(qq * f == q * q * f && ee * m == m * e * e) by (nonlinear_arith)
                        requires
                            qq == q * q,
                            ee == e * e,
                    ;
                    if q * q * f == m * e * e {
                        lemma_two_digits_unique(h1 as int, l1 as int, h2 as int, l2 as int);
                    }
                }
                let r = h1 == h2 && l1 == l2;
                assert(r == (q * q * f == m * e * e));
                r
            }
        } else {
            (d1 == 0 && n1 > 0 && d2 == 0 && n2 > 0) || (!root1 && !root2 && d1 == 0 && n1 < 0
                && d2 == 0 && n2 < 0)
        }
    }

    /// Whether `user` lies closer to the answer than `precision`, both in
    /// thousandths of the unit.
    pub fn is_within(&self, user: i32, precision: i32) -> (r: bool)
        ensures
            r == self.within(user as int, precision as int),
    {
        match *self {
            EquationAnswer::Quotient { num, den } => {
                let (n, d): (i128, i128) = if den < 0 {
                    (-(num as i128), -(den as i128))
                } else {
                    (num as i128, den as i128)
                };
                if d == 0 {
                    return false;
                }
                let u = user as i128;
                let p = precision as i128;
                assert(-0x8000_0000 * 0x8000_0000_0000_0000 <= u * d <= 0x8000_0000 * 0x8000_0000_0000_0000)
                    by (nonlinear_arith)
                    requires
                        -0x8000_0000 <= u <= 0x8000_0000,
                        0 < d <= 0x8000_0000_0000_0000,
                ;
                assert(-0x8000_0000 * 0x8000_0000_0000_0000 <= p * d <= 0x8000_0000 * 0x8000_0000_0000_0000)
                    by (nonlinear_arith)
                    requires
                        -0x8000_0000 <= p <= 0x8000_0000,
                        0 < d <= 0x8000_0000_0000_0000,
                ;
                let diff = u * d - 1000 * n;
                -(p * d) < diff && diff < p * d
            },
            EquationAnswer::Root { num, den } => {
                let (n, d): (i128, i128) = if den < 0 {
                    (-(num as i128), -(den as i128))
                } else {
                    (num as i128, den as i128)
                };
                if d == 0 || n < 0 {
                    return false;
                }
                let lo = user as i128 - precision as i128;
                let hi = user as i128 + precision as i128;
                if hi <= 0 {
                    return false;
                }
                assert(0 <= lo * lo <= 0xFFFF_FFFE_0000_0001 && 0 <= hi * hi <= 0xFFFF_FFFE_0000_0001)
                    by (nonlinear_arith)
                    requires
                        -0x1_0000_0000 < lo < 0x1_0000_0000,
                        -0x1_0000_0000 < hi < 0x1_0000_0000,
                ;
                assert(lo * lo * d <= 0xFFFF_FFFE_0000_0001 * 0x8000_0000_0000_0000)
                    by (nonlinear_arith)
                    requires
                        0 <= lo * lo <= 0xFFFF_FFFE_0000_0001,
                        0 < d <= 0x8000_0000_0000_0000,
                ;
                assert(hi * hi * d <= 0xFFFF_FFFE_0000_0001 * 0x8000_0000_0000_0000)
                    by (nonlinear_arith)
                    requires
                        0 <= hi * hi <= 0xFFFF_FFFE_0000_0001,
                        0 < d <= 0x8000_0000_0000_0000,
                ;
                let scaled = 1000000 * n;
                (lo < 0 || lo * lo * d < scaled) && scaled < hi * hi * d
            },
        }
    }

    /// The value in thousandths of the unit, truncated toward zero; `None`
    /// when it is infinite or not a number.
    pub fn approx_milli(&self) -> (r: Option<i128>)
        ensures
            r matches Some(m) ==> self.milli() == Some(m as int),
            r is None ==> self.milli() is None,
    {
        match *self {
            EquationAnswer::Quotient { num, den } => {
                let (n, d): (i128, i128) = if den < 0 {
                    (-(num as i128), -(den as i128))
                } else {
                    (num as i128, den as i128)
                };
                if d == 0 {
                    return None;
                }
                if n >= 0 {
                    let q = (1000 * n) as u128 / d as u128;
                    assert(q <= 1000 * n) by (nonlinear_arith)
                        requires
                            q == (1000 * n) / (d as int),
                            n >= 0,
                            d >= 1,
                    ;
                    assert(self.milli() == Some(q as int));
                    Some(q as i128)
                } else {
                    let q = (-1000 * n) as u128 / d as u128;
                    assert(q <= -1000 * n) by (nonlinear_arith)
                        requires
                            q == (-1000 * n) / (d as int),
                            n < 0,
                            d >= 1,
                    ;
                    assert(self.milli() == Some(-(q as int)));
                    Some(-(q as i128))
                }
            },
            EquationAnswer::Root { num, den } => {
                let (n, d): (i128, i128) = if den < 0 {
                    (-(num as i128), -(den as i128))
                } else {
                    (num as i128, den as i128)
                };
                if d == 0 || n < 0 {
                    return None;
                }
                let x = (1000000 * n) as u128 / d as u128;
                assert(x <= 1000000 * n) by (nonlinear_arith)
                    requires
                        x == (1000000 * n) / (d as int),
                        n >= 0,
                        d >= 1,
                ;
                let r = floor_sqrt(x);
                proof {
                    lemma_floor_root_unique(r as int, floor_root(x as int), x as int);
                }
                Some(r as i128)
            },
        }
    }

    /// How the answer reads: its value to three decimals (truncated, with
    /// trailing zeros dropped), or `inf`, `-inf` or `NaN`.
    pub fn to_text(&self) -> (r: String)
        ensures
            r@ == self.text(),
    {
        match self.approx_milli() {
            Some(m) => {
                let mut s = String::new();
                push_milli(&mut s, m);
                proof {
                    assert(s@ =~= milli_text(m as int));
                }
                s
            },
            None => match *self {
                EquationAnswer::Quotient { num, den } => {
                    if num > 0 {
                        String::from_str("inf")
                    } else if num < 0 {
                        String::from_str("-inf")
                    } else {
                        String::from_str("NaN")
                    }
                },
                EquationAnswer::Root { num, den } => {
                    if den == 0 && num > 0 {
                        String::from_str("inf")
                    } else {
                        String::from_str("NaN")
                    }
                },
            },
        }
    }
}

} // verus!
