//! Exact numbers: the fractions a configuration is written in and the rates
//! that follow from them.
use vstd::prelude::*;

verus! {

/// A number written as `num / den`.
///
/// With `den == 0` the number is not finite: `0/0` is not a number at all, a
/// positive `num` stands for plus infinity, a negative one for minus infinity.
/// `==` compares the two fields, so `1/2` and `2/4` are different `Ratio`s of
/// the same value.
#[derive(Debug, Clone, Copy, PartialEq, Eq, Structural)]
pub struct Ratio {
    pub num: i64,
    pub den: u32,
}

impl Ratio {
    /// The number is an ordinary fraction.
    pub open spec fn finite(self) -> bool {
        self.den != 0
    }

    /// The number is `0/0`.
    pub open spec fn undefined(self) -> bool {
        self.num == 0 && self.den == 0
    }

    /// `self < other`. Nothing is less than, or greater than, `0/0`.
    pub open spec fn less(self, other: Ratio) -> bool {
        if self.den == 0 && other.den == 0 {
            self.num < 0 && 0 < other.num
        } else {
            self.num * other.den < other.num * self.den
        }
    }

    /// The number lies in `(0, 1]`.
    pub open spec fn proper_share(self) -> bool {
        self.finite() && 0 < self.num <= self.den
    }

    /// The number lies in `[0, 1]`.
    pub open spec fn unit(self) -> bool {
        self.finite() && 0 <= self.num <= self.den
    }

    /// The number is finite and greater than zero.
    pub open spec fn positive(self) -> bool {
        self.finite() && 0 < self.num
    }

    /// The fraction `num / den`.
    pub fn new(num: i64, den: u32) -> (r: Ratio)
        ensures
            r.num == num,
            r.den == den,
    {
        Ratio { num, den }
    }

    /// The whole number `n`.
    pub fn whole(n: u32) -> (r: Ratio)
        ensures
            r.num == n,
            r.den == 1,
    {
        Ratio { num: n as i64, den: 1 }
    }

    /// Whether the number is an ordinary fraction.
    pub fn is_finite(&self) -> (r: bool)
        ensures
            r == self.finite(),
    {
        self.den != 0
    }

    /// Whether `self < other`.
    pub fn is_less_than(&self, other: &Ratio) -> (r: bool)
        ensures
            r == self.less(*other),
    {
        if self.den == 0 && other.den == 0 {
            self.num < 0 && 0 < other.num
        } else {
            assert(-0x8000_0000_0000_0000 * 0xffff_ffff <= self.num * other.den
                <= 0x7fff_ffff_ffff_ffff * 0xffff_ffff) by (nonlinear_arith)
                requires
                    -0x8000_0000_0000_0000 <= self.num <= 0x7fff_ffff_ffff_ffff,
                    0 <= other.den <= 0xffff_ffff,
            ;
            assert(-0x8000_0000_0000_0000 * 0xffff_ffff <= other.num * self.den
                <= 0x7fff_ffff_ffff_ffff * 0xffff_ffff) by (nonlinear_arith)
                requires
                    -0x8000_0000_0000_0000 <= other.num <= 0x7fff_ffff_ffff_ffff,
                    0 <= self.den <= 0xffff_ffff,
            ;
            (self.num as i128) * (other.den as i128) < (other.num as i128) * (self.den as i128)
        }
    }

    /// Whether the number lies in `(0, 1]`.
    pub fn is_proper_share(&self) -> (r: bool)
        ensures
            r == self.proper_share(),
    {
        self.den != 0 && 0 < self.num && self.num <= self.den as i64
    }

    /// Whether the number lies in `[0, 1]`.
    pub fn is_unit(&self) -> (r: bool)
        ensures
            r == self.unit(),
    {
        self.den != 0 && 0 <= self.num && self.num <= self.den as i64
    }

    /// Whether the number is finite and greater than zero.
    pub fn is_positive(&self) -> (r: bool)
        ensures
            r == self.positive(),
    {
        self.den != 0 && 0 < self.num
    }
}

/// An exact rate of `num / den` requests per minute. With `den == 0` the rate
/// is not finite, as for [`Ratio`].
#[derive(Debug, Clone, Copy, PartialEq, Eq, Structural)]
pub struct Rate {
    pub num: i128,
    pub den: u128,
}

impl Rate {
    /// The two rates are the same number of requests per minute.
    pub open spec fn same_as(self, other: Rate) -> bool {
        self.num * other.den == other.num * self.den
    }
}

/// What is not above `b` is below whatever `b` is below.
pub(crate) proof fn lemma_less_transitive(a: Ratio, b: Ratio, c: Ratio)
    requires
        !a.undefined(),
        !b.less(a),
        b.less(c),
    ensures
        a.less(c),
{
    let (an, ad) = (a.num as int, a.den as int);
    let (bn, bd) = (b.num as int, b.den as int);
    let (cn, cd) = (c.num as int, c.den as int);
    if ad > 0 && bd > 0 && cd > 0 {
        assert(an * cd < cn * ad) by (nonlinear_arith)
            requires
                ad > 0,
                bd > 0,
                cd > 0,
                an * bd <= bn * ad,
                bn * cd < cn * bd,
        {
            assert(an * bd * cd <= bn * ad * cd);
            assert(bn * cd * ad < cn * bd * ad);
            assert(an * cd * bd < cn * ad * bd);
        }
    } else {
        lemma_sign(an, bd);
        lemma_sign(an, cd);
        lemma_sign(bn, ad);
        lemma_sign(bn, cd);
        lemma_sign(cn, ad);
        lemma_sign(cn, bd);
    }
}

proof fn lemma_sign(x: int, y: int)
    ensures
        y == 0 ==> x * y == 0,
        y > 0 && x > 0 ==> x * y > 0,
        y > 0 && x == 0 ==> x * y == 0,
        y > 0 && x < 0 ==> x * y < 0,
{
    assert(y == 0 ==> x * y == 0) by (nonlinear_arith);
    assert(y > 0 && x > 0 ==> x * y > 0) by (nonlinear_arith);
    assert(y > 0 && x == 0 ==> x * y == 0) by (nonlinear_arith);
    assert(y > 0 && x < 0 ==> x * y < 0) by (nonlinear_arith);
}

/// Numbers compare as numbers: fractions by their value, minus infinity below and
/// plus infinity above every fraction, and `0/0` neither below nor above anything.
pub proof fn law_less_compares_values(a: Ratio, b: Ratio)
    ensures
        a.den > 0 && b.den > 0 ==> (a.less(b) <==> a.num * b.den < b.num * a.den),
        a.den > 0 && b.den == 0 ==> (a.less(b) <==> b.num > 0),
        a.den == 0 && b.den > 0 ==> (a.less(b) <==> a.num < 0),
        a.den == 0 && b.den == 0 ==> (a.less(b) <==> a.num < 0 && b.num > 0),
        !(a.less(b) && b.less(a)),
        a.den > 0 && b.den > 0 && !a.less(b) && !b.less(a) ==> a.num * b.den == b.num * a.den,
{
    lemma_sign(a.num as int, b.den as int);
    lemma_sign(b.num as int, a.den as int);
}

/// The tests on a number are tests on its numerator and denominator.
pub proof fn law_number_tests(a: Ratio)
    ensures
        a.finite() <==> a.den != 0,
        a.undefined() <==> a.num == 0 && a.den == 0,
        a.proper_share() <==> a.den != 0 && 0 < a.num && a.num <= a.den,
        a.unit() <==> a.den != 0 && 0 <= a.num && a.num <= a.den,
        a.positive() <==> a.den != 0 && 0 < a.num,
{
}

/// Two rates are the same when they are equal as fractions.
pub proof fn law_same_rate(a: Rate, b: Rate)
    ensures
        a.same_as(b) <==> a.num * b.den == b.num * a.den,
{
}

} // verus!
