//! The size of a number, and whole numbers taken from it.
//!
//! A finite pattern with exponent field `e` and fraction field `f` stands
//! for `(2^52 + f) * 2^(e - 1075)`, or for `f * 2^(-1074)` where `e` is 0.
//! Either way it is a whole multiple of `2^(-1074)`, so its size can be
//! stated as a natural number of such units.

use crate::scalar::{Scalar, HIDDEN_BIT, SIGN_BIT};
use vstd::arithmetic::div_mod::{
    lemma_basic_div,
    lemma_div_by_multiple,
    lemma_div_is_ordered_by_denominator,
    lemma_div_multiples_vanish_quotient,
};
use vstd::arithmetic::mul::{lemma_mul_is_associative, lemma_mul_is_commutative};
use vstd::arithmetic::power2::{
    lemma2_to64,
    lemma2_to64_rest,
    lemma_pow2_adds,
    lemma_pow2_pos,
    lemma_pow2_strictly_increases,
    lemma_pow2_unfold,
    pow2,
};
use vstd::prelude::*;

verus! {

/// The binary places behind the point of a unit: a unit is `2^(-1074)`.
pub const UNIT_PLACES: u64 = 1074;

/// What [`Scalar::scaled`] returns for a size beyond its reach.
const BEYOND: u128 = 0xffff_ffff_ffff_ffff_ffff_ffff_ffff_ffff;

impl Scalar {
    /// The exponent field, 0 to 2047.
    pub open spec fn exponent(self) -> int {
        self.magnitude() / (HIDDEN_BIT as int)
    }

    /// The fraction field, below `2^52`.
    pub open spec fn fraction(self) -> int {
        self.magnitude() % (HIDDEN_BIT as int)
    }

    /// The fraction, with the hidden leading bit where the exponent field
    /// is not zero.
    pub open spec fn significand(self) -> nat {
        if self.exponent() == 0 {
            self.fraction() as nat
        } else {
            (HIDDEN_BIT + self.fraction()) as nat
        }
    }

    /// By how many binary places the significand is shifted up from units.
    pub open spec fn places(self) -> nat {
        if self.exponent() == 0 {
            0
        } else {
            (self.exponent() - 1) as nat
        }
    }

    /// The size of a finite number, in units of `2^(-1074)`. An infinity
    /// gets a size beyond every finite one.
    pub open spec fn units(self) -> nat {
        self.significand() * pow2(self.places())
    }

    /// The value of a number, in units of `2^(-1074)`.
    pub open spec fn signed_units(self) -> int {
        if self.negative() {
            -(self.units() as int)
        } else {
            self.units() as int
        }
    }

    /// The size times `2^k`, rounded down to a whole number.
    pub open spec fn floor_scaled(self, k: nat) -> nat {
        (self.units() * pow2(k)) / pow2(UNIT_PLACES as nat)
    }

    /// The value times `2^k`, rounded towards zero and brought into 64
    /// bits: 0 for what is not a number and for what is below zero, the
    /// largest 64-bit number for what is beyond it.
    pub open spec fn spec_to_u64_scaled(self, k: nat) -> u64 {
        if self.spec_is_nan() || self.negative() {
            0
        } else if self.floor_scaled(k) > u64::MAX {
            u64::MAX
        } else {
            self.floor_scaled(k) as u64
        }
    }

    /// The value rounded to the nearest whole number, halves upwards, and
    /// brought into 64 bits as in [`Scalar::spec_to_u64_scaled`].
    pub open spec fn spec_round_to_u64(self) -> u64 {
        if self.spec_is_nan() || self.negative() {
            0
        } else if (self.floor_scaled(1) + 1) / 2 > u64::MAX {
            u64::MAX
        } else {
            ((self.floor_scaled(1) + 1) / 2) as u64
        }
    }

    /// `floor_scaled(k)` of a number that is not below zero: the exact
    /// figure, or `BEYOND` for one of `2^116` or more.
    fn scaled(self, k: u32) -> (r: u128)
        requires
            !self.spec_is_nan(),
            !self.negative(),
        ensures
            r == self.floor_scaled(k as nat) || (r == BEYOND && self.floor_scaled(k as nat)
                >= 0x1_0000_0000_0000_0000),
            r == BEYOND && k <= 64 ==> self.floor_scaled(k as nat)
                >= 0x10_0000_0000_0000_0000_0000_0000_0000,
            r != BEYOND ==> r < 0x20_0000_0000_0000_0000_0000_0000_0000,
    {
        let e: u64 = self.bits / HIDDEN_BIT;
        let f: u64 = self.bits % HIDDEN_BIT;
        let sig: u64 = if e == 0 {
            f
        } else {
            HIDDEN_BIT + f
        };
        let places: u64 = if e == 0 {
            0
        } else {
            e - 1
        };
        let up: u64 = places + k as u64;
        proof {
            lemma_scaled_quotient(sig as nat, places as nat, k as nat);
            lemma2_to64();
            lemma2_to64_rest();
        }
        if sig == 0 {
            proof {
                assert(sig * pow2(places as nat) * pow2(k as nat) == 0) by (nonlinear_arith)
                    requires
                        sig == 0,
                ;
                lemma_pow2_pos(1074);
                lemma_basic_div(0, pow2(1074) as int);
            }
            0
        } else if up >= UNIT_PLACES {
            let d: u64 = up - UNIT_PLACES;
            if d >= 64 {
                proof {
                    if d > 64 {
                        lemma_pow2_strictly_increases(64, d as nat);
                    }
                    assert(sig * pow2(d as nat) >= 0x1_0000_0000_0000_0000) by (nonlinear_arith)
                        requires
                            sig >= 1,
                            pow2(d as nat) >= 0x1_0000_0000_0000_0000,
                    ;
                    if k <= 64 {
                        assert(sig * pow2(d as nat) >= 0x10_0000_0000_0000_0000_0000_0000_0000)
                            by (nonlinear_arith)
                            requires
                                sig >= 0x0010_0000_0000_0000,
                                pow2(d as nat) >= 0x1_0000_0000_0000_0000,
                        ;
                    }
                }
                BEYOND
            } else {
                let p: u64 = power_of_two(d);
                assert(sig * p < 0x20_0000_0000_0000_0000_0000_0000_0000) by (nonlinear_arith)
                    requires
                        sig < 0x20_0000_0000_0000,
                        p < 0x1_0000_0000_0000_0000,
                ;
                (sig as u128) * (p as u128)
            }
        } else {
            let down: u64 = UNIT_PLACES - up;
            if down >= 53 {
                proof {
                    if down > 53 {
                        lemma_pow2_strictly_increases(53, down as nat);
                    }
                    lemma_basic_div(sig as int, pow2(down as nat) as int);
                }
                0
            } else {
                let p: u64 = power_of_two(down);
                (sig / p) as u128
            }
        }
    }

    /// The value times `2^k`, rounded towards zero and brought into 64
    /// bits: 0 for what is not a number and for what is below zero, the
    /// largest 64-bit number for what is beyond it.
    pub fn to_u64_scaled(self, k: u32) -> (r: u64)
        ensures
            r == self.spec_to_u64_scaled(k as nat),
    {
        if self.is_nan() || self.bits >= SIGN_BIT {
            return 0;
        }
        let v: u128 = self.scaled(k);
        if v > 0xffff_ffff_ffff_ffff {
            0xffff_ffff_ffff_ffff
        } else {
            v as u64
        }
    }

    /// The value rounded to the nearest whole number, halves upwards, and
    /// brought into 64 bits: 0 for what is not a number and for what is
    /// below zero, the largest 64-bit number for what is beyond it.
    #[verifier::when_used_as_spec(spec_round_to_u64)]
    pub fn round_to_u64(self) -> (r: u64)
        ensures
            r == self.spec_round_to_u64(),
    {
        if self.is_nan() || self.bits >= SIGN_BIT {
            return 0;
        }
        let twice: u128 = self.scaled(1);
        if twice == BEYOND {
            return 0xffff_ffff_ffff_ffff;
        }
        let v: u128 = (twice + 1) / 2;
        if v > 0xffff_ffff_ffff_ffff {
            0xffff_ffff_ffff_ffff
        } else {
            v as u64
        }
    }
}

/// Two to the power of `e`.
fn power_of_two(e: u64) -> (r: u64)
    requires
        e < 64,
    ensures
        r == pow2(e as nat),
{
    let mut r: u64 = 1;
    let mut i: u64 = 0;
    proof {
        lemma2_to64();
    }
    while i < e
        invariant
            i <= e < 64,
            r == pow2(i as nat),
        decreases e - i,
    {
        proof {
            lemma_pow2_unfold((i + 1) as nat);
            lemma2_to64();
            if i + 1 < 64 {
                lemma_pow2_strictly_increases((i + 1) as nat, 64);
            }
        }
        r = r * 2;
        i = i + 1;
    }
    r
}

/// `(sig * 2^places * 2^k) / 2^1074` is `sig` shifted by the places that
/// are left over: up where there are more than 1074, down where fewer.
pub proof fn lemma_scaled_quotient(sig: nat, places: nat, k: nat)
    ensures
        places + k >= 1074 ==> (sig * pow2(places) * pow2(k)) / pow2(1074) == sig * pow2(
            (places + k - 1074) as nat,
        ),
        places + k < 1074 ==> (sig * pow2(places) * pow2(k)) / pow2(1074) == sig / pow2(
            (1074 - places - k) as nat,
        ),
{
    let up = places + k;
    lemma_pow2_adds(places, k);
    lemma_pow2_pos(up);
    lemma_pow2_pos(1074);
    lemma_mul_is_associative(sig as int, pow2(places) as int, pow2(k) as int);
    assert(sig * pow2(places) * pow2(k) == sig * pow2(up));
    if up >= 1074 {
        let d = (up - 1074) as nat;
        lemma_pow2_adds(d, 1074);
        lemma_mul_is_associative(sig as int, pow2(d) as int, pow2(1074) as int);
        assert(sig * pow2(up) == (sig * pow2(d)) * pow2(1074));
        lemma_div_by_multiple((sig * pow2(d)) as int, pow2(1074) as int);
    } else {
        let down = (1074 - up) as nat;
        lemma_pow2_adds(up, down);
        lemma_pow2_pos(down);
        lemma_div_multiples_vanish_quotient(pow2(up) as int, sig as int, pow2(down) as int);
        lemma_mul_is_commutative(pow2(up) as int, sig as int);
    }
}

/// A larger magnitude stands for a larger size.
pub proof fn lemma_units_increase(a: Scalar, b: Scalar)
    requires
        a.magnitude() < b.magnitude(),
    ensures
        a.units() < b.units(),
{
    let ea = a.exponent();
    let eb = b.exponent();
    let sa = a.significand();
    let sb = b.significand();
    let pa = a.places();
    let pb = b.places();
    lemma_pow2_pos(pa);
    lemma_pow2_pos(pb);
    if ea == eb {
        assert(sa * pow2(pa) < sb * pow2(pa)) by (nonlinear_arith)
            requires
                sa < sb,
                pow2(pa) > 0,
        ;
    } else {
        assert(sb * pow2(pb) >= 0x0010_0000_0000_0000 * pow2(pb)) by (nonlinear_arith)
            requires
                sb >= 0x0010_0000_0000_0000,
                pow2(pb) > 0,
        ;
        if ea == 0 {
            lemma2_to64();
            assert(0x0010_0000_0000_0000 * pow2(pb) >= 0x0010_0000_0000_0000) by (nonlinear_arith)
                requires
                    pow2(pb) >= 1,
            ;
        } else {
            lemma_pow2_unfold((pa + 1) as nat);
            if pa + 1 < pb {
                lemma_pow2_strictly_increases((pa + 1) as nat, pb);
            }
            assert(sa * pow2(pa) < 0x0010_0000_0000_0000 * pow2(pb)) by (nonlinear_arith)
                requires
                    sa < 0x0020_0000_0000_0000,
                    pow2(pa) > 0,
                    2 * pow2(pa) <= pow2(pb),
            ;
        }
    }
}

/// Among numbers, the order of the patterns is the order of the values:
/// `<`, `<=` and `==` as this library decides them on patterns hold
/// exactly where they hold of the values that the patterns stand for.
pub proof fn lemma_order_is_numeric(a: Scalar, b: Scalar)
    requires
        !a.spec_is_nan(),
        !b.spec_is_nan(),
    ensures
        a.spec_lt(b) <==> a.signed_units() < b.signed_units(),
        a.spec_le(b) <==> a.signed_units() <= b.signed_units(),
        a.same(b) <==> a.signed_units() == b.signed_units(),
{
    let zero = Scalar { bits: 0 };
    assert(zero.units() == 0) by {
        assert(zero.significand() == 0);
        assert(zero.significand() * pow2(zero.places()) == 0) by (nonlinear_arith)
            requires
                zero.significand() == 0,
        ;
    }
    if a.magnitude() < b.magnitude() {
        lemma_units_increase(a, b);
    }
    if b.magnitude() < a.magnitude() {
        lemma_units_increase(b, a);
    }
    if 0 < a.magnitude() {
        lemma_units_increase(zero, a);
    }
    if 0 < b.magnitude() {
        lemma_units_increase(zero, b);
    }
    if a.magnitude() == b.magnitude() {
        assert(a.units() == b.units());
    }
}

/// A larger size, scaled and rounded down, is not smaller.
pub proof fn lemma_floor_scaled_is_monotone(a: Scalar, b: Scalar, k: nat)
    requires
        a.magnitude() <= b.magnitude(),
    ensures
        a.floor_scaled(k) <= b.floor_scaled(k),
{
    if a.magnitude() < b.magnitude() {
        lemma_units_increase(a, b);
    }
    lemma_pow2_pos(k);
    lemma_pow2_pos(1074);
    assert(a.units() * pow2(k) <= b.units() * pow2(k)) by (nonlinear_arith)
        requires
            a.units() <= b.units(),
            pow2(k) > 0,
    ;
    vstd::arithmetic::div_mod::lemma_div_is_ordered(
        (a.units() * pow2(k)) as int,
        (b.units() * pow2(k)) as int,
        pow2(1074) as int,
    );
}

/// A number below 1 in size, times 256 and rounded down, is below 256.
pub proof fn lemma_floor_scaled_below_one(x: Scalar)
    requires
        x.magnitude() < crate::scalar::ONE,
    ensures
        x.floor_scaled(8) < 256,
{
    let sig = x.significand();
    let places = x.places();
    assert(x.exponent() <= 1022);
    assert(places <= 1021);
    assert(sig < 0x20_0000_0000_0000);
    lemma_scaled_quotient(sig, places, 8);
    lemma2_to64();
    lemma2_to64_rest();
    let down = (1066 - places) as nat;
    assert(x.floor_scaled(8) == sig / pow2(down));
    if down > 45 {
        lemma_pow2_strictly_increases(45, down);
    }
    lemma_pow2_pos(down);
    lemma_div_is_ordered_by_denominator(sig as int, pow2(45) as int, pow2(down) as int);
    assert(sig / pow2(45) < 256);
}

} // verus!
