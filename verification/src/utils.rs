//! Shared basic types of the escrow: running state, project-token kind,
//! curve selection and arguments, and the ordered marker for the multi-step
//! closing procedure.

use vstd::prelude::*;
use vstd::arithmetic::power2::{pow2, lemma2_to64, lemma2_to64_rest, lemma_pow2_adds, lemma_pow2_unfold};
use vstd::arithmetic::div_mod::{lemma_fundamental_div_mod, lemma_mod_division_less_than_divisor, lemma_multiply_divide_lt};
use vstd::arithmetic::mul::{lemma_mul_is_distributive_add, lemma_mul_is_distributive_add_other_way, lemma_mul_is_associative, lemma_mul_is_commutative};

verus! {

/// Fee divisor: fees are given in basis points of this.
pub const FEE_DIVISOR: u32 = 10_000;

/// Whether the escrow accepts state-mutating operations.
#[derive(PartialEq, Eq, Structural, Clone, Copy, Debug)]
pub enum RunningState {
    Running,
    Paused,
}

/// The kind of the final project token that claims convert into.
#[derive(PartialEq, Eq, Structural, Clone, Copy, Debug)]
pub enum ProjectTokenType {
    NonFungible,
    Fungible,
}

/// The shape of the pricing curve.
#[derive(PartialEq, Eq, Structural, Clone, Copy, Debug)]
pub enum CurveType {
    Horizontal,
    Linear,
    Sigmoidal,
}

/// Stage marker of the closing procedure; totally ordered, and advanced one
/// stage per successful `close_project` round.
#[derive(PartialEq, Eq, Structural, Clone, Copy, Debug)]
pub enum ClosedStep {
    NotClosed,
    PreMint,
    RemainProxy,
    TransferOwnership,
}

impl ClosedStep {
    /// Position of the stage in the closing order.
    pub open spec fn index(self) -> int {
        match self {
            ClosedStep::NotClosed => 0,
            ClosedStep::PreMint => 1,
            ClosedStep::RemainProxy => 2,
            ClosedStep::TransferOwnership => 3,
        }
    }

    /// The stage after this one; the last stage stays put.
    pub open spec fn next_step(self) -> ClosedStep {
        match self {
            ClosedStep::NotClosed => ClosedStep::PreMint,
            ClosedStep::PreMint => ClosedStep::RemainProxy,
            _ => ClosedStep::TransferOwnership,
        }
    }

    /// The next stage of the closing order; the last stage stays put.
    pub fn increase(&self) -> (r: ClosedStep)
        ensures
            r == self.next_step(),
            self.index() < 3 ==> r.index() == self.index() + 1,
            self.index() == 3 ==> r.index() == 3,
    {
        match self {
            ClosedStep::NotClosed => ClosedStep::PreMint,
            ClosedStep::PreMint => ClosedStep::RemainProxy,
            _ => ClosedStep::TransferOwnership,
        }
    }

    /// The previous stage of the closing order; the first stage stays put.
    pub fn decrease(&self) -> (r: ClosedStep)
        ensures
            self.index() > 0 ==> r.index() == self.index() - 1,
            self.index() == 0 ==> r.index() == 0,
    {
        match self {
            ClosedStep::TransferOwnership => ClosedStep::RemainProxy,
            ClosedStep::RemainProxy => ClosedStep::PreMint,
            _ => ClosedStep::NotClosed,
        }
    }
}

/// Arguments of the pricing curve; which ones are read depends on the curve
/// type.
#[derive(PartialEq, Eq, Structural, Clone, Copy, Debug)]
pub struct CurveArgs {
    pub arg_a: Option<u128>,
    pub arg_b: Option<u128>,
    pub arg_c: Option<u128>,
    pub arg_d: Option<u128>,
}

/// 2^128, the weight of the upper half of a [`U256`].
pub open spec fn two_pow_128() -> nat {
    0x1_0000_0000_0000_0000_0000_0000_0000_0000nat
}

/// 2^256, the first value a [`U256`] cannot hold.
pub open spec fn two_pow_256() -> nat {
    two_pow_128() * two_pow_128()
}

/// Splitting two factors at `t` splits their product into four partial
/// products.
proof fn lemma_mul_split_halves(a: int, b: int, ah: int, al: int, bh: int, bl: int, t: int)
    requires
        a == ah * t + al,
        b == bh * t + bl,
    ensures
        a * b == (ah * bh) * (t * t) + (ah * bl) * t + (al * bh) * t + al * bl,
{
    assert(a * b == a * (bh * t) + a * bl) by {
        lemma_mul_is_distributive_add(a, bh * t, bl);
    }
    assert(a * (bh * t) == (a * bh) * t) by {
        lemma_mul_is_associative(a, bh, t);
    }
    assert(a * bh == (ah * bh) * t + al * bh) by {
        lemma_mul_is_distributive_add_other_way(bh, ah * t, al);
        lemma_mul_is_associative(ah, t, bh);
        lemma_mul_is_commutative(t, bh);
        lemma_mul_is_associative(ah, bh, t);
    }
    assert((a * bh) * t == ((ah * bh) * t) * t + (al * bh) * t) by {
        lemma_mul_is_distributive_add_other_way(t, (ah * bh) * t, al * bh);
    }
    assert(((ah * bh) * t) * t == (ah * bh) * (t * t)) by {
        lemma_mul_is_associative(ah * bh, t, t);
    }
    assert(a * bl == (ah * bl) * t + al * bl) by {
        lemma_mul_is_distributive_add_other_way(bl, ah * t, al);
        lemma_mul_is_associative(ah, t, bl);
        lemma_mul_is_commutative(t, bl);
        lemma_mul_is_associative(ah, bl, t);
    }
}

/// Any 256-bit value lies below 2^256.
pub proof fn lemma_u256_bound(x: U256)
    ensures
        x.as_nat() < two_pow_256(),
{
    assert(x.as_nat() < two_pow_128() * two_pow_128()) by (nonlinear_arith)
        requires
            x.as_nat() == (x.hi as nat) * two_pow_128() + (x.lo as nat),
            (x.hi as nat) < two_pow_128(),
            (x.lo as nat) < two_pow_128(),
    ;
}

/// A 256-bit unsigned integer, wide enough to square any `u128` price
/// intermediate without overflow.
#[derive(PartialEq, Eq, Structural, Clone, Copy, Debug)]
pub struct U256 {
    pub hi: u128,
    pub lo: u128,
}

impl U256 {
    /// The mathematical value held.
    pub open spec fn as_nat(self) -> nat {
        (self.hi as nat) * two_pow_128() + self.lo as nat
    }

    /// Widen a `u128`.
    pub fn from_u128(v: u128) -> (r: U256)
        ensures
            r.as_nat() == v,
    {
        U256 { hi: 0, lo: v }
    }

    /// Narrow back to a `u128`; `None` when the value does not fit.
    pub fn try_as_u128(self) -> (r: Option<u128>)
        ensures
            match r {
                Some(v) => v == self.lo && self.as_nat() == v,
                None => self.as_nat() >= two_pow_128(),
            },
    {
        if self.hi == 0 {
            Some(self.lo)
        } else {
            assert(self.as_nat() >= 1 * two_pow_128());
            None
        }
    }

    /// Whether `self <= other` as mathematical values.
    pub fn le(&self, other: &U256) -> (r: bool)
        ensures
            r == (self.as_nat() <= other.as_nat()),
    {
        if self.hi < other.hi {
            assert((self.hi as nat) * two_pow_128() + two_pow_128() <= (other.hi as nat)
                * two_pow_128()) by (nonlinear_arith)
                requires
                    self.hi < other.hi,
            ;
            true
        } else if self.hi == other.hi {
            self.lo <= other.lo
        } else {
            assert((other.hi as nat) * two_pow_128() + two_pow_128() <= (self.hi as nat)
                * two_pow_128()) by (nonlinear_arith)
                requires
                    other.hi < self.hi,
            ;
            false
        }
    }

    /// The full 256-bit product of two `u128` values.
    pub fn mul_u128(a: u128, b: u128) -> (r: U256)
        ensures
            r.as_nat() == (a as nat) * (b as nat),
    {
        let t: u128 = 0x1_0000_0000_0000_0000;
        let ah = a / t;
        let al = a % t;
        let bh = b / t;
        let bl = b % t;
        proof {
            lemma_fundamental_div_mod(a as int, t as int);
            lemma_fundamental_div_mod(b as int, t as int);
            lemma_mod_division_less_than_divisor(a as int, t as int);
            lemma_mod_division_less_than_divisor(b as int, t as int);
            lemma_multiply_divide_lt(a as int, t as int, t as int);
            lemma_multiply_divide_lt(b as int, t as int, t as int);
        }
        assert(ah < t && al < t && bh < t && bl < t);
        assert((al as int) * (bl as int) <= ((t - 1) as int) * ((t - 1) as int) && (al as int) * (
        bh as int) <= ((t - 1) as int) * ((t - 1) as int) && (ah as int) * (bl as int) <= ((t
            - 1) as int) * ((t - 1) as int) && (ah as int) * (bh as int) <= ((t - 1) as int) * ((t
            - 1) as int)) by (nonlinear_arith)
            requires
                ah < t && al < t && bh < t && bl < t,
        ;
        assert(((t - 1) as int) * ((t - 1) as int)
            == 0xffff_ffff_ffff_fffe_0000_0000_0000_0001int);
        assert((t as int) * (t as int) == 0x1_0000_0000_0000_0000_0000_0000_0000_0000int);
        let ll = al * bl;
        let lh = al * bh;
        let hl = ah * bl;
        let hh = ah * bh;
        proof {
            lemma_fundamental_div_mod(ll as int, t as int);
            lemma_mod_division_less_than_divisor(ll as int, t as int);
            lemma_multiply_divide_lt(ll as int, t as int, t as int);
        }
        let mid1 = lh + ll / t;
        proof {
            lemma_fundamental_div_mod(mid1 as int, t as int);
            lemma_mod_division_less_than_divisor(mid1 as int, t as int);
            lemma_multiply_divide_lt(mid1 as int, t as int, t as int);
        }
        let mid2 = hl + mid1 % t;
        proof {
            lemma_fundamental_div_mod(mid2 as int, t as int);
            lemma_mod_division_less_than_divisor(mid2 as int, t as int);
            lemma_multiply_divide_lt(mid2 as int, t as int, t as int);
        }
        let lo = (mid2 % t) * t + ll % t;
        let hi = hh + mid1 / t + mid2 / t;
        proof {
            lemma_mul_split_halves(
                a as int,
                b as int,
                ah as int,
                al as int,
                bh as int,
                bl as int,
                t as int,
            );
        }
        U256 { hi, lo }
    }

    /// The product of a 256-bit value and a `u128`; `None` when the result
    /// does not fit 256 bits.
    pub fn checked_mul_u128(&self, m: u128) -> (r: Option<U256>)
        ensures
            match r {
                Some(w) => w.as_nat() == self.as_nat() * m,
                None => self.as_nat() * m >= two_pow_256(),
            },
    {
        let upper = U256::mul_u128(self.hi, m);
        let lower = U256::mul_u128(self.lo, m);
        assert(self.as_nat() * m == ((self.hi as nat) * (m as nat)) * two_pow_128() + (
        self.lo as nat) * (m as nat)) by (nonlinear_arith)
            requires
                self.as_nat() == (self.hi as nat) * two_pow_128() + self.lo as nat,
        ;
        if upper.hi != 0 {
            assert(self.as_nat() * m >= two_pow_256()) by {
                assert((self.hi as nat) * (m as nat) >= 1 * two_pow_128());
                assert(((self.hi as nat) * (m as nat)) * two_pow_128() >= two_pow_128()
                    * two_pow_128()) by (nonlinear_arith)
                    requires
                        (self.hi as nat) * (m as nat) >= two_pow_128(),
                ;
            }
            return None;
        }
        match upper.lo.checked_add(lower.hi) {
            Some(h) => Some(U256 { hi: h, lo: lower.lo }),
            None => {
                assert(self.as_nat() * m >= two_pow_256());
                None
            },
        }
    }
}

/// Whether `r` is the integer square root of `v` rounded down.
pub open spec fn is_isqrt(v: nat, r: nat) -> bool {
    r * r <= v && v < (r + 1) * (r + 1)
}

/// The integer square root of `v` rounded down.
pub open spec fn sqrt_floor(v: nat) -> nat {
    choose|r: nat| is_isqrt(v, r)
}

/// Every value has an integer square root, and `sqrt_floor` denotes it.
pub proof fn lemma_isqrt_exists(v: nat)
    ensures
        is_isqrt(v, sqrt_floor(v)),
    decreases v,
{
    if v == 0 {
        assert(0nat * 0nat <= v && v < (0nat + 1) * (0nat + 1)) by (nonlinear_arith)
            requires
                v == 0,
        ;
        assert(is_isqrt(v, 0nat));
    } else {
        lemma_isqrt_exists((v - 1) as nat);
        let r = sqrt_floor((v - 1) as nat);
        if (r + 1) * (r + 1) <= v {
            assert(is_isqrt(v, r + 1)) by (nonlinear_arith)
                requires
                    (r + 1) * (r + 1) <= v,
                    v - 1 < (r + 1) * (r + 1),
            ;
        } else {
            assert(is_isqrt(v, r));
        }
    }
}

/// The integer square root is unique.
pub proof fn lemma_isqrt_unique(v: nat, r1: nat, r2: nat) by (nonlinear_arith)
    requires
        is_isqrt(v, r1),
        is_isqrt(v, r2),
    ensures
        r1 == r2,
{
}

/// The integer square root never decreases as its argument grows.
pub proof fn lemma_isqrt_monotonic(a: nat, b: nat)
    requires
        a <= b,
    ensures
        sqrt_floor(a) <= sqrt_floor(b),
{
    lemma_isqrt_exists(a);
    lemma_isqrt_exists(b);
    let ra = sqrt_floor(a);
    let rb = sqrt_floor(b);
    if ra > rb {
        assert(false) by (nonlinear_arith)
            requires
                ra * ra <= a,
                b < (rb + 1) * (rb + 1),
                a <= b,
                ra > rb,
        ;
    }
}

/// Integer square root, rounded down, of a 256-bit value.
///
/// The result always fits the lower half, so the upper half of the result is
/// zero.
pub fn integer_sqrt(value: U256) -> (res: U256)
    ensures
        res.hi == 0,
        is_isqrt(value.as_nat(), res.lo as nat),
        res.as_nat() == sqrt_floor(value.as_nat()),
{
    let ghost v: nat = value.as_nat();
    let mut root: u128 = 0;
    let mut p: u128 = 0x8000_0000_0000_0000_0000_0000_0000_0000;
    let ghost mut k: nat = 127;
    proof {
        lemma2_to64();
        lemma2_to64_rest();
        lemma_pow2_adds(63, 64);
        assert(p == pow2(127));
        lemma_u256_bound(value);
        assert((root as nat + 2 * (p as nat)) * (root as nat + 2 * (p as nat)) == two_pow_128()
            * two_pow_128());
    }
    while p > 0
        invariant
            value.as_nat() == v,
            (root as nat) * (root as nat) <= v,
            p > 0 ==> p == pow2(k) && k <= 127,
            p > 0 ==> v < (root as nat + 2 * (p as nat)) * (root as nat + 2 * (p as nat)),
            p == 0 ==> v < (root as nat + 1) * (root as nat + 1),
            root as nat + 2 * (p as nat) <= two_pow_128(),
        decreases p,
    {
        let cand = root + p;
        let sq = U256::mul_u128(cand, cand);
        if sq.le(&value) {
            root = cand;
        }
        proof {
            lemma2_to64();
            if p > 1 {
                assert(pow2(k) > pow2(0)) by {
                    assert(pow2(0) == 1);
                }
                if k == 0 {
                    assert(false);
                }
                lemma_pow2_unfold(k);
                assert(p / 2 == pow2((k - 1) as nat));
                k = (k - 1) as nat;
            }
        }
        p = p / 2;
    }
    proof {
        lemma_isqrt_exists(v);
        lemma_isqrt_unique(v, root as nat, sqrt_floor(v));
    }
    U256 { hi: 0, lo: root }
}

} // verus!
