//! Unsigned 256-bit token amounts and the slippage tolerance applied to them.
use vstd::prelude::*;
use vstd::arithmetic::div_mod::{lemma_fundamental_div_mod, lemma_hoist_over_denominator};
use vstd::arithmetic::mul::lemma_mul_inequality;

verus! {

pub open spec fn word() -> nat {
    0x1_0000_0000_0000_0000
}

/// The largest value an `Amount` can hold, `2^256 - 1`.
pub open spec fn max_amount() -> nat {
    (word() * word() * word() * word() - 1) as nat
}

/// A non-negative 256-bit integer of token atoms, as four 64-bit limbs with
/// the least significant first (the layout of `ethereum_types::U256`).
#[derive(Clone, Copy, Debug, PartialEq, Eq, Structural)]
pub struct Amount {
    pub l0: u64,
    pub l1: u64,
    pub l2: u64,
    pub l3: u64,
}

impl Amount {
    pub open spec fn value(self) -> nat {
        self.l0 as nat + word() * (self.l1 as nat + word() * (self.l2 as nat + word()
            * self.l3 as nat))
    }

    pub fn zero() -> (r: Amount)
        ensures
            r.value() == 0,
    {
        Amount { l0: 0, l1: 0, l2: 0, l3: 0 }
    }

    pub fn from_u64(x: u64) -> (r: Amount)
        ensures
            r.value() == x,
    {
        Amount { l0: x, l1: 0, l2: 0, l3: 0 }
    }

    pub fn from_u128(x: u128) -> (r: Amount)
        ensures
            r.value() == x,
    {
        let lo = (x % 0x1_0000_0000_0000_0000) as u64;
        let hi = (x / 0x1_0000_0000_0000_0000) as u64;
        proof {
            lemma_fundamental_div_mod(x as int, word() as int);
        }
        Amount { l0: lo, l1: hi, l2: 0, l3: 0 }
    }
}

pub proof fn lemma_value_bounds(a: Amount)
    ensures
        a.value() <= max_amount(),
        a.value() < word() ==> a.l1 == 0 && a.l2 == 0 && a.l3 == 0,
        a.value() < word() ==> a.value() == a.l0,
{
    let w = word() as int;
    let t3 = a.l3 as int;
    let t2 = a.l2 as int + w * t3;
    let t1 = a.l1 as int + w * t2;
    assert(t3 <= w - 1);
    lemma_mul_inequality(t3, w - 1, w);
    assert(t2 <= w * w - 1) by (nonlinear_arith)
        requires t2 == a.l2 as int + w * t3, a.l2 <= w - 1, t3 <= w - 1, w > 0;
    assert(t1 <= w * w * w - 1) by (nonlinear_arith)
        requires t1 == a.l1 as int + w * t2, a.l1 <= w - 1, t2 <= w * w - 1, w > 0;
    assert(a.value() <= w * w * w * w - 1) by (nonlinear_arith)
        requires a.value() == a.l0 as int + w * t1, a.l0 <= w - 1, t1 <= w * w * w - 1, w > 0;
    if a.value() < word() {
        assert(t1 == 0) by (nonlinear_arith)
            requires a.value() == a.l0 as int + w * t1, a.value() < w, t1 >= 0, w > 0;
        assert(t2 == 0) by (nonlinear_arith)
            requires t1 == a.l1 as int + w * t2, t1 == 0, t2 >= 0, w > 0, a.l1 >= 0;
        assert(t3 == 0) by (nonlinear_arith)
            requires t2 == a.l2 as int + w * t3, t2 == 0, t3 >= 0, w > 0, a.l2 >= 0;
    }
}

/// Relies on `U256::saturating_add`: the sum, or `U256::MAX` where it overflows.
#[verifier::external_body]
fn saturating_add(a: Amount, b: Amount) -> (r: Amount)
    ensures
        r.value() == if a.value() + b.value() <= max_amount() {
            a.value() + b.value()
        } else {
            max_amount()
        },
{
    let w = ethereum_types::U256([a.l0, a.l1, a.l2, a.l3]).saturating_add(
        ethereum_types::U256([b.l0, b.l1, b.l2, b.l3]),
    ).0;
    Amount { l0: w[0], l1: w[1], l2: w[2], l3: w[3] }
}

/// Relies on `U256::saturating_sub`: the difference, or zero where it underflows.
#[verifier::external_body]
fn saturating_sub(a: Amount, b: Amount) -> (r: Amount)
    ensures
        r.value() == if b.value() <= a.value() {
            a.value() - b.value()
        } else {
            0
        },
{
    let w = ethereum_types::U256([a.l0, a.l1, a.l2, a.l3]).saturating_sub(
        ethereum_types::U256([b.l0, b.l1, b.l2, b.l3]),
    ).0;
    Amount { l0: w[0], l1: w[1], l2: w[2], l3: w[3] }
}

/// Relies on `U256::checked_mul`: the product, or `None` where it overflows.
#[verifier::external_body]
fn checked_mul(a: Amount, b: Amount) -> (r: Option<Amount>)
    ensures
        r is Some <==> a.value() * b.value() <= max_amount(),
        r matches Some(p) ==> p.value() == a.value() * b.value(),
{
    match ethereum_types::U256([a.l0, a.l1, a.l2, a.l3]).checked_mul(
        ethereum_types::U256([b.l0, b.l1, b.l2, b.l3]),
    ) {
        Some(p) => Some(Amount { l0: p.0[0], l1: p.0[1], l2: p.0[2], l3: p.0[3] }),
        None => None,
    }
}

/// Relies on `U256::div_mod`: quotient and remainder; it panics on a zero divisor.
#[verifier::external_body]
fn div_mod(a: Amount, d: Amount) -> (r: (Amount, Amount))
    requires
        d.value() != 0,
    ensures
        r.0.value() == a.value() / d.value(),
        r.1.value() == a.value() % d.value(),
{
    let (q, m) = ethereum_types::U256([a.l0, a.l1, a.l2, a.l3]).div_mod(
        ethereum_types::U256([d.l0, d.l1, d.l2, d.l3]),
    );
    (
        Amount { l0: q.0[0], l1: q.0[1], l2: q.0[2], l3: q.0[3] },
        Amount { l0: m.0[0], l1: m.0[1], l2: m.0[2], l3: m.0[3] },
    )
}

/// Basis points in one whole.
pub const BPS_DENOMINATOR: u64 = 10000;

/// A relative tolerance, in basis points.
#[derive(Clone, Copy, Debug, PartialEq, Eq, Structural)]
pub struct Slippage {
    pub bps: u16,
}

/// The largest `Amount`, every bit set.
fn max_value() -> (r: Amount)
    ensures
        r.value() == max_amount(),
{
    let r = Amount { l0: u64::MAX, l1: u64::MAX, l2: u64::MAX, l3: u64::MAX };
    let ghost w: int = word() as int;
    assert(r.value() == max_amount()) by (nonlinear_arith)
        requires
            w == 0x1_0000_0000_0000_0000int,
            r.value() == (w - 1) + w * ((w - 1) + w * ((w - 1) + w * (w - 1))),
            max_amount() == w * w * w * w - 1,
    ;
    r
}

impl Slippage {
    pub open spec fn bps_spec(self) -> nat {
        self.bps as nat
    }

    /// The part of `amount` that the tolerance allows to deviate, rounded
    /// down and capped at the largest amount.
    pub open spec fn tolerance(self, amount: nat) -> nat {
        let t = amount * self.bps as nat / BPS_DENOMINATOR as nat;
        if t <= max_amount() {
            t
        } else {
            max_amount()
        }
    }

    /// A tolerance of `bps` basis points.
    pub fn from_bps(bps: u16) -> (r: Slippage)
        ensures
            r.bps_spec() == bps,
    {
        Slippage { bps }
    }

    pub fn as_bps(&self) -> (r: u16)
        ensures
            r == self.bps_spec(),
    {
        self.bps
    }

    /// `amount * bps / 10000`, rounded down, computed without overflow and
    /// saturating at the largest amount.
    fn abs(&self, amount: Amount) -> (r: Amount)
        ensures
            r.value() == self.tolerance(amount.value()),
    {
        let d = Amount::from_u64(BPS_DENOMINATOR);
        let (q, m) = div_mod(amount, d);
        let b = Amount::from_u64(self.bps as u64);
        let ghost a: int = amount.value() as int;
        let ghost n: int = BPS_DENOMINATOR as int;
        let ghost bi: int = self.bps as int;
        let ghost qv: int = q.value() as int;
        let ghost mv: int = m.value() as int;
        proof {
            lemma_fundamental_div_mod(a, n);
            lemma_value_bounds(m);
            assert(m.l0 < 10000);
            assert(m.l0 * (self.bps as u64) <= 10000 * 0x10000) by (nonlinear_arith)
                requires m.l0 < 10000, self.bps <= 0xffff;
            assert(a * bi == (mv * bi) + (qv * bi) * n) by (nonlinear_arith)
                requires a == n * qv + mv;
            lemma_hoist_over_denominator(mv * bi, qv * bi, n as nat);
            assert(0 <= mv * bi / n) by (nonlinear_arith)
                requires 0 <= mv, 0 <= bi, n > 0;
        }
        let rb: u64 = m.l0 * (self.bps as u64) / BPS_DENOMINATOR;
        match checked_mul(q, b) {
            None => max_value(),
            Some(qb) => saturating_add(qb, Amount::from_u64(rb)),
        }
    }

    /// Loosens an upper bound: `amount` plus the tolerance, saturating at the maximum.
    pub fn add(&self, amount: Amount) -> (r: Amount)
        ensures
            r.value() == if amount.value() + self.tolerance(amount.value()) <= max_amount() {
                amount.value() + self.tolerance(amount.value())
            } else {
                max_amount()
            },
    {
        let t = self.abs(amount);
        saturating_add(amount, t)
    }

    /// Tightens a lower bound: `amount` minus the tolerance, never below zero.
    pub fn sub(&self, amount: Amount) -> (r: Amount)
        ensures
            r.value() == if self.tolerance(amount.value()) <= amount.value() {
                amount.value() - self.tolerance(amount.value())
            } else {
                0
            },
    {
        let t = self.abs(amount);
        saturating_sub(amount, t)
    }
}

} // verus!
