//! Provider-agnostic vocabulary: orders, assets, calls and swaps.
use vstd::prelude::*;
use crate::amount::{Amount, Slippage, max_amount};
use crate::balancer::BatchSwap;

verus! {

/// A 20-byte account or contract address read big-endian: the first four
/// bytes in `hi`, the last sixteen in `lo`.
#[derive(Clone, Copy, Debug, PartialEq, Eq, Structural)]
pub struct Address {
    pub hi: u32,
    pub lo: u128,
}

impl Address {
    /// The address whose last eight bytes are `x` and whose others are zero.
    pub fn from_low_u64(x: u64) -> (r: Address)
        ensures
            r.hi == 0,
            r.lo == x,
    {
        Address { hi: 0, lo: x as u128 }
    }
}

/// Whether an order fixes the amount sold or the amount bought.
#[derive(Clone, Copy, Debug, PartialEq, Eq, Structural)]
pub enum Side {
    Sell,
    Buy,
}

/// A request to trade `sell` for `buy`; `amount` is sold for `Sell` orders
/// and bought for `Buy` orders.
#[derive(Clone, Copy, Debug, PartialEq, Eq, Structural)]
pub struct Order {
    pub sell: Address,
    pub buy: Address,
    pub amount: Amount,
    pub side: Side,
}

/// One side of a swap.
#[derive(Clone, Copy, Debug, PartialEq, Eq, Structural)]
pub struct Asset {
    pub token: Address,
    pub amount: Amount,
}

/// The token approval that must be granted before the swap's calls run.
#[derive(Clone, Copy, Debug, PartialEq, Eq, Structural)]
pub struct Allowance {
    pub spender: Address,
    pub amount: Amount,
}

/// What a call hands to its target: bytes ready to send, or a Balancer
/// Vault `batchSwap` whose arguments are kept apart for the contract binding.
#[derive(Clone, Debug)]
pub enum Calldata {
    Raw(Vec<u8>),
    BatchSwap(BatchSwap),
}

/// One contract invocation.
#[derive(Clone, Debug)]
pub struct Call {
    pub to: Address,
    pub calldata: Calldata,
}

/// An executable swap: the calls, what goes in and out, the approval
/// needed and an estimate of the gas used.
#[derive(Clone, Debug)]
pub struct Swap {
    pub calls: Vec<Call>,
    pub input: Asset,
    pub output: Asset,
    pub allowance: Allowance,
    pub gas: Amount,
}

/// The most that may go in: loosened by the slippage for `Buy` orders.
pub open spec fn max_input(side: Side, slippage: Slippage, input: nat) -> nat {
    match side {
        Side::Buy => if input + slippage.tolerance(input) <= max_amount() {
            input + slippage.tolerance(input)
        } else {
            max_amount()
        },
        Side::Sell => input,
    }
}

/// The least that must come out: tightened by the slippage for `Sell` orders.
pub open spec fn min_output(side: Side, slippage: Slippage, output: nat) -> nat {
    match side {
        Side::Buy => output,
        Side::Sell => if slippage.tolerance(output) <= output {
            (output - slippage.tolerance(output)) as nat
        } else {
            0
        },
    }
}


/// Slippage only ever loosens a bound the safe way: the least output of a
/// sell order is at most the quoted output, the most input of a buy order at
/// least the quoted input, and neither is negative.
pub proof fn lemma_slippage_bounds(slippage: Slippage, quoted: Amount)
    ensures
        min_output(Side::Sell, slippage, quoted.value()) <= quoted.value(),
        0 <= min_output(Side::Sell, slippage, quoted.value()),
        max_input(Side::Buy, slippage, quoted.value()) >= quoted.value(),
{
    crate::amount::lemma_value_bounds(quoted);
}

} // verus!
