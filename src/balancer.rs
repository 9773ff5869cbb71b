//! The Balancer smart order router (SOR) and the Vault `batchSwap` call built
//! from the routes it quotes.
use vstd::prelude::*;
use crate::amount::{Amount, Slippage, word};
use crate::domain::{
    Address, Allowance, Asset, Call, Calldata, Order, Side, Swap, max_input, min_output,
};
use crate::http::HttpError;

verus! {

/// Approximate gas used by one elementary swap of a route.
pub const GAS_PER_SWAP: u64 = 88_892;

/// Whether the fixed amount of a batch swap is the one that goes in or the
/// one that comes out.
#[derive(Clone, Copy, Debug, PartialEq, Eq, Structural)]
pub enum SwapKind {
    GivenIn,
    GivenOut,
}

pub open spec fn kind_for(side: Side) -> SwapKind {
    match side {
        Side::Sell => SwapKind::GivenIn,
        Side::Buy => SwapKind::GivenOut,
    }
}

/// One pool hop of a route, with indices into the route's token list.
#[derive(Clone, Debug)]
pub struct PoolSwap {
    pub pool_id: Vec<u8>,
    pub asset_in_index: u64,
    pub asset_out_index: u64,
    pub amount: Amount,
    pub user_data: Vec<u8>,
}

/// A route quoted by the SOR. `swap_amount` is the amount that the order
/// fixes and `return_amount` the one the route yields for it.
#[derive(Clone, Debug)]
pub struct Quote {
    pub token_addresses: Vec<Address>,
    pub swaps: Vec<PoolSwap>,
    pub token_in: Address,
    pub token_out: Address,
    pub swap_amount: Amount,
    pub return_amount: Amount,
}

impl Quote {
    /// Whether the SOR found no route.
    pub fn is_empty(&self) -> (r: bool)
        ensures
            r == (self.swaps@.len() == 0),
    {
        self.swaps.len() == 0
    }
}

/// A signed 256-bit swap limit, `magnitude` or its negation.
#[derive(Clone, Copy, Debug, PartialEq, Eq, Structural)]
pub struct Limit {
    pub negative: bool,
    pub magnitude: Amount,
}

/// The largest value of a signed 256-bit integer, `2^255 - 1`.
pub open spec fn i256_max() -> nat {
    (word() * word() * word() * 0x8000_0000_0000_0000 - 1) as nat
}

impl Limit {
    pub open spec fn value(self) -> int {
        if self.negative {
            -(self.magnitude.value() as int)
        } else {
            self.magnitude.value() as int
        }
    }
}

/// The signed value of `x`, or zero where it does not fit in a signed 256-bit
/// integer.
pub open spec fn signed_or_zero(x: nat) -> nat {
    if x <= i256_max() {
        x
    } else {
        0
    }
}

/// The limit of `token` in a batch swap: the most that may go in for the
/// token sold, the negated least that must come out for the token bought,
/// and zero for every token in between.
pub open spec fn limit_for(
    token: Address,
    sell_token: Address,
    buy_token: Address,
    max_input: nat,
    min_output: nat,
) -> int {
    if token == sell_token {
        signed_or_zero(max_input) as int
    } else if token == buy_token {
        -(signed_or_zero(min_output) as int)
    } else {
        0
    }
}

proof fn lemma_fits_signed(x: Amount)
    ensures
        (x.value() <= i256_max()) == (x.l3 < 0x8000_0000_0000_0000),
{
    let w = word() as int;
    let low = x.l0 as int + w * (x.l1 as int + w * x.l2 as int);
    assert(0 <= low < w * w * w) by (nonlinear_arith)
        requires
            low == x.l0 as int + w * (x.l1 as int + w * x.l2 as int),
            0 <= x.l0 < w, 0 <= x.l1 < w, 0 <= x.l2 < w, w > 0;
    assert(x.value() == low + w * w * w * x.l3 as int) by (nonlinear_arith)
        requires
            low == x.l0 as int + w * (x.l1 as int + w * x.l2 as int),
            x.value() == x.l0 as int + w * (x.l1 as int + w * (x.l2 as int + w * x.l3 as int));
    let c = w * w * w;
    assert(c > 0) by (nonlinear_arith) requires c == w * w * w, w > 0;
    if x.l3 < 0x8000_0000_0000_0000 {
        assert(low + c * x.l3 as int <= c * 0x8000_0000_0000_0000 - 1) by (nonlinear_arith)
            requires low < c, x.l3 < 0x8000_0000_0000_0000, c > 0;
    } else {
        assert(low + c * x.l3 as int >= c * 0x8000_0000_0000_0000) by (nonlinear_arith)
            requires low >= 0, x.l3 >= 0x8000_0000_0000_0000, c > 0;
    }
}

/// `x` as a positive limit, or zero where it does not fit.
fn positive_limit(x: Amount) -> (r: Limit)
    ensures
        r.value() == signed_or_zero(x.value()) as int,
{
    proof {
        lemma_fits_signed(x);
    }
    if x.l3 < 0x8000_0000_0000_0000 {
        Limit { negative: false, magnitude: x }
    } else {
        Limit { negative: false, magnitude: Amount::zero() }
    }
}

/// `x` negated as a limit, or zero where it does not fit.
fn negative_limit(x: Amount) -> (r: Limit)
    ensures
        r.value() == -(signed_or_zero(x.value()) as int),
{
    proof {
        lemma_fits_signed(x);
    }
    if x.l3 < 0x8000_0000_0000_0000 {
        Limit { negative: true, magnitude: x }
    } else {
        Limit { negative: true, magnitude: Amount::zero() }
    }
}

/// The per-token limits of a batch swap over `tokens`, in their order.
pub fn limits(
    tokens: &Vec<Address>,
    sell_token: Address,
    buy_token: Address,
    max_input: Amount,
    min_output: Amount,
) -> (r: Vec<Limit>)
    ensures
        r@.len() == tokens@.len(),
        forall|i: int|
            0 <= i < r@.len() ==> #[trigger] r@[i].value() == limit_for(
                tokens@[i],
                sell_token,
                buy_token,
                max_input.value(),
                min_output.value(),
            ),
{
    let mut out: Vec<Limit> = Vec::new();
    let mut i: usize = 0;
    while i < tokens.len()
        invariant
            i <= tokens@.len(),
            out@.len() == i,
            forall|j: int|
                0 <= j < i ==> #[trigger] out@[j].value() == limit_for(
                    tokens@[j],
                    sell_token,
                    buy_token,
                    max_input.value(),
                    min_output.value(),
                ),
        decreases tokens@.len() - i,
    {
        let token = tokens[i];
        let limit = if token == sell_token {
            positive_limit(max_input)
        } else if token == buy_token {
            negative_limit(min_output)
        } else {
            Limit { negative: false, magnitude: Amount::zero() }
        };
        out.push(limit);
        i = i + 1;
    }
    out
}

/// Limits never loosen the wrong way: the token sold has a limit of at least
/// zero, the token bought one of at most zero, and every other token exactly
/// zero.
pub proof fn lemma_limit_signs(
    token: Address,
    sell_token: Address,
    buy_token: Address,
    max_input: nat,
    min_output: nat,
)
    ensures
        token == sell_token ==> limit_for(token, sell_token, buy_token, max_input, min_output) >= 0,
        token != sell_token && token == buy_token ==> limit_for(
            token,
            sell_token,
            buy_token,
            max_input,
            min_output,
        ) <= 0,
        token != sell_token && token != buy_token ==> limit_for(
            token,
            sell_token,
            buy_token,
            max_input,
            min_output,
        ) == 0,
{
}

/// The accounts of a batch swap and whether they use Vault internal balances.
#[derive(Clone, Copy, Debug, PartialEq, Eq, Structural)]
pub struct Funds {
    pub sender: Address,
    pub from_internal_balance: bool,
    pub recipient: Address,
    pub to_internal_balance: bool,
}

/// The arguments of a Vault `batchSwap(kind, swaps, assets, funds, limits, deadline)`.
#[derive(Clone, Debug)]
pub struct BatchSwap {
    pub kind: SwapKind,
    pub swaps: Vec<PoolSwap>,
    pub assets: Vec<Address>,
    pub funds: Funds,
    pub limits: Vec<Limit>,
    pub deadline: Amount,
}

/// `2^255`: a deadline far enough out that the Vault never enforces it.
pub open spec fn max_deadline() -> nat {
    word() * word() * word() * 0x8000_0000_0000_0000
}

fn far_deadline() -> (r: Amount)
    ensures
        r.value() == max_deadline(),
{
    let r = Amount { l0: 0, l1: 0, l2: 0, l3: 0x8000_0000_0000_0000 };
    assert(r.value() == word() * (word() * (word() * 0x8000_0000_0000_0000)));
    assert(word() * (word() * (word() * 0x8000_0000_0000_0000)) == max_deadline())
        by (nonlinear_arith);
    r
}


/// The chains that the SOR serves.
#[derive(Clone, Copy, Debug, PartialEq, Eq, Structural)]
pub enum Chain {
    Mainnet,
    Gnosis,
    Base,
    ArbitrumOne,
    Sepolia,
}

pub open spec fn chain_of(chain_id: u64) -> Option<Chain> {
    if chain_id == 1 {
        Some(Chain::Mainnet)
    } else if chain_id == 100 {
        Some(Chain::Gnosis)
    } else if chain_id == 8453 {
        Some(Chain::Base)
    } else if chain_id == 42161 {
        Some(Chain::ArbitrumOne)
    } else if chain_id == 11155111 {
        Some(Chain::Sepolia)
    } else {
        None
    }
}

impl Chain {
    /// The SOR chain of an EVM chain id; chains the SOR does not serve are refused.
    pub fn from_domain(chain_id: u64) -> (r: Result<Chain, Error>)
        ensures
            chain_of(chain_id) matches Some(c) ==> r == Ok::<Chain, Error>(c),
            chain_of(chain_id) is None ==> r == Err::<Chain, Error>(Error::UnsupportedChainId(chain_id)),
    {
        if chain_id == 1 {
            Ok(Chain::Mainnet)
        } else if chain_id == 100 {
            Ok(Chain::Gnosis)
        } else if chain_id == 8453 {
            Ok(Chain::Base)
        } else if chain_id == 42161 {
            Ok(Chain::ArbitrumOne)
        } else if chain_id == 11155111 {
            Ok(Chain::Sepolia)
        } else {
            Err(Error::UnsupportedChainId(chain_id))
        }
    }
}

/// The failures of a Balancer quote.
#[derive(Clone, Debug)]
pub enum Error {
    NotFound,
    RateLimited,
    Http(HttpError),
    UnsupportedChainId(u64),
    MissingDecimals(Address),
}

impl From<HttpError> for Error {
    fn from(err: HttpError) -> (r: Error) {
        if err.is_rate_limited() {
            Error::RateLimited
        } else {
            Error::Http(err)
        }
    }
}

impl vstd::std_specs::convert::FromSpecImpl<HttpError> for Error {
    open spec fn obeys_from_spec() -> bool {
        true
    }

    /// A 429 is a rate limit; every other failure is passed on.
    open spec fn from_spec(err: HttpError) -> Error {
        if err.is_rate_limited_spec() {
            Error::RateLimited
        } else {
            Error::Http(err)
        }
    }
}

/// Decimal metadata of the auction's tokens.
pub open spec fn decimals_in(tokens: Seq<(Address, u8)>, token: Address) -> Option<u8>
    decreases tokens.len(),
{
    if tokens.len() == 0 {
        None
    } else if tokens[0].0 == token {
        Some(tokens[0].1)
    } else {
        decimals_in(tokens.drop_first(), token)
    }
}

/// The decimals recorded for `token`, the first entry that names it.
pub fn decimals(tokens: &Vec<(Address, u8)>, token: Address) -> (r: Option<u8>)
    ensures
        r == decimals_in(tokens@, token),
{
    let mut i: usize = 0;
    assert(tokens@.skip(0) =~= tokens@);
    while i < tokens.len()
        invariant
            i <= tokens@.len(),
            decimals_in(tokens@, token) == decimals_in(tokens@.skip(i as int), token),
        decreases tokens@.len() - i,
    {
        assert(tokens@.skip(i as int).drop_first() =~= tokens@.skip(i as int + 1));
        let entry = tokens[i];
        if entry.0 == token {
            return Some(entry.1);
        }
        i = i + 1;
    }
    None
}

/// A request to the SOR for the best route of an order.
#[derive(Clone, Copy, Debug, PartialEq, Eq, Structural)]
pub struct Query {
    pub chain: Chain,
    pub query_batch_swap: bool,
    pub swap_type: SwapKind,
    pub token_in: Address,
    pub token_out: Address,
    /// The amount the order fixes, in atoms of the token it is counted in.
    pub swap_amount: Amount,
    /// The decimals of that token, to express the amount in whole units.
    pub swap_amount_decimals: u8,
    pub sender: Address,
    pub receiver: Address,
    pub slippage_bps: u16,
    /// Seconds since the epoch after which the route is stale.
    pub deadline: u64,
}

/// The token in which an order counts its amount.
pub open spec fn amount_token(order: Order) -> Address {
    match order.side {
        Side::Sell => order.sell,
        Side::Buy => order.buy,
    }
}

impl Query {
    /// The query for `order`; fails where the token that counts the amount
    /// has no decimals among `tokens`.
    pub fn from_domain(
        order: &Order,
        tokens: &Vec<(Address, u8)>,
        slippage: &Slippage,
        chain: Chain,
        settlement: Address,
        query_batch_swap: bool,
        deadline: u64,
    ) -> (r: Result<Query, Error>)
        ensures
            decimals_in(tokens@, amount_token(*order)) is None ==> r == Err::<Query, Error>(
                Error::MissingDecimals(amount_token(*order)),
            ),
            decimals_in(tokens@, amount_token(*order)) matches Some(d) ==> r == Ok::<Query, Error>(
                (Query {
                    chain,
                    query_batch_swap,
                    swap_type: kind_for(order.side),
                    token_in: order.sell,
                    token_out: order.buy,
                    swap_amount: order.amount,
                    swap_amount_decimals: d,
                    sender: settlement,
                    receiver: settlement,
                    slippage_bps: slippage.bps,
                    deadline,
                }),
            ),
    {
        let (token, swap_type) = match order.side {
            Side::Sell => (order.sell, SwapKind::GivenIn),
            Side::Buy => (order.buy, SwapKind::GivenOut),
        };
        match decimals(tokens, token) {
            None => Err(Error::MissingDecimals(token)),
            Some(d) => Ok(Query {
                chain,
                query_batch_swap,
                swap_type,
                token_in: order.sell,
                token_out: order.buy,
                swap_amount: order.amount,
                swap_amount_decimals: d,
                sender: settlement,
                receiver: settlement,
                slippage_bps: slippage.as_bps(),
                deadline,
            }),
        }
    }
}

/// What the order puts in and takes out under a quote: for a `Buy` order
/// the route's return is the input, for a `Sell` order it is the output.
pub open spec fn quoted_input(side: Side, quote: Quote) -> Amount {
    match side {
        Side::Buy => quote.return_amount,
        Side::Sell => quote.swap_amount,
    }
}

pub open spec fn quoted_output(side: Side, quote: Quote) -> Amount {
    match side {
        Side::Buy => quote.swap_amount,
        Side::Sell => quote.return_amount,
    }
}

/// Client settings of the SOR.
#[derive(Clone, Copy, Debug, PartialEq, Eq, Structural)]
pub struct Config {
    pub vault: Address,
    pub settlement: Address,
    pub chain_id: u64,
    pub query_batch_swap: bool,
}

/// Bindings to the Balancer smart order router.
#[derive(Clone, Copy, Debug, PartialEq, Eq, Structural)]
pub struct Sor {
    pub vault: Address,
    pub settlement: Address,
    pub chain: Chain,
    pub query_batch_swap: bool,
}

impl Sor {
    pub fn new(config: Config) -> (r: Result<Sor, Error>)
        ensures
            chain_of(config.chain_id) matches Some(c) ==> r == Ok::<Sor, Error>(
                (Sor {
                    vault: config.vault,
                    settlement: config.settlement,
                    chain: c,
                    query_batch_swap: config.query_batch_swap,
                }),
            ),
            chain_of(config.chain_id) is None ==> r == Err::<Sor, Error>(
                Error::UnsupportedChainId(config.chain_id),
            ),
    {
        let chain = Chain::from_domain(config.chain_id)?;
        Ok(Sor {
            vault: config.vault,
            settlement: config.settlement,
            chain,
            query_batch_swap: config.query_batch_swap,
        })
    }

    /// The query for `order`, due `deadline` seconds after the epoch.
    pub fn query(
        &self,
        order: &Order,
        slippage: &Slippage,
        tokens: &Vec<(Address, u8)>,
        deadline: u64,
    ) -> (r: Result<Query, Error>)
        ensures
            decimals_in(tokens@, amount_token(*order)) is None ==> r == Err::<Query, Error>(
                Error::MissingDecimals(amount_token(*order)),
            ),
            decimals_in(tokens@, amount_token(*order)) matches Some(d) ==> r == Ok::<Query, Error>(
                (Query {
                    chain: self.chain,
                    query_batch_swap: self.query_batch_swap,
                    swap_type: kind_for(order.side),
                    token_in: order.sell,
                    token_out: order.buy,
                    swap_amount: order.amount,
                    swap_amount_decimals: d,
                    sender: self.settlement,
                    receiver: self.settlement,
                    slippage_bps: slippage.bps,
                    deadline,
                }),
            ),
    {
        Query::from_domain(
            order,
            tokens,
            slippage,
            self.chain,
            self.settlement,
            self.query_batch_swap,
            deadline,
        )
    }

    /// The swap for `order` along a quoted route: a single Vault `batchSwap`
    /// over the route, with the allowance granted to the Vault. A quote
    /// without swaps means no route was found.
    pub fn swap(&self, order: &Order, slippage: &Slippage, quote: Quote) -> (r: Result<Swap, Error>)
        ensures
            quote.swaps@.len() == 0 ==> r matches Err(Error::NotFound),
            quote.swaps@.len() != 0 ==> r is Ok,
            r matches Ok(s) ==> {
                let input = quoted_input(order.side, quote);
                let output = quoted_output(order.side, quote);
                let max_in = max_input(order.side, *slippage, input.value());
                let min_out = min_output(order.side, *slippage, output.value());
                &&& s.input == (Asset { token: order.sell, amount: input })
                &&& s.output == (Asset { token: order.buy, amount: output })
                &&& s.allowance.spender == self.vault
                &&& s.allowance.amount.value() == max_in
                &&& s.gas.value() == quote.swaps@.len() * GAS_PER_SWAP
                &&& s.calls@.len() == 1
                &&& s.calls@[0].to == self.vault
                &&& s.calls@[0].calldata matches Calldata::BatchSwap(b) && {
                    &&& b.kind == kind_for(order.side)
                    &&& b.swaps@ == quote.swaps@
                    &&& b.assets@ == quote.token_addresses@
                    &&& b.funds == (Funds {
                        sender: self.settlement,
                        from_internal_balance: false,
                        recipient: self.settlement,
                        to_internal_balance: false,
                    })
                    &&& b.deadline.value() == max_deadline()
                    &&& b.limits@.len() == quote.token_addresses@.len()
                    &&& forall|i: int|
                        0 <= i < b.limits@.len() ==> #[trigger] b.limits@[i].value()
                            == limit_for(
                            quote.token_addresses@[i],
                            order.sell,
                            order.buy,
                            max_in,
                            min_out,
                        )
                }
            },
    {
        if quote.is_empty() {
            return Err(Error::NotFound);
        }
        let (input, output) = match order.side {
            Side::Buy => (quote.return_amount, quote.swap_amount),
            Side::Sell => (quote.swap_amount, quote.return_amount),
        };
        let (max_in, min_out) = match order.side {
            Side::Buy => (slippage.add(input), output),
            Side::Sell => (input, slippage.sub(output)),
        };
        let gas = Amount::from_u128(quote.swaps.len() as u128 * GAS_PER_SWAP as u128);
        let kind = match order.side {
            Side::Sell => SwapKind::GivenIn,
            Side::Buy => SwapKind::GivenOut,
        };
        let limits = limits(&quote.token_addresses, order.sell, order.buy, max_in, min_out);
        let funds = Funds {
            sender: self.settlement,
            from_internal_balance: false,
            recipient: self.settlement,
            to_internal_balance: false,
        };
        let batch = BatchSwap {
            kind,
            swaps: quote.swaps,
            assets: quote.token_addresses,
            funds,
            limits,
            deadline: far_deadline(),
        };
        let mut calls: Vec<Call> = Vec::new();
        calls.push(Call { to: self.vault, calldata: Calldata::BatchSwap(batch) });
        Ok(Swap {
            calls,
            input: Asset { token: order.sell, amount: input },
            output: Asset { token: order.buy, amount: output },
            allowance: Allowance { spender: self.vault, amount: max_in },
            gas,
        })
    }
}

} // verus!
