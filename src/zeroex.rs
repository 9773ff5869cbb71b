//! The 0x swap API: queries, the swap built from a quote, and error mapping.
use vstd::prelude::*;
use vstd::string::StringExecFns;
use crate::amount::{Amount, Slippage};
use crate::domain::{
    Address, Allowance, Asset, Call, Calldata, Order, Side, Swap, max_input, min_output,
};
use crate::http::{HttpError, RoundtripError};

verus! {

/// The ids of `ids`, separated by commas.
pub open spec fn comma_joined(ids: Seq<String>) -> Seq<char>
    decreases ids.len(),
{
    if ids.len() == 0 {
        Seq::empty()
    } else if ids.len() == 1 {
        ids[0]@
    } else {
        comma_joined(ids.drop_last()) + seq![','] + ids.last()@
    }
}

/// A 0x quote query.
#[derive(Clone, Debug)]
pub struct Query {
    pub chain_id: u64,
    pub sell_token: Address,
    pub buy_token: Address,
    /// The amount to sell, in atoms.
    pub sell_amount: Amount,
    /// The address that fills the quote.
    pub taker: Address,
    pub tx_origin: Option<Address>,
    pub gas_price: Option<String>,
    pub slippage_bps: Option<u16>,
    /// Liquidity sources to leave out.
    pub excluded_sources: Vec<String>,
}

impl Query {
    /// These parameters with the order's tokens, amount and slippage. The
    /// order's amount is sent as the amount sold, whatever its side.
    pub fn with_domain(self, order: &Order, slippage: &Slippage) -> (r: Query)
        ensures
            r == (Query {
                sell_token: order.sell,
                buy_token: order.buy,
                sell_amount: order.amount,
                slippage_bps: Some(slippage.bps),
                ..self
            }),
    {
        Query {
            sell_token: order.sell,
            buy_token: order.buy,
            sell_amount: order.amount,
            slippage_bps: Some(slippage.as_bps()),
            ..self
        }
    }

    /// The excluded sources as the API takes them, joined by commas.
    pub fn excluded_sources_param(&self) -> (r: String)
        ensures
            r@ == comma_joined(self.excluded_sources@),
    {
        let ids = &self.excluded_sources;
        let mut out = String::new();
        let mut i: usize = 0;
        while i < ids.len()
            invariant
                i <= ids@.len(),
                out@ == comma_joined(ids@.take(i as int)),
            decreases ids@.len() - i,
        {
            proof {
                assert(ids@.take(i as int + 1).drop_last() =~= ids@.take(i as int));
                reveal_strlit(",");
            }
            if i > 0 {
                out.append(",");
            }
            out.append(ids[i].as_str());
            i = i + 1;
        }
        assert(ids@.take(ids@.len() as int) =~= ids@);
        out
    }
}

/// The transaction of a 0x quote.
#[derive(Clone, Debug)]
pub struct Transaction {
    /// The contract to call to execute the swap.
    pub to: Address,
    pub data: Vec<u8>,
    /// The gas limit of the transaction.
    pub gas: Amount,
}

/// A 0x quote.
#[derive(Clone, Debug)]
pub struct Quote {
    pub transaction: Transaction,
    /// The amount of the sell token, in atoms, that the swap sells.
    pub sell_amount: Amount,
    /// The amount of the buy token, in atoms, that the swap buys.
    pub buy_amount: Amount,
}

/// An error body of the 0x API.
#[derive(Clone, Debug)]
pub struct ApiError {
    pub code: i64,
    pub reason: String,
}

/// A 0x response: a quote or an error body.
#[derive(Clone, Debug)]
pub enum Response {
    Quote(Quote),
    Failure(ApiError),
}

impl Response {
    /// The response as a `Result`.
    pub fn into_result(self) -> (r: Result<Quote, ApiError>)
        ensures
            self matches Response::Quote(q) ==> r == Ok::<Quote, ApiError>(q),
            self matches Response::Failure(e) ==> r == Err::<Quote, ApiError>(e),
    {
        match self {
            Response::Quote(quote) => Ok(quote),
            Response::Failure(err) => Err(err),
        }
    }
}

/// The 0x error code that means no route was found.
pub const NO_ROUTE_CODE: i64 = 100;

/// The 0x error code of a rate-limited request.
pub const RATE_LIMIT_CODE: i64 = 429;

/// The failures of a 0x quote.
#[derive(Clone, Debug)]
pub enum Error {
    NotFound,
    RateLimited,
    Api { code: i64, reason: String },
    Http(HttpError),
}

impl From<RoundtripError<ApiError>> for Error {
    fn from(err: RoundtripError<ApiError>) -> (r: Error) {
        match err {
            RoundtripError::Http(e) => {
                if e.is_rate_limited() {
                    Error::RateLimited
                } else {
                    Error::Http(e)
                }
            },
            RoundtripError::Api(e) => {
                if e.code == NO_ROUTE_CODE {
                    Error::NotFound
                } else if e.code == RATE_LIMIT_CODE {
                    Error::RateLimited
                } else {
                    Error::Api { code: e.code, reason: e.reason }
                }
            },
        }
    }
}

impl vstd::std_specs::convert::FromSpecImpl<RoundtripError<ApiError>> for Error {
    open spec fn obeys_from_spec() -> bool {
        true
    }

    /// A 429, as a status or as a provider code, is a rate limit; the
    /// provider code 100 means that no route was found; other provider
    /// errors keep their code and reason.
    open spec fn from_spec(err: RoundtripError<ApiError>) -> Error {
        match err {
            RoundtripError::Http(e) => if e.is_rate_limited_spec() {
                Error::RateLimited
            } else {
                Error::Http(e)
            },
            RoundtripError::Api(e) => if e.code == NO_ROUTE_CODE {
                Error::NotFound
            } else if e.code == RATE_LIMIT_CODE {
                Error::RateLimited
            } else {
                Error::Api { code: e.code, reason: e.reason }
            },
        }
    }
}

/// Client settings of the 0x API.
#[derive(Clone, Debug)]
pub struct Config {
    pub chain_id: u64,
    /// The settlement contract, which takes the quotes.
    pub settlement: Address,
    pub excluded_sources: Vec<String>,
}

/// Bindings to the 0x swap API.
#[derive(Clone, Debug)]
pub struct ZeroEx {
    pub defaults: Query,
}

impl ZeroEx {
    pub fn new(config: Config) -> (r: ZeroEx)
        ensures
            r.defaults.chain_id == config.chain_id,
            r.defaults.taker == config.settlement,
            r.defaults.tx_origin is None,
            r.defaults.gas_price is None,
            r.defaults.slippage_bps is None,
            r.defaults.sell_amount.value() == 0,
            r.defaults.excluded_sources == config.excluded_sources,
    {
        ZeroEx {
            defaults: Query {
                chain_id: config.chain_id,
                sell_token: Address { hi: 0, lo: 0 },
                buy_token: Address { hi: 0, lo: 0 },
                sell_amount: Amount::zero(),
                taker: config.settlement,
                tx_origin: None,
                gas_price: None,
                slippage_bps: None,
                excluded_sources: config.excluded_sources,
            },
        }
    }

    /// The query for `order`: the client's settings with the order's
    /// tokens, amount and slippage.
    pub fn query(&self, order: &Order, slippage: &Slippage) -> (r: Query)
        ensures
            r.chain_id == self.defaults.chain_id,
            r.taker == self.defaults.taker,
            r.tx_origin == self.defaults.tx_origin,
            r.gas_price == self.defaults.gas_price,
            r.excluded_sources@ == self.defaults.excluded_sources@,
            r.sell_token == order.sell,
            r.buy_token == order.buy,
            r.sell_amount == order.amount,
            r.slippage_bps == Some(slippage.bps),
    {
        let excluded_sources = self.defaults.excluded_sources.clone();
        assert(excluded_sources@ =~= self.defaults.excluded_sources@);
        let base = Query {
            chain_id: self.defaults.chain_id,
            sell_token: self.defaults.sell_token,
            buy_token: self.defaults.buy_token,
            sell_amount: self.defaults.sell_amount,
            taker: self.defaults.taker,
            tx_origin: self.defaults.tx_origin,
            gas_price: match &self.defaults.gas_price {
                Some(p) => Some(p.clone()),
                None => None,
            },
            slippage_bps: self.defaults.slippage_bps,
            excluded_sources,
        };
        base.with_domain(order, slippage)
    }

    /// The swap that a 0x quote describes for `order`: its one transaction,
    /// the input and output keyed by the order's own tokens, and the
    /// allowance granted to the transaction's target. The slippage tightens
    /// the output of a sell order and loosens the allowance of a buy order.
    pub fn swap(&self, order: &Order, slippage: &Slippage, quote: Quote) -> (r: Swap)
        ensures
            r.calls@.len() == 1,
            r.calls@[0].to == quote.transaction.to,
            r.calls@[0].calldata == Calldata::Raw(quote.transaction.data),
            r.input == (Asset { token: order.sell, amount: quote.sell_amount }),
            r.output.token == order.buy,
            r.output.amount.value() == min_output(order.side, *slippage, quote.buy_amount.value()),
            r.allowance.spender == quote.transaction.to,
            r.allowance.amount.value() == max_input(
                order.side,
                *slippage,
                quote.sell_amount.value(),
            ),
            r.gas == quote.transaction.gas,
    {
        let (max_in, min_out) = match order.side {
            Side::Buy => (slippage.add(quote.sell_amount), quote.buy_amount),
            Side::Sell => (quote.sell_amount, slippage.sub(quote.buy_amount)),
        };
        let to = quote.transaction.to;
        let mut calls: Vec<Call> = Vec::new();
        calls.push(Call { to, calldata: Calldata::Raw(quote.transaction.data) });
        Swap {
            calls,
            input: Asset { token: order.sell, amount: quote.sell_amount },
            output: Asset { token: order.buy, amount: min_out },
            allowance: Allowance { spender: to, amount: max_in },
            gas: quote.transaction.gas,
        }
    }
}

} // verus!
