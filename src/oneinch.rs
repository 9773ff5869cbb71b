//! The 1inch swap API: liquidity selection, queries, error mapping, and the
//! retry policy of its one-time setup.
use vstd::prelude::*;
use vstd::std_specs::convert::FromSpec;
use crate::amount::{Amount, Slippage};
use crate::domain::{Address, Allowance, Asset, Call, Calldata, Order, Side, Swap};
use crate::http::{HttpError, RoundtripError};

verus! {

pub const DEFAULT_URL: &'static str = "https://api.1inch.io/v5.0/1/";

/// The 1inch liquidity sources to consider when swapping.
#[derive(Clone, Debug)]
pub enum Liquidity {
    Any,
    Only(Vec<String>),
    Exclude(Vec<String>),
}

impl Liquidity {
    /// Whether the list of all sources must be fetched to resolve this policy.
    pub fn needs_sources(&self) -> (r: bool)
        ensures
            r == (self is Exclude),
    {
        match self {
            Liquidity::Exclude(_) => true,
            _ => false,
        }
    }
}

pub open spec fn listed(ids: Seq<String>, id: Seq<char>) -> bool {
    exists|j: int| 0 <= j < ids.len() && (#[trigger] ids[j])@ == id
}

/// The ids of `sources` that `excluded` does not list, in their order.
pub open spec fn kept(sources: Seq<String>, excluded: Seq<String>) -> Seq<Seq<char>>
    decreases sources.len(),
{
    if sources.len() == 0 {
        Seq::empty()
    } else {
        let rest = kept(sources.drop_last(), excluded);
        if listed(excluded, sources.last()@) {
            rest
        } else {
            rest.push(sources.last()@)
        }
    }
}

pub open spec fn texts(ids: Seq<String>) -> Seq<Seq<char>> {
    ids.map_values(|s: String| s@)
}

fn is_listed(ids: &Vec<String>, id: &String) -> (r: bool)
    ensures
        r == listed(ids@, id@),
{
    let mut i: usize = 0;
    while i < ids.len()
        invariant
            i <= ids@.len(),
            forall|j: int| 0 <= j < i ==> (#[trigger] ids@[j])@ != id@,
        decreases ids@.len() - i,
    {
        if ids[i] == *id {
            return true;
        }
        i = i + 1;
    }
    false
}

/// The sources allowed by `liquidity` as an explicit list, or `None` where
/// every source is; `sources` is the full list, read only for `Exclude`.
pub fn protocols(liquidity: Liquidity, sources: Vec<String>) -> (r: Option<Vec<String>>)
    ensures
        liquidity is Any ==> r is None,
        liquidity matches Liquidity::Only(ids) ==> r == Some(ids),
        liquidity matches Liquidity::Exclude(excluded) ==> r matches Some(ids) && texts(ids@)
            == kept(sources@, excluded@),
{
    match liquidity {
        Liquidity::Any => None,
        Liquidity::Only(ids) => Some(ids),
        Liquidity::Exclude(excluded) => {
            let mut out: Vec<String> = Vec::new();
            let mut i: usize = 0;
            while i < sources.len()
                invariant
                    i <= sources@.len(),
                    texts(out@) == kept(sources@.take(i as int), excluded@),
                decreases sources@.len() - i,
            {
                let id = sources[i].clone();
                let drop = is_listed(&excluded, &id);
                proof {
                    assert(sources@.take(i as int + 1).drop_last() =~= sources@.take(i as int));
                }
                if !drop {
                    out.push(id);
                    assert(texts(out@) =~= kept(sources@.take(i as int), excluded@).push(id@));
                }
                i = i + 1;
            }
            assert(sources@.take(sources@.len() as int) =~= sources@);
            Some(out)
        },
    }
}

/// Client settings of the 1inch API.
#[derive(Clone, Debug)]
pub struct Config {
    /// The address of the settlement contract.
    pub settlement: Address,
    pub liquidity: Liquidity,
    /// The referrer address; the settlement contract where none is given.
    pub referrer: Option<Address>,
    pub main_route_parts: Option<u32>,
    pub connector_tokens: Option<u32>,
    pub complexity_level: Option<u32>,
}

/// A query to the 1inch `swap` endpoint.
#[derive(Clone, Debug)]
pub struct Query {
    pub from_address: Address,
    pub protocols: Option<Vec<String>>,
    pub referrer_address: Option<Address>,
    pub disable_estimate: Option<bool>,
    pub main_route_parts: Option<u32>,
    pub connector_tokens: Option<u32>,
    pub complexity_level: Option<u32>,
    pub from_token_address: Address,
    pub to_token_address: Address,
    pub amount: Amount,
    pub slippage_bps: u16,
}

impl Query {
    /// The parameters shared by every quote, before an order fills in its own.
    pub fn defaults(config: &Config, protocols: Option<Vec<String>>) -> (r: Query)
        ensures
            r.from_address == config.settlement,
            r.protocols == protocols,
            r.referrer_address == Some(
                match config.referrer {
                    Some(a) => a,
                    None => config.settlement,
                },
            ),
            r.disable_estimate == Some(true),
            r.main_route_parts == config.main_route_parts,
            r.connector_tokens == config.connector_tokens,
            r.complexity_level == config.complexity_level,
            r.from_token_address == (Address { hi: 0, lo: 0 }),
            r.to_token_address == (Address { hi: 0, lo: 0 }),
            r.amount.value() == 0,
            r.slippage_bps == 0,
    {
        let referrer = match config.referrer {
            Some(a) => a,
            None => config.settlement,
        };
        Query {
            from_address: config.settlement,
            protocols,
            referrer_address: Some(referrer),
            disable_estimate: Some(true),
            main_route_parts: config.main_route_parts,
            connector_tokens: config.connector_tokens,
            complexity_level: config.complexity_level,
            from_token_address: Address { hi: 0, lo: 0 },
            to_token_address: Address { hi: 0, lo: 0 },
            amount: Amount::zero(),
            slippage_bps: 0,
        }
    }

    /// These parameters with the order's tokens, amount and slippage; 1inch
    /// quotes sell orders only.
    pub fn try_with_domain(self, order: &Order, slippage: &Slippage) -> (r: Result<Query, Error>)
        ensures
            order.side == Side::Buy ==> r matches Err(Error::OrderNotSupported),
            order.side == Side::Sell ==> r == Ok::<Query, Error>(
                (Query {
                    from_token_address: order.sell,
                    to_token_address: order.buy,
                    amount: order.amount,
                    slippage_bps: slippage.bps,
                    ..self
                }),
            ),
    {
        if order.side == Side::Buy {
            return Err(Error::OrderNotSupported);
        }
        Ok(Query {
            from_token_address: order.sell,
            to_token_address: order.buy,
            amount: order.amount,
            slippage_bps: slippage.as_bps(),
            ..self
        })
    }
}

/// The transaction of a 1inch swap response.
#[derive(Clone, Debug)]
pub struct Transaction {
    pub to: Address,
    pub data: Vec<u8>,
    pub gas: u64,
}

/// A 1inch swap response.
#[derive(Clone, Debug)]
pub struct SwapResponse {
    pub from_token_amount: Amount,
    pub to_token_amount: Amount,
    pub tx: Transaction,
}

/// An error body of the 1inch API.
#[derive(Clone, Debug)]
pub struct ApiError {
    pub status_code: i32,
    pub description: String,
}

/// The status of a rate-limited request, as a 1inch error body gives it.
pub const RATE_LIMIT_STATUS: i32 = 429;

/// The failures of a 1inch quote.
#[derive(Clone, Debug)]
pub enum Error {
    OrderNotSupported,
    NotFound,
    RateLimited,
    Api { code: i32, description: String },
    Http(HttpError),
}

impl From<RoundtripError<ApiError>> for Error {
    fn from(err: RoundtripError<ApiError>) -> (r: Error) {
        match err {
            RoundtripError::Http(e) => {
                if e.is_rate_limited() {
                    Error::RateLimited
                } else {
                    Error::Http(e)
                }
            },
            RoundtripError::Api(e) => {
                if e.status_code == RATE_LIMIT_STATUS {
                    Error::RateLimited
                } else if e.status_code == 400 || e.status_code == 403 {
                    Error::NotFound
                } else {
                    Error::Api { code: e.status_code, description: e.description }
                }
            },
        }
    }
}

impl vstd::std_specs::convert::FromSpecImpl<RoundtripError<ApiError>> for Error {
    open spec fn obeys_from_spec() -> bool {
        true
    }

    /// A 429, as a bare status or in an error body, is a rate limit; the
    /// codes 400 and 403 mean that no route was found; other provider errors
    /// pass through with their code.
    open spec fn from_spec(err: RoundtripError<ApiError>) -> Error {
        match err {
            RoundtripError::Http(e) => if e.is_rate_limited_spec() {
                Error::RateLimited
            } else {
                Error::Http(e)
            },
            RoundtripError::Api(e) => if e.status_code == RATE_LIMIT_STATUS {
                Error::RateLimited
            } else if e.status_code == 400 || e.status_code == 403 {
                Error::NotFound
            } else {
                Error::Api { code: e.status_code, description: e.description }
            },
        }
    }
}

/// A 1inch error body with the code 400 or 403 means that no route was
/// found, never a pass-through API error.
pub proof fn lemma_refusals_are_not_found(e: ApiError)
    requires
        e.status_code == 400 || e.status_code == 403,
    ensures
        <Error as FromSpec<RoundtripError<ApiError>>>::from_spec(RoundtripError::Api(e)) is NotFound,
{
}

/// Bindings to the 1inch swap API, after its one-time setup.
#[derive(Clone, Debug)]
pub struct OneInch {
    pub defaults: Query,
    pub spender: Address,
}

impl OneInch {
    /// The client that setup produced from `config`, the full source list
    /// (read only for `Exclude`) and the token spender that 1inch named.
    pub fn new(config: Config, sources: Vec<String>, spender: Address) -> (r: OneInch)
        ensures
            r.spender == spender,
            r.defaults.from_address == config.settlement,
            config.liquidity is Any ==> r.defaults.protocols is None,
            config.liquidity matches Liquidity::Only(ids) ==> r.defaults.protocols == Some(ids),
            config.liquidity matches Liquidity::Exclude(excluded) ==> r.defaults.protocols matches Some(
                ids,
            ) && texts(ids@) == kept(sources@, excluded@),
            r.defaults.referrer_address == Some(
                match config.referrer {
                    Some(a) => a,
                    None => config.settlement,
                },
            ),
            r.defaults.disable_estimate == Some(true),
            r.defaults.main_route_parts == config.main_route_parts,
            r.defaults.connector_tokens == config.connector_tokens,
            r.defaults.complexity_level == config.complexity_level,
            r.defaults.from_token_address == (Address { hi: 0, lo: 0 }),
            r.defaults.to_token_address == (Address { hi: 0, lo: 0 }),
            r.defaults.amount.value() == 0,
            r.defaults.slippage_bps == 0,
    {
        let mut defaults = Query::defaults(&config, None);
        defaults.protocols = protocols(config.liquidity, sources);
        OneInch { defaults, spender }
    }

    /// The swap that the reply to a 1inch `swap` request describes for a
    /// sell `order`: one call, the input and output keyed by the order's own
    /// tokens, and the allowance granted to the spender found at setup. An
    /// error reply is mapped into this adapter's errors.
    pub fn swap(
        &self,
        order: &Order,
        reply: Result<SwapResponse, RoundtripError<ApiError>>,
    ) -> (r: Result<Swap, Error>)
        ensures
            order.side == Side::Buy ==> r matches Err(Error::OrderNotSupported),
            order.side == Side::Sell ==> match reply {
                Err(e) => r == Err::<Swap, Error>(
                    <Error as FromSpec<RoundtripError<ApiError>>>::from_spec(e),
                ),
                Ok(response) => (r matches Ok(s) && {
                    &&& s.calls@.len() == 1
                    &&& s.calls@[0].to == response.tx.to
                    &&& s.calls@[0].calldata == Calldata::Raw(response.tx.data)
                    &&& s.input == (Asset { token: order.sell, amount: response.from_token_amount })
                    &&& s.output == (Asset { token: order.buy, amount: response.to_token_amount })
                    &&& s.allowance == (Allowance {
                        spender: self.spender,
                        amount: response.from_token_amount,
                    })
                    &&& s.gas.value() == response.tx.gas
                }),
            },
            order.side == Side::Sell && (reply matches Err(RoundtripError::Http(h))
                && h.is_rate_limited_spec()) ==> r matches Err(Error::RateLimited),
            order.side == Side::Sell && (reply matches Err(RoundtripError::Api(e))
                && e.status_code == RATE_LIMIT_STATUS) ==> r matches Err(Error::RateLimited),
            order.side == Side::Sell && (reply matches Err(RoundtripError::Api(e)) && (
            e.status_code == 400 || e.status_code == 403)) ==> r matches Err(Error::NotFound),
    {
        if order.side == Side::Buy {
            return Err(Error::OrderNotSupported);
        }
        let response = match reply {
            Ok(response) => response,
            Err(e) => return Err(Error::from(e)),
        };
        let mut calls: Vec<Call> = Vec::new();
        calls.push(Call { to: response.tx.to, calldata: Calldata::Raw(response.tx.data) });
        Ok(Swap {
            calls,
            input: Asset { token: order.sell, amount: response.from_token_amount },
            output: Asset { token: order.buy, amount: response.to_token_amount },
            allowance: Allowance { spender: self.spender, amount: response.from_token_amount },
            gas: Amount::from_u64(response.tx.gas),
        })
    }
}

/// How long setup may keep failing before it is abandoned, in milliseconds.
pub const INIT_TIMEOUT_MS: u64 = 10_000;

/// How long to wait after a failed setup attempt, in milliseconds.
pub const RETRY_DELAY_MS: u64 = 1_000;

/// The progress of the one-time setup.
#[derive(Clone, Copy, Debug, PartialEq, Eq, Structural)]
pub enum Setup {
    /// Attempts are being made since `started_ms`; `failures` have failed.
    Initializing { started_ms: u64, failures: u64 },
    /// Setup succeeded; the client is usable.
    Ready,
    /// Setup kept failing for longer than the timeout; nothing can proceed.
    Failed,
}

/// What the caller does after a step of the setup.
#[derive(Clone, Copy, Debug, PartialEq, Eq, Structural)]
pub enum SetupAction {
    /// Use the client that the last attempt produced.
    Finish,
    /// Wait this many milliseconds, then attempt again.
    RetryAfter(u64),
    /// Stop: setup cannot complete.
    Abort,
}

pub open spec fn setup_next(state: Setup, succeeded: bool, now_ms: u64) -> (Setup, SetupAction) {
    match state {
        Setup::Initializing { started_ms, failures } => if succeeded {
            (Setup::Ready, SetupAction::Finish)
        } else if now_ms > started_ms && now_ms - started_ms > INIT_TIMEOUT_MS {
            (Setup::Failed, SetupAction::Abort)
        } else {
            (
                Setup::Initializing {
                    started_ms,
                    failures: if failures < u64::MAX {
                        (failures + 1) as u64
                    } else {
                        failures
                    },
                },
                SetupAction::RetryAfter(RETRY_DELAY_MS),
            )
        },
        Setup::Ready => (Setup::Ready, SetupAction::Finish),
        Setup::Failed => (Setup::Failed, SetupAction::Abort),
    }
}

impl Setup {
    /// Setup before its first attempt, begun at `now_ms`.
    pub fn start(now_ms: u64) -> (r: Setup)
        ensures
            r == (Setup::Initializing { started_ms: now_ms, failures: 0 }),
    {
        Setup::Initializing { started_ms: now_ms, failures: 0 }
    }

    /// The state and action after an attempt that ended at `now_ms`: a
    /// success makes the client ready; a failure is retried after a delay
    /// until more than the timeout has passed since the start, and is then
    /// fatal. `Ready` and `Failed` are final.
    pub fn step(self, succeeded: bool, now_ms: u64) -> (r: (Setup, SetupAction))
        ensures
            r == setup_next(self, succeeded, now_ms),
    {
        match self {
            Setup::Initializing { started_ms, failures } => {
                if succeeded {
                    (Setup::Ready, SetupAction::Finish)
                } else if now_ms > started_ms && now_ms - started_ms > INIT_TIMEOUT_MS {
                    (Setup::Failed, SetupAction::Abort)
                } else {
                    let failures = if failures < u64::MAX {
                        failures + 1
                    } else {
                        failures
                    };
                    (
                        Setup::Initializing { started_ms, failures },
                        SetupAction::RetryAfter(RETRY_DELAY_MS),
                    )
                }
            },
            Setup::Ready => (Setup::Ready, SetupAction::Finish),
            Setup::Failed => (Setup::Failed, SetupAction::Abort),
        }
    }
}

/// Once setup has ended, ready or failed, no event changes it again.
pub proof fn lemma_setup_final(state: Setup, succeeded: bool, now_ms: u64)
    requires
        !(state is Initializing),
    ensures
        setup_next(state, succeeded, now_ms).0 == state,
{
}

/// A failure within the timeout is never fatal: it is retried after the
/// fixed delay.
pub proof fn lemma_setup_retries_in_time(started_ms: u64, failures: u64, now_ms: u64)
    requires
        now_ms <= started_ms + INIT_TIMEOUT_MS,
    ensures
        setup_next(Setup::Initializing { started_ms, failures }, false, now_ms).1
            == SetupAction::RetryAfter(RETRY_DELAY_MS),
{
}

} // verus!
