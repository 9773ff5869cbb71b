use solvers::amount::{Amount, Slippage};
use solvers::balancer::{self, Chain, Limit, PoolSwap, Quote as SorQuote, Sor, SwapKind, GAS_PER_SWAP};
use solvers::domain::{Address, Calldata, Order, Side};
use solvers::http::{HttpError, RoundtripError};
use solvers::oneinch::{self, Liquidity, OneInch, Setup, SetupAction};
use solvers::zeroex::{self, ZeroEx};

fn token_a() -> Address {
    Address::from_low_u64(0xa)
}

fn token_b() -> Address {
    Address::from_low_u64(0xb)
}

fn token_x() -> Address {
    Address::from_low_u64(0x5)
}

fn settlement() -> Address {
    Address::from_low_u64(0x9008)
}

fn vault() -> Address {
    Address::from_low_u64(0xba12)
}

fn bps(n: u16) -> Slippage {
    Slippage::from_bps(n)
}

fn order(side: Side, amount: u64) -> Order {
    Order { sell: token_a(), buy: token_b(), amount: Amount::from_u64(amount), side }
}

fn max() -> Amount {
    Amount { l0: u64::MAX, l1: u64::MAX, l2: u64::MAX, l3: u64::MAX }
}

fn pool_swap(i: u64, o: u64) -> PoolSwap {
    PoolSwap {
        pool_id: vec![1, 2, 3],
        asset_in_index: i,
        asset_out_index: o,
        amount: Amount::from_u64(500),
        user_data: vec![],
    }
}

fn sor() -> Sor {
    Sor::new(balancer::Config {
        vault: vault(),
        settlement: settlement(),
        chain_id: 1,
        query_batch_swap: false,
    })
    .unwrap()
}

fn http_status(code: u16) -> HttpError {
    HttpError::Status { code, body: String::from("{}") }
}

#[test]
fn slippage_sub_and_add_exact() {
    let s = bps(50);
    assert_eq!(s.sub(Amount::from_u64(2000)), Amount::from_u64(1990));
    assert_eq!(s.add(Amount::from_u64(2000)), Amount::from_u64(2010));
    assert_eq!(bps(100).sub(Amount::from_u64(199)), Amount::from_u64(198));
    assert_eq!(bps(100).add(Amount::from_u64(199)), Amount::from_u64(199 + 1));
}

#[test]
fn slippage_on_wide_amounts() {
    let ten_pow_30: u128 = 1_000_000_000_000_000_000_000_000_000_000;
    let s = bps(100);
    assert_eq!(s.add(Amount::from_u128(ten_pow_30)), Amount::from_u128(ten_pow_30 + ten_pow_30 / 100));
    assert_eq!(s.sub(Amount::from_u128(ten_pow_30)), Amount::from_u128(ten_pow_30 - ten_pow_30 / 100));
}

#[test]
fn slippage_edges() {
    assert_eq!(bps(50).sub(Amount::zero()), Amount::zero());
    assert_eq!(bps(10000).sub(Amount::from_u64(7)), Amount::zero());
    assert_eq!(bps(0).add(Amount::from_u64(7)), Amount::from_u64(7));
    assert_eq!(bps(100).add(max()), max());
    assert_eq!(bps(20000).sub(Amount::from_u64(7)), Amount::zero());
    assert_eq!(bps(20000).add(Amount::from_u64(7)), Amount::from_u64(21));
    assert_eq!(bps(u16::MAX).add(max()), max());
    assert_eq!(bps(u16::MAX).sub(max()), Amount::zero());
    assert_eq!(bps(10000).as_bps(), 10000);
}

#[test]
fn slippage_bounds_on_values() {
    for n in [0u16, 1, 50, 9999, 10000, 10001, u16::MAX] {
        for a in [0u64, 1, 999, 2000, u64::MAX] {
            let x = Amount::from_u64(a);
            let sub = bps(n).sub(x);
            let add = bps(n).add(x);
            assert!(sub.l1 == 0 && sub.l0 <= a);
            assert!(add.l1 > 0 || add.l0 >= a);
        }
    }
}

#[test]
fn from_u128_splits_limbs() {
    let a = Amount::from_u128((7u128 << 64) + 3);
    assert_eq!(a, Amount { l0: 3, l1: 7, l2: 0, l3: 0 });
}

#[test]
fn zeroex_sell_scenario() {
    let z = ZeroEx::new(zeroex::Config {
        chain_id: 1,
        settlement: settlement(),
        excluded_sources: vec![],
    });
    let o = order(Side::Sell, 1000);
    let s = bps(50);
    let query = z.query(&o, &s);
    assert_eq!(query.sell_token, token_a());
    assert_eq!(query.buy_token, token_b());
    assert_eq!(query.sell_amount, Amount::from_u64(1000));
    assert_eq!(query.slippage_bps, Some(50));
    assert_eq!(query.taker, settlement());
    let coffee = Address::from_low_u64(0xC0ffee);
    let quote = zeroex::Quote {
        transaction: zeroex::Transaction {
            to: coffee,
            data: vec![0x0a, 0xbc],
            gas: Amount::from_u64(150000),
        },
        sell_amount: Amount::from_u64(1000),
        buy_amount: Amount::from_u64(2000),
    };
    let swap = z.swap(&o, &s, quote.clone());
    assert_eq!(swap.calls.len(), 1);
    assert_eq!(swap.calls[0].to, coffee);
    assert!(matches!(&swap.calls[0].calldata, Calldata::Raw(d) if *d == vec![0x0a, 0xbc]));
    assert_eq!(swap.input.token, token_a());
    assert_eq!(swap.input.amount, Amount::from_u64(1000));
    assert_eq!(swap.output.token, token_b());
    assert_eq!(swap.output.amount, Amount::from_u64(1990));
    assert_eq!(swap.allowance.spender, coffee);
    assert_eq!(swap.allowance.amount, Amount::from_u64(1000));
    assert_eq!(swap.gas, Amount::from_u64(150000));
}

#[test]
fn zeroex_excluded_sources_joined() {
    let z = ZeroEx::new(zeroex::Config {
        chain_id: 1,
        settlement: settlement(),
        excluded_sources: vec![String::from("Uniswap"), String::from("Curve"), String::from("Kyber")],
    });
    assert_eq!(z.defaults.excluded_sources_param(), "Uniswap,Curve,Kyber");
    let empty = ZeroEx::new(zeroex::Config { chain_id: 1, settlement: settlement(), excluded_sources: vec![] });
    assert_eq!(empty.defaults.excluded_sources_param(), "");
}

#[test]
fn zeroex_errors() {
    let e = zeroex::Error::from(RoundtripError::Http(http_status(429)));
    assert!(matches!(e, zeroex::Error::RateLimited));
    let e = zeroex::Error::from(RoundtripError::Api(zeroex::ApiError { code: 429, reason: String::from("slow down") }));
    assert!(matches!(e, zeroex::Error::RateLimited));
    let e = zeroex::Error::from(RoundtripError::Http(http_status(500)));
    assert!(matches!(e, zeroex::Error::Http(_)));
    let e = zeroex::Error::from(RoundtripError::Api(zeroex::ApiError { code: 100, reason: String::from("no route") }));
    assert!(matches!(e, zeroex::Error::NotFound));
    let e = zeroex::Error::from(RoundtripError::Api(zeroex::ApiError { code: 104, reason: String::from("bad") }));
    assert!(matches!(e, zeroex::Error::Api { code: 104, .. }));
    let r = zeroex::Response::Failure(zeroex::ApiError { code: 7, reason: String::from("x") }).into_result();
    assert!(matches!(r, Err(zeroex::ApiError { code: 7, .. })));
}

#[test]
fn oneinch_forbidden_is_not_found() {
    let e = oneinch::Error::from(RoundtripError::Api(oneinch::ApiError {
        status_code: 403,
        description: String::from("forbidden"),
    }));
    assert!(matches!(e, oneinch::Error::NotFound));
    let e = oneinch::Error::from(RoundtripError::Api(oneinch::ApiError {
        status_code: 400,
        description: String::from("insufficient liquidity"),
    }));
    assert!(matches!(e, oneinch::Error::NotFound));
    let e = oneinch::Error::from(RoundtripError::Api(oneinch::ApiError {
        status_code: 500,
        description: String::from("internal"),
    }));
    assert!(matches!(e, oneinch::Error::Api { code: 500, .. }));
    let e = oneinch::Error::from(RoundtripError::Api(oneinch::ApiError {
        status_code: 429,
        description: String::from("too many requests"),
    }));
    assert!(matches!(e, oneinch::Error::RateLimited));
    let e = oneinch::Error::from(RoundtripError::Http(http_status(429)));
    assert!(matches!(e, oneinch::Error::RateLimited));
    let e = oneinch::Error::from(RoundtripError::Http(HttpError::Transport(String::from("reset"))));
    assert!(matches!(e, oneinch::Error::Http(_)));
}

fn oneinch_config(liquidity: Liquidity) -> oneinch::Config {
    oneinch::Config {
        settlement: settlement(),
        liquidity,
        referrer: None,
        main_route_parts: Some(2),
        connector_tokens: None,
        complexity_level: Some(1),
    }
}

#[test]
fn oneinch_exclude_filters_sources() {
    let sources = vec![String::from("UNISWAP_V2"), String::from("CURVE"), String::from("BALANCER")];
    let client = OneInch::new(
        oneinch_config(Liquidity::Exclude(vec![String::from("CURVE")])),
        sources,
        Address::from_low_u64(0x1111),
    );
    assert_eq!(client.defaults.protocols, Some(vec![String::from("UNISWAP_V2"), String::from("BALANCER")]));
    assert_eq!(client.defaults.referrer_address, Some(settlement()));
    assert_eq!(client.defaults.disable_estimate, Some(true));
    assert_eq!(client.defaults.main_route_parts, Some(2));
    let any = OneInch::new(oneinch_config(Liquidity::Any), vec![], Address::from_low_u64(1));
    assert_eq!(any.defaults.protocols, None);
    let only = OneInch::new(oneinch_config(Liquidity::Only(vec![String::from("X")])), vec![], Address::from_low_u64(1));
    assert_eq!(only.defaults.protocols, Some(vec![String::from("X")]));
    assert!(Liquidity::Exclude(vec![]).needs_sources());
    assert!(!Liquidity::Any.needs_sources());
}

#[test]
fn oneinch_swap_keys_by_order_tokens() {
    let spender = Address::from_low_u64(0x1111);
    let client = OneInch::new(oneinch_config(Liquidity::Any), vec![], spender);
    let o = order(Side::Sell, 1000);
    let query = client.defaults.clone().try_with_domain(&o, &bps(30)).unwrap();
    assert_eq!(query.from_token_address, token_a());
    assert_eq!(query.amount, Amount::from_u64(1000));
    assert_eq!(query.slippage_bps, 30);
    let buy = client.defaults.clone().try_with_domain(&order(Side::Buy, 1000), &bps(30));
    assert!(matches!(buy, Err(oneinch::Error::OrderNotSupported)));
    let response = oneinch::SwapResponse {
        from_token_amount: Amount::from_u64(1000),
        to_token_amount: Amount::from_u64(1500),
        tx: oneinch::Transaction { to: Address::from_low_u64(0x2222), data: vec![9], gas: 210000 },
    };
    assert!(matches!(client.swap(&order(Side::Buy, 1000), Ok(response.clone())), Err(oneinch::Error::OrderNotSupported)));
    let swap = client.swap(&o, Ok(response)).unwrap();
    assert_eq!(swap.input.token, token_a());
    assert_eq!(swap.output.token, token_b());
    assert_eq!(swap.output.amount, Amount::from_u64(1500));
    assert_eq!(swap.allowance.spender, spender);
    assert_eq!(swap.allowance.amount, Amount::from_u64(1000));
    assert_eq!(swap.calls[0].to, Address::from_low_u64(0x2222));
    assert_eq!(swap.gas, Amount::from_u64(210000));
}

#[test]
fn oneinch_setup_retries_then_fails() {
    let s = Setup::start(0);
    let (s, a) = s.step(false, 500);
    assert_eq!(a, SetupAction::RetryAfter(1000));
    assert_eq!(s, Setup::Initializing { started_ms: 0, failures: 1 });
    let (s2, a2) = s.step(true, 1500);
    assert_eq!((s2, a2), (Setup::Ready, SetupAction::Finish));
    let (s3, a3) = s.step(false, 10_000);
    assert_eq!(a3, SetupAction::RetryAfter(1000));
    let (s4, a4) = s3.step(false, 10_001);
    assert_eq!((s4, a4), (Setup::Failed, SetupAction::Abort));
    assert_eq!(s4.step(true, 20_000), (Setup::Failed, SetupAction::Abort));
}

fn two_hop_quote(token_in: Address, token_out: Address, swap_amount: u64, return_amount: u64) -> SorQuote {
    SorQuote {
        token_addresses: vec![token_a(), token_x(), token_b()],
        swaps: vec![pool_swap(0, 1), pool_swap(1, 2)],
        token_in,
        token_out,
        swap_amount: Amount::from_u64(swap_amount),
        return_amount: Amount::from_u64(return_amount),
    }
}

#[test]
fn balancer_buy_two_hops() {
    let o = order(Side::Buy, 500);
    let s = bps(100);
    let swap = sor().swap(&o, &s, two_hop_quote(token_a(), token_b(), 500, 300)).unwrap();
    assert_eq!(swap.gas, Amount::from_u64(2 * GAS_PER_SWAP));
    assert_eq!(swap.input.token, token_a());
    assert_eq!(swap.input.amount, Amount::from_u64(300));
    assert_eq!(swap.output.token, token_b());
    assert_eq!(swap.output.amount, Amount::from_u64(500));
    assert_eq!(swap.allowance.spender, vault());
    assert_eq!(swap.allowance.amount, Amount::from_u64(303));
    assert_eq!(swap.calls.len(), 1);
    assert_eq!(swap.calls[0].to, vault());
    let batch = match &swap.calls[0].calldata {
        Calldata::BatchSwap(b) => b,
        Calldata::Raw(_) => panic!("expected a batch swap"),
    };
    assert_eq!(batch.kind, SwapKind::GivenOut);
    assert_eq!(batch.assets, vec![token_a(), token_x(), token_b()]);
    assert_eq!(batch.swaps.len(), 2);
    assert_eq!(batch.funds.sender, settlement());
    assert_eq!(batch.funds.recipient, settlement());
    assert!(!batch.funds.from_internal_balance && !batch.funds.to_internal_balance);
    assert_eq!(batch.deadline, Amount { l0: 0, l1: 0, l2: 0, l3: 1 << 63 });
    assert_eq!(
        batch.limits,
        vec![
            Limit { negative: false, magnitude: Amount::from_u64(303) },
            Limit { negative: false, magnitude: Amount::zero() },
            Limit { negative: true, magnitude: Amount::from_u64(500) },
        ]
    );
    let positive = batch.limits.iter().filter(|l| !l.negative && l.magnitude != Amount::zero()).count();
    let negative = batch.limits.iter().filter(|l| l.negative && l.magnitude != Amount::zero()).count();
    assert_eq!((positive, negative), (1, 1));
}

#[test]
fn balancer_sell_tightens_output() {
    let o = order(Side::Sell, 1000);
    let swap = sor().swap(&o, &bps(50), two_hop_quote(token_a(), token_b(), 1000, 2000)).unwrap();
    assert_eq!(swap.input.amount, Amount::from_u64(1000));
    assert_eq!(swap.output.amount, Amount::from_u64(2000));
    assert_eq!(swap.allowance.amount, Amount::from_u64(1000));
    match &swap.calls[0].calldata {
        Calldata::BatchSwap(b) => {
            assert_eq!(b.kind, SwapKind::GivenIn);
            assert_eq!(b.limits[0], Limit { negative: false, magnitude: Amount::from_u64(1000) });
            assert_eq!(b.limits[2], Limit { negative: true, magnitude: Amount::from_u64(1990) });
        }
        Calldata::Raw(_) => panic!("expected a batch swap"),
    }
}

#[test]
fn balancer_empty_quote_is_not_found() {
    let mut quote = two_hop_quote(token_a(), token_b(), 1000, 2000);
    quote.swaps.clear();
    let r = sor().swap(&order(Side::Sell, 1000), &bps(50), quote);
    assert!(matches!(r, Err(balancer::Error::NotFound)));
}

#[test]
fn balancer_oversized_limit_is_zero() {
    let tokens = vec![token_a(), token_b()];
    let huge = Amount { l0: 0, l1: 0, l2: 0, l3: 1 << 63 };
    let limits = balancer::limits(&tokens, token_a(), token_b(), huge, huge);
    assert_eq!(limits[0].magnitude, Amount::zero());
    assert_eq!(limits[1].magnitude, Amount::zero());
    let fits = Amount { l0: u64::MAX, l1: u64::MAX, l2: u64::MAX, l3: (1 << 63) - 1 };
    let limits = balancer::limits(&tokens, token_a(), token_b(), fits, fits);
    assert_eq!(limits[0], Limit { negative: false, magnitude: fits });
    assert_eq!(limits[1], Limit { negative: true, magnitude: fits });
}

#[test]
fn balancer_errors_and_setup() {
    assert!(matches!(balancer::Error::from(http_status(429)), balancer::Error::RateLimited));
    assert!(matches!(balancer::Error::from(http_status(502)), balancer::Error::Http(_)));
    let r = Sor::new(balancer::Config { vault: vault(), settlement: settlement(), chain_id: 5, query_batch_swap: true });
    assert!(matches!(r, Err(balancer::Error::UnsupportedChainId(5))));
    assert_eq!(Chain::from_domain(100).unwrap(), Chain::Gnosis);
}

#[test]
fn balancer_query_needs_decimals() {
    let tokens = vec![(token_a(), 18u8), (token_b(), 6u8)];
    let q = sor().query(&order(Side::Buy, 500), &bps(50), &tokens, 1_700_000_120).unwrap();
    assert_eq!(q.swap_type, SwapKind::GivenOut);
    assert_eq!(q.swap_amount_decimals, 6);
    assert_eq!(q.token_in, token_a());
    assert_eq!(q.sender, settlement());
    assert_eq!(q.deadline, 1_700_000_120);
    let r = sor().query(&order(Side::Sell, 500), &bps(50), &vec![(token_b(), 6u8)], 0);
    assert!(matches!(r, Err(balancer::Error::MissingDecimals(t)) if t == token_a()));
}

#[test]
fn hex_decodes_calldata() {
    assert_eq!(solvers::hex::decode(b"0x0abc"), Some(vec![0x0a, 0xbc]));
    assert_eq!(solvers::hex::decode(b"FF00"), Some(vec![0xff, 0x00]));
    assert_eq!(solvers::hex::decode(b"0x"), Some(vec![]));
    assert_eq!(solvers::hex::decode(b"0xabc"), None);
    assert_eq!(solvers::hex::decode(b"0xzz"), None);
}

#[test]
fn balancer_limits_follow_order_tokens() {
    // The route reports other tokens as its ends; limits still go by the order.
    let o = order(Side::Sell, 1000);
    let quote = two_hop_quote(token_x(), token_x(), 1000, 2000);
    let swap = sor().swap(&o, &bps(50), quote).unwrap();
    match &swap.calls[0].calldata {
        Calldata::BatchSwap(b) => assert_eq!(
            b.limits,
            vec![
                Limit { negative: false, magnitude: Amount::from_u64(1000) },
                Limit { negative: false, magnitude: Amount::zero() },
                Limit { negative: true, magnitude: Amount::from_u64(1990) },
            ]
        ),
        Calldata::Raw(_) => panic!("expected a batch swap"),
    }
}

#[test]
fn zeroex_buy_order_is_quoted() {
    let z = ZeroEx::new(zeroex::Config { chain_id: 1, settlement: settlement(), excluded_sources: vec![] });
    let o = order(Side::Buy, 2000);
    let s = bps(50);
    let query = z.query(&o, &s);
    assert_eq!(query.sell_token, token_a());
    assert_eq!(query.buy_token, token_b());
    assert_eq!(query.sell_amount, Amount::from_u64(2000));
    assert_eq!(query.slippage_bps, Some(50));
    let quote = zeroex::Quote {
        transaction: zeroex::Transaction {
            to: Address::from_low_u64(0xC0ffee),
            data: vec![1],
            gas: Amount::from_u64(90000),
        },
        sell_amount: Amount::from_u64(1000),
        buy_amount: Amount::from_u64(2000),
    };
    let swap = z.swap(&o, &s, quote);
    assert_eq!(swap.input.token, token_a());
    assert_eq!(swap.input.amount, Amount::from_u64(1000));
    assert_eq!(swap.output.token, token_b());
    assert_eq!(swap.output.amount, Amount::from_u64(2000));
    assert_eq!(swap.allowance.spender, Address::from_low_u64(0xC0ffee));
    assert_eq!(swap.allowance.amount, Amount::from_u64(1005));
}

#[test]
fn oneinch_swap_maps_error_replies() {
    let client = OneInch::new(oneinch_config(Liquidity::Any), vec![], Address::from_low_u64(1));
    let o = order(Side::Sell, 1000);
    let r = client.swap(&o, Err(RoundtripError::Http(http_status(429))));
    assert!(matches!(r, Err(oneinch::Error::RateLimited)));
    let r = client.swap(&o, Err(RoundtripError::Api(oneinch::ApiError { status_code: 403, description: String::from("forbidden") })));
    assert!(matches!(r, Err(oneinch::Error::NotFound)));
    let r = client.swap(&o, Err(RoundtripError::Api(oneinch::ApiError { status_code: 429, description: String::from("slow") })));
    assert!(matches!(r, Err(oneinch::Error::RateLimited)));
}
