//! The per-pool monitor: a state machine that resolves the pool's token
//! metadata once, opens a swap-event subscription, and turns each delivered
//! square-root price into one price observation.
//!
//! The machine performs no I/O. `step` takes the current state and the result
//! of the last requested action (an event) and returns the next state and the
//! next action for its driver to perform.
use vstd::prelude::*;
use num_bigint::BigInt;
use crate::bignum::big_value;
use crate::calc::{
    FormatError, QUOTE_SCALE_DIGITS, calculate_outcome, calculate_prices, lemma_quotes_reciprocal,
};
use crate::bignum::numeral_value;
use crate::format::{amount_text, format_amount};

verus! {

/// A 20-byte account or contract address.
pub type Address = [u8; 20];

/// Which of a pool's token lookups failed.
#[derive(Debug, Clone, Copy, PartialEq, Eq, Structural)]
pub enum TokenError {
    /// The pool did not report the token's address.
    TokenFetchFailed,
    /// The token did not report its decimals or symbol.
    TokenInfoFetchFailed,
}

/// Which part of the event stream failed.
#[derive(Debug, Clone, Copy, PartialEq, Eq, Structural)]
pub enum LogError {
    /// The subscription could not be opened.
    LogSubscriptionFailed,
    /// A delivered event could not be decoded.
    SqrtPriceFetchFailed,
}

/// Which of a token's metadata queries failed.
#[derive(Debug, Clone, Copy, PartialEq, Eq, Structural)]
pub enum TokenInfoError {
    TokenDecimalFetchFailed,
    TokenSymbolFetchFailed,
}

/// A price that could not be derived: pool, the two symbols, and the cause.
#[derive(Debug, Clone)]
pub enum PriceError {
    CalculationFailed(Address, String, String, FormatError),
}

/// The first or the second token of a pool.
#[derive(Debug, Clone, Copy, PartialEq, Eq, Structural)]
pub enum TokenSide {
    Token0,
    Token1,
}

/// The decimals and symbol of a token.
#[derive(Debug, Clone)]
pub struct TokenInfo {
    pub decimals: u8,
    pub symbol: String,
}

/// Everything a streaming monitor knows of its pool.
#[derive(Debug, Clone)]
pub struct PoolConfig {
    pub pool: Address,
    pub token0: Address,
    pub token1: Address,
    pub info0: TokenInfo,
    pub info1: TokenInfo,
}

/// Why a monitor stopped, with the pool it watched.
#[derive(Debug, Clone)]
pub enum MonitorError {
    /// A metadata lookup failed.
    Fetch { pool: Address, side: TokenSide, error: TokenError, cause: String },
    /// The subscription could not be opened, or an event could not be decoded.
    Log { pool: Address, error: LogError, cause: String },
    /// A price could not be derived from a decoded event.
    Price(PriceError),
}

/// One derived price: both quotes, scaled by `10^18`, and their renderings.
#[derive(Debug)]
pub struct PriceObservation {
    pub pool: Address,
    /// Units of token1 for one token0.
    pub quote0: BigInt,
    /// Units of token0 for one token1.
    pub quote1: BigInt,
    /// `quote0` rendered in token1's symbol.
    pub price0: String,
    /// `quote1` rendered in token0's symbol.
    pub price1: String,
}

/// Where a monitor stands.
#[derive(Debug)]
pub enum MonitorState {
    /// Waiting for the pool's first token address.
    FetchingToken0 { pool: Address },
    /// Waiting for the pool's second token address.
    FetchingToken1 { pool: Address, token0: Address },
    /// Waiting for the first token's metadata.
    LoadingInfo0 { pool: Address, token0: Address, token1: Address },
    /// Waiting for the second token's metadata.
    LoadingInfo1 { pool: Address, token0: Address, token1: Address, info0: TokenInfo },
    /// Waiting for the swap-event subscription to open.
    Subscribing { config: PoolConfig },
    /// Waiting for the next swap event.
    Streaming { config: PoolConfig },
    /// Stopped: the stream closed, or an error ended the monitor.
    Terminated { outcome: Result<(), MonitorError> },
}

/// The result of the action a monitor last asked for.
#[derive(Debug)]
pub enum MonitorEvent {
    /// A token address, or why the pool did not report it.
    TokenAddress(Result<Address, String>),
    /// A token's metadata, or why it could not be loaded.
    TokenInfoLoaded(Result<TokenInfo, String>),
    /// Whether the subscription opened.
    Subscribed(Result<(), String>),
    /// The decimal text of a decoded event's square-root price, or why the
    /// event could not be decoded.
    LogReceived(Result<String, String>),
    /// The subscription ended.
    StreamClosed,
}

/// What a monitor's driver is to do next.
#[derive(Debug)]
pub enum MonitorAction {
    /// Ask the pool for its first token's address.
    FetchToken0(Address),
    /// Ask the pool for its second token's address.
    FetchToken1(Address),
    /// Load the decimals and symbol of this token.
    LoadTokenInfo(Address),
    /// Open a swap-event subscription on this pool, from the latest block on.
    Subscribe(Address),
    /// Wait for the next event of the subscription.
    AwaitLog,
    /// Publish this observation, then wait for the next event.
    Emit(PriceObservation),
    /// Nothing more: the monitor has terminated.
    Stop,
}

/// The action that a state waits on.
pub open spec fn pending(s: MonitorState) -> MonitorAction {
    match s {
        MonitorState::FetchingToken0 { pool } => MonitorAction::FetchToken0(pool),
        MonitorState::FetchingToken1 { pool, .. } => MonitorAction::FetchToken1(pool),
        MonitorState::LoadingInfo0 { token0, .. } => MonitorAction::LoadTokenInfo(token0),
        MonitorState::LoadingInfo1 { token1, .. } => MonitorAction::LoadTokenInfo(token1),
        MonitorState::Subscribing { config } => MonitorAction::Subscribe(config.pool),
        MonitorState::Streaming { .. } => MonitorAction::AwaitLog,
        MonitorState::Terminated { .. } => MonitorAction::Stop,
    }
}

/// The state a monitor of `pool` starts in.
pub open spec fn initial_state(pool: Address) -> MonitorState {
    MonitorState::FetchingToken0 { pool }
}

/// The terminal state after a failed metadata lookup.
pub open spec fn fetch_failed(pool: Address, side: TokenSide, error: TokenError, cause: String) -> MonitorState {
    MonitorState::Terminated {
        outcome: Err(MonitorError::Fetch { pool, side, error, cause }),
    }
}

/// `a` publishes the quotes derived from the sample text `text` in `config`'s
/// pool, with their renderings.
pub open spec fn emits_quotes(a: MonitorAction, config: PoolConfig, text: Seq<char>) -> bool {
    let d0 = config.info0.decimals as nat;
    let d1 = config.info1.decimals as nat;
    match a {
        MonitorAction::Emit(o) => o.pool == config.pool && calculate_outcome(text, d0, d1) == Ok::<
            (int, int),
            FormatError,
        >((big_value(o.quote0), big_value(o.quote1))) && o.price0@ == amount_text(
            big_value(o.quote0) as nat,
            QUOTE_SCALE_DIGITS as nat,
            config.info1.symbol@,
        ) && o.price1@ == amount_text(
            big_value(o.quote1) as nat,
            QUOTE_SCALE_DIGITS as nat,
            config.info0.symbol@,
        ),
        _ => false,
    }
}

/// One transition: from `s`, on `e`, the monitor moves to `next` and asks
/// for `a`. An event that the state does not wait on changes nothing.
pub open spec fn step_post(s: MonitorState, e: MonitorEvent, next: MonitorState, a: MonitorAction) -> bool {
    match s {
        MonitorState::FetchingToken0 { pool } => match e {
            MonitorEvent::TokenAddress(Ok(token0)) => next == (MonitorState::FetchingToken1 {
                pool,
                token0,
            }) && a == MonitorAction::FetchToken1(pool),
            MonitorEvent::TokenAddress(Err(cause)) => next == fetch_failed(
                pool,
                TokenSide::Token0,
                TokenError::TokenFetchFailed,
                cause,
            ) && a == MonitorAction::Stop,
            _ => next == s && a == pending(s),
        },
        MonitorState::FetchingToken1 { pool, token0 } => match e {
            MonitorEvent::TokenAddress(Ok(token1)) => next == (MonitorState::LoadingInfo0 {
                pool,
                token0,
                token1,
            }) && a == MonitorAction::LoadTokenInfo(token0),
            MonitorEvent::TokenAddress(Err(cause)) => next == fetch_failed(
                pool,
                TokenSide::Token1,
                TokenError::TokenFetchFailed,
                cause,
            ) && a == MonitorAction::Stop,
            _ => next == s && a == pending(s),
        },
        MonitorState::LoadingInfo0 { pool, token0, token1 } => match e {
            MonitorEvent::TokenInfoLoaded(Ok(info0)) => next == (MonitorState::LoadingInfo1 {
                pool,
                token0,
                token1,
                info0,
            }) && a == MonitorAction::LoadTokenInfo(token1),
            MonitorEvent::TokenInfoLoaded(Err(cause)) => next == fetch_failed(
                pool,
                TokenSide::Token0,
                TokenError::TokenInfoFetchFailed,
                cause,
            ) && a == MonitorAction::Stop,
            _ => next == s && a == pending(s),
        },
        MonitorState::LoadingInfo1 { pool, token0, token1, info0 } => match e {
            MonitorEvent::TokenInfoLoaded(Ok(info1)) => next == (MonitorState::Subscribing {
                config: PoolConfig { pool, token0, token1, info0, info1 },
            }) && a == MonitorAction::Subscribe(pool),
            MonitorEvent::TokenInfoLoaded(Err(cause)) => next == fetch_failed(
                pool,
                TokenSide::Token1,
                TokenError::TokenInfoFetchFailed,
                cause,
            ) && a == MonitorAction::Stop,
            _ => next == s && a == pending(s),
        },
        MonitorState::Subscribing { config } => match e {
            MonitorEvent::Subscribed(Ok(())) => next == (MonitorState::Streaming { config })
                && a == MonitorAction::AwaitLog,
            MonitorEvent::Subscribed(Err(cause)) => next == (MonitorState::Terminated {
                outcome: Err(
                    MonitorError::Log {
                        pool: config.pool,
                        error: LogError::LogSubscriptionFailed,
                        cause,
                    },
                ),
            }) && a == MonitorAction::Stop,
            _ => next == s && a == pending(s),
        },
        MonitorState::Streaming { config } => match e {
            MonitorEvent::LogReceived(Ok(text)) => match calculate_outcome(
                text@,
                config.info0.decimals as nat,
                config.info1.decimals as nat,
            ) {
                Ok(_) => next == s && emits_quotes(a, config, text@),
                Err(fe) => next == (MonitorState::Terminated {
                    outcome: Err(
                        MonitorError::Price(
                            PriceError::CalculationFailed(
                                config.pool,
                                config.info0.symbol,
                                config.info1.symbol,
                                fe,
                            ),
                        ),
                    ),
                }) && a == MonitorAction::Stop,
            },
            MonitorEvent::LogReceived(Err(cause)) => next == (MonitorState::Terminated {
                outcome: Err(
                    MonitorError::Log {
                        pool: config.pool,
                        error: LogError::SqrtPriceFetchFailed,
                        cause,
                    },
                ),
            }) && a == MonitorAction::Stop,
            MonitorEvent::StreamClosed => next == (MonitorState::Terminated { outcome: Ok(()) })
                && a == MonitorAction::Stop,
            _ => next == s && a == pending(s),
        },
        MonitorState::Terminated { .. } => next == s && a == MonitorAction::Stop,
    }
}

/// The state a monitor of `pool` starts in, and its first action.
pub fn start(pool: Address) -> (r: (MonitorState, MonitorAction))
    ensures
        r.0 == initial_state(pool),
        r.1 == pending(r.0),
{
    (MonitorState::FetchingToken0 { pool }, MonitorAction::FetchToken0(pool))
}

/// The action that `s` waits on.
pub fn pending_action(s: &MonitorState) -> (a: MonitorAction)
    ensures
        a == pending(*s),
{
    match s {
        MonitorState::FetchingToken0 { pool } => MonitorAction::FetchToken0(*pool),
        MonitorState::FetchingToken1 { pool, .. } => MonitorAction::FetchToken1(*pool),
        MonitorState::LoadingInfo0 { token0, .. } => MonitorAction::LoadTokenInfo(*token0),
        MonitorState::LoadingInfo1 { token1, .. } => MonitorAction::LoadTokenInfo(*token1),
        MonitorState::Subscribing { config } => MonitorAction::Subscribe(config.pool),
        MonitorState::Streaming { .. } => MonitorAction::AwaitLog,
        MonitorState::Terminated { .. } => MonitorAction::Stop,
    }
}

/// Derives and renders the quotes of one decoded sample, or says why the
/// monitor must stop.
fn observe(config: &PoolConfig, text: String) -> (r: Result<PriceObservation, FormatError>)
    ensures
        match calculate_outcome(
            text@,
            config.info0.decimals as nat,
            config.info1.decimals as nat,
        ) {
            Ok(_) => r.is_ok() && emits_quotes(MonitorAction::Emit(r.unwrap()), *config, text@),
            Err(fe) => r == Err::<PriceObservation, FormatError>(fe),
        },
{
    let ghost sample = text@;
    let (quote0, quote1) = match calculate_prices(
        text,
        config.info0.decimals as u32,
        config.info1.decimals as u32,
        &config.info0.symbol,
        &config.info1.symbol,
    ) {
        Ok(q) => q,
        Err(e) => {
            return Err(e);
        },
    };
    proof {
        crate::calc::lemma_numeral_value_nonneg(sample);
        lemma_quotes_reciprocal(
            numeral_value(sample),
            config.info0.decimals as nat,
            config.info1.decimals as nat,
        );
    }
    let price0 = match format_amount(&quote0, QUOTE_SCALE_DIGITS, config.info1.symbol.as_str()) {
        Ok(p) => p,
        Err(e) => {
            return Err(e);
        },
    };
    let price1 = match format_amount(&quote1, QUOTE_SCALE_DIGITS, config.info0.symbol.as_str()) {
        Ok(p) => p,
        Err(e) => {
            return Err(e);
        },
    };
    Ok(PriceObservation { pool: config.pool, quote0, quote1, price0, price1 })
}

/// One transition of the monitor: the next state and the next action.
pub fn step(state: MonitorState, event: MonitorEvent) -> (r: (MonitorState, MonitorAction))
    ensures
        step_post(state, event, r.0, r.1),
{
    match state {
        MonitorState::FetchingToken0 { pool } => match event {
            MonitorEvent::TokenAddress(Ok(token0)) => (
                MonitorState::FetchingToken1 { pool, token0 },
                MonitorAction::FetchToken1(pool),
            ),
            MonitorEvent::TokenAddress(Err(cause)) => (
                MonitorState::Terminated {
                    outcome: Err(
                        MonitorError::Fetch {
                            pool,
                            side: TokenSide::Token0,
                            error: TokenError::TokenFetchFailed,
                            cause,
                        },
                    ),
                },
                MonitorAction::Stop,
            ),
            _ => (MonitorState::FetchingToken0 { pool }, MonitorAction::FetchToken0(pool)),
        },
        MonitorState::FetchingToken1 { pool, token0 } => match event {
            MonitorEvent::TokenAddress(Ok(token1)) => (
                MonitorState::LoadingInfo0 { pool, token0, token1 },
                MonitorAction::LoadTokenInfo(token0),
            ),
            MonitorEvent::TokenAddress(Err(cause)) => (
                MonitorState::Terminated {
                    outcome: Err(
                        MonitorError::Fetch {
                            pool,
                            side: TokenSide::Token1,
                            error: TokenError::TokenFetchFailed,
                            cause,
                        },
                    ),
                },
                MonitorAction::Stop,
            ),
            _ => (MonitorState::FetchingToken1 { pool, token0 }, MonitorAction::FetchToken1(pool)),
        },
        MonitorState::LoadingInfo0 { pool, token0, token1 } => match event {
            MonitorEvent::TokenInfoLoaded(Ok(info0)) => (
                MonitorState::LoadingInfo1 { pool, token0, token1, info0 },
                MonitorAction::LoadTokenInfo(token1),
            ),
            MonitorEvent::TokenInfoLoaded(Err(cause)) => (
                MonitorState::Terminated {
                    outcome: Err(
                        MonitorError::Fetch {
                            pool,
                            side: TokenSide::Token0,
                            error: TokenError::TokenInfoFetchFailed,
                            cause,
                        },
                    ),
                },
                MonitorAction::Stop,
            ),
            _ => (
                MonitorState::LoadingInfo0 { pool, token0, token1 },
                MonitorAction::LoadTokenInfo(token0),
            ),
        },
        MonitorState::LoadingInfo1 { pool, token0, token1, info0 } => match event {
            MonitorEvent::TokenInfoLoaded(Ok(info1)) => (
                MonitorState::Subscribing {
                    config: PoolConfig { pool, token0, token1, info0, info1 },
                },
                MonitorAction::Subscribe(pool),
            ),
            MonitorEvent::TokenInfoLoaded(Err(cause)) => (
                MonitorState::Terminated {
                    outcome: Err(
                        MonitorError::Fetch {
                            pool,
                            side: TokenSide::Token1,
                            error: TokenError::TokenInfoFetchFailed,
                            cause,
                        },
                    ),
                },
                MonitorAction::Stop,
            ),
            _ => (
                MonitorState::LoadingInfo1 { pool, token0, token1, info0 },
                MonitorAction::LoadTokenInfo(token1),
            ),
        },
        MonitorState::Subscribing { config } => match event {
            MonitorEvent::Subscribed(Ok(())) => (
                MonitorState::Streaming { config },
                MonitorAction::AwaitLog,
            ),
            MonitorEvent::Subscribed(Err(cause)) => {
                let pool = config.pool;
                (
                    MonitorState::Terminated {
                        outcome: Err(
                            MonitorError::Log { pool, error: LogError::LogSubscriptionFailed, cause },
                        ),
                    },
                    MonitorAction::Stop,
                )
            },
            _ => {
                let pool = config.pool;
                (MonitorState::Subscribing { config }, MonitorAction::Subscribe(pool))
            },
        },
        MonitorState::Streaming { config } => match event {
            MonitorEvent::LogReceived(Ok(text)) => match observe(&config, text) {
                Ok(o) => (MonitorState::Streaming { config }, MonitorAction::Emit(o)),
                Err(fe) => {
                    let pool = config.pool;
                    (
                        MonitorState::Terminated {
                            outcome: Err(
                                MonitorError::Price(
                                    PriceError::CalculationFailed(
                                        pool,
                                        config.info0.symbol,
                                        config.info1.symbol,
                                        fe,
                                    ),
                                ),
                            ),
                        },
                        MonitorAction::Stop,
                    )
                },
            },
            MonitorEvent::LogReceived(Err(cause)) => {
                let pool = config.pool;
                (
                    MonitorState::Terminated {
                        outcome: Err(
                            MonitorError::Log { pool, error: LogError::SqrtPriceFetchFailed, cause },
                        ),
                    },
                    MonitorAction::Stop,
                )
            },
            MonitorEvent::StreamClosed => (
                MonitorState::Terminated { outcome: Ok(()) },
                MonitorAction::Stop,
            ),
            _ => (MonitorState::Streaming { config }, MonitorAction::AwaitLog),
        },
        MonitorState::Terminated { outcome } => (
            MonitorState::Terminated { outcome },
            MonitorAction::Stop,
        ),
    }
}

/// `states`, `events` and `actions` form a run of one monitor: each state
/// steps on its event to the next state, asking for the action.
pub open spec fn is_run(states: Seq<MonitorState>, events: Seq<MonitorEvent>, actions: Seq<MonitorAction>) -> bool {
    &&& states.len() == events.len() + 1
    &&& actions.len() == events.len()
    &&& forall|i: int|
        0 <= i < events.len() ==> step_post(states[i], #[trigger] events[i], states[i + 1], actions[i])
}

/// The sample text that `e` delivers, if any.
pub open spec fn sample_of(e: MonitorEvent) -> Seq<char> {
    match e {
        MonitorEvent::LogReceived(Ok(text)) => text@,
        _ => Seq::empty(),
    }
}

/// `e` delivers a sample from which `config`'s quotes can be derived.
pub open spec fn is_valid_sample(e: MonitorEvent, config: PoolConfig) -> bool {
    &&& e is LogReceived
    &&& e->LogReceived_0 is Ok
    &&& calculate_outcome(
        sample_of(e),
        config.info0.decimals as nat,
        config.info1.decimals as nat,
    ) is Ok
}

/// The monitor still waits on a metadata lookup.
pub open spec fn is_initializing(s: MonitorState) -> bool {
    s is FetchingToken0 || s is FetchingToken1 || s is LoadingInfo0 || s is LoadingInfo1
}

/// `e` reports that the lookup `s` waits on failed.
pub open spec fn lookup_failed(s: MonitorState, e: MonitorEvent) -> bool {
    match s {
        MonitorState::FetchingToken0 { .. } | MonitorState::FetchingToken1 { .. } => e is TokenAddress
            && e->TokenAddress_0 is Err,
        MonitorState::LoadingInfo0 { .. } | MonitorState::LoadingInfo1 { .. } => e is TokenInfoLoaded
            && e->TokenInfoLoaded_0 is Err,
        _ => false,
    }
}

/// The monitor stopped on a failed metadata lookup.
pub open spec fn is_fetch_failure(s: MonitorState) -> bool {
    s is Terminated && s->outcome is Err && s->outcome->Err_0 is Fetch
}

proof fn lemma_streaming_persists(
    config: PoolConfig,
    states: Seq<MonitorState>,
    events: Seq<MonitorEvent>,
    actions: Seq<MonitorAction>,
    k: int,
)
    requires
        is_run(states, events, actions),
        states[0] == (MonitorState::Streaming { config }),
        forall|i: int| 0 <= i < events.len() ==> is_valid_sample(#[trigger] events[i], config),
        0 <= k <= events.len(),
    ensures
        states[k] == (MonitorState::Streaming { config }),
    decreases k,
{
    if k > 0 {
        lemma_streaming_persists(config, states, events, actions, k - 1);
        assert(is_valid_sample(events[k - 1], config));
    }
}

/// Observations follow the stream: when a streaming monitor receives the
/// samples `A, B, C, ...` in this order, its actions publish the quotes of
/// `A, B, C, ...` in the same order, one for each, and it keeps streaming.
pub proof fn lemma_observations_in_stream_order(
    config: PoolConfig,
    states: Seq<MonitorState>,
    events: Seq<MonitorEvent>,
    actions: Seq<MonitorAction>,
)
    requires
        is_run(states, events, actions),
        states[0] == (MonitorState::Streaming { config }),
        forall|i: int| 0 <= i < events.len() ==> is_valid_sample(#[trigger] events[i], config),
    ensures
        forall|i: int|
            0 <= i < events.len() ==> emits_quotes(
                #[trigger] actions[i],
                config,
                sample_of(events[i]),
            ),
        forall|k: int| 0 <= k <= events.len() ==> #[trigger] states[k] == (MonitorState::Streaming { config }),
{
    assert forall|k: int| 0 <= k <= events.len() implies #[trigger] states[k] == (
    MonitorState::Streaming { config }) by {
        lemma_streaming_persists(config, states, events, actions, k);
    }
    assert forall|i: int| 0 <= i < events.len() implies emits_quotes(
        #[trigger] actions[i],
        config,
        sample_of(events[i]),
    ) by {
        lemma_streaming_persists(config, states, events, actions, i);
        assert(is_valid_sample(events[i], config));
    }
}

proof fn lemma_terminated_persists(
    states: Seq<MonitorState>,
    events: Seq<MonitorEvent>,
    actions: Seq<MonitorAction>,
    k: int,
    j: int,
)
    requires
        is_run(states, events, actions),
        0 <= k < j <= events.len(),
        states[k + 1] is Terminated,
    ensures
        states[j] == states[k + 1],
    decreases j - k,
{
    if j > k + 1 {
        lemma_terminated_persists(states, events, actions, k, j - 1);
        assert(step_post(states[j - 1], events[j - 1], states[j], actions[j - 1]));
    }
}

/// A monitor whose metadata lookup fails stops with a fetch error, stays
/// stopped whatever it receives later, and publishes no observation.
pub proof fn lemma_failed_lookup_emits_nothing(
    states: Seq<MonitorState>,
    events: Seq<MonitorEvent>,
    actions: Seq<MonitorAction>,
    k: int,
)
    requires
        is_run(states, events, actions),
        0 <= k < events.len(),
        forall|i: int| 0 <= i <= k ==> is_initializing(#[trigger] states[i]),
        lookup_failed(states[k], events[k]),
    ensures
        forall|j: int| k < j <= events.len() ==> is_fetch_failure(#[trigger] states[j]),
        forall|i: int| 0 <= i < events.len() ==> !(#[trigger] actions[i] is Emit),
{
    assert(step_post(states[k], events[k], states[k + 1], actions[k]));
    assert forall|j: int| k < j <= events.len() implies is_fetch_failure(#[trigger] states[j]) by {
        lemma_terminated_persists(states, events, actions, k, j);
    }
    assert forall|i: int| 0 <= i < events.len() implies !(#[trigger] actions[i] is Emit) by {
        assert(step_post(states[i], events[i], states[i + 1], actions[i]));
        if i <= k {
            assert(is_initializing(states[i]));
        } else {
            assert(is_fetch_failure(states[i]));
        }
    }
}

} // verus!
