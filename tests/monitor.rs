use num_bigint::BigInt;
use pool_price_monitor::monitor::{
    pending_action, start, step, LogError, MonitorAction, MonitorError, MonitorEvent, MonitorState,
    TokenError, TokenInfo, TokenSide,
};
use pool_price_monitor::supervisor::Supervisor;

const POOL: [u8; 20] = [7u8; 20];
const TOKEN0: [u8; 20] = [1u8; 20];
const TOKEN1: [u8; 20] = [2u8; 20];

fn info(decimals: u8, symbol: &str) -> TokenInfo {
    TokenInfo { decimals, symbol: symbol.to_string() }
}

fn streaming_monitor() -> MonitorState {
    let (s, a) = start(POOL);
    assert!(matches!(a, MonitorAction::FetchToken0(p) if p == POOL));
    let (s, a) = step(s, MonitorEvent::TokenAddress(Ok(TOKEN0)));
    assert!(matches!(a, MonitorAction::FetchToken1(p) if p == POOL));
    let (s, a) = step(s, MonitorEvent::TokenAddress(Ok(TOKEN1)));
    assert!(matches!(a, MonitorAction::LoadTokenInfo(t) if t == TOKEN0));
    let (s, a) = step(s, MonitorEvent::TokenInfoLoaded(Ok(info(6, "USDC"))));
    assert!(matches!(a, MonitorAction::LoadTokenInfo(t) if t == TOKEN1));
    let (s, a) = step(s, MonitorEvent::TokenInfoLoaded(Ok(info(18, "WETH"))));
    assert!(matches!(a, MonitorAction::Subscribe(p) if p == POOL));
    let (s, a) = step(s, MonitorEvent::Subscribed(Ok(())));
    assert!(matches!(a, MonitorAction::AwaitLog));
    assert!(matches!(s, MonitorState::Streaming { .. }));
    s
}

fn sample(text: &str) -> MonitorEvent {
    MonitorEvent::LogReceived(Ok(text.to_string()))
}

#[test]
fn failed_token_lookup_terminates_without_observations() {
    let (s, _) = start(POOL);
    let (s, a) = step(s, MonitorEvent::TokenAddress(Err("timeout".to_string())));
    assert!(matches!(a, MonitorAction::Stop));
    match &s {
        MonitorState::Terminated { outcome: Err(MonitorError::Fetch { pool, side, error, cause }) } => {
            assert_eq!(*pool, POOL);
            assert_eq!(*side, TokenSide::Token0);
            assert_eq!(*error, TokenError::TokenFetchFailed);
            assert_eq!(cause, "timeout");
        }
        other => panic!("unexpected state {:?}", other),
    }
    let (s, a) = step(s, sample("79228162514264337593543950336"));
    assert!(matches!(a, MonitorAction::Stop));
    assert!(matches!(s, MonitorState::Terminated { .. }));
}

#[test]
fn failed_metadata_lookup_terminates_with_fetch_error() {
    let (s, _) = start(POOL);
    let (s, _) = step(s, MonitorEvent::TokenAddress(Ok(TOKEN0)));
    let (s, _) = step(s, MonitorEvent::TokenAddress(Ok(TOKEN1)));
    let (s, _) = step(s, MonitorEvent::TokenInfoLoaded(Ok(info(6, "USDC"))));
    let (s, a) = step(s, MonitorEvent::TokenInfoLoaded(Err("no symbol".to_string())));
    assert!(matches!(a, MonitorAction::Stop));
    assert!(matches!(
        s,
        MonitorState::Terminated {
            outcome: Err(MonitorError::Fetch { side: TokenSide::Token1, error: TokenError::TokenInfoFetchFailed, .. })
        }
    ));
}

#[test]
fn observations_follow_stream_order() {
    let samples = [
        "79228162514264337593543950336",
        "1350174849792634181862360983626536",
        "158456325028528675187087900672",
    ];
    let expected = [
        ("1000000", "1000000000000000000000000000000"),
        ("290416214657745", "3443333910189890948275"),
        ("4000000", "250000000000000000000000000000"),
    ];
    let mut s = streaming_monitor();
    for (text, (q0, q1)) in samples.iter().zip(expected.iter()) {
        let (next, a) = step(s, sample(text));
        s = next;
        match a {
            MonitorAction::Emit(o) => {
                assert_eq!(o.pool, POOL);
                assert_eq!(o.quote0, q0.parse::<BigInt>().unwrap());
                assert_eq!(o.quote1, q1.parse::<BigInt>().unwrap());
            }
            other => panic!("unexpected action {:?}", other),
        }
    }
    assert!(matches!(s, MonitorState::Streaming { .. }));
}

#[test]
fn observation_renders_both_prices() {
    let s = streaming_monitor();
    let (_, a) = step(s, sample("1350174849792634181862360983626536"));
    match a {
        MonitorAction::Emit(o) => {
            assert_eq!(o.price0, "0.000290416214657745 WETH");
            assert_eq!(o.price1, "3,443.333910189890948275 USDC");
        }
        other => panic!("unexpected action {:?}", other),
    }
}

#[test]
fn decode_failure_terminates_monitor() {
    let s = streaming_monitor();
    let (s, a) = step(s, MonitorEvent::LogReceived(Err("bad payload".to_string())));
    assert!(matches!(a, MonitorAction::Stop));
    assert!(matches!(
        s,
        MonitorState::Terminated { outcome: Err(MonitorError::Log { error: LogError::SqrtPriceFetchFailed, .. }) }
    ));
}

#[test]
fn zero_sample_terminates_with_calculation_error() {
    let s = streaming_monitor();
    let (s, a) = step(s, sample("0"));
    assert!(matches!(a, MonitorAction::Stop));
    assert!(matches!(s, MonitorState::Terminated { outcome: Err(MonitorError::Price(_)) }));
}

#[test]
fn closed_stream_ends_cleanly() {
    let s = streaming_monitor();
    let (s, a) = step(s, MonitorEvent::StreamClosed);
    assert!(matches!(a, MonitorAction::Stop));
    assert!(matches!(s, MonitorState::Terminated { outcome: Ok(()) }));
}

#[test]
fn unexpected_event_repeats_pending_action() {
    let (s, _) = start(POOL);
    let (s, a) = step(s, MonitorEvent::StreamClosed);
    assert!(matches!(a, MonitorAction::FetchToken0(p) if p == POOL));
    assert!(matches!(pending_action(&s), MonitorAction::FetchToken0(_)));
}

fn drive_to_subscribe(sup: &mut Supervisor, i: usize) {
    sup.deliver(i, MonitorEvent::TokenAddress(Ok(TOKEN0)));
    sup.deliver(i, MonitorEvent::TokenAddress(Ok(TOKEN1)));
    sup.deliver(i, MonitorEvent::TokenInfoLoaded(Ok(info(18, "AAA"))));
    sup.deliver(i, MonitorEvent::TokenInfoLoaded(Ok(info(18, "BBB"))));
}

#[test]
fn one_failed_subscription_leaves_other_pools_running() {
    let pools = vec![[1u8; 20], [2u8; 20], [3u8; 20]];
    let (mut sup, first) = Supervisor::new(&pools);
    assert_eq!(first.len(), 3);
    for i in 0..3 {
        drive_to_subscribe(&mut sup, i);
    }
    assert!(matches!(sup.deliver(0, MonitorEvent::Subscribed(Ok(()))), MonitorAction::AwaitLog));
    let failed = sup.deliver(1, MonitorEvent::Subscribed(Err("refused".to_string())));
    assert!(matches!(failed, MonitorAction::Stop));
    assert!(matches!(sup.deliver(2, MonitorEvent::Subscribed(Ok(()))), MonitorAction::AwaitLog));
    for i in [0usize, 2] {
        for _ in 0..3 {
            let a = sup.deliver(i, sample("79228162514264337593543950336"));
            match a {
                MonitorAction::Emit(o) => {
                    assert_eq!(o.pool, pools[i]);
                    assert_eq!(o.quote0, BigInt::from(1_000_000_000_000_000_000u64));
                }
                other => panic!("unexpected action {:?}", other),
            }
        }
    }
    assert!(matches!(sup.pending_of(1), MonitorAction::Stop));
    assert!(matches!(
        sup.monitors[1],
        MonitorState::Terminated { outcome: Err(MonitorError::Log { error: LogError::LogSubscriptionFailed, .. }) }
    ));
    assert!(!sup.is_finished());
    sup.deliver(0, MonitorEvent::StreamClosed);
    sup.deliver(2, MonitorEvent::StreamClosed);
    assert!(sup.is_finished());
}
