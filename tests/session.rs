use binance_core::binance::Binance;
use binance_core::session::{
    retry_delay_ms, subscription_message, FailureAction, Session, SessionAction, SessionError,
    SessionState,
};
use binance_core::signer::Side;
use binance_core::symbol::{Symbol, TradeError};

fn channels() -> Vec<String> {
    vec!["ethusdt@bookTicker".to_string(), "bnbeth@bookTicker".to_string()]
}

#[test]
fn subscription_message_lists_channels() {
    assert_eq!(
        subscription_message(&channels()),
        r#"{"method":"SUBSCRIBE","params":["ethusdt@bookTicker","bnbeth@bookTicker"],"id":1}"#
    );
    assert_eq!(subscription_message(&vec![]), r#"{"method":"SUBSCRIBE","params":[],"id":1}"#);
}

#[test]
fn subscribe_before_connect_is_refused() {
    let mut s = Session::new(channels());
    assert_eq!(s.subscribe(), Err(SessionError::NotConnected));
    assert_eq!(s.on_message(5), Err(SessionError::NotConnected));
}

#[test]
fn reconnect_after_twelve_hours() {
    let mut s = Session::new(channels());
    s.on_connected(1000);
    assert!(s.subscribe().is_ok());
    assert_eq!(s.state, SessionState::Subscribed);
    assert_eq!(s.on_message(2000), Ok(SessionAction::Continue));
    assert_eq!(s.state, SessionState::Streaming);
    assert_eq!(s.on_message(1000 + 43200), Ok(SessionAction::Continue));
    // Past twelve hours the next message triggers a reconnect ...
    assert_eq!(s.on_message(1000 + 43201), Ok(SessionAction::Reconnect));
    // ... and nothing is dispatched until the session is connected and subscribed again.
    assert_eq!(s.on_message(1000 + 43202), Err(SessionError::NotConnected));
    s.on_connected(50000);
    assert_eq!(s.connected_at, 50000);
    assert!(s.subscribe().is_ok());
    assert_eq!(s.on_message(50001), Ok(SessionAction::Continue));
}

#[test]
fn failures_back_off_then_give_up() {
    let mut s = Session::new(channels());
    s.on_connected(0);
    assert_eq!(s.on_failure(true), FailureAction::Retry(1000));
    assert_eq!(s.state, SessionState::Disconnected);
    assert_eq!(s.on_failure(true), FailureAction::Retry(2000));
    assert_eq!(s.on_failure(true), FailureAction::Retry(4000));
    assert_eq!(s.on_failure(true), FailureAction::Retry(8000));
    assert_eq!(s.on_failure(true), FailureAction::Retry(16000));
    assert_eq!(s.on_failure(true), FailureAction::Fatal);
    s.on_connected(10);
    assert_eq!(s.failures, 0);
    assert_eq!(retry_delay_ms(5), None);
}

#[test]
fn no_dispatch_before_resubscribe() {
    let mut s = Session::new(channels());
    s.on_connected(0);
    assert_eq!(s.on_message(1), Err(SessionError::NotSubscribed));
    assert_eq!(s.state, SessionState::Connected);
    assert!(s.subscribe().is_ok());
    assert_eq!(s.on_message(2), Ok(SessionAction::Continue));
    assert_eq!(s.state, SessionState::Streaming);
}

#[test]
fn fatal_failure_is_not_retried() {
    let mut s = Session::new(channels());
    s.on_connected(0);
    assert_eq!(s.on_failure(false), FailureAction::Fatal);
    assert_eq!(s.state, SessionState::Disconnected);
    assert_eq!(s.failures, 0);
}

#[test]
fn follow_ticker_keeps_session_when_not_connected() {
    let mut b = Binance::new("k", "s", 1, channels());
    b.session.on_connected(77);
    b.session.subscribe().unwrap();
    assert_eq!(b.session.on_message(100 + 43200), Ok(SessionAction::Reconnect));
    assert_eq!(b.follow_ticker(), Err(SessionError::NotConnected));
    assert_eq!(b.session.state, SessionState::Disconnected);
    assert_eq!(b.session.connected_at, 77);
}

#[test]
fn test_get_server_time_stamp() {
    assert_eq!(Binance::get_server_time_stamp(r#"{"serverTime":1499827319559}"#), Some(1499827319559));
    assert_eq!(Binance::get_server_time_stamp(r#"{"time":1}"#), None);
    let mut b = Binance::new("k", "s", 1, channels());
    b.set_server_time_stamp(1499827319559);
    assert_eq!(b.server_time_stamp, 1499827319559);
}

#[test]
fn follow_ticker_needs_a_connection() {
    let mut b = Binance::new("k", "s", 1, channels());
    assert_eq!(b.follow_ticker(), Err(SessionError::NotConnected));
    b.session.on_connected(3);
    assert!(b.follow_ticker().unwrap().contains("bnbeth@bookTicker"));
}

#[test]
fn prepare_order_checks_liquidity_then_signs() {
    let b = Binance::new("key", "secret", 1, channels());
    assert_eq!(b.api_key(), "key");
    let mut s1 = Symbol::new("ETH", "USDT");
    s1.update(r#"{"u":22277893334,"s":"ETHUSDT","b":"1268.53000000","B":"107.76630000","a":"1268.54000000","A":"3.89930000"}"#).unwrap();
    assert_eq!(
        b.prepare_order(&s1, Side::Base, "100", 1499827319559).unwrap(),
        s1.build_trade_json(Side::Base, "100", 1499827319559, "secret")
    );
    assert_eq!(
        b.prepare_order(&s1, Side::Base, "200", 1),
        Err(TradeError::InsufficientLiquidity(Side::Base))
    );
}
