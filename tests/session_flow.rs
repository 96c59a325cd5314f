use kucoin_ticker::backoff::Backoff;
use kucoin_ticker::credential::acquire_result;
use kucoin_ticker::error::ClientError;
use kucoin_ticker::session::{Action, Event, Phase, Session};

const URL: &str = "wss://push1.kucoin.com/endpoint?bulletToken=TOK&format=json&resource=api";
const WELCOME: &str = r#"{"type":"welcome"}"#;
const ACK: &str = r#"{"type":"ack","id":1}"#;
const TICK: &str = r#"{"data":{"lastDealPrice":0.031,"vol":12.5,"datetime":1700000000,"symbol":"ETH-BTC"}}"#;

fn frame(s: &str) -> Event {
    Event::Frame(s.to_string())
}

fn new_session() -> Session {
    Session::new("ETH-BTC".to_string(), "push1.kucoin.com".to_string(), 1, Backoff::recommended())
}

fn expect_send(a: Action) -> String {
    match a {
        Action::Send(f) => f,
        other => panic!("expected a frame to send, got {:?}", other),
    }
}

fn expect_wait(a: Action) -> u64 {
    match a {
        Action::Wait(ms) => ms,
        other => panic!("expected a wait, got {:?}", other),
    }
}

fn expect_connect(a: Action) -> String {
    match a {
        Action::Connect(u) => u,
        other => panic!("expected a connect, got {:?}", other),
    }
}

fn subscribed_session() -> Session {
    let mut s = new_session();
    assert!(matches!(s.step(Event::Start), Action::AcquireToken));
    let token = acquire_result(200, r#"{"data":{"bulletToken":"TOK"}}"#).unwrap();
    assert_eq!(expect_connect(s.step(Event::TokenAcquired(token))), URL);
    assert!(matches!(s.step(Event::Connected), Action::Nothing));
    assert_eq!(s.phase(), Phase::HandshakePending);
    let sub = expect_send(s.step(frame(WELCOME)));
    assert_eq!(sub, r#"{"id":1,"type":"subscribe","topic":"/market/ETH-BTC_TICK","req":1}"#);
    assert!(matches!(s.step(frame(ACK)), Action::Nothing));
    assert_eq!(s.phase(), Phase::Subscribed);
    s
}

fn expect_tick(a: Action) {
    match a {
        Action::Emit(t) => {
            assert_eq!(t.market, "ETH-BTC");
            assert_eq!(t.price.parse::<f64>().unwrap(), 0.031);
            assert_eq!(t.volume.parse::<f64>().unwrap(), 12.5);
            assert_eq!(t.exchange, "kucoin");
            assert_eq!(t.ts, 1700000000);
        }
        other => panic!("expected a tick, got {:?}", other),
    }
}

#[test]
fn end_to_end_tick_is_emitted() {
    let mut s = subscribed_session();
    expect_tick(s.step(frame(TICK)));
}

#[test]
fn zero_price_tick_is_not_emitted() {
    let mut s = subscribed_session();
    let zero = r#"{"data":{"lastDealPrice":0,"vol":12.5,"datetime":1700000000,"symbol":"ETH-BTC"}}"#;
    assert!(matches!(s.step(frame(zero)), Action::Nothing));
    assert_eq!(s.phase(), Phase::Subscribed);
    expect_tick(s.step(frame(TICK)));
}

#[test]
fn auth_503_retries_after_one_second() {
    assert_eq!(acquire_result(503, ""), Err(ClientError::AuthTransportFailed(503)));
    let mut s = new_session();
    assert!(matches!(s.step(Event::Start), Action::AcquireToken));
    let err = acquire_result(503, "").unwrap_err();
    assert_eq!(expect_wait(s.step(Event::AuthFailed(err))), 1000);
    assert!(matches!(s.step(Event::BackoffElapsed), Action::AcquireToken));
}

#[test]
fn reconnect_replays_subscription() {
    let mut s = subscribed_session();
    expect_tick(s.step(frame(TICK)));
    expect_tick(s.step(frame(TICK)));
    assert_eq!(expect_wait(s.step(Event::ReadFailed)), 1000);
    assert_eq!(expect_connect(s.step(Event::BackoffElapsed)), URL);
    assert_eq!(expect_wait(s.step(Event::ConnectFailed { auth_rejected: false })), 2000);
    assert_eq!(expect_connect(s.step(Event::BackoffElapsed)), URL);
    assert!(matches!(s.step(Event::Connected), Action::Nothing));
    let sub = expect_send(s.step(frame(WELCOME)));
    assert_eq!(sub, r#"{"id":2,"type":"subscribe","topic":"/market/ETH-BTC_TICK","req":1}"#);
    assert!(matches!(s.step(frame(ACK)), Action::Nothing));
    expect_tick(s.step(frame(TICK)));
}

#[test]
fn reconnect_exhaustion_terminates() {
    let mut s = subscribed_session();
    let mut delays = vec![expect_wait(s.step(Event::ReadFailed))];
    for _ in 0..5 {
        assert_eq!(expect_connect(s.step(Event::BackoffElapsed)), URL);
        delays.push(expect_wait(s.step(Event::ConnectFailed { auth_rejected: false })));
    }
    assert_eq!(delays, vec![1000, 2000, 4000, 8000, 16000, 30000]);
    assert_eq!(expect_connect(s.step(Event::BackoffElapsed)), URL);
    match s.step(Event::ConnectFailed { auth_rejected: false }) {
        Action::Fail(e) => assert_eq!(e, ClientError::Terminated),
        other => panic!("expected termination, got {:?}", other),
    }
    assert_eq!(s.phase(), Phase::Terminated);
    assert!(s.is_finished());
    assert!(matches!(s.step(frame(TICK)), Action::Nothing));
    assert!(matches!(s.step(Event::BackoffElapsed), Action::Nothing));
}

#[test]
fn keepalive_ping_changes_nothing() {
    let mut s = subscribed_session();
    let ping = expect_send(s.step(Event::KeepaliveDue));
    assert_eq!(ping, r#"{"id":2,"type":"ping"}"#);
    assert!(matches!(s.step(frame(r#"{"id":2,"type":"pong"}"#)), Action::Nothing));
    assert_eq!(s.phase(), Phase::Subscribed);
    expect_tick(s.step(frame(TICK)));
}

#[test]
fn missed_keepalive_reconnects() {
    let mut s = subscribed_session();
    expect_send(s.step(Event::KeepaliveDue));
    expect_send(s.step(Event::KeepaliveDue));
    assert_eq!(expect_wait(s.step(Event::KeepaliveDue)), 1000);
    assert_eq!(s.phase(), Phase::Disconnected);
}

#[test]
fn rejected_credential_is_reacquired() {
    let mut s = subscribed_session();
    expect_wait(s.step(Event::ReadFailed));
    expect_connect(s.step(Event::BackoffElapsed));
    assert_eq!(expect_wait(s.step(Event::ConnectFailed { auth_rejected: true })), 2000);
    assert!(matches!(s.step(Event::BackoffElapsed), Action::AcquireToken));
}

#[test]
fn invalid_auth_payload_is_fatal() {
    let mut s = new_session();
    s.step(Event::Start);
    match s.step(Event::AuthFailed(ClientError::AuthPayloadInvalid)) {
        Action::Fail(e) => assert_eq!(e, ClientError::AuthPayloadInvalid),
        other => panic!("expected a fatal error, got {:?}", other),
    }
    assert_eq!(s.phase(), Phase::Terminated);
}

#[test]
fn handshake_timeout_reconnects() {
    let mut s = new_session();
    s.step(Event::Start);
    s.step(Event::TokenAcquired("TOK".to_string()));
    s.step(Event::Connected);
    assert_eq!(expect_wait(s.step(Event::HandshakeTimedOut)), 1000);
}

#[test]
fn no_tick_before_subscription() {
    let mut s = new_session();
    s.step(Event::Start);
    s.step(Event::TokenAcquired("TOK".to_string()));
    s.step(Event::Connected);
    let first = s.step(frame(TICK));
    assert!(matches!(first, Action::Send(_)));
    assert_eq!(s.phase(), Phase::Subscribing);
}

#[test]
fn undecodable_frame_is_skipped() {
    let mut s = subscribed_session();
    assert!(matches!(s.step(frame("garbage")), Action::Skip(_)));
    assert_eq!(s.phase(), Phase::Subscribed);
}

#[test]
fn shutdown_closes() {
    let mut s = subscribed_session();
    assert!(matches!(s.step(Event::Shutdown), Action::Close));
    assert_eq!(s.phase(), Phase::Closed);
    assert!(matches!(s.step(Event::Start), Action::Nothing));
}

#[test]
fn malformed_stream_url_is_a_failed_attempt() {
    let mut s = Session::new("ETH-BTC".to_string(), "bad host".to_string(), 1, Backoff::recommended());
    assert!(matches!(s.step(Event::Start), Action::AcquireToken));
    assert_eq!(expect_wait(s.step(Event::TokenAcquired("TOK".to_string()))), 1000);
    assert_eq!(s.phase(), Phase::Disconnected);
    assert!(matches!(s.step(Event::BackoffElapsed), Action::AcquireToken));
}
