use kucoin_ticker::decoder::{decode, Decoded};
use kucoin_ticker::error::DecodeFailure;

fn tick_frame(price: &str, vol: &str) -> String {
    format!(
        r#"{{"data":{{"lastDealPrice":{},"vol":{},"datetime":1700000000,"symbol":"ETH-BTC"}}}}"#,
        price, vol
    )
}

fn failure(frame: &str) -> DecodeFailure {
    match decode(frame) {
        Decoded::Failed(f) => f,
        other => panic!("expected a failure, got {:?}", other),
    }
}

#[test]
fn tick_fields_are_mapped() {
    match decode(&tick_frame("0.031", "12.5")) {
        Decoded::Tick(t) => {
            assert_eq!(t.market, "ETH-BTC");
            assert_eq!(t.price, "0.031");
            assert_eq!(t.volume, "12.5");
            assert_eq!(t.price.parse::<f64>().unwrap(), 0.031);
            assert_eq!(t.volume.parse::<f64>().unwrap(), 12.5);
            assert_eq!(t.exchange, "kucoin");
            assert_eq!(t.ts, 1700000000);
        }
        other => panic!("expected a tick, got {:?}", other),
    }
}

#[test]
fn zero_price_is_dropped() {
    assert!(matches!(decode(&tick_frame("0", "12.5")), Decoded::Dropped));
    assert!(matches!(decode(&tick_frame("0.0", "12.5")), Decoded::Dropped));
}

#[test]
fn zero_volume_is_dropped() {
    assert!(matches!(decode(&tick_frame("0.031", "0")), Decoded::Dropped));
}

#[test]
fn negative_price_is_dropped() {
    assert!(matches!(decode(&tick_frame("-1.5", "2")), Decoded::Dropped));
}

#[test]
fn missing_datetime_fails() {
    let f = r#"{"data":{"lastDealPrice":0.031,"vol":12.5,"symbol":"ETH-BTC"}}"#;
    assert_eq!(failure(f), DecodeFailure::MissingTimestamp);
}

#[test]
fn unknown_fields_are_ignored() {
    let f = r#"{"subject":"tick","data":{"lastDealPrice":0.031,"vol":12.5,"datetime":1700000000,"symbol":"ETH-BTC","buy":0.0309,"changeRate":-0.01,"extra":{"a":[1,2]}}}"#;
    match decode(f) {
        Decoded::Tick(t) => {
            assert_eq!(t.market, "ETH-BTC");
            assert_eq!(t.ts, 1700000000);
        }
        other => panic!("expected a tick, got {:?}", other),
    }
}

#[test]
fn numeric_strings_are_accepted() {
    let f = r#"{"data":{"lastDealPrice":"0.5","vol":"3","datetime":"1700000001","symbol":"ETH-BTC"}}"#;
    match decode(f) {
        Decoded::Tick(t) => {
            assert_eq!(t.price, "0.5");
            assert_eq!(t.volume, "3");
            assert_eq!(t.ts, 1700000001);
        }
        other => panic!("expected a tick, got {:?}", other),
    }
}

#[test]
fn exponent_numbers_are_read() {
    match decode(&tick_frame("1e-7", "2.5E3")) {
        Decoded::Tick(t) => {
            assert_eq!(t.price.parse::<f64>().unwrap(), 1e-7);
            assert_eq!(t.volume.parse::<f64>().unwrap(), 2500.0);
        }
        other => panic!("expected a tick, got {:?}", other),
    }
}

#[test]
fn decode_is_repeatable() {
    let f = tick_frame("0.031", "12.5");
    let a = format!("{:?}", decode(&f));
    let b = format!("{:?}", decode(&f.clone()));
    assert_eq!(a, b);
}

#[test]
fn each_decode_failure() {
    assert_eq!(failure("not json"), DecodeFailure::NotJson);
    assert_eq!(failure(r#"{"id":3}"#), DecodeFailure::MissingData);
    assert_eq!(failure(r#"{"data":{"bulletToken":"TOK"}}"#), DecodeFailure::CredentialPayload);
    assert_eq!(failure(r#"{"data":{"vol":1,"datetime":1,"symbol":"A"}}"#), DecodeFailure::MissingPrice);
    assert_eq!(failure(r#"{"data":{"lastDealPrice":"abc","vol":1,"datetime":1,"symbol":"A"}}"#), DecodeFailure::BadPrice);
    assert_eq!(failure(r#"{"data":{"lastDealPrice":1,"datetime":1,"symbol":"A"}}"#), DecodeFailure::MissingVolume);
    assert_eq!(failure(r#"{"data":{"lastDealPrice":1,"vol":true,"datetime":1,"symbol":"A"}}"#), DecodeFailure::BadVolume);
    assert_eq!(failure(r#"{"data":{"lastDealPrice":1,"vol":1,"datetime":1.5,"symbol":"A"}}"#), DecodeFailure::BadTimestamp);
    assert_eq!(failure(r#"{"data":{"lastDealPrice":1,"vol":1,"datetime":-4,"symbol":"A"}}"#), DecodeFailure::BadTimestamp);
    assert_eq!(failure(r#"{"data":{"lastDealPrice":1,"vol":1,"datetime":1}}"#), DecodeFailure::MissingMarket);
    assert_eq!(failure(r#"{"data":{"lastDealPrice":1,"vol":1,"datetime":1,"symbol":""}}"#), DecodeFailure::BadMarket);
}

#[test]
fn timestamp_beyond_u64_fails() {
    let f = r#"{"data":{"lastDealPrice":1,"vol":1,"datetime":"18446744073709551616","symbol":"A"}}"#;
    assert_eq!(failure(f), DecodeFailure::BadTimestamp);
    let g = r#"{"data":{"lastDealPrice":1,"vol":1,"datetime":18446744073709551615,"symbol":"A"}}"#;
    match decode(g) {
        Decoded::Tick(t) => assert_eq!(t.ts, u64::MAX),
        other => panic!("expected a tick, got {:?}", other),
    }
}

#[test]
fn protocol_frames_are_acks() {
    assert!(matches!(decode(r#"{"type":"welcome"}"#), Decoded::Ack));
    assert!(matches!(decode(r#"{"type":"ack","id":1}"#), Decoded::Ack));
    assert!(matches!(decode(r#"{"id":2,"type":"pong"}"#), Decoded::Ack));
}
