use signal_ingest::document::frame_document;
use signal_ingest::price::{Price, MAX_MANTISSA, MAX_SCALE};
use signal_ingest::signal::{
    webhook_status, SignalPayload, SignalRecord, STATUS_INTERNAL_SERVER_ERROR, STATUS_OK,
};

fn payload(pair: &str, action: &str, mantissa: i128, scale: u32, source: &str) -> SignalPayload {
    SignalPayload {
        pair: pair.to_string(),
        action: action.to_string(),
        price: Price::new(mantissa, scale).unwrap(),
        source: source.to_string(),
    }
}

#[test]
fn btc_buy_signal_is_recorded_verbatim() {
    let p = payload("BTC/USD", "buy", 6500050, 2, "TradingView");
    let r = SignalRecord::from_payload(p);
    assert_eq!(r.pair, "BTC/USD");
    assert_eq!(r.action, "buy");
    assert_eq!(r.price.mantissa, 6500050);
    assert_eq!(r.price.scale, 2);
    assert_eq!(r.source, "TradingView");
    assert_eq!(r.bot_id, None);
    assert_eq!(
        r.raw_payload.as_deref(),
        Some(r#"{"pair":"BTC/USD","action":"buy","price":"65000.50","source":"TradingView"}"#)
    );
    assert_eq!(webhook_status(true), 200);
}

#[test]
fn any_action_text_is_kept() {
    let p = payload("", "hold ✓", -15, 1, "");
    let r = SignalRecord::from_payload(p);
    assert_eq!(r.pair, "");
    assert_eq!(r.action, "hold ✓");
    assert_eq!(r.source, "");
    assert_eq!(r.price.mantissa, -15);
    assert_eq!(r.price.scale, 1);
    assert_eq!(
        r.raw_payload.as_deref(),
        Some(r#"{"pair":"","action":"hold ✓","price":"-1.5","source":""}"#)
    );
}

#[test]
fn quotes_and_newlines_are_escaped_in_document() {
    let p = payload("a\"b", "sell\n", 0, 3, "x\\y");
    let doc = p.raw_document().unwrap();
    assert_eq!(
        doc,
        r#"{"pair":"a\"b","action":"sell\n","price":"0.000","source":"x\\y"}"#
    );
}

#[test]
fn decimal_precision_is_kept() {
    let a = SignalRecord::from_payload(payload("ETH/USD", "sell", 650005, 1, "s"));
    let b = SignalRecord::from_payload(payload("ETH/USD", "sell", 6500050, 2, "s"));
    assert_eq!(a.raw_payload.as_deref(), Some(r#"{"pair":"ETH/USD","action":"sell","price":"65000.5","source":"s"}"#));
    assert_eq!(b.raw_payload.as_deref(), Some(r#"{"pair":"ETH/USD","action":"sell","price":"65000.50","source":"s"}"#));
}

#[test]
fn record_takes_the_given_document() {
    let p = payload("BTC/USD", "buy", 1, 0, "TradingView");
    let r = SignalRecord::new(p, None);
    assert_eq!(r.raw_payload, None);
    assert_eq!(r.bot_id, None);
    assert_eq!(r.pair, "BTC/USD");
}

#[test]
fn store_failure_is_a_server_error() {
    assert_eq!(webhook_status(false), 500);
    assert_eq!(STATUS_OK, 200);
    assert_eq!(STATUS_INTERNAL_SERVER_ERROR, 500);
}

#[test]
fn price_range_limits() {
    assert!(Price::new(MAX_MANTISSA, MAX_SCALE).is_some());
    assert!(Price::new(-MAX_MANTISSA, 0).is_some());
    assert!(Price::new(MAX_MANTISSA + 1, 0).is_none());
    assert!(Price::new(-MAX_MANTISSA - 1, 0).is_none());
    assert!(Price::new(1, MAX_SCALE + 1).is_none());
    assert_eq!(MAX_SCALE, 28);
    assert_eq!(MAX_MANTISSA, 79228162514264337593543950335);
}

#[test]
fn largest_price_document() {
    let p = payload("P", "buy", MAX_MANTISSA, 0, "S");
    assert_eq!(
        p.raw_document().unwrap(),
        r#"{"pair":"P","action":"buy","price":"79228162514264337593543950335","source":"S"}"#
    );
}

#[test]
fn framing_places_texts_verbatim() {
    assert_eq!(
        frame_document("1", "2", "3", "4"),
        r#"{"pair":1,"action":2,"price":3,"source":4}"#
    );
}

#[test]
fn control_characters_are_escaped_in_document() {
    let p = payload("\u{1}\u{1f}", "\t\u{8}\u{c}\r", 5, 3, "é\u{7f}");
    assert_eq!(
        p.raw_document().unwrap(),
        "{\"pair\":\"\\u0001\\u001f\",\"action\":\"\\t\\b\\f\\r\",\"price\":\"0.005\",\"source\":\"é\u{7f}\"}"
    );
}
