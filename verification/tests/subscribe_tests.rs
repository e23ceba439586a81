use sdb_client::config::{get_seismic_conf_from_env, key_or_default};
use sdb_client::error::SeismicError;
use sdb_client::snapshot::{orderbook_snapshot_reply, parse_snapshot};
use sdb_client::subscribe::{subscription_drain, subscription_step, SubSignal};

#[derive(Debug, Clone, Copy, PartialEq, Eq)]
struct Rec {
    ts: u64,
    seq: u32,
}

type Ev = (bool, Option<(Option<Rec>, Option<String>)>);

#[test]
fn step_publishes_decoded_records() {
    let rec = Rec { ts: 7, seq: 1 };
    let step = subscription_step(true, Some((Some(rec), Some("bench".to_owned()))));
    match step {
        SubSignal::Publish(r) => assert_eq!(r, rec),
        _ => panic!("a decoded record must be published"),
    }
}

#[test]
fn step_skips_incomplete_decodes() {
    assert!(matches!(
        subscription_step::<Rec>(true, None),
        SubSignal::Skip
    ));
    assert!(matches!(
        subscription_step::<Rec>(true, Some((None, Some("bench".to_owned())))),
        SubSignal::Skip
    ));
    assert!(matches!(
        subscription_step(true, Some((Some(Rec { ts: 1, seq: 0 }), None))),
        SubSignal::Skip
    ));
}

#[test]
fn step_ends_on_failure_status() {
    assert!(matches!(subscription_step::<Rec>(false, None), SubSignal::End));
}

#[test]
fn scripted_stream_publishes_in_order() {
    let recs = [
        Rec { ts: 10, seq: 0 },
        Rec { ts: 11, seq: 1 },
        Rec { ts: 12, seq: 2 },
    ];
    let events: Vec<Ev> = recs
        .iter()
        .map(|r| (true, Some((Some(*r), Some("bench".to_owned())))))
        .collect();
    let out = subscription_drain(events);
    assert_eq!(out.len(), 3);
    assert_eq!(out, recs.to_vec());
}

#[test]
fn stream_stops_at_failure_frame() {
    let events: Vec<Ev> = vec![
        (true, Some((Some(Rec { ts: 1, seq: 0 }), Some("a".to_owned())))),
        (false, None),
        (true, Some((Some(Rec { ts: 2, seq: 1 }), Some("a".to_owned())))),
    ];
    let out = subscription_drain(events);
    assert_eq!(out, vec![Rec { ts: 1, seq: 0 }]);
}

#[test]
fn stream_drops_undecodable_frames() {
    let events: Vec<Ev> = vec![
        (true, None),
        (true, Some((Some(Rec { ts: 5, seq: 9 }), Some("a".to_owned())))),
        (true, Some((None, None))),
    ];
    let out = subscription_drain(events);
    assert_eq!(out, vec![Rec { ts: 5, seq: 9 }]);
}

#[test]
fn snapshot_parses_json_text() {
    assert!(parse_snapshot("{\"bids\":{},\"asks\":{}}").is_ok());
    assert!(parse_snapshot("[1,2,3]").is_ok());
    assert_eq!(
        parse_snapshot("not json at all").err(),
        Some(SeismicError::JsonError)
    );
    assert_eq!(parse_snapshot("").err(), Some(SeismicError::JsonError));
}

#[test]
fn snapshot_reply_paths() {
    assert!(orderbook_snapshot_reply(true, b"{\"bids\":{}}").is_ok());
    assert_eq!(
        orderbook_snapshot_reply(true, b"ERR-ish non json").err(),
        Some(SeismicError::JsonError)
    );
    assert_eq!(
        orderbook_snapshot_reply(false, b"ERR: No db named missing at line 1").err(),
        Some(SeismicError::DBNotFoundError("missing".to_owned()))
    );
    assert_eq!(
        orderbook_snapshot_reply(false, b"ERR: broken").err(),
        Some(SeismicError::ServerError("ERR: broken".to_owned()))
    );
}

#[test]
fn endpoint_defaults() {
    let (host, port) = get_seismic_conf_from_env(None, None);
    assert_eq!(host, "localhost");
    assert_eq!(port, "9001");
    let (host, port) =
        get_seismic_conf_from_env(Some("0.0.0.0".to_owned()), Some("9002".to_owned()));
    assert_eq!(host, "0.0.0.0");
    assert_eq!(port, "9002");
}

#[test]
fn key_defaulting() {
    assert_eq!(key_or_default(None, "fallback"), "fallback");
    assert_eq!(key_or_default(Some("set".to_owned()), "fallback"), "set");
}
