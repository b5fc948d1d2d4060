use light_n2n::controller::{liveness, Controller};
use light_n2n::protocol::{rx, Datagram, FieldValue, Pair, Row, RxError};

fn dg(tag: &str, typ: &str, fields: Vec<(&str, &str)>) -> Datagram {
    Datagram {
        tag: tag.to_string(),
        typ: typ.to_string(),
        payload: fields
            .into_iter()
            .map(|(k, v)| Pair { key: k.to_string(), value: FieldValue::Text(v.to_string()) })
            .collect(),
    }
}

#[test]
fn round_trip_virtual_address() {
    let mut c = Controller::new(5644);
    let datagrams = vec![
        dg("0", "begin", vec![]),
        dg("0", "row", vec![("ip4addr", "10.0.0.5")]),
        dg("0", "end", vec![]),
    ];
    let vip = c.get_vip(datagrams).unwrap();
    assert_eq!(vip, "10.0.0.5");
}

#[test]
fn tag_isolation_discards_mismatched_datagram() {
    let stale = dg("9", "row", vec![("ip4addr", "1.2.3.4")]);
    let done = dg("0", "end", vec![]);
    let rows = rx("0", vec![stale, done]).unwrap();
    assert!(rows.is_empty());
}

#[test]
fn error_propagation_surfaces_remote_message() {
    let mut c = Controller::new(5644);
    let boom = dg("0", "error", vec![("error", "boom")]);
    let r = c.close(vec![boom]);
    match r {
        Err(RxError::Remote(m)) => assert_eq!(m, "boom"),
        _ => panic!("expected the remote error"),
    }
}

#[test]
fn unknown_type_aborts_the_call() {
    let weird = dg("0", "bogus", vec![]);
    match rx("0", vec![weird]) {
        Err(RxError::UnknownType(t)) => {
            assert_eq!(t, "bogus");
            assert_eq!(RxError::UnknownType(t).message(), "Unknown data type bogus");
        },
        _ => panic!("expected a protocol violation"),
    }
}

#[test]
fn exhausted_stream_is_a_timeout() {
    match rx("0", vec![]) {
        Err(RxError::Timeout) => (),
        _ => panic!("expected a timeout"),
    }
}

#[test]
fn rows_and_events_accumulate_in_order() {
    let datagrams = vec![
        dg("0", "begin", vec![]),
        dg("0", "row", vec![("ip4addr", "10.0.0.2")]),
        dg("0", "subscribed", vec![]),
        dg("0", "event", vec![("ip4addr", "10.0.0.3")]),
        dg("0", "unsubscribed", vec![]),
        dg("0", "end", vec![]),
    ];
    let rows: Vec<Row> = rx("0", datagrams).unwrap();
    assert_eq!(rows.len(), 2);
    match &rows[0].payload[0].value {
        FieldValue::Text(t) => assert_eq!(t, "10.0.0.2"),
        _ => panic!("expected text"),
    }
    match &rows[1].payload[0].value {
        FieldValue::Text(t) => assert_eq!(t, "10.0.0.3"),
        _ => panic!("expected text"),
    }
}

#[test]
fn cmdstr_builds_the_tagged_request_line() {
    let mut c = Controller::new(5644);
    let (tag0, line0) = c.cmdstr("r", "info");
    assert_eq!(tag0, "0");
    assert_eq!(line0, "r 0 info");
    let (tag1, line1) = c.cmdstr("w", "stop");
    assert_eq!(tag1, "1");
    assert_eq!(line1, "w 1 stop");
}

#[test]
fn cmdstr_folds_the_shared_secret_into_the_options() {
    let mut c = Controller::new(5644);
    c.key = Some("secret".to_string());
    let (tag, line) = c.cmdstr("r", "edges");
    assert_eq!(tag, "0");
    assert_eq!(line, "r 0:1:secret edges");
}

#[test]
fn tag_counter_wraps_at_one_thousand() {
    let mut c = Controller::new(5644);
    c.tag = 999;
    let (tag, _) = c.cmdstr("r", "help");
    assert_eq!(tag, "999");
    assert_eq!(c.tag, 0);
}

#[test]
fn virtual_address_defaults_when_absent() {
    let mut c = Controller::new(5644);
    let datagrams = vec![dg("0", "row", vec![("other", "x")]), dg("0", "end", vec![])];
    assert_eq!(c.get_vip(datagrams).unwrap(), "0.0.0.0");
}

#[test]
fn virtual_address_defaults_when_the_call_fails() {
    let mut c = Controller::new(5644);
    assert_eq!(c.get_vip(vec![]).unwrap(), "0.0.0.0");
}

#[test]
fn non_string_virtual_address_is_a_conversion_error() {
    let mut c = Controller::new(5644);
    let row = Datagram {
        tag: "0".to_string(),
        typ: "row".to_string(),
        payload: vec![Pair { key: "ip4addr".to_string(), value: FieldValue::Other }],
    };
    let datagrams = vec![row, dg("0", "end", vec![])];
    let r = c.get_vip(datagrams);
    assert!(r.is_err());
    assert_eq!(r.err().unwrap().message(), "conversion failed");
}

#[test]
fn current_group_returns_the_first_community() {
    let mut c = Controller::new(5644);
    let datagrams = vec![
        dg("0", "row", vec![("community", "lers10")]),
        dg("0", "row", vec![("community", "other")]),
        dg("0", "end", vec![]),
    ];
    assert_eq!(c.current_group(datagrams).unwrap(), "lers10");
}

#[test]
fn current_group_defaults_to_none() {
    let mut c = Controller::new(5644);
    let datagrams = vec![dg("0", "end", vec![])];
    assert_eq!(c.current_group(datagrams).unwrap(), "None");
}

#[test]
fn liveness_counts_any_arrived_response() {
    let mut c = Controller::new(5644);
    assert!(c.test(vec![dg("0", "end", vec![])]));
    // An error reply and even a protocol violation are arrived responses:
    // the worker answered, so it is alive.
    assert!(c.test(vec![dg("1", "error", vec![("error", "boom")])]));
    assert!(c.test(vec![dg("2", "bogus", vec![])]));
    // No response at all, or only cross-talk for another tag, is a timeout.
    assert!(!c.test(vec![]));
    assert!(!c.test(vec![dg("9", "end", vec![])]));
}

#[test]
fn edges_substitute_defaults_for_missing_and_empty_fields() {
    let mut c = Controller::new(5644);
    let datagrams = vec![
        dg("0", "row", vec![("ip4addr", "10.0.0.7"), ("desc", ""), ("mode", "p2p")]),
        dg("0", "row", vec![("desc", "Bob")]),
        dg("0", "end", vec![]),
    ];
    let ms = c.edges(datagrams);
    assert_eq!(ms.len(), 2);
    assert_eq!(ms[0].address, "10.0.0.7");
    assert_eq!(ms[0].name, "None");
    assert_eq!(ms[0].mode, "p2p");
    assert_eq!(ms[1].address, "None");
    assert_eq!(ms[1].name, "Bob");
    assert_eq!(ms[1].mode, "Unknown");
}

#[test]
fn edges_are_empty_when_the_call_fails() {
    let mut c = Controller::new(5644);
    let ms = c.edges(vec![]);
    assert!(ms.is_empty());
}

#[test]
fn liveness_succeeds_within_three_attempts() {
    assert!(liveness(&vec![false, false, true]));
    assert!(liveness(&vec![true]));
    assert!(!liveness(&vec![false, false, false, true]));
    assert!(!liveness(&vec![]));
}
