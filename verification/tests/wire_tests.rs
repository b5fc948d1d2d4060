//! The decode path that a live driver uses: each UDP datagram is one JSON
//! object with `_tag`, `_type` and arbitrary payload keys, turned into a
//! `Datagram` value before the verified receive loop interprets it.

use light_n2n::controller::Controller;
use light_n2n::protocol::{rx, Datagram, FieldValue, Pair};

fn decode_datagram(bytes: &[u8]) -> Option<Datagram> {
    let value: serde_json::Value = serde_json::from_slice(bytes).ok()?;
    let object = value.as_object()?;
    let tag = object.get("_tag")?.as_str()?.to_string();
    let typ = object.get("_type")?.as_str()?.to_string();
    let mut payload = Vec::new();
    for (key, field) in object.iter() {
        if key == "_tag" || key == "_type" {
            continue;
        }
        let converted = match field.as_str() {
            Some(text) => FieldValue::Text(text.to_string()),
            None => FieldValue::Other,
        };
        payload.push(Pair { key: key.clone(), value: converted });
    }
    Some(Datagram { tag, typ, payload })
}

#[test]
fn decoded_wire_datagrams_round_trip_to_the_virtual_address() {
    let mut c = Controller::new(5644);
    let wire: Vec<&[u8]> = vec![
        br#"{"_tag":"0","_type":"begin"}"#,
        br#"{"_tag":"0","_type":"row","ip4addr":"10.0.0.5"}"#,
        br#"{"_tag":"0","_type":"end"}"#,
    ];
    let datagrams: Vec<Datagram> = wire.iter().map(|b| decode_datagram(b).unwrap()).collect();
    assert_eq!(c.get_vip(datagrams).unwrap(), "10.0.0.5");
}

#[test]
fn a_non_string_payload_field_decodes_as_opaque() {
    let d = decode_datagram(br#"{"_tag":"3","_type":"row","count":7}"#).unwrap();
    assert_eq!(d.tag, "3");
    assert_eq!(d.typ, "row");
    assert_eq!(d.payload.len(), 1);
    assert_eq!(d.payload[0].key, "count");
    assert!(matches!(d.payload[0].value, FieldValue::Other));
}

#[test]
fn malformed_or_untagged_json_does_not_decode() {
    assert!(decode_datagram(b"not json").is_none());
    assert!(decode_datagram(br#"{"_type":"row"}"#).is_none());
    assert!(decode_datagram(br#"{"_tag":"1"}"#).is_none());
}

#[test]
fn a_decoded_error_datagram_aborts_with_its_text() {
    let boom = decode_datagram(br#"{"_tag":"0","_type":"error","error":"boom"}"#).unwrap();
    let r = rx("0", vec![boom]);
    match r {
        Err(e) => assert_eq!(e.message(), "boom"),
        Ok(_) => panic!("expected the remote error"),
    }
}
