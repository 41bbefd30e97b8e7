//! Tests for the per-kind converters and the dispatcher.

use matrix_requests::SerializationError;
use matrix_requests::duration::Duration;
use matrix_requests::requests::AnyOutgoingRequest;
use matrix_requests::requests::KeysBackupPayload;
use matrix_requests::requests::KeysBackupRequest;
use matrix_requests::requests::KeysClaimPayload;
use matrix_requests::requests::KeysClaimRequest;
use matrix_requests::requests::KeysQueryPayload;
use matrix_requests::requests::KeysQueryRequest;
use matrix_requests::requests::KeysUploadPayload;
use matrix_requests::requests::KeysUploadRequest;
use matrix_requests::requests::MessageContent;
use matrix_requests::requests::OutgoingRequest;
use matrix_requests::requests::OutgoingRequests;
use matrix_requests::requests::RequestType;
use matrix_requests::requests::RoomMessagePayload;
use matrix_requests::requests::RoomMessageRequest;
use matrix_requests::requests::SignatureUploadPayload;
use matrix_requests::requests::SignatureUploadRequest;
use matrix_requests::requests::ToDevicePayload;
use matrix_requests::requests::ToDeviceRequest;
use serde_json::Value;

fn empty_object() -> Value {
    Value::Object(serde_json::Map::new())
}

fn parse(s: &str) -> Value {
    serde_json::from_str(s).unwrap()
}

fn sorted_keys(v: &Value) -> Vec<String> {
    let mut keys: Vec<String> = v.as_object().unwrap().keys().cloned().collect();
    keys.sort();
    keys
}

#[test]
fn keys_upload_scenario() {
    let p = KeysUploadPayload {
        device_keys: Value::Null,
        one_time_keys: empty_object(),
        fallback_keys: Value::Null,
    };
    let r = KeysUploadRequest::try_from("id".to_string(), &p).unwrap();
    assert_eq!(r.id, "id");
    assert_eq!(
        parse(&r.body),
        parse("{\"device_keys\":null,\"one_time_keys\":{},\"fallback_keys\":null}")
    );
    // The body keeps the declared field order.
    assert_eq!(
        r.body,
        "{\"device_keys\":null,\"one_time_keys\":{},\"fallback_keys\":null}"
    );
}

#[test]
fn keys_upload_body_key_set() {
    let p = KeysUploadPayload {
        device_keys: Value::Bool(true),
        one_time_keys: Value::Null,
        fallback_keys: empty_object(),
    };
    let r = KeysUploadRequest::try_from("a".to_string(), &p).unwrap();
    assert_eq!(
        sorted_keys(&parse(&r.body)),
        vec!["device_keys", "fallback_keys", "one_time_keys"]
    );
}

#[test]
fn keys_query_scenario_ten_seconds() {
    let p = KeysQueryPayload {
        timeout: Some(Duration::from_secs(10)),
        device_keys: empty_object(),
    };
    let r = KeysQueryRequest::try_from("q".to_string(), &p).unwrap();
    let body = parse(&r.body);
    assert_eq!(body["timeout"].as_u64(), Some(10_000));
    assert_eq!(sorted_keys(&body), vec!["device_keys", "timeout"]);
}

#[test]
fn keys_query_no_timeout_is_null() {
    let p = KeysQueryPayload { timeout: None, device_keys: Value::Null };
    let r = KeysQueryRequest::try_from("q".to_string(), &p).unwrap();
    let body = parse(&r.body);
    assert!(body["timeout"].is_null());
    assert_eq!(r.body, "{\"timeout\":null,\"device_keys\":null}");
}

#[test]
fn keys_query_timeout_boundary_converts() {
    let p = KeysQueryPayload {
        timeout: Some(Duration::from_millis(u64::MAX)),
        device_keys: Value::Null,
    };
    let r = KeysQueryRequest::try_from("q".to_string(), &p).unwrap();
    let body = parse(&r.body);
    assert_eq!(body["timeout"].as_u64(), Some(u64::MAX));
}

#[test]
fn keys_query_timeout_overflow_fails() {
    let p = KeysQueryPayload {
        // One millisecond beyond u64::MAX milliseconds.
        timeout: Some(Duration::new(18_446_744_073_709_551, 616_000_000)),
        device_keys: Value::Null,
    };
    let r = KeysQueryRequest::try_from("q".to_string(), &p);
    assert!(matches!(r, Err(SerializationError)));
}

#[test]
fn keys_claim_body_key_set() {
    let p = KeysClaimPayload {
        timeout: Some(Duration::from_secs(10)),
        one_time_keys: empty_object(),
    };
    let r = KeysClaimRequest::try_from("c".to_string(), &p).unwrap();
    let body = parse(&r.body);
    assert_eq!(body["timeout"].as_u64(), Some(10_000));
    assert_eq!(sorted_keys(&body), vec!["one_time_keys", "timeout"]);
}

#[test]
fn keys_claim_scenario_overflow() {
    // A timeout of 18446744073709551615001 milliseconds in total: one
    // millisecond more than an unsigned 64-bit count can hold.
    let p = KeysClaimPayload {
        timeout: Some(Duration::new(u64::MAX, 1_000_000)),
        one_time_keys: empty_object(),
    };
    let r = KeysClaimRequest::try_from("c".to_string(), &p);
    assert!(matches!(r, Err(SerializationError)));
}

#[test]
fn to_device_scenario() {
    let p = ToDevicePayload {
        event_type: "m.room_key".to_string(),
        txn_id: "1".to_string(),
        messages: empty_object(),
    };
    let r = ToDeviceRequest::try_from("t".to_string(), &p).unwrap();
    assert_eq!(r.id, "t");
    assert_eq!(r.event_type, "m.room_key");
    assert_eq!(r.txn_id, "1");
    assert_eq!(parse(&r.body), parse("{\"messages\":{}}"));
    assert_eq!(sorted_keys(&parse(&r.body)), vec!["messages"]);
}

#[test]
fn signature_upload_body_key_set() {
    let p = SignatureUploadPayload { signed_keys: empty_object() };
    let r = SignatureUploadRequest::try_from("s".to_string(), &p).unwrap();
    assert_eq!(sorted_keys(&parse(&r.body)), vec!["signed_keys"]);
}

#[test]
fn room_message_scenario() {
    let content: Value = parse("{\"msgtype\":\"m.text\",\"body\":\"hello\"}");
    let p = RoomMessagePayload {
        room_id: "!abc:example.org".to_string(),
        txn_id: "42".to_string(),
        content: MessageContent {
            event_type: "m.room.message".to_string(),
            value: content.clone(),
        },
    };
    let r = RoomMessageRequest::try_from("m".to_string(), &p).unwrap();
    assert_eq!(r.id, "m");
    assert_eq!(r.room_id, "!abc:example.org");
    assert_eq!(r.txn_id, "42");
    assert_eq!(r.event_type, "m.room.message");
    assert_eq!(r.content, serde_json::to_string(&content).unwrap());
    assert_eq!(parse(&r.content), content);
}

#[test]
fn keys_backup_body_key_set() {
    let p = KeysBackupPayload { rooms: empty_object() };
    let r = KeysBackupRequest::try_from("b".to_string(), &p).unwrap();
    assert_eq!(sorted_keys(&parse(&r.body)), vec!["rooms"]);
}

#[test]
fn keys_backup_escapes_string_values() {
    // The grouped value is JSON-encoded, not copied: a quote in the
    // source string must come back intact after a parse.
    let p = KeysBackupPayload { rooms: Value::String("x\"y".to_string()) };
    let r = KeysBackupRequest::try_from("b".to_string(), &p).unwrap();
    let body = parse(&r.body);
    assert_eq!(body["rooms"].as_str(), Some("x\"y"));
}

#[test]
fn conversion_is_idempotent() {
    let p = KeysQueryPayload {
        timeout: Some(Duration::from_secs(3)),
        device_keys: parse("{\"@alice:example.org\":[]}"),
    };
    let r1 = KeysQueryRequest::try_from("same".to_string(), &p).unwrap();
    let r2 = KeysQueryRequest::try_from("same".to_string(), &p).unwrap();
    assert_eq!(r1.id, r2.id);
    assert_eq!(r1.body, r2.body);
    assert_eq!(parse(&r1.body), parse(&r2.body));
}

#[test]
fn dispatcher_preserves_id_for_every_kind() {
    let requests = vec![
        AnyOutgoingRequest::KeysUpload(KeysUploadPayload {
            device_keys: Value::Null,
            one_time_keys: empty_object(),
            fallback_keys: Value::Null,
        }),
        AnyOutgoingRequest::KeysQuery(KeysQueryPayload {
            timeout: None,
            device_keys: Value::Null,
        }),
        AnyOutgoingRequest::KeysClaim(KeysClaimPayload {
            timeout: None,
            one_time_keys: empty_object(),
        }),
        AnyOutgoingRequest::ToDevice(ToDevicePayload {
            event_type: "m.room_key".to_string(),
            txn_id: "1".to_string(),
            messages: empty_object(),
        }),
        AnyOutgoingRequest::SignatureUpload(SignatureUploadPayload {
            signed_keys: empty_object(),
        }),
        AnyOutgoingRequest::RoomMessage(RoomMessagePayload {
            room_id: "!r:example.org".to_string(),
            txn_id: "2".to_string(),
            content: MessageContent {
                event_type: "m.room.message".to_string(),
                value: empty_object(),
            },
        }),
        AnyOutgoingRequest::KeysBackup(KeysBackupPayload { rooms: empty_object() }),
    ];
    for (i, request) in requests.into_iter().enumerate() {
        let id = format!("request-{}", i);
        let o = OutgoingRequest { request_id: id.clone(), request };
        let rec = OutgoingRequests::try_from(&o).unwrap();
        let got = match &rec {
            OutgoingRequests::KeysUpload(x) => &x.id,
            OutgoingRequests::KeysQuery(x) => &x.id,
            OutgoingRequests::KeysClaim(x) => &x.id,
            OutgoingRequests::ToDevice(x) => &x.id,
            OutgoingRequests::SignatureUpload(x) => &x.id,
            OutgoingRequests::RoomMessage(x) => &x.id,
            OutgoingRequests::KeysBackup(x) => &x.id,
        };
        assert_eq!(got, &id);
    }
}

#[test]
fn dispatcher_picks_matching_arm() {
    let o = OutgoingRequest {
        request_id: "u".to_string(),
        request: AnyOutgoingRequest::KeysUpload(KeysUploadPayload {
            device_keys: Value::Null,
            one_time_keys: empty_object(),
            fallback_keys: Value::Null,
        }),
    };
    let rec = OutgoingRequests::try_from(&o).unwrap();
    assert!(matches!(rec, OutgoingRequests::KeysUpload(_)));
}

#[test]
fn dispatcher_propagates_overflow() {
    let o = OutgoingRequest {
        request_id: "c".to_string(),
        request: AnyOutgoingRequest::KeysClaim(KeysClaimPayload {
            timeout: Some(Duration::new(u64::MAX, 1_000_000)),
            one_time_keys: empty_object(),
        }),
    };
    assert!(matches!(OutgoingRequests::try_from(&o), Err(SerializationError)));
}

#[test]
fn request_type_tags() {
    let upload = KeysUploadRequest::try_from(
        "i".to_string(),
        &KeysUploadPayload {
            device_keys: Value::Null,
            one_time_keys: Value::Null,
            fallback_keys: Value::Null,
        },
    )
    .unwrap();
    assert_eq!(upload.request_type(), RequestType::KeysUpload);
    let query = KeysQueryRequest::try_from(
        "i".to_string(),
        &KeysQueryPayload { timeout: None, device_keys: Value::Null },
    )
    .unwrap();
    assert_eq!(query.request_type(), RequestType::KeysQuery);
    let claim = KeysClaimRequest::try_from(
        "i".to_string(),
        &KeysClaimPayload { timeout: None, one_time_keys: Value::Null },
    )
    .unwrap();
    assert_eq!(claim.request_type(), RequestType::KeysClaim);
    let to_device = ToDeviceRequest::try_from(
        "i".to_string(),
        &ToDevicePayload {
            event_type: "e".to_string(),
            txn_id: "1".to_string(),
            messages: Value::Null,
        },
    )
    .unwrap();
    assert_eq!(to_device.request_type(), RequestType::ToDevice);
    let signature = SignatureUploadRequest::try_from(
        "i".to_string(),
        &SignatureUploadPayload { signed_keys: Value::Null },
    )
    .unwrap();
    assert_eq!(signature.request_type(), RequestType::SignatureUpload);
    let room = RoomMessageRequest::try_from(
        "i".to_string(),
        &RoomMessagePayload {
            room_id: "!r:example.org".to_string(),
            txn_id: "2".to_string(),
            content: MessageContent { event_type: "t".to_string(), value: Value::Null },
        },
    )
    .unwrap();
    assert_eq!(room.request_type(), RequestType::RoomMessage);
    let backup = KeysBackupRequest::try_from(
        "i".to_string(),
        &KeysBackupPayload { rooms: Value::Null },
    )
    .unwrap();
    assert_eq!(backup.request_type(), RequestType::KeysBackup);
}
