//! Types to handle requests.
//!
//! Each kind of outgoing request the encryption engine can emit is
//! converted here into a uniform external record: the request identifier,
//! a few extracted scalar fields, and a JSON-encoded `body` built from the
//! kind's fixed schema of grouped fields.

use vstd::prelude::*;
use crate::SerializationError;
use crate::body::build_body;
use crate::body::entries_view;
use crate::body::spec_object_text;
use crate::duration::Duration;
use crate::json::json_text_of;
use crate::json::json_value_to_text;
use crate::numeral::dec_digits;
use crate::numeral::u64_to_dec;

verus! {

// ===================================================================
// Source payloads
//
// The engine's own request values are richly typed; this layer reads
// only a few scalar attributes of them and serializes the rest whole.
// A payload therefore carries the scalars as plain strings or spans,
// and every field that is only ever serialized as a `serde_json::Value`.
// ===================================================================
/// The payload of a key-upload request: all of it is grouped into the body.
pub struct KeysUploadPayload {
    /// Per-device public key material.
    pub device_keys: serde_json::Value,
    /// Single-use key material offered for claiming.
    pub one_time_keys: serde_json::Value,
    /// Last-resort key material offered for claiming.
    pub fallback_keys: serde_json::Value,
}

/// The payload of a key-query request.
pub struct KeysQueryPayload {
    /// How long the server may wait for remote devices, carried as data.
    pub timeout: Option<Duration>,
    /// The devices whose keys are queried.
    pub device_keys: serde_json::Value,
}

/// The payload of a one-time-key claim request.
pub struct KeysClaimPayload {
    /// How long the server may wait for remote servers, carried as data.
    pub timeout: Option<Duration>,
    /// The keys to claim, one per device.
    pub one_time_keys: serde_json::Value,
}

/// The payload of a device-to-device message request.
pub struct ToDevicePayload {
    /// The type of the event sent to each device.
    pub event_type: String,
    /// The caller-chosen token that makes the request idempotent.
    pub txn_id: String,
    /// The messages, keyed by recipient.
    pub messages: serde_json::Value,
}

/// The payload of a cross-signing signature upload request.
pub struct SignatureUploadPayload {
    /// The signed key objects to publish.
    pub signed_keys: serde_json::Value,
}

/// The content of a room message: an event-type tag nested beside the
/// content value itself.
pub struct MessageContent {
    /// The type of the event, read out of the content union.
    pub event_type: String,
    /// The content itself, serialized whole as the record's body.
    pub value: serde_json::Value,
}

/// The payload of a room message request.
pub struct RoomMessagePayload {
    /// The room to send the event to.
    pub room_id: String,
    /// The caller-chosen token that makes the request idempotent.
    pub txn_id: String,
    /// The message content, with its event-type tag.
    pub content: MessageContent,
}

/// The payload of a room-key backup request.
pub struct KeysBackupPayload {
    /// The encrypted room keys to back up, keyed by room.
    pub rooms: serde_json::Value,
}

// ===================================================================
// Grouped-field schemas
// ===================================================================
/// The body text of a timeout field: the millisecond count, or `null`
/// when no timeout is set.
pub open spec fn spec_timeout_text(t: Option<Duration>) -> Seq<char> {
    match t {
        None => "null"@,
        Some(d) => dec_digits(d.spec_millis() as nat),
    }
}

/// Whether a timeout's millisecond count does not fit in an unsigned
/// 64-bit integer, the one numeric failure of a conversion.
pub open spec fn timeout_overflows(t: Option<Duration>) -> bool {
    t matches Some(d) && d.spec_millis() > u64::MAX
}

/// The grouped fields of a key-upload request, in declared order.
pub open spec fn keys_upload_entries(p: KeysUploadPayload) -> Seq<(Seq<char>, Seq<char>)> {
    seq![
        ("device_keys"@, json_text_of(p.device_keys)),
        ("one_time_keys"@, json_text_of(p.one_time_keys)),
        ("fallback_keys"@, json_text_of(p.fallback_keys)),
    ]
}

/// The grouped fields of a key-query request, in declared order.
pub open spec fn keys_query_entries(p: KeysQueryPayload) -> Seq<(Seq<char>, Seq<char>)> {
    seq![("timeout"@, spec_timeout_text(p.timeout)), ("device_keys"@, json_text_of(p.device_keys))]
}

/// The grouped fields of a one-time-key claim request, in declared order.
pub open spec fn keys_claim_entries(p: KeysClaimPayload) -> Seq<(Seq<char>, Seq<char>)> {
    seq![
        ("timeout"@, spec_timeout_text(p.timeout)),
        ("one_time_keys"@, json_text_of(p.one_time_keys)),
    ]
}

/// The grouped fields of a device-to-device message request.
pub open spec fn to_device_entries(p: ToDevicePayload) -> Seq<(Seq<char>, Seq<char>)> {
    seq![("messages"@, json_text_of(p.messages))]
}

/// The grouped fields of a signature upload request.
pub open spec fn signature_upload_entries(p: SignatureUploadPayload) -> Seq<
    (Seq<char>, Seq<char>),
> {
    seq![("signed_keys"@, json_text_of(p.signed_keys))]
}

/// The grouped fields of a room-key backup request.
pub open spec fn keys_backup_entries(p: KeysBackupPayload) -> Seq<(Seq<char>, Seq<char>)> {
    seq![("rooms"@, json_text_of(p.rooms))]
}

// ===================================================================
// External records, one per kind
// ===================================================================
/// Data for a request to the key-upload API endpoint.
///
/// Publishes end-to-end encryption keys for the device.
pub struct KeysUploadRequest {
    /// The request ID.
    pub id: String,
    /// A JSON-encoded string containing the rest of the payload:
    /// `device_keys`, `one_time_keys`, `fallback_keys`.
    ///
    /// It represents the body of the HTTP request.
    pub body: String,
}

impl KeysUploadRequest {
    /// Get its request type.
    pub fn request_type(&self) -> (t: RequestType)
        ensures
            t == RequestType::KeysUpload,
    {
        RequestType::KeysUpload
    }

    /// Convert the engine's key-upload payload into an external record,
    /// preserving the request identifier.  Conversion always succeeds.
    pub fn try_from(request_id: String, request: &KeysUploadPayload) -> (r: Result<
        KeysUploadRequest,
        SerializationError,
    >)
        ensures
            r is Ok,
            r matches Ok(rec) ==> ({
                &&& rec.id@ == request_id@
                &&& rec.body@ == spec_object_text(keys_upload_entries(*request))
            }),
    {
        let device_keys_text = match json_value_to_text(&request.device_keys) {
            Ok(t) => t,
            Err(_) => {
                return Err(SerializationError);
            },
        };
        let one_time_keys_text = match json_value_to_text(&request.one_time_keys) {
            Ok(t) => t,
            Err(_) => {
                return Err(SerializationError);
            },
        };
        let fallback_keys_text = match json_value_to_text(&request.fallback_keys) {
            Ok(t) => t,
            Err(_) => {
                return Err(SerializationError);
            },
        };
        let mut entries: Vec<(String, String)> = Vec::new();
        entries.push(("device_keys".to_owned(), device_keys_text));
        entries.push(("one_time_keys".to_owned(), one_time_keys_text));
        entries.push(("fallback_keys".to_owned(), fallback_keys_text));
        proof {
            assert(entries_view(entries@) =~~= keys_upload_entries(*request));
        }
        let body = build_body(&entries);
        Ok(KeysUploadRequest { id: request_id, body })
    }
}

/// Data for a request to the key-query API endpoint.
///
/// Returns the current devices and identity keys for the given users.
pub struct KeysQueryRequest {
    /// The request ID.
    pub id: String,
    /// A JSON-encoded object of form `{"timeout": …, "device_keys": …}`.
    pub body: String,
}

impl KeysQueryRequest {
    /// Get its request type.
    pub fn request_type(&self) -> (t: RequestType)
        ensures
            t == RequestType::KeysQuery,
    {
        RequestType::KeysQuery
    }

    /// Convert the engine's key-query payload into an external record,
    /// preserving the request identifier.  The timeout is grouped as its
    /// millisecond count; conversion succeeds exactly when that count
    /// fits in a `u64`.
    pub fn try_from(request_id: String, request: &KeysQueryPayload) -> (r: Result<
        KeysQueryRequest,
        SerializationError,
    >)
        ensures
            r is Ok <==> !timeout_overflows(request.timeout),
            r matches Ok(rec) ==> ({
                &&& rec.id@ == request_id@
                &&& rec.body@ == spec_object_text(keys_query_entries(*request))
            }),
    {
        let timeout_text: String = match request.timeout {
            None => "null".to_owned(),
            Some(d) => match d.checked_millis() {
                Some(ms) => u64_to_dec(ms),
                None => {
                    return Err(SerializationError);
                },
            },
        };
        let device_keys_text = match json_value_to_text(&request.device_keys) {
            Ok(t) => t,
            Err(_) => {
                return Err(SerializationError);
            },
        };
        let mut entries: Vec<(String, String)> = Vec::new();
        entries.push(("timeout".to_owned(), timeout_text));
        entries.push(("device_keys".to_owned(), device_keys_text));
        proof {
            assert(entries_view(entries@) =~~= keys_query_entries(*request));
        }
        let body = build_body(&entries);
        Ok(KeysQueryRequest { id: request_id, body })
    }
}

/// Data for a request to the one-time-key claim API endpoint.
///
/// Claims one-time keys that can be used to establish 1-to-1 E2EE
/// sessions.
pub struct KeysClaimRequest {
    /// The request ID.
    pub id: String,
    /// A JSON-encoded object of form `{"timeout": …, "one_time_keys": …}`.
    pub body: String,
}

impl KeysClaimRequest {
    /// Get its request type.
    pub fn request_type(&self) -> (t: RequestType)
        ensures
            t == RequestType::KeysClaim,
    {
        RequestType::KeysClaim
    }

    /// Convert the engine's one-time-key claim payload into an external
    /// record, preserving the request identifier.  The timeout is grouped
    /// as its millisecond count; conversion succeeds exactly when that
    /// count fits in a `u64`.
    pub fn try_from(request_id: String, request: &KeysClaimPayload) -> (r: Result<
        KeysClaimRequest,
        SerializationError,
    >)
        ensures
            r is Ok <==> !timeout_overflows(request.timeout),
            r matches Ok(rec) ==> ({
                &&& rec.id@ == request_id@
                &&& rec.body@ == spec_object_text(keys_claim_entries(*request))
            }),
    {
        let timeout_text: String = match request.timeout {
            None => "null".to_owned(),
            Some(d) => match d.checked_millis() {
                Some(ms) => u64_to_dec(ms),
                None => {
                    return Err(SerializationError);
                },
            },
        };
        let one_time_keys_text = match json_value_to_text(&request.one_time_keys) {
            Ok(t) => t,
            Err(_) => {
                return Err(SerializationError);
            },
        };
        let mut entries: Vec<(String, String)> = Vec::new();
        entries.push(("timeout".to_owned(), timeout_text));
        entries.push(("one_time_keys".to_owned(), one_time_keys_text));
        proof {
            assert(entries_view(entries@) =~~= keys_claim_entries(*request));
        }
        let body = build_body(&entries);
        Ok(KeysClaimRequest { id: request_id, body })
    }
}

/// Data for a request to the send-to-device API endpoint.
///
/// Send an event to a single device or to a group of devices.
pub struct ToDeviceRequest {
    /// The request ID.
    pub id: String,
    /// A string representing the type of event being sent to each device.
    pub event_type: String,
    /// A string representing a request identifier unique to the access
    /// token used to send the request.
    pub txn_id: String,
    /// A JSON-encoded string containing the rest of the payload:
    /// `messages`.
    ///
    /// It represents the body of the HTTP request.
    pub body: String,
}

impl ToDeviceRequest {
    /// Get its request type.
    pub fn request_type(&self) -> (t: RequestType)
        ensures
            t == RequestType::ToDevice,
    {
        RequestType::ToDevice
    }

    /// Convert the engine's device-to-device message payload into an
    /// external record: the event type and transaction id are extracted
    /// verbatim, the messages are grouped into the body.  Conversion
    /// always succeeds.
    pub fn try_from(request_id: String, request: &ToDevicePayload) -> (r: Result<
        ToDeviceRequest,
        SerializationError,
    >)
        ensures
            r is Ok,
            r matches Ok(rec) ==> ({
                &&& rec.id@ == request_id@
                &&& rec.event_type@ == request.event_type@
                &&& rec.txn_id@ == request.txn_id@
                &&& rec.body@ == spec_object_text(to_device_entries(*request))
            }),
    {
        let messages_text = match json_value_to_text(&request.messages) {
            Ok(t) => t,
            Err(_) => {
                return Err(SerializationError);
            },
        };
        let mut entries: Vec<(String, String)> = Vec::new();
        entries.push(("messages".to_owned(), messages_text));
        proof {
            assert(entries_view(entries@) =~~= to_device_entries(*request));
        }
        let body = build_body(&entries);
        Ok(
            ToDeviceRequest {
                id: request_id,
                event_type: request.event_type.clone(),
                txn_id: request.txn_id.clone(),
                body,
            },
        )
    }
}

/// Data for a request to the signature upload API endpoint.
///
/// Publishes cross-signing signatures for the user.
pub struct SignatureUploadRequest {
    /// The request ID.
    pub id: String,
    /// A JSON-encoded string containing the rest of the payload:
    /// `signed_keys`.
    ///
    /// It represents the body of the HTTP request.
    pub body: String,
}

impl SignatureUploadRequest {
    /// Get its request type.
    pub fn request_type(&self) -> (t: RequestType)
        ensures
            t == RequestType::SignatureUpload,
    {
        RequestType::SignatureUpload
    }

    /// Convert the engine's signature upload payload into an external
    /// record, preserving the request identifier.  Conversion always
    /// succeeds.
    pub fn try_from(request_id: String, request: &SignatureUploadPayload) -> (r: Result<
        SignatureUploadRequest,
        SerializationError,
    >)
        ensures
            r is Ok,
            r matches Ok(rec) ==> ({
                &&& rec.id@ == request_id@
                &&& rec.body@ == spec_object_text(signature_upload_entries(*request))
            }),
    {
        let signed_keys_text = match json_value_to_text(&request.signed_keys) {
            Ok(t) => t,
            Err(_) => {
                return Err(SerializationError);
            },
        };
        let mut entries: Vec<(String, String)> = Vec::new();
        entries.push(("signed_keys".to_owned(), signed_keys_text));
        proof {
            assert(entries_view(entries@) =~~= signature_upload_entries(*request));
        }
        let body = build_body(&entries);
        Ok(SignatureUploadRequest { id: request_id, body })
    }
}

/// A customized owned request type for sending out room messages.
pub struct RoomMessageRequest {
    /// The request ID.
    pub id: String,
    /// A string representing the room to send the event to.
    pub room_id: String,
    /// A string representing the transaction ID for this event.
    ///
    /// Clients should generate an ID unique across requests with the same
    /// access token; it will be used by the server to ensure idempotency of
    /// requests.
    pub txn_id: String,
    /// A string representing the type of event to be sent.
    pub event_type: String,
    /// A JSON-encoded string containing the message's content.
    pub content: String,
}

impl RoomMessageRequest {
    /// Get its request type.
    pub fn request_type(&self) -> (t: RequestType)
        ensures
            t == RequestType::RoomMessage,
    {
        RequestType::RoomMessage
    }

    /// Convert the engine's room message payload into an external record:
    /// room and transaction ids are extracted verbatim, the event type is
    /// derived from the content, and the content itself is JSON-encoded as
    /// the body.  Conversion always succeeds.
    pub fn try_from(request_id: String, request: &RoomMessagePayload) -> (r: Result<
        RoomMessageRequest,
        SerializationError,
    >)
        ensures
            r is Ok,
            r matches Ok(rec) ==> ({
                &&& rec.id@ == request_id@
                &&& rec.room_id@ == request.room_id@
                &&& rec.txn_id@ == request.txn_id@
                &&& rec.event_type@ == request.content.event_type@
                &&& rec.content@ == json_text_of(request.content.value)
            }),
    {
        let content_text = match json_value_to_text(&request.content.value) {
            Ok(t) => t,
            Err(_) => {
                return Err(SerializationError);
            },
        };
        Ok(
            RoomMessageRequest {
                id: request_id,
                room_id: request.room_id.clone(),
                txn_id: request.txn_id.clone(),
                event_type: request.content.event_type.clone(),
                content: content_text,
            },
        )
    }
}

/// A request that will back up a batch of room keys to the server.
pub struct KeysBackupRequest {
    /// The request ID.
    pub id: String,
    /// A JSON-encoded string containing the rest of the payload: `rooms`.
    ///
    /// It represents the body of the HTTP request.
    pub body: String,
}

impl KeysBackupRequest {
    /// Get its request type.
    pub fn request_type(&self) -> (t: RequestType)
        ensures
            t == RequestType::KeysBackup,
    {
        RequestType::KeysBackup
    }

    /// Convert the engine's room-key backup payload into an external
    /// record, preserving the request identifier.  Conversion always
    /// succeeds.
    pub fn try_from(request_id: String, request: &KeysBackupPayload) -> (r: Result<
        KeysBackupRequest,
        SerializationError,
    >)
        ensures
            r is Ok,
            r matches Ok(rec) ==> ({
                &&& rec.id@ == request_id@
                &&& rec.body@ == spec_object_text(keys_backup_entries(*request))
            }),
    {
        let rooms_text = match json_value_to_text(&request.rooms) {
            Ok(t) => t,
            Err(_) => {
                return Err(SerializationError);
            },
        };
        let mut entries: Vec<(String, String)> = Vec::new();
        entries.push(("rooms".to_owned(), rooms_text));
        proof {
            assert(entries_view(entries@) =~~= keys_backup_entries(*request));
        }
        let body = build_body(&entries);
        Ok(KeysBackupRequest { id: request_id, body })
    }
}

// ===================================================================
// Dispatcher
// ===================================================================
/// The kind-specific payload of an abstract outgoing request, one variant
/// per kind the engine can emit.
pub enum AnyOutgoingRequest {
    /// A key-upload payload.
    KeysUpload(KeysUploadPayload),
    /// A key-query payload.
    KeysQuery(KeysQueryPayload),
    /// A one-time-key claim payload.
    KeysClaim(KeysClaimPayload),
    /// A device-to-device message payload.
    ToDevice(ToDevicePayload),
    /// A cross-signing signature upload payload.
    SignatureUpload(SignatureUploadPayload),
    /// A room message payload.
    RoomMessage(RoomMessagePayload),
    /// A room-key backup payload.
    KeysBackup(KeysBackupPayload),
}

/// An abstract outgoing request as the engine hands it over: an opaque
/// request identifier in its canonical string form, and a kind-specific
/// payload.
pub struct OutgoingRequest {
    /// The canonical string form of the request identifier.
    pub request_id: String,
    /// The kind-specific payload.
    pub request: AnyOutgoingRequest,
}

/// The closed union of external records, one arm per kind.
pub enum OutgoingRequests {
    /// A key-upload record.
    KeysUpload(KeysUploadRequest),
    /// A key-query record.
    KeysQuery(KeysQueryRequest),
    /// A one-time-key claim record.
    KeysClaim(KeysClaimRequest),
    /// A device-to-device message record.
    ToDevice(ToDeviceRequest),
    /// A cross-signing signature upload record.
    SignatureUpload(SignatureUploadRequest),
    /// A room message record.
    RoomMessage(RoomMessageRequest),
    /// A room-key backup record.
    KeysBackup(KeysBackupRequest),
}

/// Whether the payload's timeout, if it has one, overflows the
/// millisecond transform: the one numeric failure of a dispatch.
pub open spec fn spec_request_overflows(a: AnyOutgoingRequest) -> bool {
    match a {
        AnyOutgoingRequest::KeysQuery(p) => timeout_overflows(p.timeout),
        AnyOutgoingRequest::KeysClaim(p) => timeout_overflows(p.timeout),
        _ => false,
    }
}

/// What a successful dispatch returns: the record arm matching the
/// payload's kind, carrying the request identifier verbatim and the
/// fields and body of that kind's schema.
pub open spec fn spec_converted(o: OutgoingRequest, rec: OutgoingRequests) -> bool {
    match o.request {
        AnyOutgoingRequest::KeysUpload(p) => rec matches OutgoingRequests::KeysUpload(x) && ({
            &&& x.id@ == o.request_id@
            &&& x.body@ == spec_object_text(keys_upload_entries(p))
        }),
        AnyOutgoingRequest::KeysQuery(p) => rec matches OutgoingRequests::KeysQuery(x) && ({
            &&& !timeout_overflows(p.timeout)
            &&& x.id@ == o.request_id@
            &&& x.body@ == spec_object_text(keys_query_entries(p))
        }),
        AnyOutgoingRequest::KeysClaim(p) => rec matches OutgoingRequests::KeysClaim(x) && ({
            &&& !timeout_overflows(p.timeout)
            &&& x.id@ == o.request_id@
            &&& x.body@ == spec_object_text(keys_claim_entries(p))
        }),
        AnyOutgoingRequest::ToDevice(p) => rec matches OutgoingRequests::ToDevice(x) && ({
            &&& x.id@ == o.request_id@
            &&& x.event_type@ == p.event_type@
            &&& x.txn_id@ == p.txn_id@
            &&& x.body@ == spec_object_text(to_device_entries(p))
        }),
        AnyOutgoingRequest::SignatureUpload(p) => rec matches OutgoingRequests::SignatureUpload(
            x,
        ) && ({
            &&& x.id@ == o.request_id@
            &&& x.body@ == spec_object_text(signature_upload_entries(p))
        }),
        AnyOutgoingRequest::RoomMessage(p) => rec matches OutgoingRequests::RoomMessage(x) && ({
            &&& x.id@ == o.request_id@
            &&& x.room_id@ == p.room_id@
            &&& x.txn_id@ == p.txn_id@
            &&& x.event_type@ == p.content.event_type@
            &&& x.content@ == json_text_of(p.content.value)
        }),
        AnyOutgoingRequest::KeysBackup(p) => rec matches OutgoingRequests::KeysBackup(x) && ({
            &&& x.id@ == o.request_id@
            &&& x.body@ == spec_object_text(keys_backup_entries(p))
        }),
    }
}

impl OutgoingRequests {
    /// The request identifier carried by the record, whichever arm it is.
    pub open spec fn spec_id(&self) -> Seq<char> {
        match self {
            OutgoingRequests::KeysUpload(x) => x.id@,
            OutgoingRequests::KeysQuery(x) => x.id@,
            OutgoingRequests::KeysClaim(x) => x.id@,
            OutgoingRequests::ToDevice(x) => x.id@,
            OutgoingRequests::SignatureUpload(x) => x.id@,
            OutgoingRequests::RoomMessage(x) => x.id@,
            OutgoingRequests::KeysBackup(x) => x.id@,
        }
    }

    /// Classify an abstract outgoing request by its kind, convert it with
    /// that kind's schema, and wrap the record into the matching arm of
    /// the union.  The request identifier is preserved verbatim in every
    /// arm, and dispatch succeeds exactly when the payload's timeout, if
    /// it carries one, fits in a millisecond count.
    pub fn try_from(outgoing_request: &OutgoingRequest) -> (r: Result<
        OutgoingRequests,
        SerializationError,
    >)
        ensures
            r is Ok <==> !spec_request_overflows(outgoing_request.request),
            r matches Ok(rec) ==> spec_converted(*outgoing_request, rec),
            r matches Ok(rec) ==> rec.spec_id() == outgoing_request.request_id@,
    {
        let request_id = outgoing_request.request_id.clone();
        match &outgoing_request.request {
            AnyOutgoingRequest::KeysUpload(request) => match KeysUploadRequest::try_from(
                request_id,
                request,
            ) {
                Ok(rec) => Ok(OutgoingRequests::KeysUpload(rec)),
                Err(e) => Err(e),
            },
            AnyOutgoingRequest::KeysQuery(request) => match KeysQueryRequest::try_from(
                request_id,
                request,
            ) {
                Ok(rec) => Ok(OutgoingRequests::KeysQuery(rec)),
                Err(e) => Err(e),
            },
            AnyOutgoingRequest::KeysClaim(request) => match KeysClaimRequest::try_from(
                request_id,
                request,
            ) {
                Ok(rec) => Ok(OutgoingRequests::KeysClaim(rec)),
                Err(e) => Err(e),
            },
            AnyOutgoingRequest::ToDevice(request) => match ToDeviceRequest::try_from(
                request_id,
                request,
            ) {
                Ok(rec) => Ok(OutgoingRequests::ToDevice(rec)),
                Err(e) => Err(e),
            },
            AnyOutgoingRequest::SignatureUpload(request) => match SignatureUploadRequest::try_from(
                request_id,
                request,
            ) {
                Ok(rec) => Ok(OutgoingRequests::SignatureUpload(rec)),
                Err(e) => Err(e),
            },
            AnyOutgoingRequest::RoomMessage(request) => match RoomMessageRequest::try_from(
                request_id,
                request,
            ) {
                Ok(rec) => Ok(OutgoingRequests::RoomMessage(rec)),
                Err(e) => Err(e),
            },
            AnyOutgoingRequest::KeysBackup(request) => match KeysBackupRequest::try_from(
                request_id,
                request,
            ) {
                Ok(rec) => Ok(OutgoingRequests::KeysBackup(rec)),
                Err(e) => Err(e),
            },
        }
    }
}

/// Whether two records are structurally identical: the same arm, with the
/// same extracted fields and the same body text.
pub open spec fn spec_records_match(r1: OutgoingRequests, r2: OutgoingRequests) -> bool {
    match (r1, r2) {
        (OutgoingRequests::KeysUpload(a), OutgoingRequests::KeysUpload(b)) => a.id@ == b.id@
            && a.body@ == b.body@,
        (OutgoingRequests::KeysQuery(a), OutgoingRequests::KeysQuery(b)) => a.id@ == b.id@
            && a.body@ == b.body@,
        (OutgoingRequests::KeysClaim(a), OutgoingRequests::KeysClaim(b)) => a.id@ == b.id@
            && a.body@ == b.body@,
        (OutgoingRequests::ToDevice(a), OutgoingRequests::ToDevice(b)) => a.id@ == b.id@
            && a.event_type@ == b.event_type@ && a.txn_id@ == b.txn_id@ && a.body@ == b.body@,
        (OutgoingRequests::SignatureUpload(a), OutgoingRequests::SignatureUpload(b)) => a.id@
            == b.id@ && a.body@ == b.body@,
        (OutgoingRequests::RoomMessage(a), OutgoingRequests::RoomMessage(b)) => a.id@ == b.id@
            && a.room_id@ == b.room_id@ && a.txn_id@ == b.txn_id@ && a.event_type@ == b.event_type@
            && a.content@ == b.content@,
        (OutgoingRequests::KeysBackup(a), OutgoingRequests::KeysBackup(b)) => a.id@ == b.id@
            && a.body@ == b.body@,
        _ => false,
    }
}

/// Converting the same outgoing request twice yields structurally
/// identical results: two dispatches of one request agree on the Ok/Err
/// outcome, and two successful ones agree on the arm, the extracted
/// fields, and the body text.  The two hypotheses on each result are the
/// dispatcher's own postcondition.
pub proof fn lemma_conversion_deterministic(
    o: OutgoingRequest,
    r1: Result<OutgoingRequests, SerializationError>,
    r2: Result<OutgoingRequests, SerializationError>,
)
    requires
        r1 is Ok <==> !spec_request_overflows(o.request),
        r1 matches Ok(rec) ==> spec_converted(o, rec),
        r2 is Ok <==> !spec_request_overflows(o.request),
        r2 matches Ok(rec) ==> spec_converted(o, rec),
    ensures
        r1 is Ok <==> r2 is Ok,
        r1 matches Ok(a) ==> r2 matches Ok(b) ==> spec_records_match(a, b),
{
}

/// Represent the type of a request.
#[derive(Clone, Copy, Debug, PartialEq, Eq, Structural)]
pub enum RequestType {
    /// Represents a `KeysUploadRequest`.
    KeysUpload,
    /// Represents a `KeysQueryRequest`.
    KeysQuery,
    /// Represents a `KeysClaimRequest`.
    KeysClaim,
    /// Represents a `ToDeviceRequest`.
    ToDevice,
    /// Represents a `SignatureUploadRequest`.
    SignatureUpload,
    /// Represents a `RoomMessageRequest`.
    RoomMessage,
    /// Represents a `KeysBackupRequest`.
    KeysBackup,
}

} // verus!
