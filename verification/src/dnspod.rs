//! Tencent Cloud DNSPod (API v3, TC3-HMAC-SHA256 signatures): request signing, request
//! bodies, error classification and record/domain parsing.

use vstd::prelude::*;
use vstd::string::*;
use vstd::utf8::encode_utf8;
use crate::clock::{
    optional_plain_datetime, plain_timestamp, spec_utc_date_text, utc_date_text, utc_now_parts,
    UtcTimestamp,
};
use crate::cloudflare::{parse_record_type as parse_type_text, spec_parse_record_type};
use crate::crypto::{
    ends_with_lower_hex, lemma_hex_lower_shape,
    hex_lower, hmac_sha256, sha256, spec_hex_lower, spec_hmac_sha256, spec_sha256,
};
use crate::error::{prefixed, ProviderError};
use crate::models::{
    copy_opt_string, record_type_name, reversed, CreateRecordRequest, DnsRecord, Domain,
    ProviderType, RecordType, UpdateRecordRequest,
};
use crate::text::{
    decimal, decimal_i64, decimal_u64, owned, parse_u64, signed_decimal, spec_parse_u64,
    spec_to_lowercase, str_eq, to_lowercase,
};
use crate::paging::{flat_pages, flatten_pages};
use crate::zone::{plain_zone, plain_zone_text};

verus! {

// ---------------------------------------------------------------------------------------------
// TC3-HMAC-SHA256 signatures
// ---------------------------------------------------------------------------------------------

/// The API host.
pub open spec fn dnspod_host() -> Seq<char> {
    "dnspod.tencentcloudapi.com"@
}

/// The canonical request of TC3: method, path, empty query, the three signed headers
/// (content type, host, lower-cased action), their names, and the body's SHA-256 in hex.
pub open spec fn tc3_canonical_request(action: Seq<char>, body: Seq<char>) -> Seq<char> {
    "POST\n/\n\n"@ + ("content-type:application/json\nhost:"@ + dnspod_host() + "\nx-tc-action:"@
        + spec_to_lowercase(action) + "\n"@) + "\n"@ + "content-type;host;x-tc-action"@ + "\n"@
        + spec_hex_lower(spec_sha256(encode_utf8(body)))
}

/// The credential scope: `<date>/dnspod/tc3_request`.
pub open spec fn tc3_scope(date: Seq<char>) -> Seq<char> {
    date + "/dnspod/tc3_request"@
}

/// The string to sign: algorithm, timestamp, scope and the hashed canonical request, one per
/// line.
pub open spec fn tc3_string_to_sign(
    action: Seq<char>,
    body: Seq<char>,
    timestamp: i64,
    date: Seq<char>,
) -> Seq<char> {
    "TC3-HMAC-SHA256\n"@ + signed_decimal(timestamp as int) + "\n"@ + tc3_scope(date) + "\n"@
        + spec_hex_lower(spec_sha256(encode_utf8(tc3_canonical_request(action, body))))
}

/// The signing key: HMAC-SHA256 chained over the date, the service and `tc3_request`, keyed
/// first by `TC3<secret key>`.
pub open spec fn tc3_signing_key(secret_key: Seq<char>, date: Seq<char>) -> Seq<u8> {
    spec_hmac_sha256(
        spec_hmac_sha256(
            spec_hmac_sha256(encode_utf8("TC3"@ + secret_key), encode_utf8(date)),
            encode_utf8("dnspod"@),
        ),
        encode_utf8("tc3_request"@),
    )
}

/// The `Authorization` header value of a request signed at `timestamp` on `date`.
pub open spec fn tc3_authorization(
    secret_id: Seq<char>,
    secret_key: Seq<char>,
    action: Seq<char>,
    body: Seq<char>,
    timestamp: i64,
    date: Seq<char>,
) -> Seq<char> {
    "TC3-HMAC-SHA256 Credential="@ + secret_id + "/"@ + tc3_scope(date)
        + ", SignedHeaders=content-type;host;x-tc-action, Signature="@ + spec_hex_lower(
        spec_hmac_sha256(
            tc3_signing_key(secret_key, date),
            encode_utf8(tc3_string_to_sign(action, body, timestamp, date)),
        ),
    )
}

/// The canonical request.
fn canonical_request(action: &str, body: &str) -> (s: String)
    ensures
        s@ == tc3_canonical_request(action@, body@),
{
    let payload_hash = hex_lower(sha256(body.as_bytes()).as_slice());
    let action_lower = to_lowercase(action);
    let mut headers = owned("content-type:application/json\nhost:");
    headers.append("dnspod.tencentcloudapi.com");
    headers.append("\nx-tc-action:");
    headers.append(action_lower.as_str());
    headers.append("\n");
    let mut s = owned("POST\n/\n\n");
    s.append(headers.as_str());
    s.append("\n");
    s.append("content-type;host;x-tc-action");
    s.append("\n");
    s.append(payload_hash.as_str());
    s
}

/// The string to sign.
fn string_to_sign(action: &str, body: &str, timestamp: i64, date: &str) -> (s: String)
    ensures
        s@ == tc3_string_to_sign(action@, body@, timestamp, date@),
{
    let request = canonical_request(action, body);
    let hashed = hex_lower(sha256(request.as_str().as_bytes()).as_slice());
    let mut s = owned("TC3-HMAC-SHA256\n");
    let ts = decimal_i64(timestamp);
    s.append(ts.as_str());
    s.append("\n");
    s.append(date);
    s.append("/dnspod/tc3_request");
    s.append("\n");
    s.append(hashed.as_str());
    s
}

/// The `Authorization` header value for a request signed at `timestamp` on the UTC `date`
/// (`YYYY-MM-DD`).
pub fn tc3_authorization_at(
    secret_id: &str,
    secret_key: &str,
    action: &str,
    body: &str,
    timestamp: i64,
    date: &str,
) -> (s: String)
    ensures
        s@ == tc3_authorization(secret_id@, secret_key@, action@, body@, timestamp, date@),
        ends_with_lower_hex(s@, 64),
{
    let to_sign = string_to_sign(action, body, timestamp, date);
    let first_key = prefixed("TC3", secret_key);
    let secret_date = hmac_sha256(first_key.as_str().as_bytes(), date.as_bytes());
    let secret_service = hmac_sha256(secret_date.as_slice(), "dnspod".as_bytes());
    let secret_signing = hmac_sha256(secret_service.as_slice(), "tc3_request".as_bytes());
    let tag = hmac_sha256(secret_signing.as_slice(), to_sign.as_str().as_bytes());
    let signature = hex_lower(tag.as_slice());
    proof {
        lemma_hex_lower_shape(tag@);
    }
    let mut s = prefixed("TC3-HMAC-SHA256 Credential=", secret_id);
    s.append("/");
    s.append(date);
    s.append("/dnspod/tc3_request");
    s.append(", SignedHeaders=content-type;host;x-tc-action, Signature=");
    s.append(signature.as_str());
    s
}

// ---------------------------------------------------------------------------------------------
// The provider
// ---------------------------------------------------------------------------------------------

/// DNSPod access: a SecretId and SecretKey pair.
pub struct DnsPodProvider {
    secret_id: String,
    secret_key: String,
}

impl DnsPodProvider {
    /// The SecretId.
    pub closed spec fn id(&self) -> Seq<char> {
        self.secret_id@
    }

    /// The SecretKey.
    pub closed spec fn key(&self) -> Seq<char> {
        self.secret_key@
    }

    /// A provider using the given key pair.
    pub fn new(secret_id: String, secret_key: String) -> (p: DnsPodProvider)
        ensures
            p.id() == secret_id@,
            p.key() == secret_key@,
    {
        DnsPodProvider { secret_id, secret_key }
    }

    /// Signs a request for `action` with `body` at the current time: the `Authorization`
    /// header and the timestamp header (decimal seconds). The time is the clock's, so the
    /// result is stated for the second it was taken at, with that second's UTC date.
    pub fn sign(&self, action: &str, body: &str) -> (r: Result<(String, String), ProviderError>)
        ensures
            r matches Ok(p) && ends_with_lower_hex(p.0@, 64) && exists|ts: i64|
                #[trigger] spec_utc_date_text(ts) is Some && p.0@ == tc3_authorization(
                    self.id(),
                    self.key(),
                    action@,
                    body@,
                    ts,
                    spec_utc_date_text(ts)->0,
                ) && p.1@ == signed_decimal(ts as int),
    {
        let (ts, _nanos) = utc_now_parts();
        match utc_date_text(ts) {
            Some(date) => {
                let authorization = tc3_authorization_at(
                    self.secret_id.as_str(),
                    self.secret_key.as_str(),
                    action,
                    body,
                    ts,
                    date.as_str(),
                );
                Ok((authorization, decimal_i64(ts)))
            },
            None => {
                // every clock reading formats as a date
                Err(ProviderError::Other(owned("HMAC key error")))
            },
        }
    }

    /// Reads a record type string (see `cloudflare::parse_record_type`).
    pub fn parse_record_type(t: &str) -> (r: RecordType)
        ensures
            r == spec_parse_record_type(t@),
    {
        parse_type_text(t)
    }

    /// Prepares the API call `action` with `body`: the JSON body text and the headers, signed
    /// now (see `sign`): `Authorization`, `Content-Type`, `Host`, `X-TC-Action`,
    /// `X-TC-Timestamp` and `X-TC-Version`, in that order.
    pub fn prepare_request(&self, action: &str, body: &Vec<JsonField>) -> (r: Result<
        DnsPodRequest,
        ProviderError,
    >)
        ensures
            r matches Ok(req) && req.body@ == spec_body_json(body_model(body@)) && exists|ts: i64|
                #[trigger] spec_utc_date_text(ts) is Some && pairs_of_headers(req.headers@) == seq![
                    (
                        "Authorization"@,
                        tc3_authorization(
                            self.id(),
                            self.key(),
                            action@,
                            req.body@,
                            ts,
                            spec_utc_date_text(ts)->0,
                        ),
                    ),
                    ("Content-Type"@, "application/json"@),
                    ("Host"@, dnspod_host()),
                    ("X-TC-Action"@, action@),
                    ("X-TC-Timestamp"@, signed_decimal(ts as int)),
                    ("X-TC-Version"@, "2021-03-23"@),
                ],
    {
        let text = body_json(body);
        let (authorization, timestamp) = match self.sign(action, text.as_str()) {
            Ok(p) => p,
            Err(e) => {
                return Err(e);
            },
        };
        let headers = vec![
            (owned("Authorization"), authorization),
            (owned("Content-Type"), owned("application/json")),
            (owned("Host"), owned("dnspod.tencentcloudapi.com")),
            (owned("X-TC-Action"), owned(action)),
            (owned("X-TC-Timestamp"), timestamp),
            (owned("X-TC-Version"), owned("2021-03-23")),
        ];
        Ok(DnsPodRequest { body: text, headers })
    }
}

/// A prepared API call: the body text to POST and the headers to send with it.
pub struct DnsPodRequest {
    pub body: String,
    pub headers: Vec<(String, String)>,
}

/// Headers as plain values.
pub open spec fn pairs_of_headers(h: Seq<(String, String)>) -> Seq<(Seq<char>, Seq<char>)> {
    h.map_values(|e: (String, String)| (e.0@, e.1@))
}

// ---------------------------------------------------------------------------------------------
// Request bodies
// ---------------------------------------------------------------------------------------------

/// A JSON value of a request body.
#[derive(Debug, PartialEq)]
pub enum JsonValue {
    Text(String),
    Number(u64),
}

/// One member of a request body object.
#[derive(Debug, PartialEq)]
pub struct JsonField {
    pub key: String,
    pub value: JsonValue,
}

/// A body member as plain values.
pub enum FieldModel {
    Text(Seq<char>),
    Number(nat),
}

/// The plain-value form of a body member.
pub open spec fn field_model(f: JsonField) -> (Seq<char>, FieldModel) {
    (
        f.key@,
        match f.value {
            JsonValue::Text(s) => FieldModel::Text(s@),
            JsonValue::Number(n) => FieldModel::Number(n as nat),
        },
    )
}

/// The plain-value form of a body.
pub open spec fn body_model(b: Seq<JsonField>) -> Seq<(Seq<char>, FieldModel)> {
    b.map_values(|f: JsonField| field_model(f))
}

/// The JSON text `serde_json::to_string` writes for a body object with these members (strings
/// as JSON strings, numbers as JSON numbers).
pub uninterp spec fn spec_body_json(body: Seq<(Seq<char>, FieldModel)>) -> Seq<char>;

/// Builds a `serde_json::Value::Object` from the members and calls `serde_json::to_string`.
///
/// Trusted: the text depends on the members alone and is named `spec_body_json`. Writing a
/// `Value` never fails (its map keys are strings), so the `expect` never fires.
#[verifier::external_body]
pub(crate) fn body_json(body: &Vec<JsonField>) -> (s: String)
    ensures
        s@ == spec_body_json(body_model(body@)),
{
    let members: serde_json::Map<String, serde_json::Value> = body.iter().map(|f| {
        let value = match &f.value {
            JsonValue::Text(t) => serde_json::Value::from(t.clone()),
            JsonValue::Number(n) => serde_json::Value::from(*n),
        };
        (f.key.clone(), value)
    }).collect();
    serde_json::to_string(&serde_json::Value::Object(members)).expect("a JSON value serializes")
}

/// The number an id text denotes, or 0 when it is not an unsigned number.
pub open spec fn id_number(id: Seq<char>) -> nat {
    match spec_parse_u64(id) {
        Some(n) => n as nat,
        None => 0,
    }
}

/// The numeric form of an id (0 when unreadable).
pub fn id_number_of(id: &str) -> (n: u64)
    ensures
        n as nat == id_number(id@),
{
    match parse_u64(id) {
        Some(n) => n,
        None => 0,
    }
}

fn text_field(key: &str, value: String) -> (f: JsonField)
    ensures
        field_model(f) == (key@, FieldModel::Text(value@)),
{
    JsonField { key: owned(key), value: JsonValue::Text(value) }
}

fn number_field(key: &str, value: u64) -> (f: JsonField)
    ensures
        field_model(f) == (key@, FieldModel::Number(value as nat)),
{
    JsonField { key: owned(key), value: JsonValue::Number(value) }
}

/// The body of a domain-list request: an empty object.
pub fn list_domains_body() -> (b: Vec<JsonField>)
    ensures
        b@.len() == 0,
{
    Vec::new()
}

/// The body addressing one domain: `DomainId`.
pub fn domain_body(domain_id: &str) -> (b: Vec<JsonField>)
    ensures
        body_model(b@) == seq![("DomainId"@, FieldModel::Number(id_number(domain_id@)))],
{
    let mut b: Vec<JsonField> = Vec::new();
    b.push(number_field("DomainId", id_number_of(domain_id)));
    assert(body_model(b@) =~= seq![("DomainId"@, FieldModel::Number(id_number(domain_id@)))]);
    b
}

/// The body of a create request: domain, type, the default line, value, sub-domain, TTL and
/// MX priority (0 when absent).
pub fn create_record_body(domain_id: &str, record: &CreateRecordRequest) -> (b: Vec<JsonField>)
    ensures
        body_model(b@) == seq![
            ("DomainId"@, FieldModel::Number(id_number(domain_id@))),
            ("RecordType"@, FieldModel::Text(record_type_name(record.record_type))),
            ("RecordLine"@, FieldModel::Text("默认"@)),
            ("Value"@, FieldModel::Text(record.content@)),
            ("SubDomain"@, FieldModel::Text(record.name@)),
            ("TTL"@, FieldModel::Number(record.ttl as nat)),
            ("MX"@, FieldModel::Number(
                match record.priority {
                    Some(p) => p as nat,
                    None => 0,
                },
            )),
        ],
{
    let mut b: Vec<JsonField> = Vec::new();
    b.push(number_field("DomainId", id_number_of(domain_id)));
    b.push(text_field("RecordType", record.record_type.to_display_string()));
    b.push(text_field("RecordLine", owned("默认")));
    b.push(text_field("Value", record.content.clone()));
    b.push(text_field("SubDomain", record.name.clone()));
    b.push(number_field("TTL", record.ttl as u64));
    let mx: u32 = match record.priority {
        Some(p) => p,
        None => 0,
    };
    b.push(number_field("MX", mx as u64));
    assert(body_model(b@) =~= seq![
        ("DomainId"@, FieldModel::Number(id_number(domain_id@))),
        ("RecordType"@, FieldModel::Text(record_type_name(record.record_type))),
        ("RecordLine"@, FieldModel::Text("默认"@)),
        ("Value"@, FieldModel::Text(record.content@)),
        ("SubDomain"@, FieldModel::Text(record.name@)),
        ("TTL"@, FieldModel::Number(record.ttl as nat)),
        ("MX"@, FieldModel::Number(
            match record.priority {
                Some(p) => p as nat,
                None => 0,
            },
        )),
    ]);
    b
}

/// The body members for an optional text value.
pub open spec fn opt_text_field(key: Seq<char>, v: Option<Seq<char>>) -> Seq<(Seq<char>, FieldModel)> {
    match v {
        Some(t) => seq![(key, FieldModel::Text(t))],
        None => Seq::empty(),
    }
}

/// The body members for an optional number.
pub open spec fn opt_number_field(key: Seq<char>, v: Option<nat>) -> Seq<(Seq<char>, FieldModel)> {
    match v {
        Some(n) => seq![(key, FieldModel::Number(n))],
        None => Seq::empty(),
    }
}

fn push_field(b: &mut Vec<JsonField>, f: JsonField)
    ensures
        body_model(final(b)@) == body_model(old(b)@).push(field_model(f)),
{
    let ghost f0 = f;
    b.push(f);
    assert(body_model(b@) =~= body_model(old(b)@).push(field_model(f0)));
}

fn push_opt_text(b: &mut Vec<JsonField>, key: &str, v: Option<String>)
    ensures
        body_model(final(b)@) == body_model(old(b)@) + opt_text_field(
            key@,
            match v {
                Some(t) => Some(t@),
                None => None,
            },
        ),
{
    match v {
        Some(t) => {
            push_field(b, text_field(key, t));
        },
        None => {
            assert(body_model(b@) =~= body_model(old(b)@) + Seq::empty());
        },
    }
}

fn push_opt_number(b: &mut Vec<JsonField>, key: &str, v: Option<u32>)
    ensures
        body_model(final(b)@) == body_model(old(b)@) + opt_number_field(
            key@,
            match v {
                Some(n) => Some(n as nat),
                None => None,
            },
        ),
{
    match v {
        Some(n) => {
            push_field(b, number_field(key, n as u64));
        },
        None => {
            assert(body_model(b@) =~= body_model(old(b)@) + Seq::empty());
        },
    }
}

/// The optional members of an update body, each present when the request sets it, in the
/// order type, sub-domain, value, TTL, MX.
pub open spec fn update_optional_fields(record: UpdateRecordRequest) -> Seq<
    (Seq<char>, FieldModel),
> {
    opt_text_field(
        "RecordType"@,
        match record.record_type {
            Some(t) => Some(record_type_name(t)),
            None => None,
        },
    ) + opt_text_field(
        "SubDomain"@,
        match record.name {
            Some(n) => Some(n@),
            None => None,
        },
    ) + opt_text_field(
        "Value"@,
        match record.content {
            Some(c) => Some(c@),
            None => None,
        },
    ) + opt_number_field(
        "TTL"@,
        match record.ttl {
            Some(t) => Some(t as nat),
            None => None,
        },
    ) + opt_number_field(
        "MX"@,
        match record.priority {
            Some(p) => Some(p as nat),
            None => None,
        },
    )
}

/// The body of an update request: record and domain ids, then the fields the request sets.
pub fn update_record_body(domain_id: &str, record_id: &str, record: &UpdateRecordRequest) -> (b:
    Vec<JsonField>)
    ensures
        body_model(b@) == seq![
            ("RecordId"@, FieldModel::Number(id_number(record_id@))),
            ("DomainId"@, FieldModel::Number(id_number(domain_id@))),
        ] + update_optional_fields(*record),
{
    let mut b: Vec<JsonField> = Vec::new();
    push_field(&mut b, number_field("RecordId", id_number_of(record_id)));
    push_field(&mut b, number_field("DomainId", id_number_of(domain_id)));
    let ghost b0 = body_model(b@);
    let record_type = match record.record_type {
        Some(t) => Some(t.to_display_string()),
        None => None,
    };
    push_opt_text(&mut b, "RecordType", record_type);
    push_opt_text(&mut b, "SubDomain", copy_opt_string(&record.name));
    push_opt_text(&mut b, "Value", copy_opt_string(&record.content));
    push_opt_number(&mut b, "TTL", record.ttl);
    push_opt_number(&mut b, "MX", record.priority);
    assert(b0 =~= seq![
        ("RecordId"@, FieldModel::Number(id_number(record_id@))),
        ("DomainId"@, FieldModel::Number(id_number(domain_id@))),
    ]);
    assert(body_model(b@) =~= b0 + update_optional_fields(*record));
    b
}

/// The body of a delete request: record and domain ids.
pub fn delete_record_body(domain_id: &str, record_id: &str) -> (b: Vec<JsonField>)
    ensures
        body_model(b@) == seq![
            ("RecordId"@, FieldModel::Number(id_number(record_id@))),
            ("DomainId"@, FieldModel::Number(id_number(domain_id@))),
        ],
{
    let mut b: Vec<JsonField> = Vec::new();
    b.push(number_field("RecordId", id_number_of(record_id)));
    b.push(number_field("DomainId", id_number_of(domain_id)));
    assert(body_model(b@) =~= seq![
        ("RecordId"@, FieldModel::Number(id_number(record_id@))),
        ("DomainId"@, FieldModel::Number(id_number(domain_id@))),
    ]);
    b
}

/// The body of a keyword search: the keyword and the domain id.
pub fn search_records_body(domain_id: &str, query: &str) -> (b: Vec<JsonField>)
    ensures
        body_model(b@) == seq![
            ("Keyword"@, FieldModel::Text(query@)),
            ("DomainId"@, FieldModel::Number(id_number(domain_id@))),
        ],
{
    let mut b: Vec<JsonField> = Vec::new();
    b.push(text_field("Keyword", owned(query)));
    b.push(number_field("DomainId", id_number_of(domain_id)));
    assert(body_model(b@) =~= seq![
        ("Keyword"@, FieldModel::Text(query@)),
        ("DomainId"@, FieldModel::Number(id_number(domain_id@))),
    ]);
    b
}

// ---------------------------------------------------------------------------------------------
// Responses
// ---------------------------------------------------------------------------------------------

/// The error object of a DNSPod response.
pub struct DnsPodApiError {
    pub code: String,
    pub message: String,
}

/// The error for an HTTP status that rejects the credentials outright (401 or 403), if any.
pub fn status_error(status: u16) -> (e: Option<ProviderError>)
    ensures
        (status == 401 || status == 403) ==> (e matches Some(ProviderError::Unauthorized(m)) && m@
            == "DNSPod HTTP "@ + decimal(status as nat)),
        !(status == 401 || status == 403) ==> e is None,
{
    if status == 401 || status == 403 {
        let digits = decimal_u64(status as u64);
        Some(ProviderError::Unauthorized(prefixed("DNSPod HTTP ", digits.as_str())))
    } else {
        None
    }
}

/// The error of a body that is not a DNSPod response.
pub fn response_parse_error(detail: &str) -> (e: ProviderError)
    ensures
        e matches ProviderError::Deserialization(m) && m@ == "DNSPod response parse error: "@
            + detail@,
{
    ProviderError::Deserialization(prefixed("DNSPod response parse error: ", detail))
}

/// `e` is the error an API error object stands for: authentication failures are
/// `Unauthorized`, `ResourceNotFound` is `NotFound`, `LimitExceeded` is `RateLimited` without a
/// delay, and any other code is `DnsPod` with the request id (empty when absent).
pub open spec fn is_api_error(e: ProviderError, error: DnsPodApiError, request_id: Option<String>) -> bool {
    if error.code@ == "AuthFailure.SignatureFailure"@ || error.code@
        == "AuthFailure.SecretIdNotFound"@ || error.code@ == "AuthFailure.TokenFailure"@ {
        e == ProviderError::Unauthorized(error.message)
    } else if error.code@ == "ResourceNotFound"@ {
        e == ProviderError::NotFound(error.message)
    } else if error.code@ == "LimitExceeded"@ {
        e == (ProviderError::RateLimited { retry_after: None })
    } else {
        e matches ProviderError::DnsPod { message, request_id: rid } && message == error.message
            && rid@ == (match request_id {
            Some(r) => r@,
            None => Seq::empty(),
        })
    }
}

/// Classifies an API error object (see `is_api_error`).
pub fn api_error(error: DnsPodApiError, request_id: Option<String>) -> (e: ProviderError)
    ensures
        is_api_error(e, error, request_id),
{
    let code = error.code.as_str();
    if str_eq(code, "AuthFailure.SignatureFailure") || str_eq(code, "AuthFailure.SecretIdNotFound")
        || str_eq(code, "AuthFailure.TokenFailure") {
        ProviderError::Unauthorized(error.message)
    } else if str_eq(code, "ResourceNotFound") {
        ProviderError::NotFound(error.message)
    } else if str_eq(code, "LimitExceeded") {
        ProviderError::RateLimited { retry_after: None }
    } else {
        let rid = match request_id {
            Some(r) => r,
            None => String::new(),
        };
        ProviderError::DnsPod { message: error.message, request_id: rid }
    }
}

// ---------------------------------------------------------------------------------------------
// Domains and records
// ---------------------------------------------------------------------------------------------

/// A domain object of the API.
pub struct DnsPodDomain {
    pub domain_id: u64,
    pub name: String,
    pub status: String,
    pub record_count: Option<u32>,
    pub created_on: Option<String>,
    pub dns_status: Option<String>,
}

/// A record object of the API.
pub struct DnsPodRecord {
    pub record_id: u64,
    pub record_type: String,
    pub name: String,
    pub value: String,
    pub ttl: u32,
    pub mx: Option<u32>,
    pub status: String,
    pub updated_on: Option<String>,
}

/// The UTC time of an optional `YYYY-MM-DD HH:MM:SS` text.
pub open spec fn opt_plain_time(t: Option<String>) -> Option<UtcTimestamp> {
    match t {
        Some(s) => plain_timestamp(s@),
        None => None,
    }
}

/// `d` is the domain the API object `x` describes: decimal id, name, status, the record count
/// (0 when absent), the creation time (`YYYY-MM-DD HH:MM:SS`, UTC), and no name servers.
pub open spec fn is_dnspod_domain(d: Domain, x: DnsPodDomain) -> bool {
    &&& d.id@ == decimal(x.domain_id as nat)
    &&& d.provider == ProviderType::DnsPod
    &&& d.name == x.name
    &&& d.status == x.status
    &&& d.record_count == (match x.record_count {
        Some(n) => n,
        None => 0,
    })
    &&& d.created_on == opt_plain_time(x.created_on)
    &&& d.name_servers@.len() == 0
}

/// The domain an API object describes.
pub fn domain_from_api(x: DnsPodDomain) -> (d: Domain)
    ensures
        is_dnspod_domain(d, x),
{
    let created_on = optional_plain_datetime(&x.created_on);
    Domain {
        id: decimal_u64(x.domain_id),
        provider: ProviderType::DnsPod,
        name: x.name,
        status: x.status,
        record_count: match x.record_count {
            Some(n) => n,
            None => 0,
        },
        created_on,
        name_servers: Vec::new(),
    }
}

/// The domains of a domain-list response, in order (none when it has no list).
pub fn domains_from_list(list: Option<Vec<DnsPodDomain>>) -> (ds: Vec<Domain>)
    ensures
        ds@.len() == (match list {
            Some(v) => v@.len(),
            None => 0,
        }),
        forall|i: int| 0 <= i < ds@.len() ==> is_dnspod_domain(#[trigger] ds@[i], list->0@[i]),
{
    let mut ds: Vec<Domain> = Vec::new();
    match list {
        Some(v) => {
            let ghost all = v@;
            let n = v.len();
            let mut rev = reversed(v);
            while rev.len() > 0
                invariant
                    n == all.len(),
                    ds@.len() + rev@.len() == n,
                    rev@ == all.skip(ds@.len() as int).reverse(),
                    forall|i: int| 0 <= i < ds@.len() ==> is_dnspod_domain(#[trigger] ds@[i], all[i]),
                decreases rev@.len(),
            {
                let ghost k = ds@.len() as int;
                let x = rev.pop().unwrap();
                assert(x == all[k]);
                ds.push(domain_from_api(x));
                assert(all.skip(k + 1).reverse() =~= all.skip(k).reverse().drop_last());
            }
        },
        None => {},
    }
    ds
}

/// The domain of a domain-info response; none is `NotFound("Domain not found")`.
pub fn domain_from_info(info: Option<DnsPodDomain>) -> (r: Result<Domain, ProviderError>)
    ensures
        match info {
            Some(x) => r matches Ok(d) && is_dnspod_domain(d, x),
            None => r matches Err(ProviderError::NotFound(m)) && m@ == "Domain not found"@,
        },
{
    match info {
        Some(x) => Ok(domain_from_api(x)),
        None => Err(ProviderError::NotFound(owned("Domain not found"))),
    }
}

/// `r` is the record the API object `x` describes within the given domain: the record id in
/// decimal, no domain name, the type read case-insensitively, name, value, TTL, the MX
/// priority, `locked` meaning the status is `ENABLE`, and the update time when `timed`.
pub open spec fn is_dnspod_record(r: DnsRecord, domain_id: Seq<char>, x: DnsPodRecord, timed: bool) -> bool {
    &&& r.id@ == decimal(x.record_id as nat)
    &&& r.provider == ProviderType::DnsPod
    &&& r.domain_id@ == domain_id
    &&& r.domain_name@.len() == 0
    &&& r.record_type == spec_parse_record_type(x.record_type@)
    &&& r.name == x.name
    &&& r.content == x.value
    &&& r.ttl == x.ttl
    &&& r.priority == x.mx
    &&& r.proxied is None
    &&& r.locked == Some(x.status@ == "ENABLE"@)
    &&& r.created_on is None
    &&& r.updated_on == (if timed {
        opt_plain_time(x.updated_on)
    } else {
        None
    })
}

/// The record an API object describes. Record listings keep the domain id and the update
/// time (`timed`); search results have neither.
pub fn record_from_api(domain_id: &str, x: DnsPodRecord, timed: bool) -> (r: DnsRecord)
    ensures
        is_dnspod_record(r, domain_id@, x, timed),
{
    let record_type = DnsPodProvider::parse_record_type(x.record_type.as_str());
    let enabled = str_eq(x.status.as_str(), "ENABLE");
    let updated_on = if timed {
        optional_plain_datetime(&x.updated_on)
    } else {
        None
    };
    DnsRecord {
        id: decimal_u64(x.record_id),
        provider: ProviderType::DnsPod,
        domain_id: owned(domain_id),
        domain_name: String::new(),
        record_type,
        name: x.name,
        content: x.value,
        ttl: x.ttl,
        priority: x.mx,
        proxied: None,
        locked: Some(enabled),
        created_on: None,
        updated_on,
    }
}

/// The records of a record-list response, in order (none when it has no list). A listing
/// (`timed`) carries the domain id and update times; a search (`!timed`, `domain_id` empty)
/// neither.
pub fn records_from_list(domain_id: &str, list: Option<Vec<DnsPodRecord>>, timed: bool) -> (rs: Vec<
    DnsRecord,
>)
    ensures
        rs@.len() == (match list {
            Some(v) => v@.len(),
            None => 0,
        }),
        forall|i: int|
            0 <= i < rs@.len() ==> is_dnspod_record(#[trigger] rs@[i], domain_id@, list->0@[i], timed),
{
    let mut rs: Vec<DnsRecord> = Vec::new();
    match list {
        Some(v) => {
            let ghost all = v@;
            let n = v.len();
            let mut rev = reversed(v);
            while rev.len() > 0
                invariant
                    n == all.len(),
                    rs@.len() + rev@.len() == n,
                    rev@ == all.skip(rs@.len() as int).reverse(),
                    forall|i: int|
                        0 <= i < rs@.len() ==> is_dnspod_record(#[trigger] rs@[i], domain_id@, all[i], timed),
                decreases rev@.len(),
            {
                let ghost k = rs@.len() as int;
                let x = rev.pop().unwrap();
                assert(x == all[k]);
                rs.push(record_from_api(domain_id, x, timed));
                assert(all.skip(k + 1).reverse() =~= all.skip(k).reverse().drop_last());
            }
        },
        None => {},
    }
    rs
}

/// The record a successful create request stands for: the new id (0 when the response has
/// none), the request's fields, and the creation and update times `now`.
pub fn created_record(
    domain_id: &str,
    record: &CreateRecordRequest,
    record_id: Option<u64>,
    now: UtcTimestamp,
) -> (r: DnsRecord)
    ensures
        r.id@ == decimal(
            match record_id {
                Some(n) => n as nat,
                None => 0,
            },
        ),
        r.provider == ProviderType::DnsPod,
        r.domain_id@ == domain_id@,
        r.domain_name@.len() == 0,
        r.record_type == record.record_type,
        r.name == record.name,
        r.content == record.content,
        r.ttl == record.ttl,
        r.priority == record.priority,
        r.proxied is None,
        r.locked is None,
        r.created_on == Some(now),
        r.updated_on == Some(now),
{
    let id: u64 = match record_id {
        Some(n) => n,
        None => 0,
    };
    DnsRecord {
        id: decimal_u64(id),
        provider: ProviderType::DnsPod,
        domain_id: owned(domain_id),
        domain_name: String::new(),
        record_type: record.record_type,
        name: record.name.clone(),
        content: record.content.clone(),
        ttl: record.ttl,
        priority: record.priority,
        proxied: None,
        locked: None,
        created_on: Some(now),
        updated_on: Some(now),
    }
}

/// The record a successful update stands for: the record id, no domain, the request's fields
/// with defaults (`A`, empty name and content, TTL 600) for those it leaves out, updated `now`.
pub fn updated_record(record_id: &str, record: &UpdateRecordRequest, now: UtcTimestamp) -> (r:
    DnsRecord)
    ensures
        r.id@ == record_id@,
        r.provider == ProviderType::DnsPod,
        r.domain_id@.len() == 0,
        r.domain_name@.len() == 0,
        r.record_type == (match record.record_type {
            Some(t) => t,
            None => RecordType::A,
        }),
        r.name@ == (match record.name {
            Some(n) => n@,
            None => Seq::empty(),
        }),
        r.content@ == (match record.content {
            Some(c) => c@,
            None => Seq::empty(),
        }),
        r.ttl == (match record.ttl {
            Some(t) => t,
            None => 600,
        }),
        r.priority == record.priority,
        r.proxied is None,
        r.locked is None,
        r.created_on is None,
        r.updated_on == Some(now),
{
    DnsRecord {
        id: owned(record_id),
        provider: ProviderType::DnsPod,
        domain_id: String::new(),
        domain_name: String::new(),
        record_type: match record.record_type {
            Some(t) => t,
            None => RecordType::A,
        },
        name: match &record.name {
            Some(n) => n.clone(),
            None => String::new(),
        },
        content: match &record.content {
            Some(c) => c.clone(),
            None => String::new(),
        },
        ttl: match record.ttl {
            Some(t) => t,
            None => 600,
        },
        priority: record.priority,
        proxied: None,
        locked: None,
        created_on: None,
        updated_on: Some(now),
    }
}

/// The zone file of a domain from its records (`$TTL 600`, names as stored).
pub fn export_zone_text(domain_name: &str, records: &Vec<DnsRecord>) -> (zone: String)
    ensures
        zone@ == plain_zone_text(domain_name@, records@),
{
    plain_zone(domain_name, records)
}

// ---------------------------------------------------------------------------------------------
// Whole replies and paginated record listings
// ---------------------------------------------------------------------------------------------

/// The `Response` object of a DNSPod reply.
pub struct DnsPodReply {
    pub domain_list: Option<Vec<DnsPodDomain>>,
    pub record_list: Option<Vec<DnsPodRecord>>,
    pub record_id: Option<u64>,
    pub domain_info: Option<DnsPodDomain>,
    pub error: Option<DnsPodApiError>,
    pub request_id: Option<String>,
    /// `RecordCountInfo.TotalCount` of a record listing: the records the domain holds.
    pub record_total: Option<u64>,
}

/// What a reply comes to, checked in order: HTTP 401 or 403 is `Unauthorized`; a body that is
/// not a reply (`parsed` is its read error) is `Deserialization`; a reply carrying an error
/// object is that error (see `is_api_error`); any other reply is handed back.
pub fn dnspod_outcome(status: u16, parsed: Result<DnsPodReply, String>) -> (r: Result<
    DnsPodReply,
    ProviderError,
>)
    ensures
        (status == 401 || status == 403) ==> (r matches Err(ProviderError::Unauthorized(m)) && m@
            == "DNSPod HTTP "@ + decimal(status as nat)),
        !(status == 401 || status == 403) ==> match parsed {
            Err(detail) => r matches Err(ProviderError::Deserialization(m)) && m@
                == "DNSPod response parse error: "@ + detail@,
            Ok(reply) => match reply.error {
                Some(error) => r matches Err(e) && is_api_error(e, error, reply.request_id),
                None => r == Ok::<DnsPodReply, ProviderError>(reply),
            },
        },
{
    match status_error(status) {
        Some(e) => {
            return Err(e);
        },
        None => {},
    }
    match parsed {
        Err(detail) => Err(response_parse_error(detail.as_str())),
        Ok(reply) => {
            let DnsPodReply {
                domain_list,
                record_list,
                record_id,
                domain_info,
                error,
                request_id,
                record_total,
            } = reply;
            match error {
                Some(e) => Err(api_error(e, request_id)),
                None => Ok(
                    DnsPodReply {
                        domain_list,
                        record_list,
                        record_id,
                        domain_info,
                        error: None,
                        request_id,
                        record_total,
                    },
                ),
            }
        },
    }
}

/// The records asked for per page of a record listing (the API's largest `Limit`).
pub const RECORD_PAGE_LIMIT: u64 = 3000;

/// The body asking for one page of a domain's records: `DomainId`, `Offset`, `Limit`.
pub fn record_page_body(domain_id: &str, offset: u64, limit: u64) -> (b: Vec<JsonField>)
    ensures
        body_model(b@) == seq![
            ("DomainId"@, FieldModel::Number(id_number(domain_id@))),
            ("Offset"@, FieldModel::Number(offset as nat)),
            ("Limit"@, FieldModel::Number(limit as nat)),
        ],
{
    let mut b: Vec<JsonField> = Vec::new();
    b.push(number_field("DomainId", id_number_of(domain_id)));
    b.push(number_field("Offset", offset));
    b.push(number_field("Limit", limit));
    assert(body_model(b@) =~= seq![
        ("DomainId"@, FieldModel::Number(id_number(domain_id@))),
        ("Offset"@, FieldModel::Number(offset as nat)),
        ("Limit"@, FieldModel::Number(limit as nat)),
    ]);
    b
}

/// The offset of the next page of a listing, after a page of `page_len` records fetched at
/// `offset` out of `total`: none once the records run out or a page comes back empty.
pub open spec fn next_offset(offset: u64, page_len: nat, total: u64) -> Option<u64> {
    if page_len > 0 && offset + page_len < total {
        Some((offset + page_len) as u64)
    } else {
        None
    }
}

/// The offset of the next page to fetch (see `next_offset`).
pub fn next_record_offset(offset: u64, page_len: usize, total: u64) -> (r: Option<u64>)
    ensures
        r == next_offset(offset, page_len as nat, total),
{
    if page_len > 0 && offset < total && (page_len as u64) < total - offset {
        Some(offset + page_len as u64)
    } else {
        None
    }
}

/// The records of a paginated listing: the records of every page, in page order, each as
/// `records_from_list` maps it (with update times).
pub fn records_from_pages(domain_id: &str, pages: Vec<Option<Vec<DnsPodRecord>>>) -> (rs: Vec<
    DnsRecord,
>)
    ensures
        rs@.len() == flat_pages(pages@).len(),
        forall|i: int|
            0 <= i < rs@.len() ==> is_dnspod_record(
                #[trigger] rs@[i],
                domain_id@,
                flat_pages(pages@)[i],
                true,
            ),
{
    let all = flatten_pages(pages);
    records_from_list(domain_id, Some(all), true)
}

// ---------------------------------------------------------------------------------------------
// Laws
// ---------------------------------------------------------------------------------------------

/// Every field an update request sets is sent in the ModifyRecord body with its value, and no
/// field it leaves out is sent.
pub proof fn lemma_update_sends_set_fields(record: UpdateRecordRequest)
    ensures
        record.record_type matches Some(t) ==> update_optional_fields(record).contains(
            ("RecordType"@, FieldModel::Text(record_type_name(t))),
        ),
        record.name matches Some(n) ==> update_optional_fields(record).contains(
            ("SubDomain"@, FieldModel::Text(n@)),
        ),
        record.content matches Some(c) ==> update_optional_fields(record).contains(
            ("Value"@, FieldModel::Text(c@)),
        ),
        record.ttl matches Some(t) ==> update_optional_fields(record).contains(
            ("TTL"@, FieldModel::Number(t as nat)),
        ),
        record.priority matches Some(p) ==> update_optional_fields(record).contains(
            ("MX"@, FieldModel::Number(p as nat)),
        ),
        update_optional_fields(record).len() == (if record.record_type is Some { 1int } else { 0 })
            + (if record.name is Some { 1int } else { 0 }) + (if record.content is Some { 1int } else { 0 })
            + (if record.ttl is Some { 1int } else { 0 }) + (if record.priority is Some { 1int } else { 0 }),
{
    let f = update_optional_fields(record);
    let a = opt_text_field("RecordType"@, match record.record_type {
        Some(t) => Some(record_type_name(t)),
        None => None,
    });
    let b = opt_text_field("SubDomain"@, match record.name {
        Some(n) => Some(n@),
        None => None,
    });
    let c = opt_text_field("Value"@, match record.content {
        Some(x) => Some(x@),
        None => None,
    });
    let d = opt_number_field("TTL"@, match record.ttl {
        Some(t) => Some(t as nat),
        None => None,
    });
    let e = opt_number_field("MX"@, match record.priority {
        Some(p) => Some(p as nat),
        None => None,
    });
    assert(f == a + b + c + d + e);
    if record.record_type is Some {
        assert(f[0] == a[0]);
    }
    if record.name is Some {
        assert(f[a.len() as int] == b[0]);
    }
    if record.content is Some {
        assert(f[(a.len() + b.len()) as int] == c[0]);
    }
    if record.ttl is Some {
        assert(f[(a.len() + b.len() + c.len()) as int] == d[0]);
    }
    if record.priority is Some {
        assert(f[(a.len() + b.len() + c.len() + d.len()) as int] == e[0]);
    }
}

/// A record mapped from a DNSPod API record keeps its id (in decimal), type, name, value, TTL
/// and MX priority, and sits in the given domain.
pub proof fn lemma_dnspod_record_keeps_fields(
    r: DnsRecord,
    domain_id: Seq<char>,
    x: DnsPodRecord,
    timed: bool,
)
    requires
        is_dnspod_record(r, domain_id, x, timed),
    ensures
        r.id@ == decimal(x.record_id as nat),
        r.provider == ProviderType::DnsPod,
        r.domain_id@ == domain_id,
        r.record_type == spec_parse_record_type(x.record_type@),
        r.name == x.name,
        r.content == x.value,
        r.ttl == x.ttl,
        r.priority == x.mx,
        r.locked == Some(x.status@ == "ENABLE"@),
{
}

/// Following next offsets from 0 reads a listing to its end: after a non-empty page that
/// leaves records unread the next offset is just past it, and once the pages reach the total
/// (or a page is empty) the listing ends.
pub proof fn lemma_offsets_followed(offset: u64, page_len: nat, total: u64)
    ensures
        page_len > 0 && offset + page_len < total ==> next_offset(offset, page_len, total) == Some(
            (offset + page_len) as u64,
        ),
        offset + page_len >= total ==> next_offset(offset, page_len, total) is None,
        page_len == 0 ==> next_offset(offset, page_len, total) is None,
{
}

} // verus!
