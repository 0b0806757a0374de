use dns_manager::clock::UtcTimestamp;
use dns_manager::dnspod::{
    api_error, create_record_body, created_record, delete_record_body, domain_body,
    domain_from_api, domain_from_info, domains_from_list, export_zone_text, id_number_of,
    list_domains_body, record_from_api, records_from_list, response_parse_error,
    search_records_body, status_error, tc3_authorization_at, update_record_body, updated_record,
    DnsPodApiError, DnsPodDomain, DnsPodProvider, DnsPodRecord, JsonField, JsonValue,
    dnspod_outcome, next_record_offset, record_page_body, records_from_pages, DnsPodReply,
    RECORD_PAGE_LIMIT,
};
use dns_manager::error::ProviderError;
use dns_manager::models::{
    CreateRecordRequest, DnsRecord, ProviderType, RecordType, UpdateRecordRequest,
};

fn text(key: &str, value: &str) -> JsonField {
    JsonField { key: key.to_string(), value: JsonValue::Text(value.to_string()) }
}

fn number(key: &str, value: u64) -> JsonField {
    JsonField { key: key.to_string(), value: JsonValue::Number(value) }
}

fn api_record(id: u64, record_type: &str, status: &str) -> DnsPodRecord {
    DnsPodRecord {
        record_id: id,
        record_type: record_type.to_string(),
        name: "www".to_string(),
        value: "1.2.3.4".to_string(),
        ttl: 600,
        mx: None,
        status: status.to_string(),
        updated_on: Some("2024-01-15 10:30:00".to_string()),
    }
}

#[test]
fn tc3_signature_known_vector() {
    let auth = tc3_authorization_at(
        "AKIDz8krbsJ5yKBZQpn74WFkmLPx3EXAMPLE",
        "Gu5t9xGARNpq86cd98joQYCN3EXAMPLE",
        "DescribeDomainList",
        "{}",
        1551113065,
        "2019-02-25",
    );
    assert_eq!(
        auth,
        "TC3-HMAC-SHA256 Credential=AKIDz8krbsJ5yKBZQpn74WFkmLPx3EXAMPLE/2019-02-25/dnspod/tc3_request, SignedHeaders=content-type;host;x-tc-action, Signature=4c4bfa15a4a0abcc30c172cb3d5bcca8818ede37205792ef245abf435cd05980"
    );
}

#[test]
fn dnspod_sign_now_has_timestamp_header() {
    let p = DnsPodProvider::new("id".to_string(), "key".to_string());
    let (auth, ts) = p.sign("DescribeDomainList", "{}").unwrap();
    assert!(auth.starts_with("TC3-HMAC-SHA256 Credential=id/"));
    assert!(auth.contains("/dnspod/tc3_request, SignedHeaders=content-type;host;x-tc-action, Signature="));
    let secs: i64 = ts.parse().unwrap();
    assert!(secs > 1_600_000_000);
}

#[test]
fn dnspod_prepared_request() {
    let p = DnsPodProvider::new("id".to_string(), "key".to_string());
    let req = p.prepare_request("DescribeDomain", &domain_body("123")).unwrap();
    assert_eq!(req.body, "{\"DomainId\":123}");
    let names: Vec<&str> = req.headers.iter().map(|(k, _)| k.as_str()).collect();
    assert_eq!(
        names,
        vec!["Authorization", "Content-Type", "Host", "X-TC-Action", "X-TC-Timestamp", "X-TC-Version"]
    );
    assert_eq!(req.headers[1].1, "application/json");
    assert_eq!(req.headers[2].1, "dnspod.tencentcloudapi.com");
    assert_eq!(req.headers[3].1, "DescribeDomain");
    assert_eq!(req.headers[5].1, "2021-03-23");
    let empty = p.prepare_request("DescribeDomainList", &list_domains_body()).unwrap();
    assert_eq!(empty.body, "{}");
}

#[test]
fn dnspod_id_numbers() {
    assert_eq!(id_number_of("12345"), 12345);
    assert_eq!(id_number_of("+7"), 7);
    assert_eq!(id_number_of("abc"), 0);
    assert_eq!(id_number_of(""), 0);
    assert_eq!(id_number_of("18446744073709551616"), 0);
}

#[test]
fn dnspod_request_bodies() {
    assert!(list_domains_body().is_empty());
    assert_eq!(domain_body("42"), vec![number("DomainId", 42)]);
    let create = CreateRecordRequest {
        record_type: RecordType::MX,
        name: "mail".to_string(),
        content: "mx.example.com".to_string(),
        ttl: 600,
        priority: None,
        proxied: None,
    };
    assert_eq!(
        create_record_body("42", &create),
        vec![
            number("DomainId", 42),
            text("RecordType", "MX"),
            text("RecordLine", "默认"),
            text("Value", "mx.example.com"),
            text("SubDomain", "mail"),
            number("TTL", 600),
            number("MX", 0),
        ]
    );
    let update = UpdateRecordRequest {
        record_type: None,
        name: Some("www".to_string()),
        content: None,
        ttl: Some(300),
        priority: Some(5),
        proxied: None,
    };
    assert_eq!(
        update_record_body("42", "7", &update),
        vec![
            number("RecordId", 7),
            number("DomainId", 42),
            text("SubDomain", "www"),
            number("TTL", 300),
            number("MX", 5),
        ]
    );
    assert_eq!(delete_record_body("42", "7"), vec![number("RecordId", 7), number("DomainId", 42)]);
    assert_eq!(
        search_records_body("42", "www"),
        vec![text("Keyword", "www"), number("DomainId", 42)]
    );
}

#[test]
fn dnspod_status_and_parse_errors() {
    assert_eq!(status_error(401), Some(ProviderError::Unauthorized("DNSPod HTTP 401".to_string())));
    assert_eq!(status_error(403), Some(ProviderError::Unauthorized("DNSPod HTTP 403".to_string())));
    assert_eq!(status_error(200), None);
    assert_eq!(status_error(500), None);
    assert_eq!(
        response_parse_error("eof"),
        ProviderError::Deserialization("DNSPod response parse error: eof".to_string())
    );
}

#[test]
fn dnspod_api_error_classification() {
    let err = |code: &str| DnsPodApiError { code: code.to_string(), message: "msg".to_string() };
    assert_eq!(
        api_error(err("AuthFailure.SignatureFailure"), None),
        ProviderError::Unauthorized("msg".to_string())
    );
    assert_eq!(
        api_error(err("AuthFailure.SecretIdNotFound"), None),
        ProviderError::Unauthorized("msg".to_string())
    );
    assert_eq!(
        api_error(err("AuthFailure.TokenFailure"), None),
        ProviderError::Unauthorized("msg".to_string())
    );
    assert_eq!(api_error(err("ResourceNotFound"), None), ProviderError::NotFound("msg".to_string()));
    assert_eq!(api_error(err("LimitExceeded"), None), ProviderError::RateLimited { retry_after: None });
    assert_eq!(
        api_error(err("InternalError"), Some("req-9".to_string())),
        ProviderError::DnsPod { message: "msg".to_string(), request_id: "req-9".to_string() }
    );
    assert_eq!(
        api_error(err("InternalError"), None),
        ProviderError::DnsPod { message: "msg".to_string(), request_id: String::new() }
    );
}

#[test]
fn dnspod_domains() {
    let x = DnsPodDomain {
        domain_id: 99,
        name: "example.com".to_string(),
        status: "ENABLE".to_string(),
        record_count: None,
        created_on: Some("2024-01-15 10:30:00".to_string()),
        dns_status: None,
    };
    let d = domain_from_api(x);
    assert_eq!(d.id, "99");
    assert_eq!(d.provider, ProviderType::DnsPod);
    assert_eq!(d.status, "ENABLE");
    assert_eq!(d.record_count, 0);
    assert_eq!(d.created_on, Some(UtcTimestamp { secs: 1705314600, nanos: 0 }));
    assert!(d.name_servers.is_empty());
    assert_eq!(
        domain_from_info(None),
        Err(ProviderError::NotFound("Domain not found".to_string()))
    );
    assert!(domains_from_list(None).is_empty());
    let two = domains_from_list(Some(vec![
        DnsPodDomain {
            domain_id: 1,
            name: "a.com".to_string(),
            status: "ENABLE".to_string(),
            record_count: Some(4),
            created_on: Some("yesterday".to_string()),
            dns_status: None,
        },
        DnsPodDomain {
            domain_id: 2,
            name: "b.com".to_string(),
            status: "PAUSE".to_string(),
            record_count: None,
            created_on: None,
            dns_status: None,
        },
    ]));
    assert_eq!(two.len(), 2);
    assert_eq!(two[0].record_count, 4);
    assert_eq!(two[0].created_on, None);
    assert_eq!(two[1].id, "2");
}

#[test]
fn dnspod_records() {
    let r = record_from_api("42", api_record(7, "cname", "ENABLE"), true);
    assert_eq!(r.id, "7");
    assert_eq!(r.domain_id, "42");
    assert_eq!(r.record_type, RecordType::CNAME);
    assert_eq!(r.locked, Some(true));
    assert_eq!(r.updated_on, Some(UtcTimestamp { secs: 1705314600, nanos: 0 }));
    let s = record_from_api("", api_record(8, "TXT", "DISABLE"), false);
    assert_eq!(s.locked, Some(false));
    assert_eq!(s.updated_on, None);
    let list = records_from_list("42", Some(vec![api_record(1, "A", "ENABLE"), api_record(2, "NS", "ENABLE")]), true);
    assert_eq!(list.len(), 2);
    assert_eq!(list[1].record_type, RecordType::NS);
    assert!(records_from_list("42", None, true).is_empty());
}

#[test]
fn dnspod_created_and_updated_records() {
    let now = UtcTimestamp { secs: 1700000000, nanos: 5 };
    let create = CreateRecordRequest {
        record_type: RecordType::A,
        name: "www".to_string(),
        content: "1.2.3.4".to_string(),
        ttl: 600,
        priority: None,
        proxied: None,
    };
    let c = created_record("42", &create, Some(123), now);
    assert_eq!(c.id, "123");
    assert_eq!(c.created_on, Some(now));
    assert_eq!(c.updated_on, Some(now));
    assert_eq!(created_record("42", &create, None, now).id, "0");
    let update = UpdateRecordRequest {
        record_type: None,
        name: None,
        content: None,
        ttl: None,
        priority: None,
        proxied: None,
    };
    let u = updated_record("7", &update, now);
    assert_eq!(u.id, "7");
    assert_eq!(u.domain_id, "");
    assert_eq!(u.record_type, RecordType::A);
    assert_eq!(u.name, "");
    assert_eq!(u.ttl, 600);
    assert_eq!(u.updated_on, Some(now));
}

#[test]
fn dnspod_zone_export() {
    let records = vec![DnsRecord {
        id: "1".to_string(),
        provider: ProviderType::DnsPod,
        domain_id: "42".to_string(),
        domain_name: String::new(),
        record_type: RecordType::A,
        name: "www".to_string(),
        content: "1.2.3.4".to_string(),
        ttl: 600,
        priority: None,
        proxied: None,
        locked: None,
        created_on: None,
        updated_on: None,
    }];
    let zone = export_zone_text("example.com", &records);
    assert_eq!(
        zone,
        format!("$ORIGIN example.com.\n$TTL 600\n\n{:<30} IN {:<10} {:<50}\n", "www", "A", "1.2.3.4")
    );
    assert_eq!(DnsPodProvider::parse_record_type("aaaa"), RecordType::AAAA);
}

fn reply(error: Option<DnsPodApiError>, records: Option<Vec<DnsPodRecord>>) -> DnsPodReply {
    DnsPodReply {
        domain_list: None,
        record_list: records,
        record_id: None,
        domain_info: None,
        error,
        request_id: Some("rq".to_string()),
        record_total: Some(2),
    }
}

#[test]
fn dnspod_reply_outcomes() {
    match dnspod_outcome(403, Ok(reply(None, None))) {
        Err(e) => assert_eq!(e, ProviderError::Unauthorized("DNSPod HTTP 403".to_string())),
        Ok(_) => panic!("403 is refused"),
    }
    match dnspod_outcome(200, Err("expected value".to_string())) {
        Err(e) => assert_eq!(
            e,
            ProviderError::Deserialization("DNSPod response parse error: expected value".to_string())
        ),
        Ok(_) => panic!("an unreadable body is an error"),
    }
    let err = DnsPodApiError { code: "ResourceNotFound".to_string(), message: "gone".to_string() };
    match dnspod_outcome(200, Ok(reply(Some(err), None))) {
        Err(e) => assert_eq!(e, ProviderError::NotFound("gone".to_string())),
        Ok(_) => panic!("a reply carrying an error is never Ok"),
    }
    match dnspod_outcome(200, Ok(reply(None, Some(vec![api_record(1, "A", "ENABLE")])))) {
        Ok(r) => {
            assert_eq!(r.record_total, Some(2));
            assert_eq!(r.request_id, Some("rq".to_string()));
            assert_eq!(r.record_list.map(|v| v.len()), Some(1));
        }
        Err(_) => panic!("a clean reply passes"),
    }
}

#[test]
fn dnspod_record_pages() {
    assert_eq!(
        record_page_body("42", 3000, RECORD_PAGE_LIMIT),
        vec![number("DomainId", 42), number("Offset", 3000), number("Limit", 3000)]
    );
    assert_eq!(next_record_offset(0, 3000, 4500), Some(3000));
    assert_eq!(next_record_offset(3000, 1500, 4500), None);
    assert_eq!(next_record_offset(0, 0, 4500), None);
    assert_eq!(next_record_offset(0, 10, 10), None);
    assert_eq!(next_record_offset(u64::MAX - 1, 5, u64::MAX), None);
    let rs = records_from_pages(
        "42",
        vec![Some(vec![api_record(1, "A", "ENABLE"), api_record(2, "MX", "ENABLE")]), None, Some(vec![api_record(3, "TXT", "DISABLE")])],
    );
    let ids: Vec<&str> = rs.iter().map(|r| r.id.as_str()).collect();
    assert_eq!(ids, vec!["1", "2", "3"]);
    assert_eq!(rs[2].domain_id, "42");
}

#[test]
fn dnspod_signature_is_hex() {
    let auth = tc3_authorization_at("id", "key", "DescribeDomainList", "{}", 1700000000, "2023-11-14");
    let sig = auth.rsplit("Signature=").next().unwrap();
    assert_eq!(sig.len(), 64);
    assert!(sig.chars().all(|c| c.is_ascii_digit() || ('a'..='f').contains(&c)));
}
