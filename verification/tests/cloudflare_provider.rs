use dns_manager::clock::UtcTimestamp;
use dns_manager::cloudflare::{
    check_envelope, create_record_body, created_record, envelope_parse_error, export_zone_text,
    filter_records, next_zone_page, parse_record_type, rate_limited_error, relative_owner_name, response_step,
    unauthorized_error, update_record_body, updated_record, CfDnsRecord, CfDomain, CfEnvelope,
    CfError, CloudflareProvider, ResponseStep,
};
use dns_manager::error::ProviderError;
use dns_manager::models::{
    CreateRecordRequest, DnsRecord, ProviderType, RecordType, UpdateRecordRequest,
};

fn record(name: &str, record_type: RecordType, content: &str, priority: Option<u32>) -> DnsRecord {
    DnsRecord {
        id: format!("id-{}", name),
        provider: ProviderType::Cloudflare,
        domain_id: "zone-1".to_string(),
        domain_name: "example.com".to_string(),
        record_type,
        name: name.to_string(),
        content: content.to_string(),
        ttl: 300,
        priority,
        proxied: None,
        locked: None,
        created_on: None,
        updated_on: None,
    }
}

fn cf_record(id: &str, record_type: &str) -> CfDnsRecord {
    CfDnsRecord {
        id: id.to_string(),
        record_type: record_type.to_string(),
        name: "www.example.com".to_string(),
        content: "1.2.3.4".to_string(),
        ttl: 1,
        priority: None,
        proxied: Some(true),
        locked: Some(false),
        created_on: Some("2024-01-15T10:30:00Z".to_string()),
        modified_on: Some("not a time".to_string()),
    }
}

fn envelope<T>(result: Option<T>, success: bool, errors: Vec<CfError>) -> CfEnvelope<T> {
    CfEnvelope { result, success, errors, messages: vec![], total_pages: None }
}

#[test]
fn parse_record_type_is_case_insensitive() {
    assert_eq!(parse_record_type("cname"), RecordType::CNAME);
    assert_eq!(parse_record_type("Aaaa"), RecordType::AAAA);
    assert_eq!(parse_record_type("TXT"), RecordType::TXT);
    assert_eq!(parse_record_type("srv"), RecordType::SRV);
    assert_eq!(parse_record_type("caa"), RecordType::CAA);
    assert_eq!(parse_record_type("ptr"), RecordType::PTR);
    assert_eq!(parse_record_type("soa"), RecordType::SOA);
    assert_eq!(parse_record_type("ns"), RecordType::NS);
    assert_eq!(parse_record_type("mx"), RecordType::MX);
}

#[test]
fn parse_record_type_falls_back_to_a() {
    assert_eq!(parse_record_type("CERT"), RecordType::A);
    assert_eq!(parse_record_type("weird"), RecordType::A);
    assert_eq!(parse_record_type(""), RecordType::A);
}

#[test]
fn cloudflare_urls_and_authorization() {
    let p = CloudflareProvider::new("tok".to_string());
    assert_eq!(p.base_url(), "https://api.cloudflare.com/client/v4");
    assert_eq!(p.authorization(), "Bearer tok");
    assert_eq!(p.zones_url(), "https://api.cloudflare.com/client/v4/zones");
    assert_eq!(p.zone_url("z1"), "https://api.cloudflare.com/client/v4/zones/z1");
    assert_eq!(
        p.records_page_url("z1", 2),
        "https://api.cloudflare.com/client/v4/zones/z1/dns_records?page=2&per_page=500"
    );
    assert_eq!(p.records_url("z1"), "https://api.cloudflare.com/client/v4/zones/z1/dns_records");
    assert_eq!(
        p.record_url("z1", "r1"),
        "https://api.cloudflare.com/client/v4/zones/z1/dns_records/r1"
    );
}

#[test]
fn cloudflare_domain_from_zone_object() {
    let p = CloudflareProvider::new("tok".to_string());
    let d = p.parse_cf_domain(CfDomain {
        id: "z1".to_string(),
        name: "example.com".to_string(),
        status: "active".to_string(),
        created_on: Some("2024-01-15T10:30:00.5+08:00".to_string()),
        name_servers: None,
    });
    assert_eq!(d.id, "z1");
    assert_eq!(d.provider, ProviderType::Cloudflare);
    assert_eq!(d.record_count, 0);
    assert_eq!(d.created_on, Some(UtcTimestamp { secs: 1705285800, nanos: 500_000_000 }));
    assert!(d.name_servers.is_empty());
}

#[test]
fn cloudflare_record_from_record_object() {
    let p = CloudflareProvider::new("tok".to_string());
    let r = p.parse_cf_record("z1", "example.com", cf_record("r1", "aaaa"));
    assert_eq!(r.id, "r1");
    assert_eq!(r.domain_id, "z1");
    assert_eq!(r.domain_name, "example.com");
    assert_eq!(r.record_type, RecordType::AAAA);
    assert_eq!(r.proxied, Some(true));
    assert_eq!(r.locked, Some(false));
    assert_eq!(r.created_on, Some(UtcTimestamp { secs: 1705314600, nanos: 0 }));
    assert_eq!(r.updated_on, None);
}

#[test]
fn cloudflare_lists_keep_order() {
    let p = CloudflareProvider::new("tok".to_string());
    let zones = vec![
        CfDomain {
            id: "a".to_string(),
            name: "a.com".to_string(),
            status: "active".to_string(),
            created_on: None,
            name_servers: Some(vec!["ns1".to_string()]),
        },
        CfDomain {
            id: "b".to_string(),
            name: "b.com".to_string(),
            status: "pending".to_string(),
            created_on: None,
            name_servers: None,
        },
    ];
    let ds = p.domains_from_envelope(envelope(Some(zones), true, vec![]));
    assert_eq!(ds.len(), 2);
    assert_eq!(ds[0].id, "a");
    assert_eq!(ds[0].name_servers, vec!["ns1".to_string()]);
    assert_eq!(ds[1].status, "pending");
    let rs = p.records_from_envelope(
        "z1",
        "example.com",
        envelope(Some(vec![cf_record("r1", "A"), cf_record("r2", "mx")]), true, vec![]),
    );
    assert_eq!(rs.len(), 2);
    assert_eq!(rs[0].id, "r1");
    assert_eq!(rs[1].record_type, RecordType::MX);
    assert!(p.domains_from_envelope(envelope(None, true, vec![])).is_empty());
}

#[test]
fn cloudflare_single_domain_missing() {
    let p = CloudflareProvider::new("tok".to_string());
    assert_eq!(
        p.domain_from_envelope(envelope(None, true, vec![])),
        Err(ProviderError::NotFound("Domain not found".to_string()))
    );
}

#[test]
fn cloudflare_request_bodies() {
    let create = CreateRecordRequest {
        record_type: RecordType::TXT,
        name: "x".to_string(),
        content: "hello".to_string(),
        ttl: 120,
        priority: None,
        proxied: Some(false),
    };
    let b = create_record_body(&create);
    assert_eq!(b.record_type, "TXT");
    assert_eq!(b.ttl, 120);
    let update = UpdateRecordRequest {
        record_type: Some(RecordType::CNAME),
        name: None,
        content: Some("target".to_string()),
        ttl: None,
        priority: Some(5),
        proxied: None,
    };
    let patch = update_record_body(&update);
    assert_eq!(patch.record_type, Some("CNAME".to_string()));
    assert_eq!(patch.name, None);
    assert_eq!(patch.content, Some("target".to_string()));
    assert_eq!(patch.priority, Some(5));
}

#[test]
fn cloudflare_response_steps() {
    assert_eq!(response_step(401), ResponseStep::Unauthorized);
    assert_eq!(response_step(403), ResponseStep::Unauthorized);
    assert_eq!(response_step(429), ResponseStep::RateLimited);
    assert_eq!(response_step(200), ResponseStep::ReadEnvelope);
    assert_eq!(response_step(404), ResponseStep::ReadEnvelope);
    assert_eq!(
        unauthorized_error("bad token".to_string()),
        ProviderError::Unauthorized("bad token".to_string())
    );
    assert_eq!(rate_limited_error(Some("30")), ProviderError::RateLimited { retry_after: Some(30) });
    assert_eq!(rate_limited_error(Some("soon")), ProviderError::RateLimited { retry_after: None });
    assert_eq!(rate_limited_error(None), ProviderError::RateLimited { retry_after: None });
    assert_eq!(
        envelope_parse_error("eof"),
        ProviderError::Deserialization("Cloudflare response parse error: eof".to_string())
    );
}

#[test]
fn cloudflare_envelope_checks() {
    let ok: CfEnvelope<u32> = envelope(Some(7), true, vec![]);
    assert_eq!(check_envelope(200, ok).unwrap().result, Some(7));
    let not_found: CfEnvelope<u32> = envelope(
        None,
        false,
        vec![CfError { code: 1001, message: "no zone".to_string() }],
    );
    assert_eq!(
        check_envelope(404, not_found).err(),
        Some(ProviderError::NotFound("no zone".to_string()))
    );
    let failed: CfEnvelope<u32> = envelope(
        None,
        false,
        vec![CfError { code: 70000, message: "big".to_string() }],
    );
    assert_eq!(
        check_envelope(400, failed).err(),
        Some(ProviderError::Cloudflare { code: 4464, message: "big".to_string() })
    );
    let bare: CfEnvelope<u32> = envelope(None, false, vec![]);
    assert_eq!(
        check_envelope(500, bare).err(),
        Some(ProviderError::Cloudflare {
            code: 500,
            message: "Unknown Cloudflare error".to_string(),
        })
    );
}

#[test]
fn cloudflare_created_and_updated_records() {
    assert_eq!(
        created_record(envelope(None, true, vec![])).err(),
        Some(ProviderError::BadRequest("Failed to create record".to_string()))
    );
    assert_eq!(
        updated_record(envelope(None, true, vec![])).err(),
        Some(ProviderError::NotFound("Record not found".to_string()))
    );
    assert_eq!(created_record(envelope(Some(cf_record("r9", "A")), true, vec![])).unwrap().id, "r9");
}

#[test]
fn cloudflare_keyword_filter() {
    let records = vec![
        record("WWW.example.com", RecordType::A, "1.2.3.4", None),
        record("mail.example.com", RecordType::MX, "Mx.Example.net", Some(10)),
        record("txt.example.com", RecordType::TXT, "v=spf1", None),
    ];
    let found = filter_records(records, "EXAMPLE.NET");
    assert_eq!(found.len(), 1);
    assert_eq!(found[0].name, "mail.example.com");
    let records = vec![
        record("a.example.com", RecordType::A, "1.1.1.1", None),
        record("b.example.com", RecordType::TXT, "x", None),
    ];
    let by_type = filter_records(records, "tx");
    assert_eq!(by_type.len(), 1);
    assert_eq!(by_type[0].name, "b.example.com");
}

#[test]
fn cloudflare_owner_names() {
    assert_eq!(relative_owner_name("example.com", "example.com"), "@");
    assert_eq!(relative_owner_name("@", "example.com"), "@");
    assert_eq!(relative_owner_name("", "example.com"), "@");
    assert_eq!(relative_owner_name("www.example.com", "example.com"), "www");
    assert_eq!(relative_owner_name("www.other.org", "example.com"), "www.other.org");
}

#[test]
fn cloudflare_zone_export() {
    let records = vec![
        record("www.example.com", RecordType::A, "1.2.3.4", None),
        record("example.com", RecordType::MX, "mx.example.com", Some(10)),
    ];
    let zone = export_zone_text(&records);
    let expected = format!(
        "$ORIGIN example.com.\n$TTL 3600\n\n{:<30} IN {:<10} {:<50}\n{:<30} IN {:<10} {:<50} ; priority=10\n",
        "www", "A", "1.2.3.4", "@", "MX", "mx.example.com"
    );
    assert_eq!(zone, expected);
    assert_eq!(export_zone_text(&vec![]), "$ORIGIN unknown.\n$TTL 3600\n\n");
}

#[test]
fn cloudflare_zone_pages() {
    let p = CloudflareProvider::new("tok".to_string());
    assert_eq!(
        p.zones_page_url(3),
        "https://api.cloudflare.com/client/v4/zones?page=3&per_page=50"
    );
    assert_eq!(next_zone_page(1, Some(3)), Some(2));
    assert_eq!(next_zone_page(3, Some(3)), None);
    assert_eq!(next_zone_page(1, None), None);
    let zone = |id: &str| CfDomain {
        id: id.to_string(),
        name: format!("{}.com", id),
        status: "active".to_string(),
        created_on: None,
        name_servers: None,
    };
    let ds = p.domains_from_pages(vec![Some(vec![zone("a"), zone("b")]), None, Some(vec![zone("c")])]);
    let ids: Vec<&str> = ds.iter().map(|d| d.id.as_str()).collect();
    assert_eq!(ids, vec!["a", "b", "c"]);
}

#[test]
fn cloudflare_records_need_the_domain() {
    let p = CloudflareProvider::new("tok".to_string());
    let domain = p.parse_cf_domain(CfDomain {
        id: "z1".to_string(),
        name: "example.com".to_string(),
        status: "active".to_string(),
        created_on: None,
        name_servers: None,
    });
    let rs = p
        .records_with_domain(
            "z1",
            vec![Some(vec![cf_record("r1", "A")]), None, Some(vec![cf_record("r2", "mx")])],
            Ok(domain),
        )
        .unwrap();
    assert_eq!(rs.len(), 2);
    assert_eq!(rs[0].domain_name, "example.com");
    assert_eq!(rs[1].id, "r2");
    assert_eq!(rs[1].record_type, RecordType::MX);
    assert_eq!(
        p.records_with_domain(
            "z1",
            vec![Some(vec![cf_record("r1", "A")])],
            Err(ProviderError::NotFound("Domain not found".to_string())),
        ),
        Err(ProviderError::NotFound("Domain not found".to_string()))
    );
}
