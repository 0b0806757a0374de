use dns_manager::alidns::{
    create_record_params, create_refused, created_record, delete_record_params,
    domain_from_list, domain_not_found, domain_params, domains_from_list, error_body_error,
    error_parse_error, export_zone_text, record_from_api, record_not_found, records_from_list,
    response_parse_error, search_records_params, update_record_params, updated_record,
    AliDnsDomain, AliDnsErrorBody, AliDnsProvider, AliDnsRecord, QueryParams,
    next_record_page, record_page_params, records_from_pages, RECORD_PAGE_SIZE,
};
use dns_manager::clock::UtcTimestamp;
use dns_manager::error::ProviderError;
use dns_manager::models::{CreateRecordRequest, ProviderType, RecordType, UpdateRecordRequest};

fn api_record(id: &str, record_type: &str, status: &str) -> AliDnsRecord {
    AliDnsRecord {
        record_id: id.to_string(),
        record_type: record_type.to_string(),
        rr: "www".to_string(),
        value: "1.2.3.4".to_string(),
        ttl: 600,
        priority: Some(3),
        status: status.to_string(),
    }
}

#[test]
fn query_params_sorted_and_replaced() {
    let mut q = QueryParams::new();
    q.insert("b".to_string(), "2".to_string());
    q.insert("a".to_string(), "1".to_string());
    q.insert("c".to_string(), "x y".to_string());
    q.insert("b".to_string(), "3".to_string());
    assert_eq!(q.len(), 3);
    assert_eq!(q.to_query(), "a=1&b=3&c=x%20y");
    let mut other = QueryParams::new();
    other.insert("a".to_string(), "*/~".to_string());
    other.insert("Z".to_string(), "é".to_string());
    q.extend(other);
    assert_eq!(q.to_query(), "Z=%C3%A9&a=%2A%2F~&b=3&c=x%20y");
}

#[test]
fn alidns_signed_url_known_vector() {
    let p = AliDnsProvider::new("testid".to_string(), "testsecret".to_string());
    let mut extra = QueryParams::new();
    extra.insert("DomainName".to_string(), "example.com".to_string());
    let url = p
        .build_url_at(
            "DescribeDomainRecords",
            extra,
            "2016-02-23T12:46:24Z",
            "3ee8c1b8-83d3-44af-a94f-4e0ad82fd6cf",
        )
        .unwrap();
    assert_eq!(
        url,
        "https://alidns.aliyuncs.com/?AccessKeyId=testid&Action=DescribeDomainRecords&DomainName=example.com&Format=JSON&Signature=gJWgpyG3jEOKSdvVhn8%2BL0gQXZU%3D&SignatureMethod=HMAC-SHA1&SignatureNonce=3ee8c1b8-83d3-44af-a94f-4e0ad82fd6cf&SignatureVersion=1.0&Timestamp=2016-02-23T12%3A46%3A24Z&Version=2015-01-09"
    );
}

#[test]
fn alidns_signature_of_params() {
    let p = AliDnsProvider::new("testid".to_string(), "testsecret".to_string());
    let mut params =
        p.common_params_at("2016-02-23T12:46:24Z", "3ee8c1b8-83d3-44af-a94f-4e0ad82fd6cf");
    params.insert("Action".to_string(), "DescribeDomainRecords".to_string());
    params.insert("DomainName".to_string(), "example.com".to_string());
    assert_eq!(p.sign(&params).unwrap(), "gJWgpyG3jEOKSdvVhn8+L0gQXZU=");
}

#[test]
fn alidns_common_params_now() {
    let p = AliDnsProvider::new("testid".to_string(), "testsecret".to_string());
    let params = p.common_params();
    assert_eq!(params.len(), 7);
    let q = params.to_query();
    assert!(q.starts_with("AccessKeyId=testid&Format=JSON&SignatureMethod=HMAC-SHA1&SignatureNonce="));
    assert!(q.contains("&SignatureVersion=1.0&Timestamp="));
    assert!(q.ends_with("Z&Version=2015-01-09"));
    let url = p.build_url("DescribeDomains", QueryParams::new()).unwrap();
    assert!(url.starts_with("https://alidns.aliyuncs.com/?AccessKeyId=testid&Action=DescribeDomains&Format=JSON&Signature="));
}

#[test]
fn alidns_action_params() {
    assert_eq!(domain_params("d1").to_query(), "DomainId=d1");
    let create = CreateRecordRequest {
        record_type: RecordType::MX,
        name: "@".to_string(),
        content: "mx.example.com".to_string(),
        ttl: 600,
        priority: Some(10),
        proxied: None,
    };
    assert_eq!(
        create_record_params("d1", &create).to_query(),
        "DomainId=d1&Priority=10&RR=%40&TTL=600&Type=MX&Value=mx.example.com"
    );
    let update = UpdateRecordRequest {
        record_type: Some(RecordType::TXT),
        name: None,
        content: Some("v=spf1".to_string()),
        ttl: None,
        priority: None,
        proxied: Some(true),
    };
    assert_eq!(
        update_record_params("d1", "r1", &update).to_query(),
        "DomainId=d1&RecordId=r1&Type=TXT&Value=v%3Dspf1"
    );
    assert_eq!(delete_record_params("d1", "r1").to_query(), "DomainId=d1&RecordId=r1");
    assert_eq!(
        search_records_params("d1", "www").to_query(),
        "DomainId=d1&KeyWord=www&SearchMode=LIKE"
    );
}

#[test]
fn alidns_errors() {
    assert_eq!(
        error_body_error(AliDnsErrorBody {
            code: Some("InvalidAccessKeyId.NotFound".to_string()),
            message: None,
        }),
        ProviderError::AliDns {
            code: "InvalidAccessKeyId.NotFound".to_string(),
            message: String::new(),
        }
    );
    assert_eq!(
        error_parse_error("eof"),
        ProviderError::Deserialization("AliDNS error parse: eof".to_string())
    );
    assert_eq!(
        response_parse_error("eof"),
        ProviderError::Deserialization("AliDNS response parse: eof".to_string())
    );
    assert_eq!(domain_not_found(), ProviderError::NotFound("Domain not found".to_string()));
    assert_eq!(record_not_found(), ProviderError::NotFound("Record not found".to_string()));
    assert_eq!(create_refused(), ProviderError::BadRequest("Failed to create record".to_string()));
}

#[test]
fn alidns_domains() {
    let list = vec![
        AliDnsDomain {
            domain_id: "d1".to_string(),
            domain_name: "example.com".to_string(),
            record_count: Some(12),
            create_time: Some("2024-01-15T10:30:00Z".to_string()),
            dns_servers: Some(vec!["dns1.hichina.com".to_string()]),
        },
        AliDnsDomain {
            domain_id: "d2".to_string(),
            domain_name: "example.org".to_string(),
            record_count: None,
            create_time: Some("2024-01-15 10:30".to_string()),
            dns_servers: None,
        },
    ];
    let ds = domains_from_list(Some(list));
    assert_eq!(ds.len(), 2);
    assert_eq!(ds[0].status, "active");
    assert_eq!(ds[0].provider, ProviderType::AliDns);
    assert_eq!(ds[0].record_count, 12);
    assert_eq!(ds[0].created_on, Some(UtcTimestamp { secs: 1705314600, nanos: 0 }));
    assert_eq!(ds[0].name_servers, vec!["dns1.hichina.com".to_string()]);
    assert_eq!(ds[1].record_count, 0);
    assert_eq!(ds[1].created_on, None);
    assert!(ds[1].name_servers.is_empty());
    assert_eq!(domain_from_list(None), Err(ProviderError::NotFound("Domain not found".to_string())));
    assert_eq!(
        domain_from_list(Some(vec![])),
        Err(ProviderError::NotFound("Domain not found".to_string()))
    );
    let first = domain_from_list(Some(vec![AliDnsDomain {
        domain_id: "d9".to_string(),
        domain_name: "first.com".to_string(),
        record_count: None,
        create_time: None,
        dns_servers: None,
    }]))
    .unwrap();
    assert_eq!(first.id, "d9");
}

#[test]
fn alidns_records() {
    let r = record_from_api("d1", api_record("r1", "mx", "ENABLE"));
    assert_eq!(r.id, "r1");
    assert_eq!(r.domain_id, "d1");
    assert_eq!(r.domain_name, "");
    assert_eq!(r.record_type, RecordType::MX);
    assert_eq!(r.priority, Some(3));
    assert_eq!(r.locked, Some(true));
    assert_eq!(record_from_api("d1", api_record("r2", "A", "DISABLE")).locked, Some(false));
    let rs = records_from_list("d1", Some(vec![api_record("r1", "A", "ENABLE"), api_record("r2", "srv", "ENABLE")]));
    assert_eq!(rs.len(), 2);
    assert_eq!(rs[1].record_type, RecordType::SRV);
    assert!(records_from_list("d1", None).is_empty());
}

#[test]
fn alidns_created_and_updated_records() {
    let now = UtcTimestamp { secs: 1700000000, nanos: 0 };
    let create = CreateRecordRequest {
        record_type: RecordType::CNAME,
        name: "www".to_string(),
        content: "target.example.com".to_string(),
        ttl: 600,
        priority: None,
        proxied: None,
    };
    let c = created_record("d1", &create, "new-1".to_string(), now);
    assert_eq!(c.id, "new-1");
    assert_eq!(c.domain_id, "d1");
    assert_eq!(c.record_type, RecordType::CNAME);
    assert_eq!(c.created_on, Some(now));
    let update = UpdateRecordRequest {
        record_type: None,
        name: Some("api".to_string()),
        content: None,
        ttl: Some(60),
        priority: None,
        proxied: None,
    };
    let u = updated_record("d1", "r1", &update, now);
    assert_eq!(u.id, "r1");
    assert_eq!(u.domain_id, "d1");
    assert_eq!(u.record_type, RecordType::A);
    assert_eq!(u.name, "api");
    assert_eq!(u.content, "");
    assert_eq!(u.ttl, 60);
    assert_eq!(u.created_on, None);
    assert_eq!(u.updated_on, Some(now));
}

#[test]
fn alidns_zone_export_and_types() {
    let rs = records_from_list("d1", Some(vec![api_record("r1", "A", "ENABLE")]));
    assert_eq!(
        export_zone_text("example.com", &rs),
        format!("$ORIGIN example.com.\n$TTL 600\n\n{:<30} IN {:<10} {:<50}\n", "www", "A", "1.2.3.4")
    );
    assert_eq!(AliDnsProvider::parse_record_type("caa"), RecordType::CAA);
    assert_eq!(AliDnsProvider::parse_record_type("HTTPS"), RecordType::A);
}

#[test]
fn alidns_record_pages() {
    assert_eq!(
        record_page_params("d1", 2, RECORD_PAGE_SIZE).to_query(),
        "DomainId=d1&PageNumber=2&PageSize=500"
    );
    assert_eq!(next_record_page(1, 500, 500, 1200), Some(2));
    assert_eq!(next_record_page(2, 500, 500, 1200), Some(3));
    assert_eq!(next_record_page(3, 500, 200, 1200), None);
    assert_eq!(next_record_page(1, 500, 0, 1200), None);
    assert_eq!(next_record_page(1, 500, 30, 30), None);
    let rs = records_from_pages(
        "d1",
        vec![Some(vec![api_record("r1", "A", "ENABLE")]), Some(vec![api_record("r2", "CNAME", "ENABLE")])],
    );
    assert_eq!(rs.len(), 2);
    assert_eq!(rs[1].id, "r2");
    assert_eq!(rs[1].record_type, RecordType::CNAME);
}

#[test]
fn alidns_signature_length() {
    let p = AliDnsProvider::new("k".to_string(), "s".to_string());
    let params = p.common_params_at("2024-01-01T00:00:00Z", "n");
    assert_eq!(p.sign(&params).unwrap().len(), 28);
}
