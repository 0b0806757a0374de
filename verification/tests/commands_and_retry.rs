use dns_manager::clock::UtcTimestamp;
use dns_manager::commands::{
    credential_for_provider, credential_from_input, merge_listings, provider_selected, remove_credential,
    require_credential, search_domains, search_hits, sort_domains, summarize_domains,
    SearchDomains,
};
use dns_manager::error::{AppError, ProviderError};
use dns_manager::models::{
    CredentialInput, CredentialSecretData, DnsRecord, Domain, ProviderCredential, ProviderType,
    RecordType,
};
use dns_manager::paging::{flatten_pages, keep_ok, merge_ok};
use dns_manager::providers::{create_provider, AnyProvider};
use dns_manager::retry::{after_failure, backoff_for, jittered_delay, RetryDecision};

const NOW: UtcTimestamp = UtcTimestamp { secs: 1700000000, nanos: 42 };

fn input(provider_type: ProviderType) -> CredentialInput {
    CredentialInput {
        provider_type,
        label: "main".to_string(),
        secret_id: None,
        secret_key: None,
        api_token: None,
        access_key_id: None,
        access_key_secret: None,
    }
}

fn credential(id: u128, provider_type: ProviderType) -> ProviderCredential {
    ProviderCredential {
        id,
        provider_type,
        label: format!("cred-{}", id),
        created_at: NOW,
        updated_at: NOW,
    }
}

fn domain(provider: ProviderType, name: &str, id: &str) -> Domain {
    Domain {
        id: id.to_string(),
        provider,
        name: name.to_string(),
        status: "active".to_string(),
        record_count: 0,
        created_on: None,
        name_servers: vec![],
    }
}

fn record(id: &str, record_type: RecordType) -> DnsRecord {
    DnsRecord {
        id: id.to_string(),
        provider: ProviderType::DnsPod,
        domain_id: "1".to_string(),
        domain_name: String::new(),
        record_type,
        name: "www".to_string(),
        content: "x".to_string(),
        ttl: 600,
        priority: None,
        proxied: None,
        locked: None,
        created_on: None,
        updated_on: None,
    }
}

fn validation(r: Result<(CredentialSecretData, ProviderCredential), AppError>) -> String {
    match r {
        Err(AppError::Validation(m)) => m,
        _ => panic!("expected a validation error"),
    }
}

#[test]
fn save_credential_validation_messages() {
    assert_eq!(
        validation(credential_from_input(input(ProviderType::DnsPod), 1, NOW)),
        "SecretId is required for DNSPod"
    );
    let mut only_id = input(ProviderType::DnsPod);
    only_id.secret_id = Some("sid".to_string());
    assert_eq!(validation(credential_from_input(only_id, 1, NOW)), "SecretKey is required for DNSPod");
    let mut only_key = input(ProviderType::DnsPod);
    only_key.secret_key = Some("skey".to_string());
    assert_eq!(validation(credential_from_input(only_key, 1, NOW)), "SecretId is required for DNSPod");
    assert_eq!(
        validation(credential_from_input(input(ProviderType::Cloudflare), 1, NOW)),
        "API Token is required for Cloudflare"
    );
    assert_eq!(
        validation(credential_from_input(input(ProviderType::AliDns), 1, NOW)),
        "AccessKey ID is required for AliDNS"
    );
    let mut ali = input(ProviderType::AliDns);
    ali.access_key_id = Some("ak".to_string());
    assert_eq!(validation(credential_from_input(ali, 1, NOW)), "AccessKey Secret is required for AliDNS");
}

#[test]
fn save_credential_builds_secret_and_metadata() {
    let mut cf = input(ProviderType::Cloudflare);
    cf.api_token = Some("test-token-123".to_string());
    cf.secret_id = Some("ignored".to_string());
    let (secret, meta) = credential_from_input(cf, 77, NOW).unwrap();
    assert!(secret == CredentialSecretData::Cloudflare { api_token: "test-token-123".to_string() });
    assert_eq!(meta, credential(77, ProviderType::Cloudflare).with_label("main"));
    let mut pod = input(ProviderType::DnsPod);
    pod.secret_id = Some("sid".to_string());
    pod.secret_key = Some("skey".to_string());
    let (secret, _) = credential_from_input(pod, 5, NOW).unwrap();
    assert!(secret == CredentialSecretData::DnsPod { secret_id: "sid".to_string(), secret_key: "skey".to_string() });
    let mut ali = input(ProviderType::AliDns);
    ali.access_key_id = Some("ak".to_string());
    ali.access_key_secret = Some("sk".to_string());
    let (secret, meta) = credential_from_input(ali, 6, NOW).unwrap();
    assert!(secret == CredentialSecretData::AliDns { access_key_id: "ak".to_string(), access_key_secret: "sk".to_string() });
    assert_eq!(meta.provider_type, ProviderType::AliDns);
}

trait WithLabel {
    fn with_label(self, label: &str) -> Self;
}

impl WithLabel for ProviderCredential {
    fn with_label(mut self, label: &str) -> Self {
        self.label = label.to_string();
        self
    }
}

#[test]
fn delete_credential_keeps_the_others() {
    let list = vec![
        credential(1, ProviderType::DnsPod),
        credential(2, ProviderType::Cloudflare),
        credential(1, ProviderType::AliDns),
        credential(3, ProviderType::AliDns),
    ];
    let kept = remove_credential(list, 1);
    assert_eq!(kept, vec![credential(2, ProviderType::Cloudflare), credential(3, ProviderType::AliDns)]);
    let none_removed = remove_credential(vec![credential(4, ProviderType::DnsPod)], 9);
    assert_eq!(none_removed.len(), 1);
}

#[test]
fn test_credential_requires_a_stored_credential() {
    let list = vec![credential(0x1234, ProviderType::DnsPod)];
    assert_eq!(require_credential(&list, 0x1234), Ok(()));
    assert_eq!(
        require_credential(&list, 0xa1a2a3a4b1b2c1c2d1d2d3d4d5d6d7d8),
        Err(AppError::NotFound(
            "Credential not found: a1a2a3a4-b1b2-c1c2-d1d2-d3d4d5d6d7d8".to_string()
        ))
    );
    assert_eq!(
        require_credential(&vec![], 0x1234),
        Err(AppError::NotFound(
            "Credential not found: 00000000-0000-0000-0000-000000001234".to_string()
        ))
    );
}

#[test]
fn first_credential_of_a_provider() {
    let list = vec![
        credential(1, ProviderType::DnsPod),
        credential(2, ProviderType::Cloudflare),
        credential(3, ProviderType::Cloudflare),
    ];
    assert_eq!(credential_for_provider(&list, ProviderType::Cloudflare), Ok(2));
    assert_eq!(credential_for_provider(&list, ProviderType::DnsPod), Ok(1));
    assert_eq!(
        credential_for_provider(&list, ProviderType::AliDns),
        Err(AppError::NotFound("No credentials for AliDNS".to_string()))
    );
}

#[test]
fn provider_filters() {
    assert!(provider_selected(&None, ProviderType::AliDns));
    let filter = Some(vec![ProviderType::DnsPod, ProviderType::Cloudflare]);
    assert!(provider_selected(&filter, ProviderType::Cloudflare));
    assert!(!provider_selected(&filter, ProviderType::AliDns));
    assert!(!provider_selected(&Some(vec![]), ProviderType::DnsPod));
}

#[test]
fn domains_sorted_by_provider_then_name() {
    let gathered = vec![
        domain(ProviderType::DnsPod, "b.com", "1"),
        domain(ProviderType::Cloudflare, "z.com", "2"),
        domain(ProviderType::AliDns, "m.com", "3"),
        domain(ProviderType::DnsPod, "a.com", "4"),
        domain(ProviderType::Cloudflare, "a.com", "5"),
        domain(ProviderType::DnsPod, "a.com", "6"),
    ];
    let sorted = sort_domains(gathered);
    let order: Vec<&str> = sorted.iter().map(|d| d.id.as_str()).collect();
    assert_eq!(order, vec!["3", "5", "2", "4", "6", "1"]);
    assert!(sort_domains(vec![]).is_empty());
}

#[test]
fn domain_summary_counts() {
    let domains = vec![
        domain(ProviderType::DnsPod, "a.com", "1"),
        domain(ProviderType::Cloudflare, "b.com", "2"),
        domain(ProviderType::DnsPod, "c.com", "3"),
    ];
    let s = summarize_domains(&domains);
    assert_eq!(s.total_domains, 3);
    assert_eq!(s.dnspod_count, 2);
    assert_eq!(s.cloudflare_count, 1);
    assert_eq!(s.alidns_count, 0);
    assert_eq!(s.dnspod_count + s.cloudflare_count + s.alidns_count, s.total_domains);
    let empty = summarize_domains(&vec![]);
    assert_eq!(empty.total_domains, 0);
}

#[test]
fn search_hits_filter_by_type() {
    let records = vec![record("1", RecordType::A), record("2", RecordType::TXT), record("3", RecordType::A)];
    let hits = search_hits(records, Some(RecordType::A), ProviderType::DnsPod, "example.com");
    assert_eq!(hits.len(), 2);
    assert_eq!(hits[0].record.id, "1");
    assert_eq!(hits[1].record.id, "3");
    assert_eq!(hits[1].domain_name, "example.com");
    assert_eq!(hits[1].provider, ProviderType::DnsPod);
    let all = search_hits(vec![record("1", RecordType::MX)], None, ProviderType::AliDns, "x.org");
    assert_eq!(all.len(), 1);
    assert_eq!(all[0].provider, ProviderType::AliDns);
}

#[test]
fn search_domain_choice() {
    let listed = Ok(vec![domain(ProviderType::DnsPod, "a.com", "1")]);
    match search_domains(Some(vec!["9".to_string()]), listed) {
        SearchDomains::Requested(ids) => assert_eq!(ids, vec!["9".to_string()]),
        _ => panic!("requested ids come first"),
    }
    match search_domains(None, Ok(vec![domain(ProviderType::DnsPod, "a.com", "1")])) {
        SearchDomains::Listed(ds) => assert_eq!(ds.len(), 1),
        _ => panic!("the listing is searched"),
    }
    match search_domains(None, Err(ProviderError::Other("down".to_string()))) {
        SearchDomains::Nothing => {}
        _ => panic!("a failed listing searches nothing"),
    }
}

#[test]
fn providers_from_secrets() {
    let cf = create_provider(&CredentialSecretData::Cloudflare { api_token: "tok".to_string() });
    assert_eq!(cf.provider_type(), ProviderType::Cloudflare);
    match cf {
        AnyProvider::Cloudflare(p) => assert_eq!(p.authorization(), "Bearer tok"),
        _ => panic!("wrong provider"),
    }
    let pod = create_provider(&CredentialSecretData::DnsPod {
        secret_id: "a".to_string(),
        secret_key: "b".to_string(),
    });
    assert_eq!(pod.provider_type(), ProviderType::DnsPod);
    let ali = create_provider(&CredentialSecretData::AliDns {
        access_key_id: "a".to_string(),
        access_key_secret: "b".to_string(),
    });
    assert_eq!(ali.provider_type(), ProviderType::AliDns);
}

#[test]
fn backoff_doubles_up_to_thirty_seconds() {
    assert_eq!(backoff_for(0), 500_000_000);
    assert_eq!(backoff_for(1), 1_000_000_000);
    assert_eq!(backoff_for(5), 16_000_000_000);
    assert_eq!(backoff_for(6), 30_000_000_000);
    assert_eq!(backoff_for(31), 30_000_000_000);
    for a in 0..40 {
        assert!(backoff_for(a) <= backoff_for(a + 1));
    }
}

#[test]
fn retry_decisions() {
    assert_eq!(after_failure(0, 3), RetryDecision::Retry { attempts: 1, backoff_nanos: 1_000_000_000 });
    assert_eq!(after_failure(1, 3), RetryDecision::Retry { attempts: 2, backoff_nanos: 2_000_000_000 });
    assert_eq!(after_failure(2, 3), RetryDecision::GiveUp { attempts: 3 });
    assert_eq!(after_failure(0, 0), RetryDecision::GiveUp { attempts: 1 });
    assert_eq!(after_failure(0, 1), RetryDecision::GiveUp { attempts: 1 });
}

#[test]
fn jitter_stays_below_backoff() {
    for _ in 0..100 {
        assert!(jittered_delay(1_000) < 1_000);
    }
    assert_eq!(jittered_delay(1), 0);
}

#[test]
fn saved_metadata_never_holds_secrets() {
    let mut a = input(ProviderType::DnsPod);
    a.secret_id = Some("id-one".to_string());
    a.secret_key = Some("key-one".to_string());
    let mut b = input(ProviderType::DnsPod);
    b.secret_id = Some("id-two".to_string());
    b.secret_key = Some("key-two".to_string());
    let (_, meta_a) = credential_from_input(a, 11, NOW).unwrap();
    let (_, meta_b) = credential_from_input(b, 11, NOW).unwrap();
    assert_eq!(meta_a, meta_b);
    assert_eq!(meta_a.created_at, meta_a.updated_at);
}

#[test]
fn failed_listings_do_not_affect_the_others() {
    let merged = merge_listings(vec![
        Ok(vec![domain(ProviderType::DnsPod, "a.com", "1")]),
        Err(ProviderError::Network("down".to_string())),
        Ok(vec![]),
        Ok(vec![domain(ProviderType::AliDns, "b.com", "2"), domain(ProviderType::AliDns, "c.com", "3")]),
    ]);
    let ids: Vec<&str> = merged.iter().map(|d| d.id.as_str()).collect();
    assert_eq!(ids, vec!["1", "2", "3"]);
    assert!(merge_listings(vec![]).is_empty());
}

#[test]
fn search_aggregation_drops_failures() {
    let fetched: Vec<Result<Domain, ProviderError>> = vec![
        Ok(domain(ProviderType::DnsPod, "a.com", "1")),
        Err(ProviderError::NotFound("Domain not found".to_string())),
        Ok(domain(ProviderType::DnsPod, "b.com", "2")),
    ];
    let kept = keep_ok(fetched);
    let ids: Vec<&str> = kept.iter().map(|d| d.id.as_str()).collect();
    assert_eq!(ids, vec!["1", "2"]);
    let per_domain = vec![
        Ok(search_hits(vec![record("r1", RecordType::A)], None, ProviderType::DnsPod, "a.com")),
        Err(ProviderError::Network("down".to_string())),
        Ok(search_hits(vec![record("r2", RecordType::TXT), record("r3", RecordType::A)], Some(RecordType::A), ProviderType::DnsPod, "b.com")),
    ];
    let hits = merge_ok(per_domain);
    let found: Vec<(&str, &str)> = hits.iter().map(|h| (h.record.id.as_str(), h.domain_name.as_str())).collect();
    assert_eq!(found, vec![("r1", "a.com"), ("r3", "b.com")]);
    let joined = flatten_pages(vec![Some(vec![1, 2]), None, Some(vec![3])]);
    assert_eq!(joined, vec![1, 2, 3]);
}
