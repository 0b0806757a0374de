use dns_manager::error::{AppError, AppErrorResponse, ProviderError};
use dns_manager::models::{
    CredentialInput, CredentialSecretData, DnsRecord, ProviderType, RecordType,
    record_type_from_uppercase,
};

fn sample_record() -> DnsRecord {
    DnsRecord {
        id: "rec-1".to_string(),
        provider: ProviderType::Cloudflare,
        domain_id: "zone-1".to_string(),
        domain_name: "example.com".to_string(),
        record_type: RecordType::MX,
        name: "mail.example.com".to_string(),
        content: "mx.example.com".to_string(),
        ttl: 300,
        priority: Some(10),
        proxied: Some(false),
        locked: None,
        created_on: None,
        updated_on: None,
    }
}

#[test]
fn provider_display_names() {
    assert_eq!(ProviderType::DnsPod.to_display_string(), "DNSPod");
    assert_eq!(ProviderType::Cloudflare.to_display_string(), "Cloudflare");
    assert_eq!(ProviderType::AliDns.display_name(), "AliDNS");
}

#[test]
fn record_type_names() {
    assert_eq!(RecordType::A.as_str(), "A");
    assert_eq!(RecordType::AAAA.as_str(), "AAAA");
    assert_eq!(RecordType::Cert.as_str(), "CERT");
    assert_eq!(RecordType::DnsKey.to_display_string(), "DNSKEY");
    assert_eq!(RecordType::Naptr.to_display_string(), "NAPTR");
    assert_eq!(RecordType::Uri.as_str(), "URI");
}

#[test]
fn record_type_from_upper_case_names() {
    assert_eq!(record_type_from_uppercase("MX"), RecordType::MX);
    assert_eq!(record_type_from_uppercase("PTR"), RecordType::PTR);
    assert_eq!(record_type_from_uppercase("mx"), RecordType::A);
    assert_eq!(record_type_from_uppercase("CERT"), RecordType::A);
}

#[test]
fn secret_debug_text_hides_fields() {
    let dnspod = CredentialSecretData::DnsPod {
        secret_id: "id".to_string(),
        secret_key: "key".to_string(),
    };
    let cf = CredentialSecretData::Cloudflare { api_token: "test-token-123".to_string() };
    let ali = CredentialSecretData::AliDns {
        access_key_id: "ak".to_string(),
        access_key_secret: "sk".to_string(),
    };
    assert_eq!(dnspod.redacted_debug(), "DnsPod { .. }");
    assert_eq!(cf.redacted_debug(), "Cloudflare { .. }");
    assert_eq!(ali.redacted_debug(), "AliDns { .. }");
    assert!(!cf.redacted_debug().contains("test-token-123"));
    assert_eq!(dnspod.provider_type(), ProviderType::DnsPod);
    assert_eq!(cf.provider_type(), ProviderType::Cloudflare);
    assert_eq!(ali.provider_type(), ProviderType::AliDns);
}

#[test]
fn credential_input_debug_text() {
    let input = CredentialInput {
        provider_type: ProviderType::Cloudflare,
        label: "Test \"CF\"".to_string(),
        secret_id: None,
        secret_key: None,
        api_token: Some("test-token-123".to_string()),
        access_key_id: None,
        access_key_secret: None,
    };
    let text = input.redacted_debug();
    assert_eq!(text, "CredentialInput { provider_type: Cloudflare, label: \"Test \\\"CF\\\"\", .. }");
    assert!(!text.contains("test-token-123"));
}

#[test]
fn record_copy_is_equal() {
    let r = sample_record();
    assert_eq!(r.copy(), r);
}

#[test]
fn provider_error_messages() {
    assert_eq!(ProviderError::Network("down".to_string()).to_message(), "Network error: down");
    assert_eq!(
        ProviderError::DnsPod { message: "bad".to_string(), request_id: "r-1".to_string() }
            .to_message(),
        "DNSPod error: bad (request_id: r-1)"
    );
    assert_eq!(
        ProviderError::Cloudflare { code: 1003, message: "Invalid".to_string() }.to_message(),
        "Cloudflare error (code 1003): Invalid"
    );
    assert_eq!(
        ProviderError::AliDns { code: "Forbidden".to_string(), message: "no".to_string() }
            .to_message(),
        "AliDNS error (code Forbidden): no"
    );
    assert_eq!(
        ProviderError::RateLimited { retry_after: Some(30) }.to_message(),
        "Rate limited (retry after Some(30)s)"
    );
    assert_eq!(
        ProviderError::RateLimited { retry_after: None }.to_message(),
        "Rate limited (retry after Nones)"
    );
    assert_eq!(ProviderError::Unauthorized("x".to_string()).to_message(), "Unauthorized: x");
    assert_eq!(ProviderError::NotFound("x".to_string()).to_message(), "Not found: x");
    assert_eq!(ProviderError::BadRequest("x".to_string()).to_message(), "Bad request: x");
    assert_eq!(
        ProviderError::Deserialization("x".to_string()).to_message(),
        "Deserialization error: x"
    );
    assert_eq!(ProviderError::Other("plain".to_string()).to_message(), "plain");
}

#[test]
fn network_errors_from_transport_failures() {
    assert_eq!(
        ProviderError::network(true, true, "ignored"),
        ProviderError::Network("Request timed out".to_string())
    );
    assert_eq!(
        ProviderError::network(false, true, "refused"),
        ProviderError::Network("Connection failed: refused".to_string())
    );
    assert_eq!(
        ProviderError::network(false, false, "broken pipe"),
        ProviderError::Network("broken pipe".to_string())
    );
}

#[test]
fn app_error_codes_and_messages() {
    let cases = vec![
        (AppError::Provider("p".to_string()), "PROVIDER_ERROR", "Provider error: p"),
        (AppError::Credential("c".to_string()), "CREDENTIAL_ERROR", "Credential error: c"),
        (AppError::Serialization("s".to_string()), "SERIALIZATION_ERROR", "Serialization error: s"),
        (AppError::NotFound("n".to_string()), "NOT_FOUND", "Not found: n"),
        (AppError::Validation("v".to_string()), "VALIDATION_ERROR", "Validation error: v"),
        (AppError::Internal("i".to_string()), "INTERNAL_ERROR", "Internal error: i"),
    ];
    for (e, code, message) in cases {
        assert_eq!(e.code(), code);
        assert_eq!(e.to_message(), message);
    }
}

#[test]
fn app_error_response_carries_code_and_detail() {
    let e = AppError::Validation("SecretId is required for DNSPod".to_string());
    assert_eq!(
        e.to_response(),
        AppErrorResponse {
            code: "VALIDATION_ERROR".to_string(),
            message: "SecretId is required for DNSPod".to_string(),
        }
    );
    assert_eq!(e.detail(), "SecretId is required for DNSPod");
}

#[test]
fn provider_error_becomes_app_error() {
    let e = ProviderError::NotFound("Record not found".to_string());
    assert_eq!(
        AppError::from_provider_error(&e),
        AppError::Provider("Not found: Record not found".to_string())
    );
}

#[test]
fn credential_input_debug_plain_label() {
    let input = CredentialInput {
        provider_type: ProviderType::AliDns,
        label: "Ali main".to_string(),
        secret_id: None,
        secret_key: None,
        api_token: None,
        access_key_id: Some("ak".to_string()),
        access_key_secret: Some("sk".to_string()),
    };
    assert_eq!(input.redacted_debug(), "CredentialInput { provider_type: AliDns, label: \"Ali main\", .. }");
}
