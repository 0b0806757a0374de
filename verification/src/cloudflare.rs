//! Cloudflare (REST v4, bearer token): request URLs and bodies, the response envelope and its
//! errors, record parsing, keyword search and zone-file export.

use vstd::prelude::*;
use vstd::string::*;
use crate::clock::{optional_rfc3339, rfc3339_timestamp, UtcTimestamp};
use crate::error::{prefixed, ProviderError};
use crate::models::{
    copy_opt_string, copy_strings, is_basic_record_type, record_type_name, record_type_from_uppercase,
    record_type_of_upper, CreateRecordRequest, DnsRecord, Domain, ProviderType, RecordType,
    UpdateRecordRequest,
};
use crate::paging::{flat_pages, flatten_pages};
use crate::text::{
    all_ascii, ascii_lower_char, ascii_upper_char, contains_str, decimal, decimal_u64, ends_with_str, owned, pad_right, parse_u64,
    push_padded, seq_contains, seq_ends_with, spec_parse_u64, spec_to_lowercase,
    spec_to_uppercase, str_eq, to_lowercase, to_uppercase, trim_end_all, trim_end_matches_str,
};

verus! {

// ---------------------------------------------------------------------------------------------
// Record type strings
// ---------------------------------------------------------------------------------------------

/// The record type of a provider's type string: the string is upper-cased (Unicode) and read
/// as one of the ten basic types; anything else falls back to `A`.
pub open spec fn spec_parse_record_type(t: Seq<char>) -> RecordType {
    record_type_of_upper(spec_to_uppercase(t))
}

/// The record type of an ASCII type string: upper-cased letter by letter, then read as one of
/// the ten basic types (fallback `A`).
pub open spec fn ascii_record_type(t: Seq<char>) -> RecordType {
    record_type_of_upper(t.map_values(|c: char| ascii_upper_char(c)))
}

/// Upper-casing leaves upper-case letters alone, and undoes lower-casing on them.
proof fn lemma_upper_letters_fixed(s: Seq<char>)
    requires
        forall|i: int| 0 <= i < s.len() ==> 'A' <= #[trigger] s[i] && s[i] <= 'Z',
    ensures
        s.map_values(|c: char| ascii_upper_char(c)) == s,
        s.map_values(|c: char| ascii_lower_char(c)).map_values(|c: char| ascii_upper_char(c)) == s,
{
    assert(s.map_values(|c: char| ascii_upper_char(c)) =~= s);
    assert(s.map_values(|c: char| ascii_lower_char(c)).map_values(|c: char| ascii_upper_char(c))
        =~= s);
}

/// The name of each of the ten basic record types reads back as that type, written in upper
/// or in lower case.
pub proof fn lemma_record_type_names_read_back(t: RecordType)
    requires
        is_basic_record_type(t),
    ensures
        ascii_record_type(record_type_name(t)) == t,
        ascii_record_type(record_type_name(t).map_values(|c: char| ascii_lower_char(c))) == t,
{
    reveal_strlit("A");
    reveal_strlit("AAAA");
    reveal_strlit("CNAME");
    reveal_strlit("MX");
    reveal_strlit("TXT");
    reveal_strlit("NS");
    reveal_strlit("SRV");
    reveal_strlit("CAA");
    reveal_strlit("SOA");
    reveal_strlit("PTR");
    lemma_upper_letters_fixed(record_type_name(t));
    match t {
        RecordType::A => {},
        RecordType::AAAA => {
            assert("AAAA"@ != "A"@);
        },
        RecordType::CNAME => {
            assert("CNAME"@ != "A"@ && "CNAME"@ != "AAAA"@);
        },
        RecordType::MX => {
            assert("MX"@ != "A"@ && "MX"@ != "AAAA"@ && "MX"@ != "CNAME"@);
        },
        RecordType::TXT => {
            assert("TXT"@ != "A"@ && "TXT"@ != "AAAA"@ && "TXT"@ != "CNAME"@ && "TXT"@ != "MX"@);
        },
        RecordType::NS => {
            assert("NS"@[0] != "MX"@[0]);
            assert("NS"@ != "A"@ && "NS"@ != "AAAA"@ && "NS"@ != "CNAME"@ && "NS"@ != "MX"@
                && "NS"@ != "TXT"@);
        },
        RecordType::SRV => {
            assert("SRV"@[0] != "TXT"@[0]);
            assert("SRV"@ != "A"@ && "SRV"@ != "AAAA"@ && "SRV"@ != "CNAME"@ && "SRV"@ != "MX"@
                && "SRV"@ != "TXT"@ && "SRV"@ != "NS"@);
        },
        RecordType::CAA => {
            assert("CAA"@[0] != "TXT"@[0] && "CAA"@[0] != "SRV"@[0]);
            assert("CAA"@ != "A"@ && "CAA"@ != "AAAA"@ && "CAA"@ != "CNAME"@ && "CAA"@ != "MX"@
                && "CAA"@ != "NS"@);
        },
        RecordType::SOA => {
            assert("SOA"@[0] != "TXT"@[0] && "SOA"@[1] != "SRV"@[1] && "SOA"@[0] != "CAA"@[0]);
            assert("SOA"@ != "A"@ && "SOA"@ != "AAAA"@ && "SOA"@ != "CNAME"@ && "SOA"@ != "MX"@
                && "SOA"@ != "NS"@);
        },
        RecordType::PTR => {
            assert("PTR"@[0] != "TXT"@[0] && "PTR"@[0] != "SRV"@[0] && "PTR"@[0] != "CAA"@[0]
                && "PTR"@[0] != "SOA"@[0]);
            assert("PTR"@ != "A"@ && "PTR"@ != "AAAA"@ && "PTR"@ != "CNAME"@ && "PTR"@ != "MX"@
                && "PTR"@ != "NS"@);
        },
        _ => {},
    }
}

/// Reads a provider's record type string, case-insensitively; unknown types become `A`.
pub fn parse_record_type(t: &str) -> (r: RecordType)
    ensures
        r == spec_parse_record_type(t@),
        all_ascii(t@) ==> r == ascii_record_type(t@),
{
    let upper = to_uppercase(t);
    record_type_from_uppercase(upper.as_str())
}

// ---------------------------------------------------------------------------------------------
// The provider and its requests
// ---------------------------------------------------------------------------------------------

/// The Cloudflare API base URL.
pub open spec fn cf_base() -> Seq<char> {
    "https://api.cloudflare.com/client/v4"@
}

/// Cloudflare access: an API token.
pub struct CloudflareProvider {
    api_token: String,
}

impl CloudflareProvider {
    /// The API token.
    pub closed spec fn token(&self) -> Seq<char> {
        self.api_token@
    }

    /// A provider using `api_token`.
    pub fn new(api_token: String) -> (p: CloudflareProvider)
        ensures
            p.token() == api_token@,
    {
        CloudflareProvider { api_token }
    }

    /// The API base URL.
    pub fn base_url(&self) -> (s: &'static str)
        ensures
            s@ == cf_base(),
    {
        "https://api.cloudflare.com/client/v4"
    }

    /// The `Authorization` header value: `Bearer <token>`.
    pub fn authorization(&self) -> (s: String)
        ensures
            s@ == "Bearer "@ + self.token(),
    {
        prefixed("Bearer ", self.api_token.as_str())
    }

    /// The URL listing all zones.
    pub fn zones_url(&self) -> (s: String)
        ensures
            s@ == cf_base() + "/zones"@,
    {
        prefixed(self.base_url(), "/zones")
    }

    /// The URL of one page (from 1) of the zone listing, 50 zones per page.
    pub fn zones_page_url(&self, page: u64) -> (s: String)
        ensures
            s@ == cf_base() + "/zones?page="@ + decimal(page as nat) + "&per_page=50"@,
    {
        let mut s = prefixed(self.base_url(), "/zones?page=");
        let digits = decimal_u64(page);
        s.append(digits.as_str());
        s.append("&per_page=50");
        s
    }

    /// The domains of a paginated zone listing: the zones of every page, in page order.
    pub fn domains_from_pages(&self, pages: Vec<Option<Vec<CfDomain>>>) -> (ds: Vec<Domain>)
        ensures
            ds@.len() == flat_pages(pages@).len(),
            forall|i: int|
                0 <= i < ds@.len() ==> is_cf_domain(#[trigger] ds@[i], flat_pages(pages@)[i]),
    {
        let all = flatten_pages(pages);
        self.domains_from_envelope(
            CfEnvelope {
                result: Some(all),
                success: true,
                errors: Vec::new(),
                messages: Vec::new(),
                total_pages: None,
            },
        )
    }

    /// The records of a paginated record listing, page after page, placed in the domain that
    /// the zone lookup gave; a failed lookup is the result, though the records were read.
    pub fn records_with_domain(
        &self,
        domain_id: &str,
        pages: Vec<Option<Vec<CfDnsRecord>>>,
        domain: Result<Domain, ProviderError>,
    ) -> (r: Result<Vec<DnsRecord>, ProviderError>)
        ensures
            match domain {
                Err(e) => r == Err::<Vec<DnsRecord>, ProviderError>(e),
                Ok(d) => r matches Ok(rs) && rs@.len() == flat_pages(pages@).len() && forall|i: int|
                    0 <= i < rs@.len() ==> is_cf_record(
                        #[trigger] rs@[i],
                        domain_id@,
                        d.name@,
                        flat_pages(pages@)[i],
                    ),
            },
    {
        match domain {
            Err(e) => Err(e),
            Ok(d) => {
                let all = flatten_pages(pages);
                let env = CfEnvelope {
                    result: Some(all),
                    success: true,
                    errors: Vec::new(),
                    messages: Vec::new(),
                    total_pages: None,
                };
                Ok(self.records_from_envelope(domain_id, d.name.as_str(), env))
            },
        }
    }

    /// The URL of one zone.
    pub fn zone_url(&self, domain_id: &str) -> (s: String)
        ensures
            s@ == cf_base() + "/zones/"@ + domain_id@,
    {
        let mut s = prefixed(self.base_url(), "/zones/");
        s.append(domain_id);
        s
    }

    /// The URL of one page (from 1) of a zone's records, 500 per page.
    pub fn records_page_url(&self, domain_id: &str, page: u64) -> (s: String)
        ensures
            s@ == cf_base() + "/zones/"@ + domain_id@ + "/dns_records?page="@ + decimal(page as nat)
                + "&per_page=500"@,
    {
        let mut s = self.zone_url(domain_id);
        s.append("/dns_records?page=");
        let digits = decimal_u64(page);
        s.append(digits.as_str());
        s.append("&per_page=500");
        s
    }

    /// The URL records of a zone are created at.
    pub fn records_url(&self, domain_id: &str) -> (s: String)
        ensures
            s@ == cf_base() + "/zones/"@ + domain_id@ + "/dns_records"@,
    {
        let mut s = self.zone_url(domain_id);
        s.append("/dns_records");
        s
    }

    /// The URL of one record.
    pub fn record_url(&self, domain_id: &str, record_id: &str) -> (s: String)
        ensures
            s@ == cf_base() + "/zones/"@ + domain_id@ + "/dns_records/"@ + record_id@,
    {
        let mut s = self.zone_url(domain_id);
        s.append("/dns_records/");
        s.append(record_id);
        s
    }

    /// A domain from Cloudflare's zone object. Cloudflare does not report a record count, so
    /// it is 0; a missing name-server list is empty; the creation time is read as RFC 3339.
    pub fn parse_cf_domain(&self, cf: CfDomain) -> (d: Domain)
        ensures
            is_cf_domain(d, cf),
    {
        let created_on = optional_rfc3339(&cf.created_on);
        let name_servers = match cf.name_servers {
            Some(v) => v,
            None => Vec::new(),
        };
        Domain {
            id: cf.id,
            provider: ProviderType::Cloudflare,
            name: cf.name,
            status: cf.status,
            record_count: 0,
            created_on,
            name_servers,
        }
    }

    /// A record from Cloudflare's record object, in the given domain.
    pub fn parse_cf_record(&self, domain_id: &str, domain_name: &str, cf: CfDnsRecord) -> (r:
        DnsRecord)
        ensures
            is_cf_record(r, domain_id@, domain_name@, cf),
    {
        let record_type = parse_record_type(cf.record_type.as_str());
        let created_on = optional_rfc3339(&cf.created_on);
        let updated_on = optional_rfc3339(&cf.modified_on);
        DnsRecord {
            id: cf.id,
            provider: ProviderType::Cloudflare,
            domain_id: owned(domain_id),
            domain_name: owned(domain_name),
            record_type,
            name: cf.name,
            content: cf.content,
            ttl: cf.ttl,
            priority: cf.priority,
            proxied: cf.proxied,
            locked: cf.locked,
            created_on,
            updated_on,
        }
    }

    /// The domains of a zone-list envelope, in order (none when it carries no result).
    pub fn domains_from_envelope(&self, env: CfEnvelope<Vec<CfDomain>>) -> (ds: Vec<Domain>)
        ensures
            ds@.len() == (match env.result {
                Some(v) => v@.len(),
                None => 0,
            }),
            forall|i: int| 0 <= i < ds@.len() ==> is_cf_domain(#[trigger] ds@[i], env.result->0@[i]),
    {
        let mut ds: Vec<Domain> = Vec::new();
        match env.result {
            Some(mut v) => {
                let ghost all = v@;
                let n = v.len();
                // take the zones from the back, then restore the order
                let mut rev: Vec<Domain> = Vec::new();
                while v.len() > 0
                    invariant
                        v@ == all.take(v@.len() as int),
                        v@.len() + rev@.len() == n,
                        n == all.len(),
                        forall|k: int|
                            0 <= k < rev@.len() ==> is_cf_domain(#[trigger] rev@[k], all[n - 1 - k]),
                    decreases v@.len(),
                {
                    let cf = v.pop().unwrap();
                    let d = self.parse_cf_domain(cf);
                    rev.push(d);
                    assert(all.take(v@.len() as int) =~= all.take(v@.len() as int + 1).drop_last());
                }
                while rev.len() > 0
                    invariant
                        n == all.len(),
                        ds@.len() + rev@.len() == n,
                        forall|k: int|
                            0 <= k < rev@.len() ==> is_cf_domain(#[trigger] rev@[k], all[n - 1 - k]),
                        forall|i: int| 0 <= i < ds@.len() ==> is_cf_domain(#[trigger] ds@[i], all[i]),
                    decreases rev@.len(),
                {
                    let d = rev.pop().unwrap();
                    ds.push(d);
                }
            },
            None => {},
        }
        ds
    }

    /// The records of a record-list envelope, in order, all in the given domain (none when
    /// it carries no result).
    pub fn records_from_envelope(
        &self,
        domain_id: &str,
        domain_name: &str,
        env: CfEnvelope<Vec<CfDnsRecord>>,
    ) -> (rs: Vec<DnsRecord>)
        ensures
            rs@.len() == (match env.result {
                Some(v) => v@.len(),
                None => 0,
            }),
            forall|i: int|
                0 <= i < rs@.len() ==> is_cf_record(
                    #[trigger] rs@[i],
                    domain_id@,
                    domain_name@,
                    env.result->0@[i],
                ),
    {
        let mut rs: Vec<DnsRecord> = Vec::new();
        match env.result {
            Some(mut v) => {
                let ghost all = v@;
                let n = v.len();
                let mut rev: Vec<DnsRecord> = Vec::new();
                while v.len() > 0
                    invariant
                        v@ == all.take(v@.len() as int),
                        v@.len() + rev@.len() == n,
                        n == all.len(),
                        forall|k: int|
                            0 <= k < rev@.len() ==> is_cf_record(
                                #[trigger] rev@[k],
                                domain_id@,
                                domain_name@,
                                all[n - 1 - k],
                            ),
                    decreases v@.len(),
                {
                    let cf = v.pop().unwrap();
                    let r = self.parse_cf_record(domain_id, domain_name, cf);
                    rev.push(r);
                    assert(all.take(v@.len() as int) =~= all.take(v@.len() as int + 1).drop_last());
                }
                while rev.len() > 0
                    invariant
                        n == all.len(),
                        rs@.len() + rev@.len() == n,
                        forall|k: int|
                            0 <= k < rev@.len() ==> is_cf_record(
                                #[trigger] rev@[k],
                                domain_id@,
                                domain_name@,
                                all[n - 1 - k],
                            ),
                        forall|i: int|
                            0 <= i < rs@.len() ==> is_cf_record(
                                #[trigger] rs@[i],
                                domain_id@,
                                domain_name@,
                                all[i],
                            ),
                    decreases rev@.len(),
                {
                    let r = rev.pop().unwrap();
                    rs.push(r);
                }
            },
            None => {},
        }
        rs
    }

    /// The domain of a single-zone envelope; a missing result is `NotFound("Domain not found")`.
    pub fn domain_from_envelope(&self, env: CfEnvelope<CfDomain>) -> (r: Result<
        Domain,
        ProviderError,
    >)
        ensures
            match env.result {
                Some(cf) => r matches Ok(d) && is_cf_domain(d, cf),
                None => r matches Err(ProviderError::NotFound(m)) && m@ == "Domain not found"@,
            },
    {
        match env.result {
            Some(cf) => Ok(self.parse_cf_domain(cf)),
            None => Err(ProviderError::NotFound(owned("Domain not found"))),
        }
    }
}

// ---------------------------------------------------------------------------------------------
// API objects (read from and written to JSON by the caller)
// ---------------------------------------------------------------------------------------------

/// The UTC time of an optional RFC 3339 text.
pub open spec fn opt_rfc3339(t: Option<String>) -> Option<UtcTimestamp> {
    match t {
        Some(s) => rfc3339_timestamp(s@),
        None => None,
    }
}

/// `d` is the domain Cloudflare's zone object `cf` describes: same id, name and status, no
/// record count (0), the creation time read as RFC 3339, the name servers (none if absent).
pub open spec fn is_cf_domain(d: Domain, cf: CfDomain) -> bool {
    &&& d.id == cf.id
    &&& d.provider == ProviderType::Cloudflare
    &&& d.name == cf.name
    &&& d.status == cf.status
    &&& d.record_count == 0
    &&& d.created_on == opt_rfc3339(cf.created_on)
    &&& d.name_servers@ == (match cf.name_servers {
        Some(v) => v@,
        None => Seq::empty(),
    })
}

/// `r` is the record Cloudflare's record object `cf` describes, placed in the given domain.
pub open spec fn is_cf_record(
    r: DnsRecord,
    domain_id: Seq<char>,
    domain_name: Seq<char>,
    cf: CfDnsRecord,
) -> bool {
    &&& r.id == cf.id
    &&& r.provider == ProviderType::Cloudflare
    &&& r.domain_id@ == domain_id
    &&& r.domain_name@ == domain_name
    &&& r.record_type == spec_parse_record_type(cf.record_type@)
    &&& r.name == cf.name
    &&& r.content == cf.content
    &&& r.ttl == cf.ttl
    &&& r.priority == cf.priority
    &&& r.proxied == cf.proxied
    &&& r.locked == cf.locked
    &&& r.created_on == opt_rfc3339(cf.created_on)
    &&& r.updated_on == opt_rfc3339(cf.modified_on)
}

/// Cloudflare's response envelope.
pub struct CfEnvelope<T> {
    pub result: Option<T>,
    pub success: bool,
    pub errors: Vec<CfError>,
    pub messages: Vec<String>,
    /// `result_info.total_pages` of a paginated listing.
    pub total_pages: Option<u64>,
}

/// One error entry of an envelope.
pub struct CfError {
    pub code: u32,
    pub message: String,
}

/// A zone object.
pub struct CfDomain {
    pub id: String,
    pub name: String,
    pub status: String,
    pub created_on: Option<String>,
    pub name_servers: Option<Vec<String>>,
}

/// A DNS record object.
pub struct CfDnsRecord {
    pub id: String,
    pub record_type: String,
    pub name: String,
    pub content: String,
    pub ttl: u32,
    pub priority: Option<u32>,
    pub proxied: Option<bool>,
    pub locked: Option<bool>,
    pub created_on: Option<String>,
    pub modified_on: Option<String>,
}

/// The body of a create-record request.
pub struct CfCreateRecord {
    pub record_type: String,
    pub name: String,
    pub content: String,
    pub ttl: u32,
    pub priority: Option<u32>,
    pub proxied: Option<bool>,
}

/// The body of a partial update: only the present fields are sent.
pub struct CfRecordPatch {
    pub record_type: Option<String>,
    pub name: Option<String>,
    pub content: Option<String>,
    pub ttl: Option<u32>,
    pub priority: Option<u32>,
    pub proxied: Option<bool>,
}

/// The create-record body for a request.
pub fn create_record_body(record: &CreateRecordRequest) -> (b: CfCreateRecord)
    ensures
        b.record_type@ == record_type_name(record.record_type),
        b.name == record.name,
        b.content == record.content,
        b.ttl == record.ttl,
        b.priority == record.priority,
        b.proxied == record.proxied,
{
    CfCreateRecord {
        record_type: record.record_type.to_display_string(),
        name: record.name.clone(),
        content: record.content.clone(),
        ttl: record.ttl,
        priority: record.priority,
        proxied: record.proxied,
    }
}

/// The partial-update body for a request: exactly the fields the request sets.
pub fn update_record_body(record: &UpdateRecordRequest) -> (b: CfRecordPatch)
    ensures
        b.record_type is Some <==> record.record_type is Some,
        record.record_type matches Some(t) ==> b.record_type->0@ == record_type_name(t),
        b.name == record.name,
        b.content == record.content,
        b.ttl == record.ttl,
        b.priority == record.priority,
        b.proxied == record.proxied,
{
    let record_type = match record.record_type {
        Some(t) => Some(t.to_display_string()),
        None => None,
    };
    CfRecordPatch {
        record_type,
        name: copy_opt_string(&record.name),
        content: copy_opt_string(&record.content),
        ttl: record.ttl,
        priority: record.priority,
        proxied: record.proxied,
    }
}

// ---------------------------------------------------------------------------------------------
// Responses
// ---------------------------------------------------------------------------------------------

/// What to do with a response, by its HTTP status.
#[derive(Debug, Clone, Copy, PartialEq, Eq, Structural)]
pub enum ResponseStep {
    /// 401 or 403: the body text is the error's detail.
    Unauthorized,
    /// 429: the `Retry-After` header tells when to retry.
    RateLimited,
    /// Anything else: the JSON envelope decides.
    ReadEnvelope,
}

/// The step a status calls for.
pub open spec fn spec_response_step(status: u16) -> ResponseStep {
    if status == 401 || status == 403 {
        ResponseStep::Unauthorized
    } else if status == 429 {
        ResponseStep::RateLimited
    } else {
        ResponseStep::ReadEnvelope
    }
}

/// The step a status calls for.
pub fn response_step(status: u16) -> (s: ResponseStep)
    ensures
        s == spec_response_step(status),
{
    if status == 401 || status == 403 {
        ResponseStep::Unauthorized
    } else if status == 429 {
        ResponseStep::RateLimited
    } else {
        ResponseStep::ReadEnvelope
    }
}

/// The error of a rejected token, carrying the response body.
pub fn unauthorized_error(body: String) -> (e: ProviderError)
    ensures
        e == ProviderError::Unauthorized(body),
{
    ProviderError::Unauthorized(body)
}

/// The error of a rate-limited response: the `Retry-After` header, when present and readable
/// as an unsigned number, is the number of seconds to wait.
pub fn rate_limited_error(retry_after: Option<&str>) -> (e: ProviderError)
    ensures
        e == (ProviderError::RateLimited {
            retry_after: match retry_after {
                Some(h) => spec_parse_u64(h@),
                None => None,
            },
        }),
{
    let parsed = match retry_after {
        Some(h) => parse_u64(h),
        None => None,
    };
    ProviderError::RateLimited { retry_after: parsed }
}

/// The error of a body that is not a Cloudflare envelope.
pub fn envelope_parse_error(detail: &str) -> (e: ProviderError)
    ensures
        e matches ProviderError::Deserialization(m) && m@ == "Cloudflare response parse error: "@
            + detail@,
{
    ProviderError::Deserialization(prefixed("Cloudflare response parse error: ", detail))
}

/// The message of a failed envelope: its first error's message, or a fixed text.
pub open spec fn envelope_error_message(errors: Seq<CfError>) -> Seq<char> {
    if errors.len() > 0 {
        errors[0].message@
    } else {
        "Unknown Cloudflare error"@
    }
}

/// Checks an envelope. A successful one is handed back. A failed one is `NotFound` for HTTP
/// 404 and otherwise `Cloudflare` with the first error's code (truncated to 16 bits) or, when
/// there is no error entry, the HTTP status; the message is `envelope_error_message`.
pub fn check_envelope<T>(status: u16, env: CfEnvelope<T>) -> (r: Result<
    CfEnvelope<T>,
    ProviderError,
>)
    ensures
        env.success ==> r == Ok::<CfEnvelope<T>, ProviderError>(env),
        !env.success && status == 404 ==> (r matches Err(ProviderError::NotFound(m)) && m@
            == envelope_error_message(env.errors@)),
        !env.success && status != 404 ==> (r matches Err(
            ProviderError::Cloudflare { code, message },
        ) && message@ == envelope_error_message(env.errors@) && code == (if env.errors@.len()
            == 0 {
            status
        } else {
            (env.errors@[0].code % 65536) as u16
        })),
{
    if env.success {
        return Ok(env);
    }
    let message = if env.errors.len() > 0 {
        env.errors[0].message.clone()
    } else {
        owned("Unknown Cloudflare error")
    };
    if status == 404 {
        return Err(ProviderError::NotFound(message));
    }
    let code: u16 = if env.errors.len() == 0 {
        status
    } else {
        let c: u32 = env.errors[0].code;
        let t: u16 = c as u16;
        assert(t == c % 65536) by (bit_vector)
            requires
                t == c as u16,
        ;
        t
    };
    Err(ProviderError::Cloudflare { code, message })
}

/// The record a create request returned; a missing result is `BadRequest`.
pub fn created_record(env: CfEnvelope<CfDnsRecord>) -> (r: Result<CfDnsRecord, ProviderError>)
    ensures
        match env.result {
            Some(c) => r == Ok::<CfDnsRecord, ProviderError>(c),
            None => r matches Err(ProviderError::BadRequest(m)) && m@
                == "Failed to create record"@,
        },
{
    match env.result {
        Some(c) => Ok(c),
        None => Err(ProviderError::BadRequest(owned("Failed to create record"))),
    }
}

/// The record an update request returned; a missing result is `NotFound`.
pub fn updated_record(env: CfEnvelope<CfDnsRecord>) -> (r: Result<CfDnsRecord, ProviderError>)
    ensures
        match env.result {
            Some(c) => r == Ok::<CfDnsRecord, ProviderError>(c),
            None => r matches Err(ProviderError::NotFound(m)) && m@ == "Record not found"@,
        },
{
    match env.result {
        Some(c) => Ok(c),
        None => Err(ProviderError::NotFound(owned("Record not found"))),
    }
}

// ---------------------------------------------------------------------------------------------
// Search
// ---------------------------------------------------------------------------------------------

/// A record matches a (lower-cased) query when the query occurs in its lower-cased name,
/// content or type name.
pub open spec fn record_matches(r: DnsRecord, query_lower: Seq<char>) -> bool {
    seq_contains(spec_to_lowercase(r.name@), query_lower) || seq_contains(
        spec_to_lowercase(r.content@),
        query_lower,
    ) || seq_contains(spec_to_lowercase(record_type_name(r.record_type)), query_lower)
}

/// Whether a record matches a query, case-insensitively.
pub fn record_matches_query(r: &DnsRecord, query_lower: &str) -> (b: bool)
    ensures
        b == record_matches(*r, query_lower@),
{
    let name = to_lowercase(r.name.as_str());
    if contains_str(name.as_str(), query_lower) {
        return true;
    }
    let content = to_lowercase(r.content.as_str());
    if contains_str(content.as_str(), query_lower) {
        return true;
    }
    let kind_text = to_lowercase(r.record_type.as_str());
    contains_str(kind_text.as_str(), query_lower)
}

/// The records a keyword search over `records` keeps (see `record_matches`), in order.
pub open spec fn keyword_hits(records: Seq<DnsRecord>, query: Seq<char>) -> Seq<DnsRecord> {
    records.filter(|r: DnsRecord| record_matches(r, spec_to_lowercase(query)))
}

/// Keyword search over a zone's records (Cloudflare has no search API): the records whose
/// name, content or type contains the query, compared in lower case, in their original order.
pub fn filter_records(records: Vec<DnsRecord>, query: &str) -> (found: Vec<DnsRecord>)
    ensures
        found@ == keyword_hits(records@, query@),
{
    let query_lower = to_lowercase(query);
    let ghost pred = |r: DnsRecord| record_matches(r, spec_to_lowercase(query@));
    let mut found: Vec<DnsRecord> = Vec::new();
    let mut i: usize = 0;
    assert(records@.take(0) =~= Seq::<DnsRecord>::empty());
    proof {
        reveal(Seq::filter);
    }
    while i < records.len()
        invariant
            i <= records@.len(),
            query_lower@ == spec_to_lowercase(query@),
            pred == (|r: DnsRecord| record_matches(r, spec_to_lowercase(query@))),
            found@ == records@.take(i as int).filter(pred),
        decreases records@.len() - i,
    {
        proof {
            reveal(Seq::filter);
            assert(records@.take(i as int + 1).drop_last() =~= records@.take(i as int));
            assert(records@.take(i as int + 1).last() == records@[i as int]);
        }
        if record_matches_query(&records[i], query_lower.as_str()) {
            found.push(records[i].copy());
        }
        i = i + 1;
    }
    assert(records@.take(records@.len() as int) =~= records@);
    found
}

// ---------------------------------------------------------------------------------------------
// Zone export
// ---------------------------------------------------------------------------------------------

/// The origin of an exported zone: the first record's domain name, or "unknown".
pub open spec fn zone_domain_name(records: Seq<DnsRecord>) -> Seq<char> {
    if records.len() > 0 {
        records[0].domain_name@
    } else {
        "unknown"@
    }
}

/// The owner name written for a record: "@" for the apex (the domain itself, "@" or empty),
/// the name with every trailing ".<domain>" removed when it has one, the name itself otherwise.
pub open spec fn relative_name(name: Seq<char>, domain: Seq<char>) -> Seq<char> {
    if name == domain || name == "@"@ || name.len() == 0 {
        "@"@
    } else if seq_ends_with(name, "."@ + domain) {
        trim_end_all(name, "."@ + domain)
    } else {
        name
    }
}

/// One zone-file line: owner (30 wide), "IN", type (10 wide), content (50 wide), then the
/// priority as a comment when there is one.
pub open spec fn cf_zone_line(r: DnsRecord, domain: Seq<char>) -> Seq<char> {
    pad_right(relative_name(r.name@, domain), 30) + " IN "@ + pad_right(
        record_type_name(r.record_type),
        10,
    ) + " "@ + pad_right(r.content@, 50) + (match r.priority {
        Some(p) => " ; priority="@ + decimal(p as nat),
        None => Seq::empty(),
    }) + "\n"@
}

/// The lines of all records, in order.
pub open spec fn cf_zone_lines(records: Seq<DnsRecord>, domain: Seq<char>) -> Seq<char>
    decreases records.len(),
{
    if records.len() == 0 {
        Seq::empty()
    } else {
        cf_zone_lines(records.drop_last(), domain) + cf_zone_line(records.last(), domain)
    }
}

/// The exported zone file: `$ORIGIN` and `$TTL 3600` headers, a blank line, the record lines.
pub open spec fn cf_zone_text(records: Seq<DnsRecord>) -> Seq<char> {
    "$ORIGIN "@ + zone_domain_name(records) + ".\n"@ + "$TTL 3600\n\n"@ + cf_zone_lines(
        records,
        zone_domain_name(records),
    )
}

/// The owner name written for a record.
pub fn relative_owner_name(name: &str, domain: &str) -> (s: String)
    ensures
        s@ == relative_name(name@, domain@),
{
    if str_eq(name, domain) || str_eq(name, "@") || name.is_empty() {
        return owned("@");
    }
    let suffix = prefixed(".", domain);
    if ends_with_str(name, suffix.as_str()) {
        trim_end_matches_str(name, suffix.as_str())
    } else {
        owned(name)
    }
}

/// Appends one record's zone-file line.
fn push_zone_line(zone: &mut String, r: &DnsRecord, domain: &str)
    ensures
        final(zone)@ == old(zone)@ + cf_zone_line(*r, domain@),
{
    let owner = relative_owner_name(r.name.as_str(), domain);
    push_padded(zone, owner.as_str(), 30);
    zone.append(" IN ");
    push_padded(zone, r.record_type.as_str(), 10);
    zone.append(" ");
    push_padded(zone, r.content.as_str(), 50);
    match r.priority {
        Some(p) => {
            zone.append(" ; priority=");
            let digits = decimal_u64(p as u64);
            zone.append(digits.as_str());
        },
        None => {},
    }
    zone.append("\n");
}

/// Renders a zone's records as a zone file.
pub fn export_zone_text(records: &Vec<DnsRecord>) -> (zone: String)
    ensures
        zone@ == cf_zone_text(records@),
{
    let domain = if records.len() > 0 {
        records[0].domain_name.clone()
    } else {
        owned("unknown")
    };
    let mut zone = prefixed("$ORIGIN ", domain.as_str());
    zone.append(".\n");
    zone.append("$TTL 3600\n\n");
    let ghost head = zone@;
    let mut i: usize = 0;
    while i < records.len()
        invariant
            i <= records@.len(),
            domain@ == zone_domain_name(records@),
            zone@ == head + cf_zone_lines(records@.take(i as int), domain@),
        decreases records@.len() - i,
    {
        push_zone_line(&mut zone, &records[i], domain.as_str());
        proof {
            assert(records@.take(i as int + 1).drop_last() =~= records@.take(i as int));
            assert(records@.take(i as int + 1).last() == records@[i as int]);
        }
        i = i + 1;
    }
    assert(records@.take(records@.len() as int) =~= records@);
    zone
}

/// The page to fetch after page `page` of a listing with `total_pages` pages: none after the
/// last page or when the count is unknown.
pub open spec fn next_page_of(page: u64, total_pages: Option<u64>) -> Option<u64> {
    match total_pages {
        Some(t) => if page < t {
            Some((page + 1) as u64)
        } else {
            None
        },
        None => None,
    }
}

/// The next page to fetch of a paginated listing, zones or records (see `next_page_of`).
pub fn next_zone_page(page: u64, total_pages: Option<u64>) -> (r: Option<u64>)
    ensures
        r == next_page_of(page, total_pages),
{
    match total_pages {
        Some(t) => if page < t {
            Some(page + 1)
        } else {
            None
        },
        None => None,
    }
}

// ---------------------------------------------------------------------------------------------
// Laws
// ---------------------------------------------------------------------------------------------

/// Keyword search keeps exactly the records whose lower-cased name, content or type name
/// contains the lower-cased query: every such record is found, and everything found is one.
pub proof fn lemma_keyword_search(records: Seq<DnsRecord>, query: Seq<char>, i: int)
    requires
        0 <= i < records.len(),
    ensures
        seq_contains(spec_to_lowercase(records[i].name@), spec_to_lowercase(query))
            ==> keyword_hits(records, query).contains(records[i]),
        seq_contains(spec_to_lowercase(records[i].content@), spec_to_lowercase(query))
            ==> keyword_hits(records, query).contains(records[i]),
        seq_contains(
            spec_to_lowercase(record_type_name(records[i].record_type)),
            spec_to_lowercase(query),
        ) ==> keyword_hits(records, query).contains(records[i]),
        forall|j: int|
            0 <= j < keyword_hits(records, query).len() ==> (seq_contains(
                spec_to_lowercase((#[trigger] keyword_hits(records, query)[j]).name@),
                spec_to_lowercase(query),
            ) || seq_contains(
                spec_to_lowercase(keyword_hits(records, query)[j].content@),
                spec_to_lowercase(query),
            ) || seq_contains(
                spec_to_lowercase(record_type_name(keyword_hits(records, query)[j].record_type)),
                spec_to_lowercase(query),
            )),
{
    let pred = |r: DnsRecord| record_matches(r, spec_to_lowercase(query));
    #[allow(deprecated)]
    records.filter_lemma(pred);
    if pred(records[i]) {
        records.lemma_filter_contains(pred, i);
    }
}

/// The owner written for a name under the domain is the name with the domain suffix taken
/// off: for `n = s + "." + domain` with a non-empty `s` that does not itself end in
/// `"." + domain`, the owner is `s`, so owner, `"."` and domain give back the name.
pub proof fn lemma_owner_strips_domain(s: Seq<char>, domain: Seq<char>)
    requires
        s.len() > 0,
        !seq_ends_with(s, "."@ + domain),
    ensures
        relative_name(s + "."@ + domain, domain) == s,
        relative_name(s + "."@ + domain, domain) + "."@ + domain == s + "."@ + domain,
{
    reveal_strlit(".");
    reveal_strlit("@");
    let pat = "."@ + domain;
    let n = s + pat;
    assert(n =~= s + "."@ + domain);
    assert(n.len() > domain.len());
    assert(n != domain);
    assert(n.len() >= 2);
    assert(n != "@"@);
    assert(n.subrange(n.len() - pat.len(), n.len() as int) =~= pat);
    assert(seq_ends_with(n, pat));
    assert(n.subrange(0, n.len() - pat.len()) =~= s);
    assert(trim_end_all(s, pat) == s);
    assert(trim_end_all(n, pat) == trim_end_all(s, pat));
}

/// Following next pages from page 1 visits every page of a listing: each page before the last
/// is followed by the next one, and the last page ends the listing.
pub proof fn lemma_pages_followed(page: u64, total_pages: u64)
    ensures
        1 <= page < total_pages ==> next_page_of(page, Some(total_pages)) == Some((page + 1) as u64),
        page >= total_pages ==> next_page_of(page, Some(total_pages)) is None,
        next_page_of(page, None) is None,
{
}

/// A record mapped from Cloudflare's record object keeps its id, type, name, content, TTL,
/// MX priority, proxy and lock flags, and sits in the given domain.
pub proof fn lemma_cf_record_keeps_fields(
    r: DnsRecord,
    domain_id: Seq<char>,
    domain_name: Seq<char>,
    cf: CfDnsRecord,
)
    requires
        is_cf_record(r, domain_id, domain_name, cf),
    ensures
        r.id == cf.id,
        r.provider == ProviderType::Cloudflare,
        r.domain_id@ == domain_id,
        r.domain_name@ == domain_name,
        r.name == cf.name,
        r.content == cf.content,
        r.ttl == cf.ttl,
        r.priority == cf.priority,
        r.proxied == cf.proxied,
        r.locked == cf.locked,
        r.record_type == spec_parse_record_type(cf.record_type@),
{
}

} // verus!
