//! Data model shared by all providers: provider and record types, domains, records,
//! record requests, credentials and search queries.

use vstd::prelude::*;
use vstd::string::*;
use crate::clock::UtcTimestamp;
use crate::text::{owned, str_eq};

verus! {

// ---------------------------------------------------------------------------------------------
// Provider type
// ---------------------------------------------------------------------------------------------

/// The DNS providers the manager talks to.
#[derive(Debug, Clone, Copy, PartialEq, Eq, Structural)]
pub enum ProviderType {
    DnsPod,
    Cloudflare,
    AliDns,
}

/// The display name of a provider.
pub open spec fn provider_name(p: ProviderType) -> Seq<char> {
    match p {
        ProviderType::DnsPod => "DNSPod"@,
        ProviderType::Cloudflare => "Cloudflare"@,
        ProviderType::AliDns => "AliDNS"@,
    }
}

impl ProviderType {
    /// The display name ("DNSPod", "Cloudflare", "AliDNS").
    pub fn display_name(&self) -> (s: &'static str)
        ensures
            s@ == provider_name(*self),
    {
        match self {
            ProviderType::DnsPod => "DNSPod",
            ProviderType::Cloudflare => "Cloudflare",
            ProviderType::AliDns => "AliDNS",
        }
    }

    /// The display name as an owned string (what `to_string` gives).
    pub fn to_display_string(&self) -> (s: String)
        ensures
            s@ == provider_name(*self),
    {
        owned(self.display_name())
    }
}

// ---------------------------------------------------------------------------------------------
// Record type
// ---------------------------------------------------------------------------------------------

/// DNS record types.
#[derive(Debug, Clone, Copy, PartialEq, Eq, Structural)]
#[allow(non_camel_case_types)]
pub enum RecordType {
    A,
    AAAA,
    CNAME,
    MX,
    TXT,
    NS,
    SRV,
    CAA,
    SOA,
    PTR,
    Cert,
    DnsKey,
    Ds,
    Loc,
    Naptr,
    Smimea,
    Sshfp,
    Tlsa,
    Uri,
}

/// The textual name of a record type, as written in zone files and provider APIs.
pub open spec fn record_type_name(t: RecordType) -> Seq<char> {
    match t {
        RecordType::A => "A"@,
        RecordType::AAAA => "AAAA"@,
        RecordType::CNAME => "CNAME"@,
        RecordType::MX => "MX"@,
        RecordType::TXT => "TXT"@,
        RecordType::NS => "NS"@,
        RecordType::SRV => "SRV"@,
        RecordType::CAA => "CAA"@,
        RecordType::SOA => "SOA"@,
        RecordType::PTR => "PTR"@,
        RecordType::Cert => "CERT"@,
        RecordType::DnsKey => "DNSKEY"@,
        RecordType::Ds => "DS"@,
        RecordType::Loc => "LOC"@,
        RecordType::Naptr => "NAPTR"@,
        RecordType::Smimea => "SMIMEA"@,
        RecordType::Sshfp => "SSHFP"@,
        RecordType::Tlsa => "TLSA"@,
        RecordType::Uri => "URI"@,
    }
}

/// Different record types have different names, so a name denotes one type.
pub proof fn lemma_record_type_names_distinct(a: RecordType, b: RecordType)
    requires
        a != b,
    ensures
        record_type_name(a) != record_type_name(b),
{
    reveal_strlit("A");
    reveal_strlit("AAAA");
    reveal_strlit("CNAME");
    reveal_strlit("MX");
    reveal_strlit("TXT");
    reveal_strlit("NS");
    reveal_strlit("SRV");
    reveal_strlit("CAA");
    reveal_strlit("SOA");
    reveal_strlit("PTR");
    reveal_strlit("CERT");
    reveal_strlit("DNSKEY");
    reveal_strlit("DS");
    reveal_strlit("LOC");
    reveal_strlit("NAPTR");
    reveal_strlit("SMIMEA");
    reveal_strlit("SSHFP");
    reveal_strlit("TLSA");
    reveal_strlit("URI");
    let (x, y) = (record_type_name(a), record_type_name(b));
    if x.len() == y.len() {
        assert(x[0] != y[0] || x[1] != y[1] || x[x.len() - 1] != y[y.len() - 1]);
    }
}

/// The record types that the providers' type strings are read back into.
pub open spec fn is_basic_record_type(t: RecordType) -> bool {
    match t {
        RecordType::A | RecordType::AAAA | RecordType::CNAME | RecordType::MX | RecordType::TXT
        | RecordType::NS | RecordType::SRV | RecordType::CAA | RecordType::SOA
        | RecordType::PTR => true,
        _ => false,
    }
}

/// The record type an upper-cased type string denotes: one of the ten basic types when the
/// string is exactly its name, and `A` for anything else.
pub open spec fn record_type_of_upper(s: Seq<char>) -> RecordType {
    if s == "A"@ {
        RecordType::A
    } else if s == "AAAA"@ {
        RecordType::AAAA
    } else if s == "CNAME"@ {
        RecordType::CNAME
    } else if s == "MX"@ {
        RecordType::MX
    } else if s == "TXT"@ {
        RecordType::TXT
    } else if s == "NS"@ {
        RecordType::NS
    } else if s == "SRV"@ {
        RecordType::SRV
    } else if s == "CAA"@ {
        RecordType::CAA
    } else if s == "SOA"@ {
        RecordType::SOA
    } else if s == "PTR"@ {
        RecordType::PTR
    } else {
        RecordType::A
    }
}

impl RecordType {
    /// The textual name (what `to_string` gives).
    pub fn as_str(&self) -> (s: &'static str)
        ensures
            s@ == record_type_name(*self),
    {
        match self {
            RecordType::A => "A",
            RecordType::AAAA => "AAAA",
            RecordType::CNAME => "CNAME",
            RecordType::MX => "MX",
            RecordType::TXT => "TXT",
            RecordType::NS => "NS",
            RecordType::SRV => "SRV",
            RecordType::CAA => "CAA",
            RecordType::SOA => "SOA",
            RecordType::PTR => "PTR",
            RecordType::Cert => "CERT",
            RecordType::DnsKey => "DNSKEY",
            RecordType::Ds => "DS",
            RecordType::Loc => "LOC",
            RecordType::Naptr => "NAPTR",
            RecordType::Smimea => "SMIMEA",
            RecordType::Sshfp => "SSHFP",
            RecordType::Tlsa => "TLSA",
            RecordType::Uri => "URI",
        }
    }

    /// The textual name as an owned string.
    pub fn to_display_string(&self) -> (s: String)
        ensures
            s@ == record_type_name(*self),
    {
        owned(self.as_str())
    }
}

/// The record type denoted by an already upper-cased type string (fallback `A`).
pub fn record_type_from_uppercase(s: &str) -> (t: RecordType)
    ensures
        t == record_type_of_upper(s@),
{
    if str_eq(s, "A") {
        RecordType::A
    } else if str_eq(s, "AAAA") {
        RecordType::AAAA
    } else if str_eq(s, "CNAME") {
        RecordType::CNAME
    } else if str_eq(s, "MX") {
        RecordType::MX
    } else if str_eq(s, "TXT") {
        RecordType::TXT
    } else if str_eq(s, "NS") {
        RecordType::NS
    } else if str_eq(s, "SRV") {
        RecordType::SRV
    } else if str_eq(s, "CAA") {
        RecordType::CAA
    } else if str_eq(s, "SOA") {
        RecordType::SOA
    } else if str_eq(s, "PTR") {
        RecordType::PTR
    } else {
        RecordType::A
    }
}

// ---------------------------------------------------------------------------------------------
// Domains and records
// ---------------------------------------------------------------------------------------------

/// A domain (zone) hosted at a provider.
#[derive(Debug, PartialEq)]
pub struct Domain {
    pub id: String,
    pub provider: ProviderType,
    pub name: String,
    pub status: String,
    pub record_count: u32,
    pub created_on: Option<UtcTimestamp>,
    pub name_servers: Vec<String>,
}

/// Domain counts across providers.
#[derive(Debug, PartialEq)]
pub struct DomainSummary {
    pub total_domains: u32,
    pub dnspod_count: u32,
    pub cloudflare_count: u32,
    pub alidns_count: u32,
}

/// A DNS record of a domain.
#[derive(Debug, PartialEq)]
pub struct DnsRecord {
    pub id: String,
    pub provider: ProviderType,
    pub domain_id: String,
    pub domain_name: String,
    pub record_type: RecordType,
    pub name: String,
    pub content: String,
    pub ttl: u32,
    pub priority: Option<u32>,
    pub proxied: Option<bool>,
    pub locked: Option<bool>,
    pub created_on: Option<UtcTimestamp>,
    pub updated_on: Option<UtcTimestamp>,
}

/// A request to create a record.
#[derive(Debug, PartialEq)]
pub struct CreateRecordRequest {
    pub record_type: RecordType,
    pub name: String,
    pub content: String,
    pub ttl: u32,
    pub priority: Option<u32>,
    pub proxied: Option<bool>,
}

/// A request to update a record; absent fields are left unchanged.
#[derive(Debug, PartialEq)]
pub struct UpdateRecordRequest {
    pub record_type: Option<RecordType>,
    pub name: Option<String>,
    pub content: Option<String>,
    pub ttl: Option<u32>,
    pub priority: Option<u32>,
    pub proxied: Option<bool>,
}

// ---------------------------------------------------------------------------------------------
// Credentials
// ---------------------------------------------------------------------------------------------

/// Credential metadata: what the front end may see (no secrets).
#[derive(Debug, PartialEq)]
pub struct ProviderCredential {
    /// The credential's UUID as a 128-bit number.
    pub id: u128,
    pub provider_type: ProviderType,
    pub label: String,
    pub created_at: UtcTimestamp,
    pub updated_at: UtcTimestamp,
}

/// A credential as entered: the provider, a label and the secret fields of every provider.
#[derive(PartialEq)]
pub struct CredentialInput {
    pub provider_type: ProviderType,
    pub label: String,
    pub secret_id: Option<String>,
    pub secret_key: Option<String>,
    pub api_token: Option<String>,
    pub access_key_id: Option<String>,
    pub access_key_secret: Option<String>,
}

/// The name `derive(Debug)` prints for a provider (its variant name).
pub open spec fn provider_variant_name(p: ProviderType) -> Seq<char> {
    match p {
        ProviderType::DnsPod => "DnsPod"@,
        ProviderType::Cloudflare => "Cloudflare"@,
        ProviderType::AliDns => "AliDns"@,
    }
}

/// The text `{:?}` gives for a string: quoted, with special characters escaped.
pub uninterp spec fn spec_str_debug(s: Seq<char>) -> Seq<char>;

/// Printable ASCII other than `"` and `\`: what `{:?}` writes unescaped.
pub open spec fn plain_debug_char(c: char) -> bool {
    ' ' <= c && c <= '~' && c != '"' && c != '\\'
}

/// Calls `<str as Debug>::fmt` through `format!("{:?}", s)`.
///
/// Trusted: the text depends on the string alone and is named `spec_str_debug`; a string of
/// printable ASCII without `"` or `\` is written as itself between double quotes (such
/// characters are their own `char::escape_debug`).
#[verifier::external_body]
pub(crate) fn str_debug(s: &str) -> (r: String)
    ensures
        r@ == spec_str_debug(s@),
        (forall|i: int| 0 <= i < s@.len() ==> plain_debug_char(#[trigger] s@[i])) ==> r@ == seq!['"']
            + s@ + seq!['"'],
{
    format!("{:?}", s)
}

/// The debug text of a credential input: the provider and the quoted label, every secret
/// field left out.
pub open spec fn input_debug_text(input: CredentialInput) -> Seq<char> {
    "CredentialInput { provider_type: "@ + provider_variant_name(input.provider_type)
        + ", label: "@ + spec_str_debug(input.label@) + ", .. }"@
}

impl CredentialInput {
    /// The debug text of the input, which shows the provider and the label and hides every
    /// secret (what `{:?}` prints).
    pub fn redacted_debug(&self) -> (s: String)
        ensures
            s@ == input_debug_text(*self),
            (forall|i: int| 0 <= i < self.label@.len() ==> plain_debug_char(#[trigger] self.label@[i]))
                ==> s@ == "CredentialInput { provider_type: "@ + provider_variant_name(
                self.provider_type,
            ) + ", label: "@ + seq!['"'] + self.label@ + seq!['"'] + ", .. }"@,
    {
        let mut s = owned("CredentialInput { provider_type: ");
        let name = match self.provider_type {
            ProviderType::DnsPod => "DnsPod",
            ProviderType::Cloudflare => "Cloudflare",
            ProviderType::AliDns => "AliDns",
        };
        s.append(name);
        s.append(", label: ");
        let label = str_debug(self.label.as_str());
        s.append(label.as_str());
        s.append(", .. }");
        s
    }
}

/// The secret part of a credential, per provider.
#[derive(PartialEq)]
pub enum CredentialSecretData {
    DnsPod { secret_id: String, secret_key: String },
    Cloudflare { api_token: String },
    AliDns { access_key_id: String, access_key_secret: String },
}

/// The provider a secret belongs to.
pub open spec fn secret_provider(s: CredentialSecretData) -> ProviderType {
    match s {
        CredentialSecretData::DnsPod { .. } => ProviderType::DnsPod,
        CredentialSecretData::Cloudflare { .. } => ProviderType::Cloudflare,
        CredentialSecretData::AliDns { .. } => ProviderType::AliDns,
    }
}

/// The redacted debug text of a secret: the variant name only.
pub open spec fn secret_debug_text(s: CredentialSecretData) -> Seq<char> {
    match s {
        CredentialSecretData::DnsPod { .. } => "DnsPod { .. }"@,
        CredentialSecretData::Cloudflare { .. } => "Cloudflare { .. }"@,
        CredentialSecretData::AliDns { .. } => "AliDns { .. }"@,
    }
}

impl CredentialSecretData {
    /// The provider this secret is for.
    pub fn provider_type(&self) -> (p: ProviderType)
        ensures
            p == secret_provider(*self),
    {
        match self {
            CredentialSecretData::DnsPod { .. } => ProviderType::DnsPod,
            CredentialSecretData::Cloudflare { .. } => ProviderType::Cloudflare,
            CredentialSecretData::AliDns { .. } => ProviderType::AliDns,
        }
    }

    /// The debug text of a secret, which names the variant and hides every field
    /// (what `{:?}` prints).
    pub fn redacted_debug(&self) -> (s: String)
        ensures
            s@ == secret_debug_text(*self),
    {
        match self {
            CredentialSecretData::DnsPod { .. } => owned("DnsPod { .. }"),
            CredentialSecretData::Cloudflare { .. } => owned("Cloudflare { .. }"),
            CredentialSecretData::AliDns { .. } => owned("AliDns { .. }"),
        }
    }
}

/// The debug text of a secret depends on its provider alone: no credential field shows.
pub proof fn lemma_secret_debug_hides_fields(a: CredentialSecretData, b: CredentialSecretData)
    requires
        secret_provider(a) == secret_provider(b),
    ensures
        secret_debug_text(a) == secret_debug_text(b),
{
}

/// The debug text of a credential input depends on its provider and label alone: no secret
/// field shows.
pub proof fn lemma_input_debug_hides_secrets(a: CredentialInput, b: CredentialInput)
    requires
        a.provider_type == b.provider_type,
        a.label@ == b.label@,
    ensures
        input_debug_text(a) == input_debug_text(b),
{
}

// ---------------------------------------------------------------------------------------------
// Search
// ---------------------------------------------------------------------------------------------

/// A cross-provider record search.
#[derive(Debug, PartialEq)]
pub struct SearchQuery {
    pub keyword: String,
    pub record_type: Option<RecordType>,
    pub providers: Option<Vec<ProviderType>>,
    pub domain_ids: Option<Vec<String>>,
}

/// One record found by a search, with its provider and domain name.
#[derive(Debug, PartialEq)]
pub struct SearchResult {
    pub record: DnsRecord,
    pub provider: ProviderType,
    pub domain_name: String,
}

// ---------------------------------------------------------------------------------------------
// Copies with known contents (a derived `Clone` says nothing of its result)
// ---------------------------------------------------------------------------------------------

/// A copy of an optional string.
pub fn copy_opt_string(s: &Option<String>) -> (r: Option<String>)
    ensures
        r == *s,
{
    match s {
        Some(t) => Some(t.clone()),
        None => None,
    }
}

/// A copy of a list of strings.
pub fn copy_strings(v: &Vec<String>) -> (r: Vec<String>)
    ensures
        r@ == v@,
{
    let mut r: Vec<String> = Vec::new();
    let mut i: usize = 0;
    while i < v.len()
        invariant
            i <= v@.len(),
            r@ == v@.take(i as int),
        decreases v@.len() - i,
    {
        r.push(v[i].clone());
        assert(v@.take(i as int + 1) == v@.take(i as int).push(v@[i as int]));
        i = i + 1;
    }
    assert(v@.take(v@.len() as int) == v@);
    r
}

impl DnsRecord {
    /// A field-by-field copy.
    pub fn copy(&self) -> (r: DnsRecord)
        ensures
            r == *self,
    {
        DnsRecord {
            id: self.id.clone(),
            provider: self.provider,
            domain_id: self.domain_id.clone(),
            domain_name: self.domain_name.clone(),
            record_type: self.record_type,
            name: self.name.clone(),
            content: self.content.clone(),
            ttl: self.ttl,
            priority: self.priority,
            proxied: self.proxied,
            locked: self.locked,
            created_on: self.created_on,
            updated_on: self.updated_on,
        }
    }
}

/// The elements of `v` in reverse order (moved, not copied).
pub fn reversed<T>(v: Vec<T>) -> (r: Vec<T>)
    ensures
        r@ == v@.reverse(),
{
    let ghost all = v@;
    let mut v = v;
    let mut r: Vec<T> = Vec::new();
    while v.len() > 0
        invariant
            v@.len() <= all.len(),
            v@ == all.take(v@.len() as int),
            r@ == all.skip(v@.len() as int).reverse(),
        decreases v@.len(),
    {
        let ghost k = v@.len() as int;
        let x = v.pop().unwrap();
        r.push(x);
        assert(all.take(k - 1) =~= all.take(k).drop_last());
        assert(all.skip(k - 1).reverse() =~= all.skip(k).reverse().push(all[k - 1]));
    }
    assert(all.skip(0) =~= all);
    r
}

} // verus!
