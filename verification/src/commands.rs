//! The decisions of the command handlers: validating and bookkeeping credentials, choosing the
//! credential of a provider, ordering and counting domains across providers, and assembling
//! search results.

use vstd::prelude::*;
use vstd::string::*;
use crate::clock::{uuid_text, uuid_text_of, UtcTimestamp};
use crate::error::{prefixed, AppError, ProviderError};
use crate::models::{
    provider_name, reversed, secret_provider, CredentialInput, CredentialSecretData, DnsRecord, Domain,
    DomainSummary, ProviderCredential, ProviderType, RecordType, SearchResult,
};
use crate::paging::{flat_pages, merge_ok, successful_pages};
use crate::text::{
    lemma_lex_irreflexive, lemma_lex_total, lemma_lex_transitive, lex_less, lex_lt, owned,
    str_eq,
};

verus! {

// ---------------------------------------------------------------------------------------------
// Credentials
// ---------------------------------------------------------------------------------------------

/// `r` is a validation error with message `msg`.
pub open spec fn is_validation_error<T>(r: Result<T, AppError>, msg: Seq<char>) -> bool {
    r matches Err(AppError::Validation(m)) && m@ == msg
}

/// The metadata of a credential saved from `input` under `id` at `now`.
pub open spec fn credential_meta(input: CredentialInput, id: u128, now: UtcTimestamp) -> ProviderCredential {
    ProviderCredential {
        id,
        provider_type: input.provider_type,
        label: input.label,
        created_at: now,
        updated_at: now,
    }
}

/// What saving a credential input comes to: the secret for its provider and the metadata
/// record, or a validation error naming the first required field that is missing
/// (DNSPod: SecretId, SecretKey; Cloudflare: API token; AliDNS: AccessKey id, secret).
pub open spec fn input_outcome(
    r: Result<(CredentialSecretData, ProviderCredential), AppError>,
    input: CredentialInput,
    id: u128,
    now: UtcTimestamp,
) -> bool {
    match input.provider_type {
        ProviderType::DnsPod => match input.secret_id {
            None => is_validation_error(r, "SecretId is required for DNSPod"@),
            Some(i) => match input.secret_key {
                None => is_validation_error(r, "SecretKey is required for DNSPod"@),
                Some(k) => r == Ok::<(CredentialSecretData, ProviderCredential), AppError>(
                    (
                        CredentialSecretData::DnsPod { secret_id: i, secret_key: k },
                        credential_meta(input, id, now),
                    ),
                ),
            },
        },
        ProviderType::Cloudflare => match input.api_token {
            None => is_validation_error(r, "API Token is required for Cloudflare"@),
            Some(t) => r == Ok::<(CredentialSecretData, ProviderCredential), AppError>(
                (CredentialSecretData::Cloudflare { api_token: t }, credential_meta(input, id, now)),
            ),
        },
        ProviderType::AliDns => match input.access_key_id {
            None => is_validation_error(r, "AccessKey ID is required for AliDNS"@),
            Some(i) => match input.access_key_secret {
                None => is_validation_error(r, "AccessKey Secret is required for AliDNS"@),
                Some(k) => r == Ok::<(CredentialSecretData, ProviderCredential), AppError>(
                    (
                        CredentialSecretData::AliDns { access_key_id: i, access_key_secret: k },
                        credential_meta(input, id, now),
                    ),
                ),
            },
        },
    }
}

/// A credential that saves has a secret of its provider's kind and metadata of the same
/// provider and label, created and updated at the same moment.
pub proof fn lemma_saved_credential_consistent(
    r: Result<(CredentialSecretData, ProviderCredential), AppError>,
    input: CredentialInput,
    id: u128,
    now: UtcTimestamp,
)
    requires
        input_outcome(r, input, id, now),
        r is Ok,
    ensures
        secret_provider(r->Ok_0.0) == input.provider_type,
        r->Ok_0.1.provider_type == input.provider_type,
        r->Ok_0.1.label == input.label,
        r->Ok_0.1.id == id,
        r->Ok_0.1.created_at == r->Ok_0.1.updated_at,
{
}

/// The metadata a saved credential shows depends on its id, time, provider and label alone,
/// never on the secret fields.
pub proof fn lemma_metadata_hides_secrets(
    ra: Result<(CredentialSecretData, ProviderCredential), AppError>,
    a: CredentialInput,
    rb: Result<(CredentialSecretData, ProviderCredential), AppError>,
    b: CredentialInput,
    id: u128,
    now: UtcTimestamp,
)
    requires
        input_outcome(ra, a, id, now),
        input_outcome(rb, b, id, now),
        ra is Ok,
        rb is Ok,
        a.provider_type == b.provider_type,
        a.label == b.label,
    ensures
        ra->Ok_0.1 == rb->Ok_0.1,
{
}

fn validation_error(msg: &str) -> (e: AppError)
    ensures
        e matches AppError::Validation(m) && m@ == msg@,
{
    AppError::Validation(owned(msg))
}

/// Validates a credential input and splits it into the secret (for the keychain) and the
/// metadata record with the given id and creation time.
pub fn credential_from_input(input: CredentialInput, id: u128, now: UtcTimestamp) -> (r: Result<
    (CredentialSecretData, ProviderCredential),
    AppError,
>)
    ensures
        input_outcome(r, input, id, now),
{
    let ghost original = input;
    let CredentialInput {
        provider_type,
        label,
        secret_id,
        secret_key,
        api_token,
        access_key_id,
        access_key_secret,
    } = input;
    let secret = match provider_type {
        ProviderType::DnsPod => {
            let secret_id = match secret_id {
                Some(v) => v,
                None => {
                    return Err(validation_error("SecretId is required for DNSPod"));
                },
            };
            let secret_key = match secret_key {
                Some(v) => v,
                None => {
                    return Err(validation_error("SecretKey is required for DNSPod"));
                },
            };
            CredentialSecretData::DnsPod { secret_id, secret_key }
        },
        ProviderType::Cloudflare => {
            let api_token = match api_token {
                Some(v) => v,
                None => {
                    return Err(validation_error("API Token is required for Cloudflare"));
                },
            };
            CredentialSecretData::Cloudflare { api_token }
        },
        ProviderType::AliDns => {
            let access_key_id = match access_key_id {
                Some(v) => v,
                None => {
                    return Err(validation_error("AccessKey ID is required for AliDNS"));
                },
            };
            let access_key_secret = match access_key_secret {
                Some(v) => v,
                None => {
                    return Err(validation_error("AccessKey Secret is required for AliDNS"));
                },
            };
            CredentialSecretData::AliDns { access_key_id, access_key_secret }
        },
    };
    let credential = ProviderCredential {
        id,
        provider_type,
        label,
        created_at: now,
        updated_at: now,
    };
    Ok((secret, credential))
}

/// The stored credentials without the one with id `id` (all others kept, in order).
pub fn remove_credential(credentials: Vec<ProviderCredential>, id: u128) -> (kept: Vec<
    ProviderCredential,
>)
    ensures
        kept@ == credentials@.filter(|c: ProviderCredential| c.id != id),
{
    let ghost all = credentials@;
    let ghost pred = |c: ProviderCredential| c.id != id;
    let n = credentials.len();
    let mut rev = reversed(credentials);
    let mut kept: Vec<ProviderCredential> = Vec::new();
    let mut i: usize = 0;
    assert(all.take(0) =~= Seq::<ProviderCredential>::empty());
    while i < n
        invariant
            n == all.len(),
            rev@.len() + i == n,
            rev@ == all.skip(i as int).reverse(),
            pred == (|c: ProviderCredential| c.id != id),
            kept@ == all.take(i as int).filter(pred),
        decreases n - i,
    {
        let c = rev.pop().unwrap();
        proof {
            reveal(Seq::filter);
            assert(c == all[i as int]);
            assert(all.take(i as int + 1).drop_last() =~= all.take(i as int));
            assert(all.take(i as int + 1).last() == all[i as int]);
            assert(all.skip(i as int + 1).reverse() =~= all.skip(i as int).reverse().drop_last());
        }
        let keep = c.id != id;
        if keep {
            kept.push(c);
        }
        proof {
            reveal(Seq::filter);
            assert(pred(all[i as int]) == keep);
            assert(all.take(i as int + 1).filter(pred) == (if pred(all[i as int]) {
                all.take(i as int).filter(pred).push(all[i as int])
            } else {
                all.take(i as int).filter(pred)
            }));
        }
        i = i + 1;
    }
    assert(all.take(n as int) =~= all);
    kept
}

/// Checks that a credential with id `id` is stored; otherwise
/// `NotFound("Credential not found: <uuid>")`.
pub fn require_credential(credentials: &Vec<ProviderCredential>, id: u128) -> (r: Result<(), AppError>)
    ensures
        (exists|i: int| 0 <= i < credentials@.len() && #[trigger] credentials@[i].id == id) ==> r
            is Ok,
        !(exists|i: int| 0 <= i < credentials@.len() && #[trigger] credentials@[i].id == id) ==> (r matches Err(
            AppError::NotFound(m),
        ) && m@ == "Credential not found: "@ + uuid_text(id)),
{
    let mut i: usize = 0;
    while i < credentials.len()
        invariant
            i <= credentials@.len(),
            forall|j: int| 0 <= j < i ==> #[trigger] credentials@[j].id != id,
        decreases credentials@.len() - i,
    {
        if credentials[i].id == id {
            return Ok(());
        }
        i = i + 1;
    }
    let text = uuid_text_of(id);
    Err(AppError::NotFound(prefixed("Credential not found: ", text.as_str())))
}

/// The id of the first stored credential for `provider`; none is
/// `NotFound("No credentials for <provider>")`.
pub fn credential_for_provider(credentials: &Vec<ProviderCredential>, provider: ProviderType) -> (r:
    Result<u128, AppError>)
    ensures
        match r {
            Ok(cid) => exists|i: int|
                0 <= i < credentials@.len() && #[trigger] credentials@[i].provider_type == provider
                    && credentials@[i].id == cid && forall|j: int|
                    0 <= j < i ==> #[trigger] credentials@[j].provider_type != provider,
            Err(e) => {
                &&& forall|i: int|
                    0 <= i < credentials@.len() ==> #[trigger] credentials@[i].provider_type
                        != provider
                &&& e matches AppError::NotFound(m) && m@ == "No credentials for "@
                    + provider_name(provider)
            },
        },
{
    let mut i: usize = 0;
    while i < credentials.len()
        invariant
            i <= credentials@.len(),
            forall|j: int| 0 <= j < i ==> #[trigger] credentials@[j].provider_type != provider,
        decreases credentials@.len() - i,
    {
        if credentials[i].provider_type == provider {
            return Ok(credentials[i].id);
        }
        i = i + 1;
    }
    Err(AppError::NotFound(prefixed("No credentials for ", provider.display_name())))
}

// ---------------------------------------------------------------------------------------------
// Domains across providers
// ---------------------------------------------------------------------------------------------

/// Whether a provider passes an optional provider filter (no filter passes every provider).
pub fn provider_selected(filter: &Option<Vec<ProviderType>>, provider: ProviderType) -> (r: bool)
    ensures
        r == (match filter {
            Some(v) => v@.contains(provider),
            None => true,
        }),
{
    match filter {
        None => true,
        Some(v) => {
            let mut i: usize = 0;
            let mut found = false;
            while i < v.len()
                invariant
                    i <= v@.len(),
                    found == exists|j: int| 0 <= j < i && v@[j] == provider,
                decreases v@.len() - i,
            {
                if v[i] == provider {
                    found = true;
                }
                i = i + 1;
            }
            found
        },
    }
}

/// Gathers the providers' domain listings: the domains of every listing that succeeded, in
/// the order given; a failed listing is left out and does not affect the others.
pub fn merge_listings(results: Vec<Result<Vec<Domain>, ProviderError>>) -> (all: Vec<Domain>)
    ensures
        all@ == flat_pages(successful_pages(results@)),
{
    merge_ok(results)
}

/// `a` sorts strictly before `b` in the domain listing: by provider display name, then by
/// domain name (both in `String` order).
pub open spec fn domain_before(a: Domain, b: Domain) -> bool {
    lex_lt(provider_name(a.provider), provider_name(b.provider)) || (provider_name(a.provider)
        == provider_name(b.provider) && lex_lt(a.name@, b.name@))
}

/// No domain sorts strictly before one listed ahead of it.
pub open spec fn domains_sorted(s: Seq<Domain>) -> bool {
    forall|i: int, j: int| 0 <= i < j < s.len() ==> !domain_before(#[trigger] s[j], #[trigger] s[i])
}

/// Where a stable insertion puts `x` into `r`: before the first domain that sorts strictly
/// after it.
pub open spec fn insert_position(r: Seq<Domain>, x: Domain) -> int
    decreases r.len(),
{
    if r.len() == 0 {
        0
    } else if domain_before(x, r[0]) {
        0
    } else {
        1 + insert_position(r.drop_first(), x)
    }
}

/// The domains in listing order, equal ones keeping their relative order (what a stable sort
/// by `domain_before` returns): each domain in turn is inserted after every domain that does
/// not sort strictly after it.
pub open spec fn sorted_domains(s: Seq<Domain>) -> Seq<Domain>
    decreases s.len(),
{
    if s.len() == 0 {
        s
    } else {
        let r = sorted_domains(s.drop_last());
        r.insert(insert_position(r, s.last()), s.last())
    }
}

/// The listing order is a strict order: irreflexive and transitive.
pub proof fn lemma_domain_before_strict(a: Domain, b: Domain, c: Domain)
    ensures
        !domain_before(a, a),
        domain_before(a, b) ==> !domain_before(b, a),
        domain_before(a, b) && domain_before(b, c) ==> domain_before(a, c),
{
    let (pa, pb, pc) = (provider_name(a.provider), provider_name(b.provider), provider_name(c.provider));
    lemma_lex_irreflexive(pa);
    lemma_lex_irreflexive(a.name@);
    lemma_lex_total(pa, pb);
    lemma_lex_total(a.name@, b.name@);
    if domain_before(a, b) && domain_before(b, c) {
        if lex_lt(pa, pb) && lex_lt(pb, pc) {
            lemma_lex_transitive(pa, pb, pc);
        } else if lex_lt(a.name@, b.name@) && lex_lt(b.name@, c.name@) && pa == pb && pb == pc {
            lemma_lex_transitive(a.name@, b.name@, c.name@);
        }
    }
}

/// The insertion position lies within `r`; every domain before it does not sort after `x`,
/// and the one at it (if any) does.
proof fn lemma_insert_position(r: Seq<Domain>, x: Domain)
    ensures
        0 <= insert_position(r, x) <= r.len(),
        forall|j: int| 0 <= j < insert_position(r, x) ==> !domain_before(x, #[trigger] r[j]),
        insert_position(r, x) < r.len() ==> domain_before(x, r[insert_position(r, x)]),
    decreases r.len(),
{
    if r.len() > 0 && !domain_before(x, r[0]) {
        let rest = r.drop_first();
        lemma_insert_position(rest, x);
        assert forall|j: int| 0 <= j < insert_position(r, x) implies !domain_before(
            x,
            #[trigger] r[j],
        ) by {
            if j > 0 {
                assert(r[j] == rest[j - 1]);
            }
        }
        if insert_position(r, x) < r.len() {
            assert(r[insert_position(r, x)] == rest[insert_position(rest, x)]);
        }
    }
}

/// A scan that stops at the first domain sorting strictly after `x` finds the insertion
/// position.
proof fn lemma_insert_position_found(r: Seq<Domain>, x: Domain, i: int)
    requires
        0 <= i <= r.len(),
        forall|j: int| 0 <= j < i ==> !domain_before(x, #[trigger] r[j]),
        i < r.len() ==> domain_before(x, r[i]),
    ensures
        insert_position(r, x) == i,
    decreases i,
{
    if i > 0 {
        let rest = r.drop_first();
        assert(!domain_before(x, r[0]));
        assert forall|j: int| 0 <= j < i - 1 implies !domain_before(x, #[trigger] rest[j]) by {
            assert(rest[j] == r[j + 1]);
        }
        if i < r.len() {
            assert(rest[i - 1] == r[i]);
        }
        lemma_insert_position_found(rest, x, i - 1);
    }
}

/// Inserting at the insertion position keeps a sorted sequence sorted.
proof fn lemma_insert_keeps_sorted(r: Seq<Domain>, x: Domain)
    requires
        domains_sorted(r),
    ensures
        domains_sorted(r.insert(insert_position(r, x), x)),
{
    lemma_insert_position(r, x);
    let p = insert_position(r, x);
    let t = r.insert(p, x);
    assert forall|i: int, j: int| 0 <= i < j < t.len() implies !domain_before(
        #[trigger] t[j],
        #[trigger] t[i],
    ) by {
        if i < p && j < p {
            assert(t[i] == r[i] && t[j] == r[j]);
        } else if i < p && j == p {
            assert(t[i] == r[i]);
        } else if i < p {
            assert(t[i] == r[i] && t[j] == r[j - 1]);
            lemma_domain_before_strict(r[j - 1], r[i], r[i]);
        } else if i == p {
            assert(t[j] == r[j - 1]);
            assert(domain_before(x, r[p]));
            if j - 1 > p {
                assert(!domain_before(r[j - 1], r[p]));
            }
            lemma_domain_before_strict(r[j - 1], x, r[p]);
            lemma_domain_before_strict(x, r[p], r[p]);
        } else {
            assert(t[i] == r[i - 1] && t[j] == r[j - 1]);
        }
    }
}

/// The listing order of any domains is sorted and holds exactly the same domains.
pub proof fn lemma_sorted_domains(s: Seq<Domain>)
    ensures
        domains_sorted(sorted_domains(s)),
        sorted_domains(s).to_multiset() == s.to_multiset(),
        sorted_domains(s).len() == s.len(),
    decreases s.len(),
{
    broadcast use vstd::seq_lib::group_to_multiset_ensures;

    if s.len() > 0 {
        let r = sorted_domains(s.drop_last());
        lemma_sorted_domains(s.drop_last());
        lemma_insert_keeps_sorted(r, s.last());
        lemma_insert_position(r, s.last());
        assert(s.drop_last().push(s.last()) =~= s);
    }
}

fn domain_before_exec(a: &Domain, b: &Domain) -> (r: bool)
    ensures
        r == domain_before(*a, *b),
{
    let pa = a.provider.display_name();
    let pb = b.provider.display_name();
    if lex_less(pa, pb) {
        true
    } else if str_eq(pa, pb) {
        lex_less(a.name.as_str(), b.name.as_str())
    } else {
        false
    }
}

/// Orders domains for the listing: by provider display name, then domain name, keeping the
/// gathered order among equal keys.
pub fn sort_domains(domains: Vec<Domain>) -> (sorted: Vec<Domain>)
    ensures
        sorted@ == sorted_domains(domains@),
        domains_sorted(sorted@),
        sorted@.to_multiset() == domains@.to_multiset(),
{
    let ghost all = domains@;
    let n = domains.len();
    let mut rev = reversed(domains);
    let mut sorted: Vec<Domain> = Vec::new();
    let mut k: usize = 0;
    assert(all.take(0) =~= Seq::<Domain>::empty());
    while k < n
        invariant
            n == all.len(),
            rev@.len() + k == n,
            rev@ == all.skip(k as int).reverse(),
            sorted@ == sorted_domains(all.take(k as int)),
        decreases n - k,
    {
        let x = rev.pop().unwrap();
        proof {
            assert(x == all[k as int]);
            assert(all.take(k as int + 1).drop_last() =~= all.take(k as int));
            assert(all.take(k as int + 1).last() == all[k as int]);
            assert(all.skip(k as int + 1).reverse() =~= all.skip(k as int).reverse().drop_last());
        }
        let mut i: usize = 0;
        while i < sorted.len() && !domain_before_exec(&x, &sorted[i])
            invariant
                i <= sorted@.len(),
                forall|j: int| 0 <= j < i ==> !domain_before(x, #[trigger] sorted@[j]),
            decreases sorted@.len() - i,
        {
            i = i + 1;
        }
        proof {
            lemma_insert_position_found(sorted@, x, i as int);
        }
        sorted.insert(i, x);
        k = k + 1;
    }
    assert(all.take(n as int) =~= all);
    proof {
        lemma_sorted_domains(all);
    }
    sorted
}

/// The number of domains of `provider`.
pub open spec fn provider_count(s: Seq<Domain>, provider: ProviderType) -> nat {
    s.filter(|d: Domain| d.provider == provider).len()
}

/// A prefix holds no more domains of a provider than the whole sequence.
proof fn lemma_provider_count_prefix(s: Seq<Domain>, i: int, provider: ProviderType)
    requires
        0 <= i <= s.len(),
    ensures
        provider_count(s.take(i), provider) <= provider_count(s, provider),
    decreases s.len() - i,
{
    reveal(Seq::filter);
    if i < s.len() {
        lemma_provider_count_prefix(s, i + 1, provider);
        assert(s.take(i + 1).drop_last() =~= s.take(i));
    } else {
        assert(s.take(i) =~= s);
    }
}

/// Counts the domains in total (the count truncated to 32 bits, as `len() as u32`) and per
/// provider. (A per-provider count past `u32::MAX` overflows, which `requires` leaves out.)
pub fn summarize_domains(domains: &Vec<Domain>) -> (summary: DomainSummary)
    requires
        provider_count(domains@, ProviderType::DnsPod) <= u32::MAX,
        provider_count(domains@, ProviderType::Cloudflare) <= u32::MAX,
        provider_count(domains@, ProviderType::AliDns) <= u32::MAX,
    ensures
        summary.total_domains == domains@.len() as u32,
        summary.dnspod_count == provider_count(domains@, ProviderType::DnsPod),
        summary.cloudflare_count == provider_count(domains@, ProviderType::Cloudflare),
        summary.alidns_count == provider_count(domains@, ProviderType::AliDns),
{
    let mut dnspod: u32 = 0;
    let mut cloudflare: u32 = 0;
    let mut alidns: u32 = 0;
    let mut i: usize = 0;
    assert(domains@.take(0) =~= Seq::<Domain>::empty());
    while i < domains.len()
        invariant
            i <= domains@.len(),
            provider_count(domains@, ProviderType::DnsPod) <= u32::MAX,
            provider_count(domains@, ProviderType::Cloudflare) <= u32::MAX,
            provider_count(domains@, ProviderType::AliDns) <= u32::MAX,
            dnspod == provider_count(domains@.take(i as int), ProviderType::DnsPod),
            cloudflare == provider_count(domains@.take(i as int), ProviderType::Cloudflare),
            alidns == provider_count(domains@.take(i as int), ProviderType::AliDns),
        decreases domains@.len() - i,
    {
        proof {
            reveal(Seq::filter);
            assert(domains@.take(i as int + 1).drop_last() =~= domains@.take(i as int));
            assert(domains@.take(i as int + 1).last() == domains@[i as int]);
            lemma_provider_count_prefix(domains@, i as int + 1, ProviderType::DnsPod);
            lemma_provider_count_prefix(domains@, i as int + 1, ProviderType::Cloudflare);
            lemma_provider_count_prefix(domains@, i as int + 1, ProviderType::AliDns);
        }
        match domains[i].provider {
            ProviderType::DnsPod => dnspod = dnspod + 1,
            ProviderType::Cloudflare => cloudflare = cloudflare + 1,
            ProviderType::AliDns => alidns = alidns + 1,
        }
        i = i + 1;
    }
    assert(domains@.take(domains@.len() as int) =~= domains@);
    DomainSummary {
        total_domains: domains.len() as u32,
        dnspod_count: dnspod,
        cloudflare_count: cloudflare,
        alidns_count: alidns,
    }
}

/// Every domain belongs to exactly one provider, so the per-provider counts add up to the
/// total.
pub proof fn lemma_provider_counts(s: Seq<Domain>)
    ensures
        provider_count(s, ProviderType::DnsPod) + provider_count(s, ProviderType::Cloudflare)
            + provider_count(s, ProviderType::AliDns) == s.len(),
    decreases s.len(),
{
    reveal(Seq::filter);
    if s.len() > 0 {
        lemma_provider_counts(s.drop_last());
    }
}

// ---------------------------------------------------------------------------------------------
// Search
// ---------------------------------------------------------------------------------------------

/// A record passes an optional record-type filter (no filter passes every record).
pub open spec fn type_matches(r: DnsRecord, record_type: Option<RecordType>) -> bool {
    match record_type {
        Some(t) => r.record_type == t,
        None => true,
    }
}

/// The search results of one domain: the records passing the type filter, in order, each
/// with the provider and the domain's name.
pub fn search_hits(
    records: Vec<DnsRecord>,
    record_type: Option<RecordType>,
    provider: ProviderType,
    domain_name: &str,
) -> (hits: Vec<SearchResult>)
    ensures
        hits@.len() == records@.filter(|r: DnsRecord| type_matches(r, record_type)).len(),
        forall|i: int|
            0 <= i < hits@.len() ==> (#[trigger] hits@[i]).record == records@.filter(
                |r: DnsRecord| type_matches(r, record_type),
            )[i] && hits@[i].provider == provider && hits@[i].domain_name@ == domain_name@,
{
    let ghost all = records@;
    let ghost pred = |r: DnsRecord| type_matches(r, record_type);
    let n = records.len();
    let mut rev = reversed(records);
    let mut hits: Vec<SearchResult> = Vec::new();
    let mut k: usize = 0;
    assert(all.take(0) =~= Seq::<DnsRecord>::empty());
    while k < n
        invariant
            n == all.len(),
            rev@.len() + k == n,
            rev@ == all.skip(k as int).reverse(),
            pred == (|r: DnsRecord| type_matches(r, record_type)),
            hits@.len() == all.take(k as int).filter(pred).len(),
            forall|i: int|
                0 <= i < hits@.len() ==> (#[trigger] hits@[i]).record == all.take(k as int).filter(
                    pred,
                )[i] && hits@[i].provider == provider && hits@[i].domain_name@ == domain_name@,
        decreases n - k,
    {
        let r = rev.pop().unwrap();
        proof {
            reveal(Seq::filter);
            assert(r == all[k as int]);
            assert(all.take(k as int + 1).drop_last() =~= all.take(k as int));
            assert(all.take(k as int + 1).last() == all[k as int]);
            assert(all.skip(k as int + 1).reverse() =~= all.skip(k as int).reverse().drop_last());
        }
        let keep = match record_type {
            Some(t) => r.record_type == t,
            None => true,
        };
        if keep {
            hits.push(SearchResult { record: r, provider, domain_name: owned(domain_name) });
        }
        proof {
            assert(pred(all[k as int]) == keep);
            let before = all.take(k as int).filter(pred);
            let after = all.take(k as int + 1).filter(pred);
            if keep {
                assert(after == before.push(all[k as int]));
            } else {
                assert(after == before);
            }
        }
        k = k + 1;
    }
    assert(all.take(n as int) =~= all);
    hits
}

/// Which domains a provider's search covers.
pub enum SearchDomains {
    /// Each of the requested domains, looked up one by one.
    Requested(Vec<String>),
    /// Every domain of the provider's listing.
    Listed(Vec<Domain>),
    /// None: no domains were requested and the listing failed.
    Nothing,
}

/// Chooses the domains to search: the requested ids when the query names some (whatever the
/// listing gave), else the listing, else nothing.
pub fn search_domains(domain_ids: Option<Vec<String>>, listed: Result<Vec<Domain>, ProviderError>) -> (r:
    SearchDomains)
    ensures
        match domain_ids {
            Some(ids) => r == SearchDomains::Requested(ids),
            None => match listed {
                Ok(list) => r == SearchDomains::Listed(list),
                Err(_) => r is Nothing,
            },
        },
{
    match domain_ids {
        Some(ids) => SearchDomains::Requested(ids),
        None => match listed {
            Ok(list) => SearchDomains::Listed(list),
            Err(_) => SearchDomains::Nothing,
        },
    }
}

} // verus!
