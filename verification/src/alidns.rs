//! Alibaba Cloud AliDNS (RPC API, HMAC-SHA1 query signatures): the sorted query-parameter map,
//! request signing and URLs, parameter sets per action, response errors and record parsing.

use vstd::prelude::*;
use vstd::string::*;
use vstd::utf8::encode_utf8;
use crate::clock::{
    optional_rfc3339, spec_utc_iso_seconds_text, random_uuid_text, utc_iso_seconds_text,
    utc_now_parts, uuid_text, UtcTimestamp,
};
use crate::cloudflare::{opt_rfc3339, parse_record_type as parse_type_text, spec_parse_record_type};
use crate::crypto::{base64_standard, lemma_base64_len, hmac_sha1, spec_base64, spec_hmac_sha1, spec_url_encode, url_encode};
use crate::error::{prefixed, ProviderError};
use crate::models::{
    copy_opt_string, record_type_name, reversed, CreateRecordRequest, DnsRecord, Domain,
    ProviderType, RecordType, UpdateRecordRequest,
};
use crate::text::{
    decimal, decimal_u64, lemma_lex_irreflexive, lemma_lex_total, lemma_lex_transitive, lex_less,
    lex_lt, owned, str_eq,
};
use crate::paging::{flat_pages, flatten_pages};
use crate::zone::{plain_zone, plain_zone_text};

verus! {

// ---------------------------------------------------------------------------------------------
// Sorted parameter maps
// ---------------------------------------------------------------------------------------------

/// A key-value pair as plain values.
pub type Pair = (Seq<char>, Seq<char>);

/// Keys strictly increase along the sequence (so each key occurs once).
pub open spec fn keys_sorted(pairs: Seq<Pair>) -> bool {
    forall|i: int, j: int| 0 <= i < j < pairs.len() ==> lex_lt(pairs[i].0, pairs[j].0)
}

/// The pairs after inserting `(k, v)` into a key-sorted sequence: a pair with key `k` is
/// replaced, otherwise `(k, v)` goes before the first larger key.
pub open spec fn sorted_insert(pairs: Seq<Pair>, k: Seq<char>, v: Seq<char>) -> Seq<Pair>
    decreases pairs.len(),
{
    if pairs.len() == 0 {
        seq![(k, v)]
    } else if pairs[0].0 == k {
        seq![(k, v)] + pairs.drop_first()
    } else if lex_lt(pairs[0].0, k) {
        seq![pairs[0]] + sorted_insert(pairs.drop_first(), k, v)
    } else {
        seq![(k, v)] + pairs
    }
}

/// The value stored under `k`, if any (the first pair with that key).
pub open spec fn lookup(pairs: Seq<Pair>, k: Seq<char>) -> Option<Seq<char>>
    decreases pairs.len(),
{
    if pairs.len() == 0 {
        None
    } else if pairs[0].0 == k {
        Some(pairs[0].1)
    } else {
        lookup(pairs.drop_first(), k)
    }
}

/// Inserting into a key-sorted sequence keeps it key-sorted.
pub proof fn lemma_sorted_insert_sorted(pairs: Seq<Pair>, k: Seq<char>, v: Seq<char>)
    requires
        keys_sorted(pairs),
    ensures
        keys_sorted(sorted_insert(pairs, k, v)),
        forall|i: int|
            0 <= i < sorted_insert(pairs, k, v).len() ==> (#[trigger] sorted_insert(pairs, k, v)[i]).0
                == k || exists|j: int| 0 <= j < pairs.len() && pairs[j].0 == sorted_insert(pairs, k, v)[i].0,
    decreases pairs.len(),
{
    let r = sorted_insert(pairs, k, v);
    if pairs.len() == 0 {
    } else if pairs[0].0 == k {
        assert forall|i: int, j: int| 0 <= i < j < r.len() implies lex_lt(r[i].0, r[j].0) by {
            assert(r[i].0 == pairs[i].0);
            assert(r[j].0 == pairs[j].0);
        }
        assert forall|i: int| 0 <= i < r.len() implies (#[trigger] r[i]).0 == k || exists|j: int|
            0 <= j < pairs.len() && pairs[j].0 == r[i].0 by {
            if i > 0 {
                assert(pairs[i].0 == r[i].0);
            }
        }
    } else if lex_lt(pairs[0].0, k) {
        let rest = pairs.drop_first();
        lemma_sorted_insert_sorted(rest, k, v);
        let rr = sorted_insert(rest, k, v);
        assert(r == seq![pairs[0]] + rr);
        assert forall|i: int| 0 <= i < rr.len() implies lex_lt(pairs[0].0, (#[trigger] rr[i]).0) by {
            if rr[i].0 != k {
                let j = choose|j: int| 0 <= j < rest.len() && rest[j].0 == rr[i].0;
                assert(rest[j] == pairs[j + 1]);
            }
        }
        assert forall|i: int, j: int| 0 <= i < j < r.len() implies lex_lt(r[i].0, r[j].0) by {
            if i == 0 {
                assert(r[j] == rr[j - 1]);
            } else {
                assert(r[i] == rr[i - 1]);
                assert(r[j] == rr[j - 1]);
            }
        }
        assert forall|i: int| 0 <= i < r.len() implies (#[trigger] r[i]).0 == k || exists|j: int|
            0 <= j < pairs.len() && pairs[j].0 == r[i].0 by {
            if i == 0 {
                assert(pairs[0].0 == r[0].0);
            } else {
                assert(r[i] == rr[i - 1]);
                if rr[i - 1].0 != k {
                    let j = choose|j: int| 0 <= j < rest.len() && rest[j].0 == rr[i - 1].0;
                    assert(pairs[j + 1].0 == r[i].0);
                }
            }
        }
    } else {
        lemma_lex_total(pairs[0].0, k);
        assert(lex_lt(k, pairs[0].0));
        assert forall|i: int, j: int| 0 <= i < j < r.len() implies lex_lt(r[i].0, r[j].0) by {
            if i == 0 {
                assert(r[j] == pairs[j - 1]);
                if j > 1 {
                    lemma_lex_transitive(k, pairs[0].0, pairs[j - 1].0);
                }
            } else {
                assert(r[i] == pairs[i - 1]);
                assert(r[j] == pairs[j - 1]);
            }
        }
        assert forall|i: int| 0 <= i < r.len() implies (#[trigger] r[i]).0 == k || exists|j: int|
            0 <= j < pairs.len() && pairs[j].0 == r[i].0 by {
            if i > 0 {
                assert(pairs[i - 1].0 == r[i].0);
            }
        }
    }
}

/// After inserting `(k, v)`, looking up `k` gives `v` and every other key gives what it gave
/// before (the map semantics of `BTreeMap::insert`).
pub proof fn lemma_sorted_insert_lookup(
    pairs: Seq<Pair>,
    k: Seq<char>,
    v: Seq<char>,
    other: Seq<char>,
)
    requires
        keys_sorted(pairs),
    ensures
        other == k ==> lookup(sorted_insert(pairs, k, v), other) == Some(v),
        other != k ==> lookup(sorted_insert(pairs, k, v), other) == lookup(pairs, other),
    decreases pairs.len(),
{
    let r = sorted_insert(pairs, k, v);
    if pairs.len() == 0 {
        assert(r[0] == (k, v));
        assert(r.drop_first() =~= Seq::<Pair>::empty());
        if other != k {
            assert(lookup(r, other) == lookup(r.drop_first(), other));
            assert(lookup(r.drop_first(), other) == None::<Seq<char>>);
            assert(lookup(pairs, other) == None::<Seq<char>>);
        }
    } else if pairs[0].0 == k {
        assert(r[0] == (k, v));
        assert(r.drop_first() =~= pairs.drop_first());
        if other != k {
            assert(lookup(r, other) == lookup(r.drop_first(), other));
            assert(lookup(pairs, other) == lookup(pairs.drop_first(), other));
        }
    } else if lex_lt(pairs[0].0, k) {
        let rest = pairs.drop_first();
        assert(keys_sorted(rest)) by {
            assert forall|i: int, j: int| 0 <= i < j < rest.len() implies lex_lt(rest[i].0, rest[j].0) by {
                assert(rest[i] == pairs[i + 1]);
                assert(rest[j] == pairs[j + 1]);
            }
        }
        lemma_sorted_insert_lookup(rest, k, v, other);
        lemma_lex_irreflexive(k);
        assert(r[0] == pairs[0]);
        assert(r.drop_first() =~= sorted_insert(rest, k, v));
        if other != k {
            if pairs[0].0 == other {
                assert(lookup(r, other) == Some(pairs[0].1));
                assert(lookup(pairs, other) == Some(pairs[0].1));
            } else {
                assert(lookup(r, other) == lookup(sorted_insert(rest, k, v), other));
                assert(lookup(pairs, other) == lookup(rest, other));
            }
        }
    } else {
        assert(r[0] == (k, v));
        assert(r.drop_first() =~= pairs);
        if other != k {
            assert(lookup(r, other) == lookup(r.drop_first(), other));
        }
    }
}

/// A map from text keys to text values that keeps its pairs sorted by key, as
/// `BTreeMap<String, String>` iterates them.
pub struct QueryParams {
    entries: Vec<(String, String)>,
}

/// The plain-value form of a stored pair.
pub open spec fn pair_view(e: (String, String)) -> Pair {
    (e.0@, e.1@)
}

/// The plain-value form of stored pairs.
pub open spec fn pairs_of(v: Seq<(String, String)>) -> Seq<Pair> {
    v.map_values(|e: (String, String)| pair_view(e))
}

impl QueryParams {
    /// The pairs, in key order.
    pub closed spec fn pairs(&self) -> Seq<Pair> {
        pairs_of(self.entries@)
    }

    /// The pairs are sorted by key.
    pub open spec fn well_formed(&self) -> bool {
        keys_sorted(self.pairs())
    }

    /// An empty map.
    pub fn new() -> (m: QueryParams)
        ensures
            m.pairs() == Seq::<Pair>::empty(),
            m.well_formed(),
    {
        let m = QueryParams { entries: Vec::new() };
        assert(m.pairs() =~= Seq::<Pair>::empty());
        m
    }

    /// The number of pairs.
    pub fn len(&self) -> (n: usize)
        ensures
            n == self.pairs().len(),
    {
        self.entries.len()
    }

    /// Inserts `value` under `key`, replacing the value a pair with that key had.
    pub fn insert(&mut self, key: String, value: String)
        requires
            old(self).well_formed(),
        ensures
            final(self).well_formed(),
            final(self).pairs() == sorted_insert(old(self).pairs(), key@, value@),
    {
        let ghost before = self.pairs();
        let ghost k = key@;
        let ghost v = value@;
        let mut i: usize = 0;
        while i < self.entries.len() && lex_less(self.entries[i].0.as_str(), key.as_str())
            invariant
                i <= self.entries@.len(),
                before == self.pairs(),
                keys_sorted(before),
                k == key@,
                forall|j: int| 0 <= j < i ==> lex_lt(#[trigger] before[j].0, k),
            decreases self.entries@.len() - i,
        {
            i = i + 1;
        }
        let ghost after: Seq<Pair>;
        if i < self.entries.len() && str_eq(self.entries[i].0.as_str(), key.as_str()) {
            self.entries.remove(i);
            self.entries.insert(i, (key, value));
            proof {
                after = before.update(i as int, (k, v));
                assert(self.pairs() =~= after);
            }
        } else {
            self.entries.insert(i, (key, value));
            proof {
                after = before.insert(i as int, (k, v));
                assert(self.pairs() =~= after);
            }
        }
        proof {
            lemma_insert_at_position(before, k, v, i as int);
            lemma_sorted_insert_sorted(before, k, v);
        }
    }

    /// The query string of the pairs, in key order: `key=value` with both percent-encoded,
    /// joined by `&`.
    pub fn to_query(&self) -> (q: String)
        ensures
            q@ == canonical_query(self.pairs()),
    {
        let mut q = String::new();
        let mut i: usize = 0;
        while i < self.entries.len()
            invariant
                i <= self.entries@.len(),
                self.pairs().len() == self.entries@.len(),
                q@ == canonical_query(self.pairs().take(i as int)),
            decreases self.entries@.len() - i,
        {
            if i > 0 {
                q.append("&");
            }
            let k = url_encode(self.entries[i].0.as_str());
            let v = url_encode(self.entries[i].1.as_str());
            q.append(k.as_str());
            q.append("=");
            q.append(v.as_str());
            proof {
                let t = self.pairs().take(i as int + 1);
                assert(t.drop_last() =~= self.pairs().take(i as int));
                assert(t.last() == pair_view(self.entries@[i as int]));
                if i == 0 {
                    assert(self.pairs().take(0) =~= Seq::<Pair>::empty());
                }
            }
            i = i + 1;
        }
        assert(self.pairs().take(self.entries@.len() as int) =~= self.pairs());
        q
    }
}

/// Where the insertion loop stops, `sorted_insert` replaces or inserts.
proof fn lemma_insert_at_position(pairs: Seq<Pair>, k: Seq<char>, v: Seq<char>, i: int)
    requires
        keys_sorted(pairs),
        0 <= i <= pairs.len(),
        forall|j: int| 0 <= j < i ==> lex_lt(#[trigger] pairs[j].0, k),
        i < pairs.len() ==> !lex_lt(pairs[i].0, k),
    ensures
        i < pairs.len() && pairs[i].0 == k ==> sorted_insert(pairs, k, v) == pairs.update(i, (k, v)),
        !(i < pairs.len() && pairs[i].0 == k) ==> sorted_insert(pairs, k, v) == pairs.insert(i, (k, v)),
    decreases i,
{
    if i == 0 {
        if pairs.len() > 0 && pairs[0].0 == k {
            assert(seq![(k, v)] + pairs.drop_first() =~= pairs.update(0, (k, v)));
        } else if pairs.len() == 0 {
            assert(seq![(k, v)] =~= pairs.insert(0, (k, v)));
        } else {
            assert(seq![(k, v)] + pairs =~= pairs.insert(0, (k, v)));
        }
    } else {
        let rest = pairs.drop_first();
        assert(keys_sorted(rest)) by {
            assert forall|a: int, b: int| 0 <= a < b < rest.len() implies lex_lt(rest[a].0, rest[b].0) by {
                assert(rest[a] == pairs[a + 1]);
                assert(rest[b] == pairs[b + 1]);
            }
        }
        assert forall|j: int| 0 <= j < i - 1 implies lex_lt(#[trigger] rest[j].0, k) by {
            assert(rest[j] == pairs[j + 1]);
        }
        lemma_insert_at_position(rest, k, v, i - 1);
        assert(lex_lt(pairs[0].0, k));
        lemma_lex_irreflexive(k);
        assert(pairs[0].0 != k);
        if i < pairs.len() && pairs[i].0 == k {
            assert(rest[i - 1] == pairs[i]);
            assert(seq![pairs[0]] + rest.update(i - 1, (k, v)) =~= pairs.update(i, (k, v)));
        } else {
            if i < pairs.len() {
                assert(rest[i - 1] == pairs[i]);
            }
            assert(seq![pairs[0]] + rest.insert(i - 1, (k, v)) =~= pairs.insert(i, (k, v)));
        }
    }
}

/// One encoded pair: `key=value`, both percent-encoded.
pub open spec fn encoded_pair(p: Pair) -> Seq<char> {
    spec_url_encode(p.0) + "="@ + spec_url_encode(p.1)
}

/// The encoded pairs joined by `&`.
pub open spec fn canonical_query(pairs: Seq<Pair>) -> Seq<char>
    decreases pairs.len(),
{
    if pairs.len() == 0 {
        Seq::empty()
    } else if pairs.len() == 1 {
        encoded_pair(pairs[0])
    } else {
        canonical_query(pairs.drop_last()) + "&"@ + encoded_pair(pairs.last())
    }
}

/// The pairs after inserting each of `kvs` in turn (later pairs win for a repeated key).
pub open spec fn insert_all(pairs: Seq<Pair>, kvs: Seq<Pair>) -> Seq<Pair>
    decreases kvs.len(),
{
    if kvs.len() == 0 {
        pairs
    } else {
        sorted_insert(insert_all(pairs, kvs.drop_last()), kvs.last().0, kvs.last().1)
    }
}

/// The map holding exactly the given pairs, inserted in order.
pub open spec fn map_of(kvs: Seq<Pair>) -> Seq<Pair> {
    insert_all(Seq::empty(), kvs)
}

impl QueryParams {
    /// Inserts each of `kvs` in turn.
    fn insert_pairs(&mut self, kvs: Vec<(String, String)>)
        requires
            old(self).well_formed(),
        ensures
            final(self).well_formed(),
            final(self).pairs() == insert_all(
                old(self).pairs(),
                pairs_of(kvs@),
            ),
    {
        let ghost before = self.pairs();
        let ghost all = pairs_of(kvs@);
        let n = kvs.len();
        let mut rev = reversed(kvs);
        let mut i: usize = 0;
        while i < n
            invariant
                n == all.len(),
                rev@.len() + i == n,
                pairs_of(rev@) == all.skip(i as int).reverse(),
                self.well_formed(),
                self.pairs() == insert_all(before, all.take(i as int)),
            decreases n - i,
        {
            let ghost rv = rev@;
            let (k, v) = rev.pop().unwrap();
            proof {
                assert(pairs_of(rv).last() == pair_view(rv.last()));
                assert(all.skip(i as int).reverse().last() == all[i as int]);
                assert(rev@ =~= rv.drop_last());
                assert(pairs_of(rv.drop_last()) =~= pairs_of(rv).drop_last());
                assert(all.skip(i as int + 1).reverse() =~= all.skip(i as int).reverse().drop_last());
                assert(all.take(i as int + 1).drop_last() =~= all.take(i as int));
            }
            self.insert(k, v);
            i = i + 1;
        }
        assert(all.take(n as int) =~= all);
    }

    /// Inserts every pair of `other`, in its key order (a later value replaces an earlier one
    /// under the same key).
    pub fn extend(&mut self, other: QueryParams)
        requires
            old(self).well_formed(),
        ensures
            final(self).well_formed(),
            final(self).pairs() == insert_all(old(self).pairs(), other.pairs()),
    {
        self.insert_pairs(other.entries);
    }
}

// ---------------------------------------------------------------------------------------------
// Signing
// ---------------------------------------------------------------------------------------------

/// The text that is signed: `GET&` + `%2F` + `&` + the percent-encoded canonical query.
pub open spec fn ali_string_to_sign(pairs: Seq<Pair>) -> Seq<char> {
    "GET&"@ + spec_url_encode("/"@) + "&"@ + spec_url_encode(canonical_query(pairs))
}

/// The signature of the pairs under the AccessKey secret: Base64 of HMAC-SHA1 keyed with
/// `secret&` over the string to sign.
pub open spec fn ali_signature(secret: Seq<char>, pairs: Seq<Pair>) -> Seq<char> {
    spec_base64(
        spec_hmac_sha1(encode_utf8(secret + "&"@), encode_utf8(ali_string_to_sign(pairs))),
    )
}

/// The parameters every request carries: format, API version, key id, signature method,
/// timestamp, signature version and nonce, in the order they are inserted.
pub open spec fn common_pairs(key_id: Seq<char>, timestamp: Seq<char>, nonce: Seq<char>) -> Seq<
    Pair,
> {
    seq![
        ("Format"@, "JSON"@),
        ("Version"@, "2015-01-09"@),
        ("AccessKeyId"@, key_id),
        ("SignatureMethod"@, "HMAC-SHA1"@),
        ("Timestamp"@, timestamp),
        ("SignatureVersion"@, "1.0"@),
        ("SignatureNonce"@, nonce),
    ]
}

/// The parameters before signing: the common ones, `Action`, then the action's own.
pub open spec fn unsigned_pairs(common: Seq<Pair>, action: Seq<char>, extra: Seq<Pair>) -> Seq<
    Pair,
> {
    insert_all(sorted_insert(common, "Action"@, action), extra)
}

/// The parameters of a request: the unsigned ones and their `Signature`.
pub open spec fn signed_pairs(
    secret: Seq<char>,
    common: Seq<Pair>,
    action: Seq<char>,
    extra: Seq<Pair>,
) -> Seq<Pair> {
    let unsigned = unsigned_pairs(common, action, extra);
    sorted_insert(unsigned, "Signature"@, ali_signature(secret, unsigned))
}

/// The request URL for the given parameters.
pub open spec fn ali_url(pairs: Seq<Pair>) -> Seq<char> {
    "https://alidns.aliyuncs.com/?"@ + canonical_query(pairs)
}

/// Inserting pairs one by one into a key-sorted sequence keeps it key-sorted.
pub proof fn lemma_insert_all_sorted(pairs: Seq<Pair>, kvs: Seq<Pair>)
    requires
        keys_sorted(pairs),
    ensures
        keys_sorted(insert_all(pairs, kvs)),
    decreases kvs.len(),
{
    if kvs.len() > 0 {
        lemma_insert_all_sorted(pairs, kvs.drop_last());
        lemma_sorted_insert_sorted(insert_all(pairs, kvs.drop_last()), kvs.last().0, kvs.last().1);
    }
}

/// A request's parameters are sorted by key (each key once), and `Signature` holds the
/// signature of all the other parameters.
pub proof fn lemma_signed_pairs(
    secret: Seq<char>,
    common: Seq<Pair>,
    action: Seq<char>,
    extra: Seq<Pair>,
)
    requires
        keys_sorted(common),
    ensures
        keys_sorted(signed_pairs(secret, common, action, extra)),
        lookup(signed_pairs(secret, common, action, extra), "Signature"@) == Some(
            ali_signature(secret, unsigned_pairs(common, action, extra)),
        ),
{
    lemma_sorted_insert_sorted(common, "Action"@, action);
    let with_action = sorted_insert(common, "Action"@, action);
    lemma_insert_all_sorted(with_action, extra);
    let unsigned = unsigned_pairs(common, action, extra);
    let sig = ali_signature(secret, unsigned);
    lemma_sorted_insert_sorted(unsigned, "Signature"@, sig);
    lemma_sorted_insert_lookup(unsigned, "Signature"@, sig, "Signature"@);
}

/// The string to sign for a parameter map.
fn string_to_sign(params: &QueryParams) -> (s: String)
    ensures
        s@ == ali_string_to_sign(params.pairs()),
{
    let canonical = params.to_query();
    let mut s = owned("GET&");
    let root = url_encode("/");
    s.append(root.as_str());
    s.append("&");
    let query = url_encode(canonical.as_str());
    s.append(query.as_str());
    s
}

/// AliDNS access: an AccessKey id and secret.
pub struct AliDnsProvider {
    access_key_id: String,
    access_key_secret: String,
}

impl AliDnsProvider {
    /// The AccessKey id.
    pub closed spec fn key_id(&self) -> Seq<char> {
        self.access_key_id@
    }

    /// The AccessKey secret.
    pub closed spec fn key_secret(&self) -> Seq<char> {
        self.access_key_secret@
    }

    /// A provider using the given AccessKey.
    pub fn new(access_key_id: String, access_key_secret: String) -> (p: AliDnsProvider)
        ensures
            p.key_id() == access_key_id@,
            p.key_secret() == access_key_secret@,
    {
        AliDnsProvider { access_key_id, access_key_secret }
    }

    /// The signature of a parameter map (always `Ok`: HMAC takes keys of any length).
    pub fn sign(&self, params: &QueryParams) -> (r: Result<String, ProviderError>)
        ensures
            r matches Ok(sig) && sig@ == ali_signature(self.key_secret(), params.pairs())
                && sig@.len() == 28,
    {
        let text = string_to_sign(params);
        let mut key = self.access_key_secret.clone();
        key.append("&");
        let tag = hmac_sha1(key.as_str().as_bytes(), text.as_str().as_bytes());
        proof {
            lemma_base64_len(tag@);
        }
        Ok(base64_standard(tag.as_slice()))
    }

    /// The common parameters for the given timestamp and nonce.
    pub fn common_params_at(&self, timestamp: &str, nonce: &str) -> (m: QueryParams)
        ensures
            m.well_formed(),
            m.pairs() == map_of(common_pairs(self.key_id(), timestamp@, nonce@)),
    {
        let kvs = vec![
            (owned("Format"), owned("JSON")),
            (owned("Version"), owned("2015-01-09")),
            (owned("AccessKeyId"), self.access_key_id.clone()),
            (owned("SignatureMethod"), owned("HMAC-SHA1")),
            (owned("Timestamp"), owned(timestamp)),
            (owned("SignatureVersion"), owned("1.0")),
            (owned("SignatureNonce"), owned(nonce)),
        ];
        let mut m = QueryParams::new();
        assert(pairs_of(kvs@) =~= common_pairs(
            self.key_id(),
            timestamp@,
            nonce@,
        ));
        m.insert_pairs(kvs);
        m
    }

    /// The common parameters, stamped with the current UTC second
    /// (`YYYY-MM-DDTHH:MM:SSZ`) and a fresh UUID v4 nonce.
    pub fn common_params(&self) -> (m: QueryParams)
        ensures
            m.well_formed(),
            exists|secs: i64, nonce: u128|
                spec_utc_iso_seconds_text(secs) is Some && uuid_text(nonce)[14] == '4' && m.pairs()
                    == map_of(
                    #[trigger] common_pairs(
                        self.key_id(),
                        spec_utc_iso_seconds_text(secs)->0,
                        uuid_text(nonce),
                    ),
                ),
    {
        let (secs, _nanos) = utc_now_parts();
        let timestamp = match utc_iso_seconds_text(secs) {
            Some(t) => t,
            None => String::new(),
        };
        let nonce = random_uuid_text();
        let m = self.common_params_at(timestamp.as_str(), nonce.as_str());
        let ghost id = choose|id: u128| nonce@ == uuid_text(id);
        assert(m.pairs() == map_of(
            common_pairs(self.key_id(), spec_utc_iso_seconds_text(secs)->0, uuid_text(id)),
        ));
        m
    }

    /// Adds `Action` and the action's parameters to `params`, signs them, and renders the URL.
    fn url_from_params(&self, params: QueryParams, action: &str, extra: QueryParams) -> (r: Result<
        String,
        ProviderError,
    >)
        requires
            params.well_formed(),
        ensures
            r matches Ok(u) && u@ == ali_url(
                signed_pairs(self.key_secret(), params.pairs(), action@, extra.pairs()),
            ),
    {
        let mut params = params;
        params.insert(owned("Action"), owned(action));
        params.extend(extra);
        let signature = match self.sign(&params) {
            Ok(sig) => sig,
            Err(e) => {
                return Err(e);
            },
        };
        params.insert(owned("Signature"), signature);
        let query = params.to_query();
        let mut url = owned("https://alidns.aliyuncs.com/?");
        url.append(query.as_str());
        Ok(url)
    }

    /// The signed request URL for `action` with its parameters, for the given timestamp and
    /// nonce.
    pub fn build_url_at(&self, action: &str, extra: QueryParams, timestamp: &str, nonce: &str) -> (r:
        Result<String, ProviderError>)
        ensures
            r matches Ok(u) && u@ == ali_url(
                signed_pairs(
                    self.key_secret(),
                    map_of(common_pairs(self.key_id(), timestamp@, nonce@)),
                    action@,
                    extra.pairs(),
                ),
            ),
    {
        let params = self.common_params_at(timestamp, nonce);
        self.url_from_params(params, action, extra)
    }

    /// The signed request URL for `action` with its parameters, stamped now with a fresh nonce.
    pub fn build_url(&self, action: &str, extra: QueryParams) -> (r: Result<String, ProviderError>)
        ensures
            r matches Ok(u) && exists|secs: i64, nonce: u128|
                spec_utc_iso_seconds_text(secs) is Some && uuid_text(nonce)[14] == '4' && u@
                    == ali_url(
                    signed_pairs(
                        self.key_secret(),
                        map_of(
                            #[trigger] common_pairs(
                                self.key_id(),
                                spec_utc_iso_seconds_text(secs)->0,
                                uuid_text(nonce),
                            ),
                        ),
                        action@,
                        extra.pairs(),
                    ),
                ),
    {
        let params = self.common_params();
        self.url_from_params(params, action, extra)
    }

    /// Reads a record type string (see `cloudflare::parse_record_type`).
    pub fn parse_record_type(t: &str) -> (r: RecordType)
        ensures
            r == spec_parse_record_type(t@),
    {
        parse_type_text(t)
    }
}

// ---------------------------------------------------------------------------------------------
// Parameters per action
// ---------------------------------------------------------------------------------------------

/// A pair for an optional value: one pair when present, none when absent.
pub open spec fn opt_pair(key: Seq<char>, v: Option<Seq<char>>) -> Seq<Pair> {
    match v {
        Some(t) => seq![(key, t)],
        None => Seq::empty(),
    }
}

/// The decimal text of an optional number.
pub open spec fn opt_decimal(v: Option<u32>) -> Option<Seq<char>> {
    match v {
        Some(n) => Some(decimal(n as nat)),
        None => None,
    }
}

/// The text of an optional string.
pub open spec fn opt_text(v: Option<String>) -> Option<Seq<char>> {
    match v {
        Some(t) => Some(t@),
        None => None,
    }
}

/// A map holding the given pairs, inserted in order.
fn map_from(kvs: Vec<(String, String)>) -> (m: QueryParams)
    ensures
        m.well_formed(),
        m.pairs() == map_of(pairs_of(kvs@)),
{
    let mut m = QueryParams::new();
    m.insert_pairs(kvs);
    m
}

fn push_pair(v: &mut Vec<(String, String)>, key: &str, value: String)
    ensures
        pairs_of(final(v)@) == pairs_of(old(v)@).push((key@, value@)),
{
    v.push((owned(key), value));
    assert(pairs_of(v@) =~= pairs_of(old(v)@).push((key@, v@.last().1@)));
}

fn push_opt_pair(v: &mut Vec<(String, String)>, key: &str, value: Option<String>)
    ensures
        pairs_of(final(v)@) == pairs_of(old(v)@) + opt_pair(key@, opt_text(value)),
{
    match value {
        Some(t) => {
            push_pair(v, key, t);
            assert(pairs_of(v@) =~= pairs_of(old(v)@) + opt_pair(key@, opt_text(value)));
        },
        None => {
            assert(pairs_of(v@) =~= pairs_of(old(v)@) + Seq::<Pair>::empty());
        },
    }
}

fn opt_decimal_text(v: Option<u32>) -> (r: Option<String>)
    ensures
        opt_text(r) == opt_decimal(v),
{
    match v {
        Some(n) => Some(decimal_u64(n as u64)),
        None => None,
    }
}

/// Parameters naming a domain: `DomainId`.
pub fn domain_params(domain_id: &str) -> (m: QueryParams)
    ensures
        m.well_formed(),
        m.pairs() == map_of(seq![("DomainId"@, domain_id@)]),
{
    let mut kvs: Vec<(String, String)> = Vec::new();
    push_pair(&mut kvs, "DomainId", owned(domain_id));
    assert(pairs_of(kvs@) =~= seq![("DomainId"@, domain_id@)]);
    map_from(kvs)
}

/// Parameters of `AddDomainRecord`: domain, host record, type, value, TTL, and the priority
/// when the request has one.
pub fn create_record_params(domain_id: &str, record: &CreateRecordRequest) -> (m: QueryParams)
    ensures
        m.well_formed(),
        m.pairs() == map_of(
            seq![
                ("DomainId"@, domain_id@),
                ("RR"@, record.name@),
                ("Type"@, record_type_name(record.record_type)),
                ("Value"@, record.content@),
                ("TTL"@, decimal(record.ttl as nat)),
            ] + opt_pair("Priority"@, opt_decimal(record.priority)),
        ),
{
    let mut kvs: Vec<(String, String)> = Vec::new();
    push_pair(&mut kvs, "DomainId", owned(domain_id));
    push_pair(&mut kvs, "RR", record.name.clone());
    push_pair(&mut kvs, "Type", record.record_type.to_display_string());
    push_pair(&mut kvs, "Value", record.content.clone());
    push_pair(&mut kvs, "TTL", decimal_u64(record.ttl as u64));
    let ghost fixed = pairs_of(kvs@);
    assert(fixed =~= seq![
        ("DomainId"@, domain_id@),
        ("RR"@, record.name@),
        ("Type"@, record_type_name(record.record_type)),
        ("Value"@, record.content@),
        ("TTL"@, decimal(record.ttl as nat)),
    ]);
    push_opt_pair(&mut kvs, "Priority", opt_decimal_text(record.priority));
    map_from(kvs)
}

/// The optional parameters of an update, each present when the request sets it: type, host
/// record, value, TTL, priority.
pub open spec fn update_optional_pairs(record: UpdateRecordRequest) -> Seq<Pair> {
    opt_pair(
        "Type"@,
        match record.record_type {
            Some(t) => Some(record_type_name(t)),
            None => None,
        },
    ) + opt_pair("RR"@, opt_text(record.name)) + opt_pair("Value"@, opt_text(record.content))
        + opt_pair("TTL"@, opt_decimal(record.ttl)) + opt_pair(
        "Priority"@,
        opt_decimal(record.priority),
    )
}

/// Parameters of `UpdateDomainRecord`: record, domain, then the fields the request sets.
pub fn update_record_params(domain_id: &str, record_id: &str, record: &UpdateRecordRequest) -> (m:
    QueryParams)
    ensures
        m.well_formed(),
        m.pairs() == map_of(
            seq![("RecordId"@, record_id@), ("DomainId"@, domain_id@)] + update_optional_pairs(
                *record,
            ),
        ),
{
    let mut kvs: Vec<(String, String)> = Vec::new();
    push_pair(&mut kvs, "RecordId", owned(record_id));
    push_pair(&mut kvs, "DomainId", owned(domain_id));
    let ghost p0 = pairs_of(kvs@);
    assert(p0 =~= seq![("RecordId"@, record_id@), ("DomainId"@, domain_id@)]);
    let type_text = match record.record_type {
        Some(t) => Some(t.to_display_string()),
        None => None,
    };
    push_opt_pair(&mut kvs, "Type", type_text);
    push_opt_pair(&mut kvs, "RR", copy_opt_string(&record.name));
    push_opt_pair(&mut kvs, "Value", copy_opt_string(&record.content));
    push_opt_pair(&mut kvs, "TTL", opt_decimal_text(record.ttl));
    push_opt_pair(&mut kvs, "Priority", opt_decimal_text(record.priority));
    assert(pairs_of(kvs@) =~= p0 + update_optional_pairs(*record));
    map_from(kvs)
}

/// Parameters of `DeleteDomainRecord`: record and domain.
pub fn delete_record_params(domain_id: &str, record_id: &str) -> (m: QueryParams)
    ensures
        m.well_formed(),
        m.pairs() == map_of(seq![("RecordId"@, record_id@), ("DomainId"@, domain_id@)]),
{
    let mut kvs: Vec<(String, String)> = Vec::new();
    push_pair(&mut kvs, "RecordId", owned(record_id));
    push_pair(&mut kvs, "DomainId", owned(domain_id));
    assert(pairs_of(kvs@) =~= seq![("RecordId"@, record_id@), ("DomainId"@, domain_id@)]);
    map_from(kvs)
}

/// Parameters of a record search: domain, keyword, and `SearchMode=LIKE`.
pub fn search_records_params(domain_id: &str, query: &str) -> (m: QueryParams)
    ensures
        m.well_formed(),
        m.pairs() == map_of(
            seq![("DomainId"@, domain_id@), ("KeyWord"@, query@), ("SearchMode"@, "LIKE"@)],
        ),
{
    let mut kvs: Vec<(String, String)> = Vec::new();
    push_pair(&mut kvs, "DomainId", owned(domain_id));
    push_pair(&mut kvs, "KeyWord", owned(query));
    push_pair(&mut kvs, "SearchMode", owned("LIKE"));
    assert(pairs_of(kvs@) =~= seq![
        ("DomainId"@, domain_id@),
        ("KeyWord"@, query@),
        ("SearchMode"@, "LIKE"@),
    ]);
    map_from(kvs)
}

// ---------------------------------------------------------------------------------------------
// Responses
// ---------------------------------------------------------------------------------------------

/// The error body of an AliDNS response.
pub struct AliDnsErrorBody {
    pub code: Option<String>,
    pub message: Option<String>,
}

/// The text of an optional string, empty when absent.
pub open spec fn text_or_empty(v: Option<String>) -> Seq<char> {
    match v {
        Some(t) => t@,
        None => Seq::empty(),
    }
}

fn string_or_empty(v: Option<String>) -> (s: String)
    ensures
        s@ == text_or_empty(v),
{
    match v {
        Some(t) => t,
        None => String::new(),
    }
}

/// The error an error body stands for: `AliDns` with its code and message (each empty when
/// absent).
pub fn error_body_error(body: AliDnsErrorBody) -> (e: ProviderError)
    ensures
        e matches ProviderError::AliDns { code, message } && code@ == text_or_empty(body.code)
            && message@ == text_or_empty(body.message),
{
    ProviderError::AliDns {
        code: string_or_empty(body.code),
        message: string_or_empty(body.message),
    }
}

/// The error of an error body that could not be read.
pub fn error_parse_error(detail: &str) -> (e: ProviderError)
    ensures
        e matches ProviderError::Deserialization(m) && m@ == "AliDNS error parse: "@ + detail@,
{
    ProviderError::Deserialization(prefixed("AliDNS error parse: ", detail))
}

/// The error of a response body that could not be read.
pub fn response_parse_error(detail: &str) -> (e: ProviderError)
    ensures
        e matches ProviderError::Deserialization(m) && m@ == "AliDNS response parse: "@ + detail@,
{
    ProviderError::Deserialization(prefixed("AliDNS response parse: ", detail))
}

/// The error of a refused domain lookup or record listing.
pub fn domain_not_found() -> (e: ProviderError)
    ensures
        e matches ProviderError::NotFound(m) && m@ == "Domain not found"@,
{
    ProviderError::NotFound(owned("Domain not found"))
}

/// The error of a refused record update or deletion.
pub fn record_not_found() -> (e: ProviderError)
    ensures
        e matches ProviderError::NotFound(m) && m@ == "Record not found"@,
{
    ProviderError::NotFound(owned("Record not found"))
}

/// The error of a refused record creation.
pub fn create_refused() -> (e: ProviderError)
    ensures
        e matches ProviderError::BadRequest(m) && m@ == "Failed to create record"@,
{
    ProviderError::BadRequest(owned("Failed to create record"))
}

/// A domain object of the API.
pub struct AliDnsDomain {
    pub domain_id: String,
    pub domain_name: String,
    pub record_count: Option<u32>,
    pub create_time: Option<String>,
    pub dns_servers: Option<Vec<String>>,
}

/// A record object of the API.
pub struct AliDnsRecord {
    pub record_id: String,
    pub record_type: String,
    pub rr: String,
    pub value: String,
    pub ttl: u32,
    pub priority: Option<u32>,
    pub status: String,
}

/// `d` is the domain the API object `x` describes: its id and name, status `active`, the
/// record count (0 when absent), the RFC 3339 creation time, and its DNS servers (none when
/// absent).
pub open spec fn is_alidns_domain(d: Domain, x: AliDnsDomain) -> bool {
    &&& d.id == x.domain_id
    &&& d.provider == ProviderType::AliDns
    &&& d.name == x.domain_name
    &&& d.status@ == "active"@
    &&& d.record_count == (match x.record_count {
        Some(n) => n,
        None => 0,
    })
    &&& d.created_on == opt_rfc3339(x.create_time)
    &&& d.name_servers@ == (match x.dns_servers {
        Some(v) => v@,
        None => Seq::empty(),
    })
}

/// The domain an API object describes.
pub fn domain_from_api(x: AliDnsDomain) -> (d: Domain)
    ensures
        is_alidns_domain(d, x),
{
    let created_on = optional_rfc3339(&x.create_time);
    Domain {
        id: x.domain_id,
        provider: ProviderType::AliDns,
        name: x.domain_name,
        status: owned("active"),
        record_count: match x.record_count {
            Some(n) => n,
            None => 0,
        },
        created_on,
        name_servers: match x.dns_servers {
            Some(v) => v,
            None => Vec::new(),
        },
    }
}

/// The domains of a domain-list response, in order (none when it has no list).
pub fn domains_from_list(list: Option<Vec<AliDnsDomain>>) -> (ds: Vec<Domain>)
    ensures
        ds@.len() == (match list {
            Some(v) => v@.len(),
            None => 0,
        }),
        forall|i: int| 0 <= i < ds@.len() ==> is_alidns_domain(#[trigger] ds@[i], list->0@[i]),
{
    let mut ds: Vec<Domain> = Vec::new();
    match list {
        Some(v) => {
            let ghost all = v@;
            let n = v.len();
            let mut rev = reversed(v);
            while rev.len() > 0
                invariant
                    n == all.len(),
                    ds@.len() + rev@.len() == n,
                    rev@ == all.skip(ds@.len() as int).reverse(),
                    forall|i: int| 0 <= i < ds@.len() ==> is_alidns_domain(#[trigger] ds@[i], all[i]),
                decreases rev@.len(),
            {
                let ghost k = ds@.len() as int;
                let x = rev.pop().unwrap();
                assert(x == all[k]);
                ds.push(domain_from_api(x));
                assert(all.skip(k + 1).reverse() =~= all.skip(k).reverse().drop_last());
            }
        },
        None => {},
    }
    ds
}

/// The domain of a single-domain response: the first domain listed, or
/// `NotFound("Domain not found")` when there is none.
pub fn domain_from_list(list: Option<Vec<AliDnsDomain>>) -> (r: Result<Domain, ProviderError>)
    ensures
        match list {
            Some(v) if v@.len() > 0 => r matches Ok(d) && is_alidns_domain(d, v@[0]),
            _ => r matches Err(ProviderError::NotFound(m)) && m@ == "Domain not found"@,
        },
{
    match list {
        Some(v) => {
            let ghost all = v@;
            let mut rev = reversed(v);
            if rev.len() > 0 {
                let x = rev.pop().unwrap();
                assert(x == all[0]);
                Ok(domain_from_api(x))
            } else {
                Err(domain_not_found())
            }
        },
        None => Err(domain_not_found()),
    }
}

/// `r` is the record the API object `x` describes within the given domain: its id, no domain
/// name, the type read case-insensitively, host record, value, TTL, priority, `locked`
/// meaning the status is `ENABLE`, and no times.
pub open spec fn is_alidns_record(r: DnsRecord, domain_id: Seq<char>, x: AliDnsRecord) -> bool {
    &&& r.id == x.record_id
    &&& r.provider == ProviderType::AliDns
    &&& r.domain_id@ == domain_id
    &&& r.domain_name@.len() == 0
    &&& r.record_type == spec_parse_record_type(x.record_type@)
    &&& r.name == x.rr
    &&& r.content == x.value
    &&& r.ttl == x.ttl
    &&& r.priority == x.priority
    &&& r.proxied is None
    &&& r.locked == Some(x.status@ == "ENABLE"@)
    &&& r.created_on is None
    &&& r.updated_on is None
}

/// The record an API object describes.
pub fn record_from_api(domain_id: &str, x: AliDnsRecord) -> (r: DnsRecord)
    ensures
        is_alidns_record(r, domain_id@, x),
{
    let record_type = AliDnsProvider::parse_record_type(x.record_type.as_str());
    let enabled = str_eq(x.status.as_str(), "ENABLE");
    DnsRecord {
        id: x.record_id,
        provider: ProviderType::AliDns,
        domain_id: owned(domain_id),
        domain_name: String::new(),
        record_type,
        name: x.rr,
        content: x.value,
        ttl: x.ttl,
        priority: x.priority,
        proxied: None,
        locked: Some(enabled),
        created_on: None,
        updated_on: None,
    }
}

/// The records of a record-list response, in order (none when it has no list).
pub fn records_from_list(domain_id: &str, list: Option<Vec<AliDnsRecord>>) -> (rs: Vec<DnsRecord>)
    ensures
        rs@.len() == (match list {
            Some(v) => v@.len(),
            None => 0,
        }),
        forall|i: int| 0 <= i < rs@.len() ==> is_alidns_record(#[trigger] rs@[i], domain_id@, list->0@[i]),
{
    let mut rs: Vec<DnsRecord> = Vec::new();
    match list {
        Some(v) => {
            let ghost all = v@;
            let n = v.len();
            let mut rev = reversed(v);
            while rev.len() > 0
                invariant
                    n == all.len(),
                    rs@.len() + rev@.len() == n,
                    rev@ == all.skip(rs@.len() as int).reverse(),
                    forall|i: int|
                        0 <= i < rs@.len() ==> is_alidns_record(#[trigger] rs@[i], domain_id@, all[i]),
                decreases rev@.len(),
            {
                let ghost k = rs@.len() as int;
                let x = rev.pop().unwrap();
                assert(x == all[k]);
                rs.push(record_from_api(domain_id, x));
                assert(all.skip(k + 1).reverse() =~= all.skip(k).reverse().drop_last());
            }
        },
        None => {},
    }
    rs
}

/// The record a successful create request stands for: the new record id, the domain, the
/// request's fields, and the creation and update times `now`.
pub fn created_record(
    domain_id: &str,
    record: &CreateRecordRequest,
    record_id: String,
    now: UtcTimestamp,
) -> (r: DnsRecord)
    ensures
        r.id == record_id,
        r.provider == ProviderType::AliDns,
        r.domain_id@ == domain_id@,
        r.domain_name@.len() == 0,
        r.record_type == record.record_type,
        r.name == record.name,
        r.content == record.content,
        r.ttl == record.ttl,
        r.priority == record.priority,
        r.proxied is None,
        r.locked is None,
        r.created_on == Some(now),
        r.updated_on == Some(now),
{
    DnsRecord {
        id: record_id,
        provider: ProviderType::AliDns,
        domain_id: owned(domain_id),
        domain_name: String::new(),
        record_type: record.record_type,
        name: record.name.clone(),
        content: record.content.clone(),
        ttl: record.ttl,
        priority: record.priority,
        proxied: None,
        locked: None,
        created_on: Some(now),
        updated_on: Some(now),
    }
}

/// The record a successful update stands for: the record and domain ids, the request's fields
/// with defaults (`A`, empty name and content, TTL 600) for those it leaves out, updated `now`.
pub fn updated_record(domain_id: &str, record_id: &str, record: &UpdateRecordRequest, now: UtcTimestamp) -> (r: DnsRecord)
    ensures
        r.id@ == record_id@,
        r.provider == ProviderType::AliDns,
        r.domain_id@ == domain_id@,
        r.domain_name@.len() == 0,
        r.record_type == (match record.record_type {
            Some(t) => t,
            None => RecordType::A,
        }),
        r.name@ == text_or_empty(record.name),
        r.content@ == text_or_empty(record.content),
        r.ttl == (match record.ttl {
            Some(t) => t,
            None => 600,
        }),
        r.priority == record.priority,
        r.proxied is None,
        r.locked is None,
        r.created_on is None,
        r.updated_on == Some(now),
{
    DnsRecord {
        id: owned(record_id),
        provider: ProviderType::AliDns,
        domain_id: owned(domain_id),
        domain_name: String::new(),
        record_type: match record.record_type {
            Some(t) => t,
            None => RecordType::A,
        },
        name: string_or_empty(copy_opt_string(&record.name)),
        content: string_or_empty(copy_opt_string(&record.content)),
        ttl: match record.ttl {
            Some(t) => t,
            None => 600,
        },
        priority: record.priority,
        proxied: None,
        locked: None,
        created_on: None,
        updated_on: Some(now),
    }
}

/// The zone file of a domain from its records (`$TTL 600`, names as stored).
pub fn export_zone_text(domain_name: &str, records: &Vec<DnsRecord>) -> (zone: String)
    ensures
        zone@ == plain_zone_text(domain_name@, records@),
{
    plain_zone(domain_name, records)
}

// ---------------------------------------------------------------------------------------------
// Paginated record listings
// ---------------------------------------------------------------------------------------------

/// The records asked for per page of a record listing (the API's largest `PageSize`).
pub const RECORD_PAGE_SIZE: u64 = 500;

/// Parameters asking for one page of a domain's records: `DomainId`, `PageNumber` (from 1)
/// and `PageSize`.
pub fn record_page_params(domain_id: &str, page_number: u64, page_size: u64) -> (m: QueryParams)
    ensures
        m.well_formed(),
        m.pairs() == map_of(
            seq![
                ("DomainId"@, domain_id@),
                ("PageNumber"@, decimal(page_number as nat)),
                ("PageSize"@, decimal(page_size as nat)),
            ],
        ),
{
    let mut kvs: Vec<(String, String)> = Vec::new();
    push_pair(&mut kvs, "DomainId", owned(domain_id));
    push_pair(&mut kvs, "PageNumber", decimal_u64(page_number));
    push_pair(&mut kvs, "PageSize", decimal_u64(page_size));
    assert(pairs_of(kvs@) =~= seq![
        ("DomainId"@, domain_id@),
        ("PageNumber"@, decimal(page_number as nat)),
        ("PageSize"@, decimal(page_size as nat)),
    ]);
    map_from(kvs)
}

/// The number of the next page of a listing, after page `page_number` (of `page_size`
/// records) came back with `page_len` records out of `total`: none once the pages so far cover
/// the total or a page comes back empty.
pub open spec fn next_page(page_number: u64, page_size: u64, page_len: nat, total: u64) -> Option<
    u64,
> {
    if page_len > 0 && page_number * page_size < total && page_number < u64::MAX {
        Some((page_number + 1) as u64)
    } else {
        None
    }
}

/// The number of the next page to fetch (see `next_page`).
pub fn next_record_page(page_number: u64, page_size: u64, page_len: usize, total: u64) -> (r:
    Option<u64>)
    ensures
        r == next_page(page_number, page_size, page_len as nat, total),
{
    let a: u128 = page_number as u128;
    let b: u128 = page_size as u128;
    assert(a * b <= u64::MAX as int * u64::MAX as int) by (nonlinear_arith)
        requires
            a <= u64::MAX,
            b <= u64::MAX,
    ;
    let covered: u128 = a * b;
    if page_len > 0 && covered < total as u128 && page_number < u64::MAX {
        Some(page_number + 1)
    } else {
        None
    }
}

/// The records of a paginated listing: the records of every page, in page order, each as
/// `records_from_list` maps it.
pub fn records_from_pages(domain_id: &str, pages: Vec<Option<Vec<AliDnsRecord>>>) -> (rs: Vec<
    DnsRecord,
>)
    ensures
        rs@.len() == flat_pages(pages@).len(),
        forall|i: int|
            0 <= i < rs@.len() ==> is_alidns_record(#[trigger] rs@[i], domain_id@, flat_pages(pages@)[i]),
{
    let all = flatten_pages(pages);
    records_from_list(domain_id, Some(all))
}

// ---------------------------------------------------------------------------------------------
// Laws
// ---------------------------------------------------------------------------------------------

/// Every field an update request sets is sent with its value, and no field it leaves out is.
pub proof fn lemma_update_sends_set_fields(record: UpdateRecordRequest)
    ensures
        record.record_type matches Some(t) ==> update_optional_pairs(record).contains(
            ("Type"@, record_type_name(t)),
        ),
        record.name matches Some(n) ==> update_optional_pairs(record).contains(("RR"@, n@)),
        record.content matches Some(c) ==> update_optional_pairs(record).contains(("Value"@, c@)),
        record.ttl matches Some(t) ==> update_optional_pairs(record).contains(
            ("TTL"@, decimal(t as nat)),
        ),
        record.priority matches Some(p) ==> update_optional_pairs(record).contains(
            ("Priority"@, decimal(p as nat)),
        ),
        update_optional_pairs(record).len() == (if record.record_type is Some { 1int } else { 0 })
            + (if record.name is Some { 1int } else { 0 }) + (if record.content is Some { 1int } else { 0 })
            + (if record.ttl is Some { 1int } else { 0 }) + (if record.priority is Some { 1int } else { 0 }),
{
    let f = update_optional_pairs(record);
    let a = opt_pair("Type"@, match record.record_type {
        Some(t) => Some(record_type_name(t)),
        None => None,
    });
    let b = opt_pair("RR"@, opt_text(record.name));
    let c = opt_pair("Value"@, opt_text(record.content));
    let d = opt_pair("TTL"@, opt_decimal(record.ttl));
    let e = opt_pair("Priority"@, opt_decimal(record.priority));
    assert(f == a + b + c + d + e);
    if record.record_type is Some {
        assert(f[0] == a[0]);
    }
    if record.name is Some {
        assert(f[a.len() as int] == b[0]);
    }
    if record.content is Some {
        assert(f[(a.len() + b.len()) as int] == c[0]);
    }
    if record.ttl is Some {
        assert(f[(a.len() + b.len() + c.len()) as int] == d[0]);
    }
    if record.priority is Some {
        assert(f[(a.len() + b.len() + c.len() + d.len()) as int] == e[0]);
    }
}

/// A record mapped from an AliDNS API record keeps its id, type, host record, value, TTL and
/// priority, and sits in the given domain.
pub proof fn lemma_alidns_record_keeps_fields(r: DnsRecord, domain_id: Seq<char>, x: AliDnsRecord)
    requires
        is_alidns_record(r, domain_id, x),
    ensures
        r.id == x.record_id,
        r.provider == ProviderType::AliDns,
        r.domain_id@ == domain_id,
        r.record_type == spec_parse_record_type(x.record_type@),
        r.name == x.rr,
        r.content == x.value,
        r.ttl == x.ttl,
        r.priority == x.priority,
        r.locked == Some(x.status@ == "ENABLE"@),
{
}

/// Following next pages from page 1 reads a listing to its end: while the pages so far cover
/// fewer records than the total and the last page was not empty, the next page is the
/// following one; once they cover the total the listing ends.
pub proof fn lemma_pages_followed(page_number: u64, page_size: u64, page_len: nat, total: u64)
    ensures
        page_len > 0 && page_number * page_size < total && page_number < u64::MAX ==> next_page(
            page_number,
            page_size,
            page_len,
            total,
        ) == Some((page_number + 1) as u64),
        page_number * page_size >= total ==> next_page(page_number, page_size, page_len, total)
            is None,
{
}

} // verus!
