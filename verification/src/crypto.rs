//! Digests, message authentication codes and text encodings used to sign provider requests.
//!
//! The digest and MAC functions are named (`spec_sha256`, `spec_hmac_sha256`,
//! `spec_hmac_sha1`); the encodings (lower-case hex, standard Base64, percent-encoding) are
//! stated exactly.

use vstd::prelude::*;

verus! {

// ---------------------------------------------------------------------------------------------
// Named results of the hash crates
// ---------------------------------------------------------------------------------------------

/// The SHA-256 digest of a byte sequence.
pub uninterp spec fn spec_sha256(data: Seq<u8>) -> Seq<u8>;

/// The HMAC-SHA256 tag of `msg` under `key`.
pub uninterp spec fn spec_hmac_sha256(key: Seq<u8>, msg: Seq<u8>) -> Seq<u8>;

/// The HMAC-SHA1 tag of `msg` under `key`.
pub uninterp spec fn spec_hmac_sha1(key: Seq<u8>, msg: Seq<u8>) -> Seq<u8>;

/// Calls `sha2::Sha256::digest`.
///
/// Trusted: the result is the SHA-256 digest of `data`, named `spec_sha256`; it is 32 bytes long.
#[verifier::external_body]
pub(crate) fn sha256(data: &[u8]) -> (d: Vec<u8>)
    ensures
        d@ == spec_sha256(data@),
        d@.len() == 32,
{
    <sha2::Sha256 as sha2::Digest>::digest(data).to_vec()
}

/// Calls `hmac::Hmac::<sha2::Sha256>` (`new_from_slice`, `update`, `finalize`).
///
/// Trusted: the result is the HMAC-SHA256 tag, named `spec_hmac_sha256`; it is 32 bytes long.
/// `new_from_slice` of `hmac` 0.12 returns `Ok` for keys of every length (long keys are
/// hashed, short ones padded), so the `expect` below never fires.
#[verifier::external_body]
pub(crate) fn hmac_sha256(key: &[u8], msg: &[u8]) -> (tag: Vec<u8>)
    ensures
        tag@ == spec_hmac_sha256(key@, msg@),
        tag@.len() == 32,
{
    let mut mac = <hmac::Hmac<sha2::Sha256> as hmac::Mac>::new_from_slice(key)
        .expect("HMAC takes keys of any length");
    hmac::Mac::update(&mut mac, msg);
    hmac::Mac::finalize(mac).into_bytes().to_vec()
}

/// Calls `hmac::Hmac::<sha1::Sha1>` (`new_from_slice`, `update`, `finalize`).
///
/// Trusted: the result is the HMAC-SHA1 tag, named `spec_hmac_sha1`; it is 20 bytes long.
/// As for SHA-256, `new_from_slice` accepts keys of every length.
#[verifier::external_body]
pub(crate) fn hmac_sha1(key: &[u8], msg: &[u8]) -> (tag: Vec<u8>)
    ensures
        tag@ == spec_hmac_sha1(key@, msg@),
        tag@.len() == 20,
{
    let mut mac = <hmac::Hmac<sha1::Sha1> as hmac::Mac>::new_from_slice(key)
        .expect("HMAC takes keys of any length");
    hmac::Mac::update(&mut mac, msg);
    hmac::Mac::finalize(mac).into_bytes().to_vec()
}

// ---------------------------------------------------------------------------------------------
// Hexadecimal
// ---------------------------------------------------------------------------------------------

/// Lower-case hexadecimal digit of `d` (0..=15).
pub open spec fn hex_lower_digit(d: nat) -> char {
    if d < 10 {
        ((d + 48) as u32) as char
    } else {
        ((d + 87) as u32) as char
    }
}

/// Upper-case hexadecimal digit of `d` (0..=15).
pub open spec fn hex_upper_digit(d: nat) -> char {
    if d < 10 {
        ((d + 48) as u32) as char
    } else {
        ((d + 55) as u32) as char
    }
}

/// Two lower-case hex digits per byte, high nibble first.
pub open spec fn spec_hex_lower(data: Seq<u8>) -> Seq<char>
    decreases data.len(),
{
    if data.len() == 0 {
        Seq::empty()
    } else {
        seq![hex_lower_digit((data[0] / 16) as nat), hex_lower_digit((data[0] % 16) as nat)]
            + spec_hex_lower(data.drop_first())
    }
}

/// A lower-case hexadecimal digit: `0-9` or `a-f`.
pub open spec fn is_lower_hex_char(c: char) -> bool {
    ('0' <= c && c <= '9') || ('a' <= c && c <= 'f')
}

/// The last `n` characters of `s` are lower-case hexadecimal digits.
pub open spec fn ends_with_lower_hex(s: Seq<char>, n: nat) -> bool {
    n <= s.len() && forall|i: int| s.len() - n <= i < s.len() ==> is_lower_hex_char(#[trigger] s[i])
}

/// Hex text has two lower-case hexadecimal digits per byte.
pub proof fn lemma_hex_lower_shape(data: Seq<u8>)
    ensures
        spec_hex_lower(data).len() == 2 * data.len(),
        forall|i: int| 0 <= i < spec_hex_lower(data).len() ==> is_lower_hex_char(
            #[trigger] spec_hex_lower(data)[i],
        ),
    decreases data.len(),
{
    if data.len() > 0 {
        lemma_hex_lower_shape(data.drop_first());
        let head = seq![hex_lower_digit((data[0] / 16) as nat), hex_lower_digit((data[0] % 16) as nat)];
        let rest = spec_hex_lower(data.drop_first());
        assert forall|i: int| 0 <= i < spec_hex_lower(data).len() implies is_lower_hex_char(
            #[trigger] spec_hex_lower(data)[i],
        ) by {
            if i >= 2 {
                assert(spec_hex_lower(data)[i] == rest[i - 2]);
            }
        }
    }
}

/// Calls `hex::encode`.
///
/// Trusted: `hex::encode` writes each byte as two lower-case hex digits, high nibble first
/// (`HEX_CHARS_LOWER` in the crate's source).
#[verifier::external_body]
pub(crate) fn hex_lower(data: &[u8]) -> (s: String)
    ensures
        s@ == spec_hex_lower(data@),
{
    hex::encode(data)
}

// ---------------------------------------------------------------------------------------------
// Base64 (standard alphabet, padded)
// ---------------------------------------------------------------------------------------------

/// The character of the standard Base64 alphabet for `v` (0..=63).
pub open spec fn base64_char(v: nat) -> char {
    if v < 26 {
        ((v + 65) as u32) as char
    } else if v < 52 {
        ((v + 71) as u32) as char
    } else if v < 62 {
        ((v - 4) as u32) as char
    } else if v == 62 {
        '+'
    } else {
        '/'
    }
}

/// Standard Base64 with `=` padding: each group of three bytes becomes four characters.
pub open spec fn spec_base64(data: Seq<u8>) -> Seq<char>
    decreases data.len(),
{
    if data.len() == 0 {
        Seq::empty()
    } else if data.len() == 1 {
        seq![
            base64_char((data[0] / 4) as nat),
            base64_char(((data[0] % 4) * 16) as nat),
            '=',
            '=',
        ]
    } else if data.len() == 2 {
        seq![
            base64_char((data[0] / 4) as nat),
            base64_char(((data[0] % 4) * 16 + data[1] / 16) as nat),
            base64_char(((data[1] % 16) * 4) as nat),
            '=',
        ]
    } else {
        seq![
            base64_char((data[0] / 4) as nat),
            base64_char(((data[0] % 4) * 16 + data[1] / 16) as nat),
            base64_char(((data[1] % 16) * 4 + data[2] / 64) as nat),
            base64_char((data[2] % 64) as nat),
        ] + spec_base64(data.skip(3))
    }
}

/// Padded Base64 has four characters per started group of three bytes.
pub proof fn lemma_base64_len(data: Seq<u8>)
    ensures
        spec_base64(data).len() == 4 * ((data.len() + 2) / 3),
    decreases data.len(),
{
    if data.len() > 2 {
        lemma_base64_len(data.skip(3));
    }
}

/// Calls `base64::Engine::encode` with `base64::prelude::BASE64_STANDARD`.
///
/// Trusted: the standard engine uses the RFC 4648 alphabet `A-Z a-z 0-9 + /` and pads the
/// last group with `=`, as `spec_base64` states.
#[verifier::external_body]
pub(crate) fn base64_standard(data: &[u8]) -> (s: String)
    ensures
        s@ == spec_base64(data@),
{
    base64::Engine::encode(&base64::prelude::BASE64_STANDARD, data)
}

// ---------------------------------------------------------------------------------------------
// Percent-encoding
// ---------------------------------------------------------------------------------------------

/// Bytes that percent-encoding leaves as they are: ASCII alphanumerics and `- _ . ~`.
pub open spec fn url_unreserved(b: u8) -> bool {
    (48 <= b && b <= 57) || (65 <= b && b <= 90) || (97 <= b && b <= 122) || b == 45 || b == 46
        || b == 95 || b == 126
}

/// Percent-encoding of a byte sequence: unreserved bytes are kept, every other byte becomes
/// `%` and two upper-case hex digits.
pub open spec fn url_encode_bytes(data: Seq<u8>) -> Seq<char>
    decreases data.len(),
{
    if data.len() == 0 {
        Seq::empty()
    } else if url_unreserved(data[0]) {
        seq![(data[0] as u32) as char] + url_encode_bytes(data.drop_first())
    } else {
        seq!['%', hex_upper_digit((data[0] / 16) as nat), hex_upper_digit((data[0] % 16) as nat)]
            + url_encode_bytes(data.drop_first())
    }
}

/// Percent-encoding of a string: its UTF-8 bytes, encoded by `url_encode_bytes`.
pub open spec fn spec_url_encode(s: Seq<char>) -> Seq<char> {
    url_encode_bytes(vstd::utf8::encode_utf8(s))
}

/// Calls `urlencoding::encode`.
///
/// Trusted: the crate percent-encodes every byte of the UTF-8 form except alphanumerics and
/// `-`, `_`, `.`, `~`, with upper-case hex digits (`to_hex_digit` in the crate's source).
#[verifier::external_body]
pub(crate) fn url_encode(s: &str) -> (r: String)
    ensures
        r@ == spec_url_encode(s@),
{
    urlencoding::encode(s).into_owned()
}

} // verus!
