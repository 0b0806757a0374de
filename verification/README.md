# dns_manager

A multi-provider DNS manager (DNSPod, Cloudflare, AliDNS) whose core is verified with Verus.

- `src/` — the verified library:
  - `models`, `error`: records, domains, credentials, searches; provider and command errors.
  - `cloudflare`, `dnspod`, `alidns`: request URLs, bodies and signatures (TC3-HMAC-SHA256
    for DNSPod, HMAC-SHA1 query signatures for AliDNS), response checks, and the mapping of
    API objects to records and domains; paginated listings (`paging` joins the pages);
    zone-file export (`zone` holds the shared layout).
  - `providers`: the provider for a stored secret.
  - `commands`: credential validation and bookkeeping, per-provider credential lookup, the
    stable ordering and per-provider counts of the aggregated domain list, search results.
  - `retry`: exponential backoff with full jitter.
  - `text`, `crypto`, `clock`: strings, digests and encodings, time and randomness.
- `app/` — the rest, unverified: HTTP exchanges (reqwest), the OS keychain (keyring), the
  credentials file, the serializable forms the front end sees, and the async commands.
- `tests/` — tests of the library on concrete values.
