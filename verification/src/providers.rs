//! Choosing the provider implementation for a stored secret.

use vstd::prelude::*;
use crate::alidns::AliDnsProvider;
use crate::cloudflare::CloudflareProvider;
use crate::dnspod::DnsPodProvider;
use crate::models::{secret_provider, CredentialSecretData, ProviderType};

verus! {

/// A provider of one of the supported kinds, holding its credentials.
pub enum AnyProvider {
    DnsPod(DnsPodProvider),
    Cloudflare(CloudflareProvider),
    AliDns(AliDnsProvider),
}

/// The kind of a provider.
pub open spec fn any_provider_type(p: AnyProvider) -> ProviderType {
    match p {
        AnyProvider::DnsPod(_) => ProviderType::DnsPod,
        AnyProvider::Cloudflare(_) => ProviderType::Cloudflare,
        AnyProvider::AliDns(_) => ProviderType::AliDns,
    }
}

/// `p` is the provider of the secret's kind, holding exactly the secret's credentials.
pub open spec fn uses_secret(p: AnyProvider, secret: CredentialSecretData) -> bool {
    match secret {
        CredentialSecretData::DnsPod { secret_id, secret_key } => p matches AnyProvider::DnsPod(d)
            && d.id() == secret_id@ && d.key() == secret_key@,
        CredentialSecretData::Cloudflare { api_token } => p matches AnyProvider::Cloudflare(c)
            && c.token() == api_token@,
        CredentialSecretData::AliDns { access_key_id, access_key_secret } => p matches AnyProvider::AliDns(
            a,
        ) && a.key_id() == access_key_id@ && a.key_secret() == access_key_secret@,
    }
}

impl AnyProvider {
    /// The kind of this provider.
    pub fn provider_type(&self) -> (t: ProviderType)
        ensures
            t == any_provider_type(*self),
    {
        match self {
            AnyProvider::DnsPod(_) => ProviderType::DnsPod,
            AnyProvider::Cloudflare(_) => ProviderType::Cloudflare,
            AnyProvider::AliDns(_) => ProviderType::AliDns,
        }
    }
}

/// The provider for a stored secret, using its credentials.
pub fn create_provider(credential: &CredentialSecretData) -> (p: AnyProvider)
    ensures
        uses_secret(p, *credential),
{
    match credential {
        CredentialSecretData::DnsPod { secret_id, secret_key } => {
            AnyProvider::DnsPod(DnsPodProvider::new(secret_id.clone(), secret_key.clone()))
        },
        CredentialSecretData::Cloudflare { api_token } => {
            AnyProvider::Cloudflare(CloudflareProvider::new(api_token.clone()))
        },
        CredentialSecretData::AliDns { access_key_id, access_key_secret } => {
            AnyProvider::AliDns(AliDnsProvider::new(access_key_id.clone(), access_key_secret.clone()))
        },
    }
}

/// A provider made from a secret is of the secret's kind.
pub proof fn lemma_provider_kind_matches_secret(p: AnyProvider, secret: CredentialSecretData)
    requires
        uses_secret(p, secret),
    ensures
        any_provider_type(p) == secret_provider(secret),
{
}

} // verus!
