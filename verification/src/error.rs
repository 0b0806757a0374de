//! Error types: what a provider call can fail with, and what a command reports to the front end.

use vstd::prelude::*;
use vstd::string::*;
use crate::text::{decimal, decimal_u64, owned};

verus! {

/// Errors of command handlers.
#[derive(Debug, PartialEq)]
pub enum AppError {
    Provider(String),
    Credential(String),
    Serialization(String),
    NotFound(String),
    Validation(String),
    Internal(String),
}

/// The serialised form of an `AppError`: a machine-readable code and the message.
#[derive(Debug, PartialEq)]
pub struct AppErrorResponse {
    pub code: String,
    pub message: String,
}

/// Errors of provider API calls.
#[derive(Debug, PartialEq)]
#[allow(inconsistent_fields)]
pub enum ProviderError {
    Network(String),
    DnsPod { message: String, request_id: String },
    Cloudflare { code: u16, message: String },
    AliDns { code: String, message: String },
    RateLimited { retry_after: Option<u64> },
    Unauthorized(String),
    NotFound(String),
    BadRequest(String),
    Deserialization(String),
    Other(String),
}

/// `{:?}` of an optional count: `Some(n)` or `None`.
pub open spec fn option_debug_text(v: Option<u64>) -> Seq<char> {
    match v {
        Some(n) => "Some("@ + decimal(n as nat) + ")"@,
        None => "None"@,
    }
}

/// The message of a provider error (its `Display`).
pub open spec fn provider_error_text(e: ProviderError) -> Seq<char> {
    match e {
        ProviderError::Network(m) => "Network error: "@ + m@,
        ProviderError::DnsPod { message, request_id } => "DNSPod error: "@ + message@
            + " (request_id: "@ + request_id@ + ")"@,
        ProviderError::Cloudflare { code, message } => "Cloudflare error (code "@ + decimal(
            code as nat,
        ) + "): "@ + message@,
        ProviderError::AliDns { code, message } => "AliDNS error (code "@ + code@ + "): "@
            + message@,
        ProviderError::RateLimited { retry_after } => "Rate limited (retry after "@
            + option_debug_text(retry_after) + "s)"@,
        ProviderError::Unauthorized(m) => "Unauthorized: "@ + m@,
        ProviderError::NotFound(m) => "Not found: "@ + m@,
        ProviderError::BadRequest(m) => "Bad request: "@ + m@,
        ProviderError::Deserialization(m) => "Deserialization error: "@ + m@,
        ProviderError::Other(m) => m@,
    }
}

/// The machine-readable code of a command error.
pub open spec fn app_error_code(e: AppError) -> Seq<char> {
    match e {
        AppError::Provider(_) => "PROVIDER_ERROR"@,
        AppError::Credential(_) => "CREDENTIAL_ERROR"@,
        AppError::Serialization(_) => "SERIALIZATION_ERROR"@,
        AppError::NotFound(_) => "NOT_FOUND"@,
        AppError::Validation(_) => "VALIDATION_ERROR"@,
        AppError::Internal(_) => "INTERNAL_ERROR"@,
    }
}

/// The detail text a command error carries.
pub open spec fn app_error_detail(e: AppError) -> Seq<char> {
    match e {
        AppError::Provider(m) => m@,
        AppError::Credential(m) => m@,
        AppError::Serialization(m) => m@,
        AppError::NotFound(m) => m@,
        AppError::Validation(m) => m@,
        AppError::Internal(m) => m@,
    }
}

/// The message of a command error (its `Display`).
pub open spec fn app_error_text(e: AppError) -> Seq<char> {
    match e {
        AppError::Provider(m) => "Provider error: "@ + m@,
        AppError::Credential(m) => "Credential error: "@ + m@,
        AppError::Serialization(m) => "Serialization error: "@ + m@,
        AppError::NotFound(m) => "Not found: "@ + m@,
        AppError::Validation(m) => "Validation error: "@ + m@,
        AppError::Internal(m) => "Internal error: "@ + m@,
    }
}

/// `prefix` followed by `rest`.
pub(crate) fn prefixed(prefix: &str, rest: &str) -> (s: String)
    ensures
        s@ == prefix@ + rest@,
{
    let mut s = owned(prefix);
    s.append(rest);
    s
}

impl ProviderError {
    /// The error's message, as its `Display` writes it.
    pub fn to_message(&self) -> (s: String)
        ensures
            s@ == provider_error_text(*self),
    {
        match self {
            ProviderError::Network(m) => prefixed("Network error: ", m.as_str()),
            ProviderError::DnsPod { message, request_id } => {
                let mut s = prefixed("DNSPod error: ", message.as_str());
                s.append(" (request_id: ");
                s.append(request_id.as_str());
                s.append(")");
                s
            },
            ProviderError::Cloudflare { code, message } => {
                let mut s = owned("Cloudflare error (code ");
                let digits = decimal_u64(*code as u64);
                s.append(digits.as_str());
                s.append("): ");
                s.append(message.as_str());
                s
            },
            ProviderError::AliDns { code, message } => {
                let mut s = prefixed("AliDNS error (code ", code.as_str());
                s.append("): ");
                s.append(message.as_str());
                s
            },
            ProviderError::RateLimited { retry_after } => {
                let mut s = owned("Rate limited (retry after ");
                match retry_after {
                    Some(n) => {
                        s.append("Some(");
                        let digits = decimal_u64(*n);
                        s.append(digits.as_str());
                        s.append(")");
                    },
                    None => {
                        s.append("None");
                    },
                }
                s.append("s)");
                s
            },
            ProviderError::Unauthorized(m) => prefixed("Unauthorized: ", m.as_str()),
            ProviderError::NotFound(m) => prefixed("Not found: ", m.as_str()),
            ProviderError::BadRequest(m) => prefixed("Bad request: ", m.as_str()),
            ProviderError::Deserialization(m) => prefixed("Deserialization error: ", m.as_str()),
            ProviderError::Other(m) => m.clone(),
        }
    }

    /// The error for a failed HTTP exchange: a time-out, a failed connection (with the
    /// transport's description) or any other transport failure (its description alone).
    pub fn network(timed_out: bool, connect_failed: bool, description: &str) -> (e: ProviderError)
        ensures
            e matches ProviderError::Network(m) && m@ == (if timed_out {
                "Request timed out"@
            } else if connect_failed {
                "Connection failed: "@ + description@
            } else {
                description@
            }),
    {
        if timed_out {
            ProviderError::Network(owned("Request timed out"))
        } else if connect_failed {
            ProviderError::Network(prefixed("Connection failed: ", description))
        } else {
            ProviderError::Network(owned(description))
        }
    }
}

impl AppError {
    /// A provider failure reported by a command: its message, under `Provider`.
    pub fn from_provider_error(e: &ProviderError) -> (r: AppError)
        ensures
            r matches AppError::Provider(m) && m@ == provider_error_text(*e),
    {
        AppError::Provider(e.to_message())
    }

    /// The machine-readable code.
    pub fn code(&self) -> (s: &'static str)
        ensures
            s@ == app_error_code(*self),
    {
        match self {
            AppError::Provider(_) => "PROVIDER_ERROR",
            AppError::Credential(_) => "CREDENTIAL_ERROR",
            AppError::Serialization(_) => "SERIALIZATION_ERROR",
            AppError::NotFound(_) => "NOT_FOUND",
            AppError::Validation(_) => "VALIDATION_ERROR",
            AppError::Internal(_) => "INTERNAL_ERROR",
        }
    }

    /// The detail text the error carries.
    pub fn detail(&self) -> (s: &String)
        ensures
            s@ == app_error_detail(*self),
    {
        match self {
            AppError::Provider(m) => m,
            AppError::Credential(m) => m,
            AppError::Serialization(m) => m,
            AppError::NotFound(m) => m,
            AppError::Validation(m) => m,
            AppError::Internal(m) => m,
        }
    }

    /// The error's message, as its `Display` writes it.
    pub fn to_message(&self) -> (s: String)
        ensures
            s@ == app_error_text(*self),
    {
        match self {
            AppError::Provider(m) => prefixed("Provider error: ", m.as_str()),
            AppError::Credential(m) => prefixed("Credential error: ", m.as_str()),
            AppError::Serialization(m) => prefixed("Serialization error: ", m.as_str()),
            AppError::NotFound(m) => prefixed("Not found: ", m.as_str()),
            AppError::Validation(m) => prefixed("Validation error: ", m.as_str()),
            AppError::Internal(m) => prefixed("Internal error: ", m.as_str()),
        }
    }

    /// The serialised form sent to the front end: the code and the bare detail text.
    pub fn to_response(&self) -> (r: AppErrorResponse)
        ensures
            r.code@ == app_error_code(*self),
            r.message@ == app_error_detail(*self),
    {
        AppErrorResponse { code: owned(self.code()), message: self.detail().clone() }
    }
}

} // verus!
