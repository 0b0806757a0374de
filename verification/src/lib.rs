//! Verified core of a multi-provider DNS manager: provider request building and signing,
//! response interpretation, record and domain models, zone export and cross-provider aggregation.

pub mod text;
pub mod crypto;
pub mod clock;
pub mod models;
pub mod error;
pub mod cloudflare;
pub mod zone;
pub mod paging;
pub mod dnspod;
pub mod alidns;
pub mod providers;
pub mod commands;
pub mod retry;
