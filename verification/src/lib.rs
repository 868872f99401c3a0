//! Dynamic DNS reconciliation: the provider contract, two REST backends, the
//! zone cache and the decisions of the polling loop.

pub mod cloudflare;
pub mod config;
pub mod dnspod;
pub mod domain;
pub mod error;
pub mod http;
pub mod notify;
pub mod provider;
pub mod reconcile;
pub mod record;
pub mod text;
pub mod zone_cache;

pub use crate::cloudflare::CloudflareProvider;
pub use crate::provider::DnsProvider;
pub use crate::record::{DnsRecord, DnsUpdateResult};
