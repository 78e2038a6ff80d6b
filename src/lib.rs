//! Scraping engine of an exporter that republishes infrastructure-health
//! events as labelled gauge metrics.
//!
//! The library holds the decisions: which credentials to use and when to
//! renew them, how a request is adapted to one of the two event listings,
//! how pages are walked and rate-limited calls retried, and how an event is
//! projected onto a fixed label schema. The network calls, the sleeps and
//! the metrics endpoint are left to the caller, which performs the actions
//! that the state machines here ask for and reports what came back.

mod error;

pub mod config;
pub mod credentials;
pub mod event;
pub mod fetcher;
pub mod metrics;
pub mod request;
pub mod scraper;
pub mod text;

pub use config::TLS;
pub use credentials::{CacheDecision, CredentialCache, CredentialSet};
pub use error::Error;
pub use event::{AccountEvent, EventScope, LabeledEvent, OrganizationEvent};
pub use fetcher::{Action, Fetcher, ProviderFailure};
pub use metrics::MetricFamily;
pub use request::{ConcreteRequest, GenericFilter, GenericRequest};
pub use scraper::Scraper;
