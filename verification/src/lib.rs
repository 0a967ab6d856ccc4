//! A reading digest: a few random, not yet sent links from a cached catalog,
//! enriched with Open Graph metadata and handed over for mailing.
//!
//! Everything here computes on plain values. Reading files, talking to the
//! network and reading the clock are the caller's part: each module says
//! what it expects to be handed and what it hands back.

pub mod config;
pub mod driver;
pub mod enrich;
pub mod error;
pub mod http;
pub mod ingest;
pub mod mail;
pub mod notion;
pub mod select;
pub mod store;
