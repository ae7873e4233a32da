//! Verified core of the Sparklytics analytics server: request validation,
//! date-range resolution, bot classification, rate limiting, ingest
//! accounting and the small builders behind the HTTP layer.
pub mod text;
pub mod bot;
pub mod ratelimit;
pub mod countmap;
pub mod ingest;
pub mod error;
pub mod dates;
pub mod routes;
pub mod auth;
pub mod urls;
pub mod cloud;
pub mod billing;
pub mod wal;
pub mod scheduler;
pub mod webhook;
pub mod jwt;
pub mod ids;
pub mod tuning;
pub mod sessions;
pub mod session_cache;
pub mod clickhouse;
pub mod delivery;
pub mod bearer;
pub mod ttl_cache;
pub mod json;
