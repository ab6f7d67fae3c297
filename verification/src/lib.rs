//! Server-to-server federation boundary of a social content platform.
//!
//! The crate decides which remote domains may be federated with, derives the
//! canonical federation address of every local object, runs the instance
//! actor's inbox/outbox pipeline, keeps a best-effort audit log of exchanged
//! activities, and normalizes the wire format's inconsistent cardinality
//! encodings. URL parsing is done by the `url` crate, JSON classification by
//! `serde_json`, and one-time runtime initialization by `once_cell`, each
//! behind a small trusted boundary; everything around them is verified.

pub mod actors;
pub mod audit;
pub mod codec;
pub mod endpoints;
pub mod policy;
pub mod runtime;
pub mod site;
pub mod urls;
