//! Verified core of a certificate issuance service for delegated domains.
//!
//! The crate holds the logic of the service: the symmetric certificate
//! codec, the registration checker, the registration state machine, the
//! resumable issuance pipeline with its error-to-delay table, the task
//! queue and DNS zone models, the export path, and the HTTP decision
//! layer. All I/O (ACME, DNS, orchestrator RPC, HTTP serving) lives
//! outside the library and hands it plain values.

pub mod api;
pub mod bytestr;
pub mod check;
pub mod codec;
pub mod eventlog;
pub mod export;
pub mod provider;
pub mod queue;
pub mod registration;
pub mod work;

pub use bytestr::bytes_eq;
