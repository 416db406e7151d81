//! Adapters that turn the answers of third-party reconnaissance services
//! into one canonical set of subdomain names.
//!
//! The library holds what each adapter decides: which address to ask, what
//! the names in an answer are, and what an empty answer, a failed exchange
//! or missing credentials become. The exchanges themselves are performed by
//! the caller, which hands their outcome to the adapter as plain values.

pub mod error;
pub mod sources;
pub mod subdomain;

pub use crate::subdomain::IntoSubdomain;
