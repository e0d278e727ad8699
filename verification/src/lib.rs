//! Credential hashing and bearer-token authentication for a web backend.
//!
//! The crate has two components. The credential hasher in [`password`] turns a
//! plaintext password into a salted, self-describing credential string and
//! compares a candidate against a stored credential. The token guard in
//! [`guard`] takes the bearer token of an inbound request to a time-bounded
//! identity, or to the reason for which the request is rejected. [`token`]
//! holds the claims a token carries, [`error`] the closed set of error kinds,
//! and [`config`] the process-wide settings both components are given.
//! [`paging`] fills in the page and limit of a listing request, and
//! [`decimal`] reads numbers in decimal notation.

pub mod config;
pub mod decimal;
pub mod error;
pub mod guard;
pub mod paging;
pub mod password;
pub mod token;
