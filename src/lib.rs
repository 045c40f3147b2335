//! Domain ownership verification through DNS TXT records.
//!
//! A user asks for a challenge for a `(user_id, domain)` pair, publishes the
//! returned TXT record, and then asks for the record to be checked. The
//! decisions of that workflow, and an in-memory model of the challenge store
//! with its invariants, are verified here; the HTTP server, the database and
//! the DNS resolver live outside the library.

pub mod txt_generator;
pub mod challenge;
pub mod store;
pub mod laws;
pub mod domain_status;
