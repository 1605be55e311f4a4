//! Dynamic DNS updater: decides, from the current WAN address and the
//! address recorded for a host, whether a DNS record has to be created or
//! updated through the provider's v4 client API, and builds each request.
//!
//! The library holds the decisions and the wire formats; the program around
//! it performs the HTTP requests and the file and environment reads.

pub mod args;
pub mod error;
pub mod cloudfare_api_idl;
pub mod cloudfare_ddns;
