//! Backend core for a Plex media-server desktop client: a credential token
//! store that keeps one authentication token per application namespace in the
//! operating system's credential manager, and a single-shot identity fetcher
//! that classifies the outcome of one authenticated HTTP GET against a
//! server's identity resource.

pub mod fetch;
pub mod greeting;
pub mod store;
