//! Federation core of a node in an ActivityPub-style social network: inbound
//! activity authentication, deduplication, verification and application, and
//! outbound addressing.
pub mod error;
pub mod budget;
pub mod iri;
pub mod store;
pub mod resolve;
pub mod targets;
pub mod node;
pub mod checks;
pub mod outbound;
pub mod deletion;
pub mod remove_mod;
pub mod comment;
pub mod inbox;
