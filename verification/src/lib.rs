//! Rendezvous coordinator for a multi-party computation protocol.
//!
//! Independent participants who want to jointly run a threshold key-generation
//! ceremony first have to discover each other and receive a unique, sequential
//! party index within a ceremony instance. This library holds that rendezvous
//! algorithm: session initialization, sequential index assignment starting at 1,
//! and round rollover once a ceremony instance fills up, together with a generic
//! key/value store facade for callers that need raw storage access.

pub mod coordinator;
pub mod error;
pub mod signup;
pub mod store;
