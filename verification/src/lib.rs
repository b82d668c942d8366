//! A uniform store for secrets kept under a (service, account) pair.
//!
//! The secrets live in the platform's own keychain, reached through the
//! `keyring` crate, or in an in-memory vault that behaves as the keychain is
//! meant to. Every failure is brought to one of four kinds, and what is
//! logged or answered on failure never draws on the secret.
//!
//! - `error`: the kinds of failure and how a backend's failures come to them
//! - `platform`: the calls into `keyring`, none of them proved
//! - `vault`: the in-memory vault
//! - `store`: the store and its three operations
//! - `journal`: the lines that an operation logs
//! - `commands`: the requests of an application, answered with their lines
//! - `laws`: what holds across several operations

pub mod commands;
pub mod error;
pub mod journal;
pub mod laws;
pub mod platform;
pub mod store;
pub mod vault;
