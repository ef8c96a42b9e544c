//! A verified file-persistence facade for a wallet keystore and its public
//! address.
//!
//! The store keeps two independent records inside a per-user configuration
//! directory: an opaque keystore blob and an opaque plaintext address. Both
//! are written in full on every save and read back unchanged. This crate
//! holds the verified logic of that facade: path resolution, the error
//! taxonomy and its flattening to the string-only host boundary, the
//! decision rules that turn raw filesystem outcomes into typed results, and
//! a store model whose contracts pin down the observable semantics of every
//! operation (round trips, overwrite, existence, directory creation).
//!
//! The actual filesystem calls live outside this crate; they hand their
//! outcomes to the functions of [`outcome`] as plain values.

pub mod error;
pub mod laws;
pub mod messages;
pub mod outcome;
pub mod paths;
pub mod store;
