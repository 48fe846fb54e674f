//! Verified core of the wardnet daemon: the decisions and data handling that
//! sit between the HTTP layer, the secret store, the release pipeline and the
//! WireGuard kernel interface.

pub mod api;
pub mod auth;
pub mod backup;
pub mod binary_applier;
pub mod error;
mod keyed;
pub mod key_store;
pub mod paths;
pub mod pending;
pub mod release_verifier;
pub mod restore;
pub mod secret_store;
pub mod text;
pub mod wireguard;
