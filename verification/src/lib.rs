//! A uniform request/response surface over per-platform secure credential
//! stores. Each operation (`get`, `set`, `remove`, `set-sync-flag`) is a
//! single pass-through to the active backend: the desktop gateway calls the
//! local OS credential manager through the `keyring` crate, while the mobile
//! gateway forwards the request to a natively registered plugin handle.

pub mod commands;
pub mod desktop;
pub mod error;
pub mod mobile;
pub mod models;
