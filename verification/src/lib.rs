//! Core of a reverse proxy that fronts a generative-language API with a pool
//! of interchangeable upstream credentials.
//!
//! The crate holds the decisions of the proxy: which credential is handed out
//! next, whether an inbound request may pass, and what the outbound request
//! looks like. Sockets, the HTTP client and the configuration file belong to
//! the program built around it.

pub mod auth;
pub mod config;
pub mod error;
pub mod forward;
pub mod key;
pub mod message;
pub mod pipeline;
pub mod target;
pub mod text;
pub mod translate;
