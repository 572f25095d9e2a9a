//! Core logic of a command-line weather tool.
//!
//! The tool fetches current or historical weather for a free-text address
//! from one of two upstream providers, using a locally stored API key and a
//! selected default provider.  This library holds everything that can be
//! stated and proved: provider selection, settings bookkeeping, date
//! parsing, request-URL construction, and the step-by-step plan each
//! command follows.  The surrounding binary performs the actual network
//! and file I/O and feeds the results back in as plain values.

pub mod provider;
pub mod error;
pub mod config;
pub mod date;
pub mod numfmt;
pub mod urls;
pub mod geocode;
pub mod session;
pub mod cli;
