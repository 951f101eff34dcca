//! Resolution of temporary cloud-access credentials for a named
//! configuration profile.
//!
//! The library decides, from layered configuration sources (command-line
//! overrides, a credentials file, a config file), which credential
//! acquisition strategy applies, normalizes the outcome into a credential
//! value, materializes the credential as named environment variables, and
//! renders those variables for several shell dialects or as JSON.
//!
//! File reading, the remote calls themselves, and process spawning live in
//! the surrounding application; this crate holds the decision logic and the
//! data transformations, each with a verified contract.

pub mod aws_config;
pub mod config;
pub mod creds;
pub mod error;
pub mod ini_doc;
pub mod launch;
pub mod print;
pub mod region;
pub mod resolve;
pub mod strutil;
