//! Authentication and key-derivation core of a command-line client for a
//! cloud-hosted password manager.
//!
//! The library negotiates the password-stretching parameters of an account,
//! derives the master key and its encryption/MAC sub-keys, computes the two
//! password-verification hashes of the protocol, interprets the identity
//! service's responses, and drives the login state machine, including the
//! resolution of a two-factor challenge.

pub mod api;
pub mod crypto;
pub mod error;
pub mod kdf;
pub mod orchestrator;
pub mod provider;
