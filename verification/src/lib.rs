//! Signing of application calls and import of foreign seeds against a
//! passphrase-protected keystore process.
//!
//! The library never talks to the keystore itself. It validates calls,
//! prepares the bytes to sign, and decides, step by step, which keystore
//! request comes next; the surrounding program performs each request and
//! hands the answer back.

pub mod utils;
pub mod hash_id;
pub mod error;
pub mod call;
pub mod signer;
pub mod session;
pub mod importer;
pub mod webapp;
