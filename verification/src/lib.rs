//! Synthesis of Kubernetes `Secret` manifests from a chosen credential
//! source, ready to be handed to a sealing tool.
//!
//! The crate is a verified core: its functions carry contracts that Verus
//! proves. The random choice of a password, the base64 encoding and the
//! reading of a path are done by other crates, each behind one small
//! function whose documentation says what is taken on trust. Reading files
//! or standard input and running the sealing tool are left to the caller,
//! which hands in what it read and gets back the next step or the finished
//! manifest text.

pub mod base64;
pub mod credential;
pub mod error;
pub mod manifest;
pub mod password;
pub mod path;
pub mod run;
pub mod text;
