//! Keeps a local working copy in sync with configured code-hosting remotes
//! (GitHub or GitLab) and prepares it for a sequence of merge build steps.
//!
//! The library holds the verified logic: configuration loading and
//! cross-validation, the provider-polymorphic remote registry with its
//! memoized clone-URL resolution, interpretation of git subprocess output,
//! and the reconciliation of the working copy's remote set. The thin shell
//! around it performs the file, environment, process and network accesses
//! and hands their results to these functions as plain values.

pub mod config;
pub mod errors;
pub mod gitexec;
pub mod json;
pub mod logger;
pub mod reconcile;
pub mod remote;
pub mod step;
pub mod text;
