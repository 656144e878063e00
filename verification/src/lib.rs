//! Reconstruction of a deployment's dynamic data sources from raw joined
//! rows: per-row validation of the stored contract reference, derivation of
//! each row's creation point, and enforcement of the ordering invariant that
//! downstream trigger execution and revert handling rely on.

pub mod decimal;
pub mod loader;
pub mod types;
