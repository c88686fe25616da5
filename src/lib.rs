//! Upstream identity federation: provider configuration, the upstream login
//! session state machine and the reconciliation of federated identities.
pub mod error;
pub mod text;
pub mod crypto;
pub mod provider;
pub mod discovery;
pub mod callback;
pub mod reconcile;
pub mod template;
pub mod fed_cm;
