//! Declarative dotfile provisioning: destination resolution, link and copy
//! reconciliation, and dependency installation decisions.
pub mod copy;
pub mod install;
pub mod path;
pub mod reconcile;
pub mod resolve;
