//! Per-user remote storage accounts: a registry of users bound to the remote
//! containers provisioned for them, the registration protocol that keeps the two
//! consistent, snapshot conversion for persistence, and the planning of file
//! listing and upload requests scoped to a user's container.
pub mod error;
pub mod registry;
pub mod persistence;
pub mod provisioning;
pub mod gateway;
