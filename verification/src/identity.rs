//! Workload identity: source-agnostic mTLS identities, provider
//! configuration, and the decisions of the cascading provider selection.

pub mod cascade;
pub mod config;
pub mod error;
pub mod identity;

pub use cascade::{CascadeRun, CascadeStep};
pub use config::{BootstrapConfig, SelfSignedConfig, SpireConfig};
pub use error::IdentityError;
pub use identity::{IdentitySource, WorkloadIdentity};
