//! A share-based custody vault: principals deposit a base asset and hold a
//! claim token that redeems one for one.
//!
//! The vault's decisions are verified here; the asset module, the host's
//! hashing and the deployment of the claim token are reached through a small
//! number of trusted declarations in `host`.

pub mod types;
pub mod model;
pub mod host;
pub mod token;
pub mod vault;
pub mod ledger;
pub mod world;

pub use types::{
    AssetCall, AssetRef, AssetSteps, Deployment, DeploymentModel, Principal, PrincipalKind,
    StoredValue, VaultConfig,
    VaultError, VaultKey,
};
pub use vault::StakingVault;
