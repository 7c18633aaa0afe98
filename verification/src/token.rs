//! Provisioning of the claim token: the salt that fixes its address, and the
//! instance that the host is asked to deploy.

use vstd::prelude::*;
use soroban_sdk::Env;
use crate::host::{identity_encoding, identity_xdr, sha256, sha256_digest};
use crate::types::{AssetRef, Deployment, DeploymentModel, Principal};

verus! {

/// Decimal places of every claim token.
pub const CLAIM_TOKEN_DECIMALS: u32 = 7;

/// The salt that a base asset determines.
pub open spec fn salt_of(base_token: AssetRef) -> Seq<u8> {
    sha256_digest(identity_encoding(base_token))
}

/// The salt for the claim token of `base_token`: the SHA-256 digest of the
/// base asset's encoded identity. It depends on the base asset alone.
pub fn get_salt(e: &Env, base_token: &AssetRef) -> (salt: [u8; 32])
    ensures
        salt@ == salt_of(*base_token),
{
    let xdr = identity_xdr(e, base_token);
    sha256(e, &xdr)
}

/// The claim-token instance of a vault: deployed by the vault under the salt,
/// administered by the vault itself and by nobody else, with seven decimal
/// places and a fixed name and symbol.
pub open spec fn claim_token_deployment(
    template: Seq<u8>,
    vault: Principal,
    salt: Seq<u8>,
) -> DeploymentModel {
    DeploymentModel {
        template,
        deployer: vault,
        salt,
        administrator: vault,
        decimals: CLAIM_TOKEN_DECIMALS,
        name: "Vault Token"@,
        symbol: "VToken"@,
    }
}

/// Describes the claim-token instance that the host is to deploy for the
/// vault `vault`, from the code `token_wasm_hash` and under `salt`.
pub fn create_vault_token(token_wasm_hash: [u8; 32], vault: &Principal, salt: &[u8; 32]) -> (deployment:
    Deployment)
    ensures
        deployment@ == claim_token_deployment(token_wasm_hash@, *vault, salt@),
{
    Deployment {
        template: token_wasm_hash,
        deployer: *vault,
        salt: *salt,
        administrator: *vault,
        decimals: CLAIM_TOKEN_DECIMALS,
        name: "Vault Token".to_owned(),
        symbol: "VToken".to_owned(),
    }
}

} // verus!
