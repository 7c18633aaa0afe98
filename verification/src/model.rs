//! The vault as a mathematical object: what it holds, and what each
//! operation makes of it. The executable vault is specified against this.

use vstd::prelude::*;
use crate::token::{claim_token_deployment, salt_of};
use crate::types::{
    AssetCall, AssetRef, AssetSteps, DeploymentModel, Principal, StoredValue, VaultConfig,
    VaultError,
    VaultKey,
};

verus! {

/// The state of a vault.
pub struct VaultModel {
    /// The vault's own address: where it holds the base asset in custody, and
    /// the administrator of its claim token.
    pub identity: Principal,
    /// The references fixed at construction; `None` before it.
    pub config: Option<VaultConfig>,
    /// Claim-token units issued and not yet redeemed.
    pub total_supply: int,
}

impl VaultModel {
    /// A vault that has not been constructed.
    pub open spec fn fresh(identity: Principal) -> VaultModel {
        VaultModel { identity, config: None, total_supply: 0 }
    }

    /// The vault that a state store describes: `config` as it stands there,
    /// and the counter, which counts for nothing where no configuration is.
    pub open spec fn restored(
        identity: Principal,
        config: Option<VaultConfig>,
        total_supply: int,
    ) -> VaultModel {
        VaultModel {
            identity,
            config,
            total_supply: if config is Some {
                total_supply
            } else {
                0
            },
        }
    }

    pub open spec fn is_initialized(self) -> bool {
        self.config is Some
    }

    /// Before construction nothing is outstanding, and the counter fits the
    /// 128 bits in which it is kept.
    pub open spec fn well_formed(self) -> bool {
        &&& self.config is None ==> self.total_supply == 0
        &&& i128::MIN <= self.total_supply <= i128::MAX
    }

    /// How a construction ends: it is refused on a vault that has one behind it.
    pub open spec fn construct_outcome(self) -> Result<(), VaultError> {
        if self.is_initialized() {
            Err(VaultError::AlreadyInitialized)
        } else {
            Ok(())
        }
    }

    /// What a construction asks the host to deploy: the claim token that the
    /// vault's identity and the base asset determine. A vault that has a
    /// construction behind it asks for nothing.
    pub open spec fn provision(self, template: Seq<u8>, base_asset: AssetRef) -> Result<
        DeploymentModel,
        VaultError,
    > {
        match self.construct_outcome() {
            Err(e) => Err(e),
            Ok(_) => Ok(claim_token_deployment(template, self.identity, salt_of(base_asset))),
        }
    }

    /// The vault after a construction: configured, with nothing outstanding.
    /// A refused construction changes nothing.
    pub open spec fn constructed(
        self,
        base_asset: AssetRef,
        claim_token: AssetRef,
        administrator: Principal,
    ) -> VaultModel {
        if self.is_initialized() {
            self
        } else {
            VaultModel {
                identity: self.identity,
                config: Some(VaultConfig { base_asset, claim_token, administrator }),
                total_supply: 0,
            }
        }
    }

    /// What stands before either accounting operation: the acting principal's
    /// authorization first, then the configuration.
    pub open spec fn clearance(self, authorized: bool) -> Result<VaultConfig, VaultError> {
        if !authorized {
            Err(VaultError::Unauthorized)
        } else if self.config is None {
            Err(VaultError::UninitializedAccess)
        } else {
            Ok(self.config->Some_0)
        }
    }

    /// What a deposit asks of the asset module: the base asset moves into the
    /// vault's custody, then the claim token is issued to the depositor.
    pub open spec fn deposit_steps(self, from: Principal, amount: i128, authorized: bool) -> Result<
        AssetSteps,
        VaultError,
    > {
        match self.clearance(authorized) {
            Err(e) => Err(e),
            Ok(config) => Ok(
                AssetSteps {
                    first: AssetCall::Transfer {
                        asset: config.base_asset,
                        from,
                        to: self.identity,
                        amount,
                    },
                    second: AssetCall::Mint { asset: config.claim_token, to: from, amount },
                },
            ),
        }
    }

    /// What a withdrawal asks of the asset module: the claim token is burned
    /// first, then the base asset leaves the vault's custody.
    pub open spec fn withdraw_steps(self, to: Principal, amount: i128, authorized: bool) -> Result<
        AssetSteps,
        VaultError,
    > {
        match self.clearance(authorized) {
            Err(e) => Err(e),
            Ok(config) => Ok(
                AssetSteps {
                    first: AssetCall::Burn { asset: config.claim_token, from: to, amount },
                    second: AssetCall::Transfer {
                        asset: config.base_asset,
                        from: self.identity,
                        to,
                        amount,
                    },
                },
            ),
        }
    }

    /// The vault with its counter moved by `delta`.
    pub open spec fn with_supply_moved(self, delta: int) -> VaultModel {
        VaultModel { total_supply: self.total_supply + delta, ..self }
    }

    /// Whether the counter can take `delta` within its 128 bits.
    pub open spec fn supply_can_move(self, delta: int) -> bool {
        i128::MIN <= self.total_supply + delta <= i128::MAX
    }

    /// The vault after a deposit that the asset module settled.
    pub open spec fn deposited(self, amount: i128) -> VaultModel {
        self.with_supply_moved(amount as int)
    }

    /// The vault after a withdrawal that the asset module settled.
    pub open spec fn withdrawn(self, amount: i128) -> VaultModel {
        self.with_supply_moved(-(amount as int))
    }

    /// How an accounting operation ends once the asset module has answered.
    pub open spec fn settle_outcome(self, settled: bool) -> Result<(), VaultError> {
        if self.config is None {
            Err(VaultError::UninitializedAccess)
        } else if !settled {
            Err(VaultError::InsufficientBalance)
        } else {
            Ok(())
        }
    }

    /// What the state store holds in a slot. Before construction it is empty.
    pub open spec fn entry(self, key: VaultKey) -> Option<StoredValue> {
        match self.config {
            None => None,
            Some(config) => Some(
                match key {
                    VaultKey::BaseToken => StoredValue::Reference(config.base_asset.principal()),
                    VaultKey::VaultToken => StoredValue::Reference(
                        config.claim_token.principal(),
                    ),
                    VaultKey::Admin => StoredValue::Reference(config.administrator),
                    VaultKey::TotalVaultSupply => StoredValue::Amount(self.total_supply as i128),
                    VaultKey::IsInitialized => StoredValue::Flag(true),
                },
            ),
        }
    }
}

/// A vault restored from its own identity, configuration and counter is the
/// vault itself.
pub proof fn restoring_loses_nothing(vault: VaultModel)
    requires
        vault.well_formed(),
    ensures
        VaultModel::restored(vault.identity, vault.config, vault.total_supply) == vault,
{
}

/// Two vaults at one identity ask the host for the same claim token for one
/// base asset, whatever else is to be true of them. The deployer and the salt,
/// from which the host derives the claim token's address, do not even depend
/// on the code that is deployed.
pub proof fn provisioning_is_idempotent(
    one: VaultModel,
    other: VaultModel,
    base_asset: AssetRef,
    template: Seq<u8>,
    other_template: Seq<u8>,
)
    requires
        one.identity == other.identity,
        !one.is_initialized(),
        !other.is_initialized(),
    ensures
        one.provision(template, base_asset) is Ok,
        one.provision(template, base_asset) == other.provision(template, base_asset),
        one.provision(template, base_asset)->Ok_0.deployer == other.provision(
            other_template,
            base_asset,
        )->Ok_0.deployer,
        one.provision(template, base_asset)->Ok_0.salt == other.provision(
            other_template,
            base_asset,
        )->Ok_0.salt,
{
}

/// Two constructions at one identity, from one code and for one base asset,
/// leave the same claim token in the vault, whoever is to administer the
/// vault, wherever the host derives the address of the instance that it
/// deploys from the request alone. Which address that is, is for the host to
/// say: `derive` stands for it.
pub proof fn construction_is_idempotent(
    one: VaultModel,
    other: VaultModel,
    base_asset: AssetRef,
    template: Seq<u8>,
    administrator: Principal,
    other_administrator: Principal,
    derive: spec_fn(DeploymentModel) -> AssetRef,
)
    requires
        one.identity == other.identity,
        !one.is_initialized(),
        !other.is_initialized(),
    ensures
        ({
            let request = one.provision(template, base_asset)->Ok_0;
            let other_request = other.provision(template, base_asset)->Ok_0;
            let built = one.constructed(base_asset, derive(request), administrator);
            let other_built = other.constructed(
                base_asset,
                derive(other_request),
                other_administrator,
            );
            &&& built.config is Some
            &&& other_built.config is Some
            &&& built.config->Some_0.claim_token == other_built.config->Some_0.claim_token
        }),
{
}

} // verus!
