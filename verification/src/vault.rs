//! The vault: its one-shot construction, the two accounting operations and
//! the read-only queries.

use vstd::prelude::*;
use soroban_sdk::Env;
use crate::host::{try_burn, try_mint, try_transfer};
use crate::model::VaultModel;
use crate::token::{create_vault_token, get_salt};
use crate::types::{
    AssetCall, AssetRef, AssetSteps, Deployment, DeploymentModel, Principal, StoredValue,
    VaultConfig, VaultError, VaultKey,
};

verus! {

/// What a constructed vault keeps.
#[derive(Clone, Copy, Debug)]
struct Books {
    config: VaultConfig,
    total_supply: i128,
}

/// A custody vault for one base asset.
#[derive(Debug)]
pub struct StakingVault {
    identity: Principal,
    books: Option<Books>,
}

impl View for StakingVault {
    type V = VaultModel;

    closed spec fn view(&self) -> VaultModel {
        match self.books {
            None => VaultModel::fresh(self.identity),
            Some(books) => VaultModel {
                identity: self.identity,
                config: Some(books.config),
                total_supply: books.total_supply as int,
            },
        }
    }
}

/// Hands one request to the asset module and tells whether it was accepted.
/// The answer is the ledger's to give, so nothing is promised of it.
fn perform(e: &Env, call: &AssetCall) -> (accepted: bool) {
    match *call {
        AssetCall::Transfer { asset, from, to, amount } => try_transfer(e, &asset, &from, &to, amount),
        AssetCall::Mint { asset, to, amount } => try_mint(e, &asset, &to, amount),
        AssetCall::Burn { asset, from, amount } => try_burn(e, &asset, &from, amount),
    }
}

/// Hands the two requests of an operation to the asset module in their order,
/// the second only if the first was accepted, and tells whether both were.
/// Both answers are the ledger's to give, so nothing is promised of the
/// result; `record_deposit` and `record_withdrawal` say what follows from it.
fn settle(e: &Env, steps: &AssetSteps) -> (settled: bool) {
    perform(e, &steps.first) && perform(e, &steps.second)
}

impl StakingVault {
    /// Every vault is well formed.
    pub proof fn view_is_well_formed(&self)
        ensures
            self@.well_formed(),
    {
    }

    /// A vault at `identity` that has not been constructed.
    pub fn new(identity: Principal) -> (vault: StakingVault)
        ensures
            vault@ == VaultModel::fresh(identity),
    {
        StakingVault { identity, books: None }
    }

    /// The vault that the state store describes. Where the store holds no
    /// configuration the vault has not been constructed, and nothing is
    /// outstanding, whatever `total_supply` says.
    pub fn restore(identity: Principal, config: Option<VaultConfig>, total_supply: i128) -> (vault:
        StakingVault)
        ensures
            vault@ == VaultModel::restored(identity, config, total_supply as int),
    {
        match config {
            None => StakingVault { identity, books: None },
            Some(config) => StakingVault { identity, books: Some(Books { config, total_supply }) },
        }
    }

    /// The vault's own address.
    pub fn identity(&self) -> (identity: Principal)
        ensures
            identity == self@.identity,
    {
        self.identity
    }

    pub fn is_initialized(&self) -> (initialized: bool)
        ensures
            initialized == self@.is_initialized(),
    {
        self.books.is_some()
    }

    /// The first half of construction: the claim token that the host is to
    /// deploy. Refused with `AlreadyInitialized` on a constructed vault.
    pub fn provision(&self, e: &Env, token_wasm_hash: [u8; 32], base_token: &AssetRef) -> (request:
        Result<Deployment, VaultError>)
        ensures
            self@.provision(token_wasm_hash@, *base_token) == match request {
                Ok(deployment) => Ok::<DeploymentModel, VaultError>(deployment@),
                Err(refusal) => Err(refusal),
            },
    {
        if self.books.is_some() {
            return Err(VaultError::AlreadyInitialized);
        }
        let salt = get_salt(e, base_token);
        Ok(create_vault_token(token_wasm_hash, &self.identity, &salt))
    }

    /// The second half of construction, once the host has deployed the claim
    /// token at `vault_token`: fixes the configuration and starts the counter
    /// at zero. Refused with `AlreadyInitialized`, and without effect, on a
    /// constructed vault.
    pub fn __constructor(&mut self, base_token: AssetRef, vault_token: AssetRef, admin: Principal) -> (outcome:
        Result<(), VaultError>)
        ensures
            outcome == old(self)@.construct_outcome(),
            final(self)@ == old(self)@.constructed(base_token, vault_token, admin),
    {
        if self.books.is_some() {
            return Err(VaultError::AlreadyInitialized);
        }
        self.books = Some(
            Books {
                config: VaultConfig {
                    base_asset: base_token,
                    claim_token: vault_token,
                    administrator: admin,
                },
                total_supply: 0,
            },
        );
        Ok(())
    }

    /// The requests that a deposit of `amount` by `from` makes to the asset
    /// module, or why it makes none.
    pub fn deposit_steps(&self, from: &Principal, amount: i128, authorized: bool) -> (steps: Result<
        AssetSteps,
        VaultError,
    >)
        ensures
            steps == self@.deposit_steps(*from, amount, authorized),
    {
        if !authorized {
            return Err(VaultError::Unauthorized);
        }
        match &self.books {
            None => Err(VaultError::UninitializedAccess),
            Some(books) => Ok(
                AssetSteps {
                    first: AssetCall::Transfer {
                        asset: books.config.base_asset,
                        from: *from,
                        to: self.identity,
                        amount,
                    },
                    second: AssetCall::Mint { asset: books.config.claim_token, to: *from, amount },
                },
            ),
        }
    }

    /// The requests that a withdrawal of `amount` to `to` makes to the asset
    /// module, or why it makes none.
    pub fn withdraw_steps(&self, to: &Principal, amount: i128, authorized: bool) -> (steps: Result<
        AssetSteps,
        VaultError,
    >)
        ensures
            steps == self@.withdraw_steps(*to, amount, authorized),
    {
        if !authorized {
            return Err(VaultError::Unauthorized);
        }
        match &self.books {
            None => Err(VaultError::UninitializedAccess),
            Some(books) => Ok(
                AssetSteps {
                    first: AssetCall::Burn { asset: books.config.claim_token, from: *to, amount },
                    second: AssetCall::Transfer {
                        asset: books.config.base_asset,
                        from: self.identity,
                        to: *to,
                        amount,
                    },
                },
            ),
        }
    }

    /// Books a deposit of `amount` once the asset module has answered:
    /// `settled` tells whether it accepted both requests. Only then does the
    /// counter move.
    pub fn record_deposit(&mut self, amount: i128, settled: bool) -> (outcome: Result<(), VaultError>)
        requires
            settled && old(self)@.is_initialized() ==> old(self)@.supply_can_move(amount as int),
        ensures
            outcome == old(self)@.settle_outcome(settled),
            final(self)@ == if outcome is Ok {
                old(self)@.deposited(amount)
            } else {
                old(self)@
            },
    {
        match self.books {
            None => Err(VaultError::UninitializedAccess),
            Some(books) => {
                if !settled {
                    return Err(VaultError::InsufficientBalance);
                }
                self.books = Some(
                    Books { config: books.config, total_supply: books.total_supply + amount },
                );
                Ok(())
            },
        }
    }

    /// Books a withdrawal of `amount` once the asset module has answered:
    /// `settled` tells whether it accepted both requests. Only then does the
    /// counter move.
    pub fn record_withdrawal(&mut self, amount: i128, settled: bool) -> (outcome: Result<
        (),
        VaultError,
    >)
        requires
            settled && old(self)@.is_initialized() ==> old(self)@.supply_can_move(
                -(amount as int),
            ),
        ensures
            outcome == old(self)@.settle_outcome(settled),
            final(self)@ == if outcome is Ok {
                old(self)@.withdrawn(amount)
            } else {
                old(self)@
            },
    {
        match self.books {
            None => Err(VaultError::UninitializedAccess),
            Some(books) => {
                if !settled {
                    return Err(VaultError::InsufficientBalance);
                }
                self.books = Some(
                    Books { config: books.config, total_supply: books.total_supply - amount },
                );
                Ok(())
            },
        }
    }

    /// Deposits `amount` of the base asset for `from`: moves it into the
    /// vault's custody, issues the same amount of the claim token to `from`,
    /// and counts it. `authorized` tells whether `from` has authorized this
    /// very call. The counter moves only if the asset module accepted both
    /// requests; whether it did is for the ledger to say. An authorized call
    /// on a constructed vault must leave the counter within its 128 bits.
    pub fn deposit(&mut self, e: &Env, from: &Principal, amount: i128, authorized: bool) -> (outcome:
        Result<(), VaultError>)
        requires
            authorized && old(self)@.is_initialized() ==> old(self)@.supply_can_move(amount as int),
        ensures
            old(self)@.deposit_steps(*from, amount, authorized) matches Err(refusal) ==> outcome
                == Err::<(), _>(refusal),
            old(self)@.deposit_steps(*from, amount, authorized) is Ok ==> outcome == Ok::<
                _,
                VaultError,
            >(()) || outcome == Err::<(), _>(VaultError::InsufficientBalance),
            final(self)@ == if outcome is Ok {
                old(self)@.deposited(amount)
            } else {
                old(self)@
            },
    {
        match self.deposit_steps(from, amount, authorized) {
            Err(refusal) => Err(refusal),
            Ok(steps) => {
                let settled = settle(e, &steps);
                self.record_deposit(amount, settled)
            },
        }
    }

    /// Withdraws `amount` of the base asset to `to`: burns the same amount of
    /// the claim token held by `to`, then moves the base asset out of the
    /// vault's custody, and counts it. `authorized` tells whether `to` has
    /// authorized this very call. The counter moves only if the asset module
    /// accepted both requests; whether it did is for the ledger to say. An
    /// authorized call on a constructed vault must leave the counter within
    /// its 128 bits.
    pub fn withdraw(&mut self, e: &Env, to: &Principal, amount: i128, authorized: bool) -> (outcome:
        Result<(), VaultError>)
        requires
            authorized && old(self)@.is_initialized() ==> old(self)@.supply_can_move(
                -(amount as int),
            ),
        ensures
            old(self)@.withdraw_steps(*to, amount, authorized) matches Err(refusal) ==> outcome
                == Err::<(), _>(refusal),
            old(self)@.withdraw_steps(*to, amount, authorized) is Ok ==> outcome == Ok::<
                _,
                VaultError,
            >(()) || outcome == Err::<(), _>(VaultError::InsufficientBalance),
            final(self)@ == if outcome is Ok {
                old(self)@.withdrawn(amount)
            } else {
                old(self)@
            },
    {
        match self.withdraw_steps(to, amount, authorized) {
            Err(refusal) => Err(refusal),
            Ok(steps) => {
                let settled = settle(e, &steps);
                self.record_withdrawal(amount, settled)
            },
        }
    }

    /// The base asset, or `UninitializedAccess` before construction.
    pub fn get_base_token(&self) -> (token: Result<AssetRef, VaultError>)
        ensures
            token == match self@.config {
                Some(config) => Ok::<_, VaultError>(config.base_asset),
                None => Err(VaultError::UninitializedAccess),
            },
    {
        match &self.books {
            Some(books) => Ok(books.config.base_asset),
            None => Err(VaultError::UninitializedAccess),
        }
    }

    /// The claim token, or `UninitializedAccess` before construction.
    pub fn get_vault_token(&self) -> (token: Result<AssetRef, VaultError>)
        ensures
            token == match self@.config {
                Some(config) => Ok::<_, VaultError>(config.claim_token),
                None => Err(VaultError::UninitializedAccess),
            },
    {
        match &self.books {
            Some(books) => Ok(books.config.claim_token),
            None => Err(VaultError::UninitializedAccess),
        }
    }

    /// The claim-token units outstanding; zero before construction.
    pub fn get_total_supply(&self) -> (supply: i128)
        ensures
            supply == self@.total_supply,
            !self@.is_initialized() ==> supply == 0,
    {
        match &self.books {
            Some(books) => books.total_supply,
            None => 0,
        }
    }

    /// What the state store holds in the slot `key`.
    pub fn entry(&self, key: VaultKey) -> (value: Option<StoredValue>)
        ensures
            value == self@.entry(key),
    {
        match &self.books {
            None => None,
            Some(books) => Some(
                match key {
                    VaultKey::BaseToken => StoredValue::Reference(
                        books.config.base_asset.principal(),
                    ),
                    VaultKey::VaultToken => StoredValue::Reference(
                        books.config.claim_token.principal(),
                    ),
                    VaultKey::Admin => StoredValue::Reference(books.config.administrator),
                    VaultKey::TotalVaultSupply => StoredValue::Amount(books.total_supply),
                    VaultKey::IsInitialized => StoredValue::Flag(true),
                },
            ),
        }
    }
}

} // verus!
