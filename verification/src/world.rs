//! A vault together with the assets that it works on, and the laws that hold
//! of the two. The host runs each operation as a whole or not at all: where
//! the asset module refuses either request, the ledgers stay as they were.

use vstd::prelude::*;
use crate::ledger::{call_asset, call_issue, Assets};
use crate::model::VaultModel;
use crate::types::{AssetRef, AssetSteps, Principal, VaultError};

verus! {

/// A call that a vault can receive.
pub enum Operation {
    /// Construction, with the claim token that the host deployed for it.
    Construct { base_asset: AssetRef, claim_token: AssetRef, administrator: Principal },
    Deposit { from: Principal, amount: i128, authorized: bool },
    Withdraw { to: Principal, amount: i128, authorized: bool },
}

/// A vault and the ledgers of all assets.
pub struct World {
    pub vault: VaultModel,
    pub assets: Assets,
}

impl World {
    /// A vault that has not been constructed, among the given ledgers.
    pub open spec fn fresh(identity: Principal, assets: Assets) -> World {
        World { vault: VaultModel::fresh(identity), assets }
    }

    /// Whether the call may be made: the counter of a constructed vault can
    /// take the amount of an authorized call within its 128 bits, and a claim token deployed for a
    /// construction has issued nothing yet.
    pub open spec fn admissible(self, op: Operation) -> bool {
        match op {
            Operation::Construct { base_asset, claim_token, administrator } => {
                self.vault.is_initialized() || self.assets.ledger(claim_token).supply() == 0
            },
            Operation::Deposit { from, amount, authorized } => authorized
                && self.vault.is_initialized() ==> self.vault.supply_can_move(amount as int),
            Operation::Withdraw { to, amount, authorized } => authorized
                && self.vault.is_initialized() ==> self.vault.supply_can_move(-(amount as int)),
        }
    }

    /// How the call ends.
    pub open spec fn outcome(self, op: Operation) -> Result<(), VaultError> {
        match op {
            Operation::Construct { base_asset, claim_token, administrator } => {
                self.vault.construct_outcome()
            },
            Operation::Deposit { from, amount, authorized } => {
                match self.vault.deposit_steps(from, amount, authorized) {
                    Err(refusal) => Err(refusal),
                    Ok(steps) => self.vault.settle_outcome(self.assets.settles(steps)),
                }
            },
            Operation::Withdraw { to, amount, authorized } => {
                match self.vault.withdraw_steps(to, amount, authorized) {
                    Err(refusal) => Err(refusal),
                    Ok(steps) => self.vault.settle_outcome(self.assets.settles(steps)),
                }
            },
        }
    }

    /// The world after the call. A call that fails changes nothing.
    pub open spec fn step(self, op: Operation) -> World {
        if self.outcome(op) is Err {
            self
        } else {
            match op {
                Operation::Construct { base_asset, claim_token, administrator } => World {
                    vault: self.vault.constructed(base_asset, claim_token, administrator),
                    assets: self.assets,
                },
                Operation::Deposit { from, amount, authorized } => World {
                    vault: self.vault.deposited(amount),
                    assets: self.assets.settled(
                        self.vault.deposit_steps(from, amount, authorized)->Ok_0,
                    ),
                },
                Operation::Withdraw { to, amount, authorized } => World {
                    vault: self.vault.withdrawn(amount),
                    assets: self.assets.settled(
                        self.vault.withdraw_steps(to, amount, authorized)->Ok_0,
                    ),
                },
            }
        }
    }

    /// Whether each call of a sequence may be made when its turn comes.
    pub open spec fn admits(self, ops: Seq<Operation>) -> bool
        decreases ops.len(),
    {
        ops.len() == 0 || (self.admissible(ops[0]) && self.step(ops[0]).admits(ops.skip(1)))
    }

    /// The world after a sequence of calls.
    pub open spec fn after_all(self, ops: Seq<Operation>) -> World
        decreases ops.len(),
    {
        if ops.len() == 0 {
            self
        } else {
            self.step(ops[0]).after_all(ops.skip(1))
        }
    }

    /// The vault's counter equals the supply of its claim token: the sum of
    /// all claim-token balances.
    pub open spec fn in_balance(self) -> bool {
        &&& self.vault.well_formed()
        &&& self.assets.well_formed()
        &&& self.vault.config matches Some(config) ==> self.vault.total_supply == self.assets.ledger(
            config.claim_token,
        ).supply()
    }

    /// A vault that has not been constructed is in balance.
    pub proof fn fresh_is_in_balance(identity: Principal, assets: Assets)
        requires
            assets.well_formed(),
        ensures
            World::fresh(identity, assets).in_balance(),
    {
    }

    /// No call takes a vault out of balance.
    pub proof fn step_keeps_balance(self, op: Operation)
        requires
            self.in_balance(),
            self.admissible(op),
        ensures
            self.step(op).in_balance(),
    {
        if self.outcome(op) is Ok {
            match op {
                Operation::Construct { base_asset, claim_token, administrator } => {},
                Operation::Deposit { from, amount, authorized } => {
                    let steps = self.vault.deposit_steps(from, amount, authorized)->Ok_0;
                    self.settled_keeps_count(steps);
                },
                Operation::Withdraw { to, amount, authorized } => {
                    let steps = self.vault.withdraw_steps(to, amount, authorized)->Ok_0;
                    self.settled_keeps_count(steps);
                },
            }
        }
    }

    /// Two accepted requests leave the ledgers well formed and change the
    /// supply of the claim token by what they mint less what they burn.
    proof fn settled_keeps_count(self, steps: AssetSteps)
        requires
            self.assets.well_formed(),
            self.assets.settles(steps),
        ensures
            self.assets.settled(steps).well_formed(),
            forall|asset: AssetRef| #[trigger]
                self.assets.settled(steps).ledger(asset).supply() == self.assets.ledger(
                    asset,
                ).supply() + (if asset == call_asset(steps.first) {
                    call_issue(steps.first)
                } else {
                    0
                }) + (if asset == call_asset(steps.second) {
                    call_issue(steps.second)
                } else {
                    0
                }),
    {
        self.assets.after_accepted(steps.first);
        self.assets.after(steps.first).after_accepted(steps.second);
    }

    /// Every state that is reached from one in balance is in balance. A vault
    /// starts in balance, so in every state that it reaches the counter
    /// equals the sum of the claim-token balances.
    pub proof fn reachable_is_in_balance(self, ops: Seq<Operation>)
        requires
            self.in_balance(),
            self.admits(ops),
        ensures
            self.after_all(ops).in_balance(),
        decreases ops.len(),
    {
        if ops.len() != 0 {
            self.step_keeps_balance(ops[0]);
            self.step(ops[0]).reachable_is_in_balance(ops.skip(1));
        }
    }

    /// In balance the counter is never negative, and it can always take a
    /// withdrawal whose burn the claim token accepts.
    pub proof fn accepted_withdrawal_fits(self, to: Principal, amount: i128)
        requires
            self.in_balance(),
        ensures
            self.vault.total_supply >= 0,
            self.vault.withdraw_steps(to, amount, true) matches Ok(steps) && self.assets.accepts(
                steps.first,
            ) ==> self.vault.supply_can_move(-(amount as int)),
    {
        if self.vault.config is Some {
            let config = self.vault.config->Some_0;
            self.assets.ledger(config.claim_token).supply_bounds_balance(to);
        }
    }

    /// A construction on a constructed vault fails with `AlreadyInitialized`
    /// and changes nothing; so of two constructions the second does.
    pub proof fn second_construction_is_refused(self, first: Operation, second: Operation)
        requires
            first is Construct,
            second is Construct,
        ensures
            self.vault.is_initialized() ==> self.outcome(first) == Err::<(), _>(
                VaultError::AlreadyInitialized,
            ) && self.step(first) == self,
            self.step(first).outcome(second) == Err::<(), _>(VaultError::AlreadyInitialized),
            self.step(first).step(second) == self.step(first),
    {
    }

    /// A deposit or a withdrawal that the acting principal has not authorized
    /// fails with `Unauthorized`, and no balance and no counter changes.
    pub proof fn unauthorized_call_changes_nothing(self, op: Operation)
        requires
            op matches Operation::Deposit { authorized, .. } ==> !authorized,
            op matches Operation::Withdraw { authorized, .. } ==> !authorized,
            !(op is Construct),
        ensures
            self.outcome(op) == Err::<(), _>(VaultError::Unauthorized),
            self.step(op) == self,
    {
    }

    /// A deposit that succeeds takes the amount from the depositor's balance
    /// of the base asset, adds it to the vault's custody and to the
    /// depositor's balance of the claim token, and moves the counter by as
    /// much. This is said of a depositor other than the vault, and of a claim
    /// token other than the base asset.
    pub proof fn deposit_moves_amount(self, who: Principal, amount: i128)
        requires
            self.outcome(Operation::Deposit { from: who, amount, authorized: true }) is Ok,
            who != self.vault.identity,
            self.vault.config->Some_0.base_asset != self.vault.config->Some_0.claim_token,
        ensures
            ({
                let after = self.step(Operation::Deposit { from: who, amount, authorized: true });
                let config = self.vault.config->Some_0;
                let vault = self.vault.identity;
                &&& after.assets.balance(config.base_asset, who) == self.assets.balance(
                    config.base_asset,
                    who,
                ) - amount
                &&& after.assets.balance(config.base_asset, vault) == self.assets.balance(
                    config.base_asset,
                    vault,
                ) + amount
                &&& after.assets.balance(config.claim_token, who) == self.assets.balance(
                    config.claim_token,
                    who,
                ) + amount
                &&& after.vault.total_supply == self.vault.total_supply + amount
                &&& after.vault.config == self.vault.config
            }),
    {
    }

    /// A withdrawal that succeeds takes the amount from the recipient's
    /// balance of the claim token and from the vault's custody, adds it to
    /// the recipient's balance of the base asset, and moves the counter by as
    /// much. This is said of a recipient other than the vault, and of a claim
    /// token other than the base asset.
    pub proof fn withdrawal_moves_amount(self, who: Principal, amount: i128)
        requires
            self.outcome(Operation::Withdraw { to: who, amount, authorized: true }) is Ok,
            who != self.vault.identity,
            self.vault.config->Some_0.base_asset != self.vault.config->Some_0.claim_token,
        ensures
            ({
                let after = self.step(Operation::Withdraw { to: who, amount, authorized: true });
                let config = self.vault.config->Some_0;
                let vault = self.vault.identity;
                &&& after.assets.balance(config.claim_token, who) == self.assets.balance(
                    config.claim_token,
                    who,
                ) - amount
                &&& after.assets.balance(config.base_asset, vault) == self.assets.balance(
                    config.base_asset,
                    vault,
                ) - amount
                &&& after.assets.balance(config.base_asset, who) == self.assets.balance(
                    config.base_asset,
                    who,
                ) + amount
                &&& after.vault.total_supply == self.vault.total_supply - amount
                &&& after.vault.config == self.vault.config
            }),
    {
    }

    /// A deposit followed by a withdrawal of the same amount by the same
    /// principal succeeds if the deposit did, and returns every balance of
    /// every asset, and the counter, to what they were before the deposit.
    pub proof fn deposit_then_withdraw_restores(self, who: Principal, amount: i128)
        requires
            self.in_balance(),
            self.admissible(Operation::Deposit { from: who, amount, authorized: true }),
            self.outcome(Operation::Deposit { from: who, amount, authorized: true }) is Ok,
        ensures
            ({
                let deposited = self.step(Operation::Deposit { from: who, amount, authorized: true });
                let back = Operation::Withdraw { to: who, amount, authorized: true };
                &&& deposited.admissible(back)
                &&& deposited.outcome(back) is Ok
                &&& deposited.step(back).vault == self.vault
                &&& forall|asset: AssetRef, holder: Principal|
                    deposited.step(back).assets.balance(asset, holder) == self.assets.balance(
                        asset,
                        holder,
                    )
            }),
    {
        let config = self.vault.config->Some_0;
        assert(self.assets.ledger(config.base_asset).well_formed());
        assert(self.assets.ledger(config.claim_token).well_formed());
    }
}

} // verus!
