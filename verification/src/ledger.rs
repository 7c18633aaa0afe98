//! The asset module as the vault expects it to behave, and what then holds of
//! a vault and its assets together. All of it is specification and proof:
//! the asset module itself is the host's.

use vstd::prelude::*;
use crate::model::VaultModel;
use crate::types::{AssetCall, AssetRef, AssetSteps, Principal};

verus! {

/// The sum of all holdings in a finite table.
pub open spec fn total(holdings: Map<Principal, int>) -> int
    decreases holdings.dom().len(),
    when holdings.dom().finite()
    via total_decreases
{
    if holdings.dom().len() == 0 {
        0
    } else {
        let p = holdings.dom().choose();
        holdings[p] + total(holdings.remove(p))
    }
}

#[via_fn]
proof fn total_decreases(holdings: Map<Principal, int>) {
    if holdings.dom().len() != 0 {
        let p = holdings.dom().choose();
        assert(holdings.dom().contains(p));
        assert(holdings.remove(p).dom() =~= holdings.dom().remove(p));
    }
}

/// The sum can be taken with any holder first.
pub proof fn total_splits_at(holdings: Map<Principal, int>, holder: Principal)
    requires
        holdings.dom().finite(),
        holdings.dom().contains(holder),
    ensures
        total(holdings) == holdings[holder] + total(holdings.remove(holder)),
    decreases holdings.dom().len(),
{
    let first = holdings.dom().choose();
    assert(holdings.dom().len() != 0);
    assert(holdings.remove(first).dom() =~= holdings.dom().remove(first));
    assert(holdings.remove(holder).dom() =~= holdings.dom().remove(holder));
    if first != holder {
        total_splits_at(holdings.remove(first), holder);
        total_splits_at(holdings.remove(holder), first);
        assert(holdings.remove(first).remove(holder) =~= holdings.remove(holder).remove(first));
    }
}

/// Setting one holding changes the sum by the difference.
pub proof fn total_after_insert(holdings: Map<Principal, int>, holder: Principal, holding: int)
    requires
        holdings.dom().finite(),
    ensures
        total(holdings.insert(holder, holding)) == total(holdings) + holding - (if holdings.dom().contains(
            holder,
        ) {
            holdings[holder]
        } else {
            0
        }),
{
    let updated = holdings.insert(holder, holding);
    total_splits_at(updated, holder);
    assert(updated.remove(holder) =~= holdings.remove(holder));
    if holdings.dom().contains(holder) {
        total_splits_at(holdings, holder);
    } else {
        assert(holdings.remove(holder) =~= holdings);
    }
}

/// Where no holding is negative, the sum is not negative and no holding
/// exceeds it.
pub proof fn total_bounds_each(holdings: Map<Principal, int>, holder: Principal)
    requires
        holdings.dom().finite(),
        forall|p: Principal| #[trigger] holdings.dom().contains(p) ==> holdings[p] >= 0,
    ensures
        total(holdings) >= 0,
        holdings.dom().contains(holder) ==> holdings[holder] <= total(holdings),
    decreases holdings.dom().len(),
{
    if holdings.dom().len() != 0 {
        let first = holdings.dom().choose();
        assert(holdings.dom().contains(first));
        assert(holdings.remove(first).dom() =~= holdings.dom().remove(first));
        total_bounds_each(holdings.remove(first), holder);
        if holdings.dom().contains(holder) {
            assert(holdings.remove(holder).dom() =~= holdings.dom().remove(holder));
            total_splits_at(holdings, holder);
            total_bounds_each(holdings.remove(holder), holder);
        }
    } else if holdings.dom().contains(holder) {
        assert(holdings.dom().remove(holder).len() + 1 == holdings.dom().len());
    }
}

/// The holdings of one asset. A principal without an entry holds nothing.
pub struct Ledger {
    pub holdings: Map<Principal, int>,
}

impl Ledger {
    /// Finitely many holders, and nobody holds less than nothing.
    pub open spec fn well_formed(self) -> bool {
        &&& self.holdings.dom().finite()
        &&& forall|p: Principal| #[trigger]
            self.holdings.dom().contains(p) ==> self.holdings[p] >= 0
    }

    /// An asset of which nothing has been issued.
    pub open spec fn empty() -> Ledger {
        Ledger { holdings: Map::empty() }
    }

    pub open spec fn balance(self, holder: Principal) -> int {
        if self.holdings.dom().contains(holder) {
            self.holdings[holder]
        } else {
            0
        }
    }

    /// All that has been issued and not destroyed: the sum of the balances.
    pub open spec fn supply(self) -> int {
        total(self.holdings)
    }

    /// Whether the asset lets `holder` part with `amount`: the amount is
    /// positive and the holder has it.
    pub open spec fn covers(self, holder: Principal, amount: int) -> bool {
        0 < amount <= self.balance(holder)
    }

    /// The ledger with the balance of `holder` moved by `delta`.
    pub open spec fn moved(self, holder: Principal, delta: int) -> Ledger {
        Ledger { holdings: self.holdings.insert(holder, self.balance(holder) + delta) }
    }

    /// Nobody holds more than the supply.
    pub proof fn supply_bounds_balance(self, holder: Principal)
        requires
            self.well_formed(),
        ensures
            0 <= self.balance(holder) <= self.supply(),
    {
        total_bounds_each(self.holdings, holder);
    }

    /// Moving one balance moves the supply by as much.
    pub proof fn supply_after_move(self, holder: Principal, delta: int)
        requires
            self.holdings.dom().finite(),
        ensures
            self.moved(holder, delta).supply() == self.supply() + delta,
            self.moved(holder, delta).holdings.dom().finite(),
    {
        total_after_insert(self.holdings, holder, self.balance(holder) + delta);
    }
}

/// The ledgers of all assets, by the asset's address. An asset without an
/// entry has issued nothing.
pub struct Assets {
    pub ledgers: Map<AssetRef, Ledger>,
}

impl Assets {
    pub open spec fn ledger(self, asset: AssetRef) -> Ledger {
        if self.ledgers.dom().contains(asset) {
            self.ledgers[asset]
        } else {
            Ledger::empty()
        }
    }

    pub open spec fn well_formed(self) -> bool {
        forall|asset: AssetRef| #[trigger] self.ledger(asset).well_formed()
    }

    pub open spec fn balance(self, asset: AssetRef, holder: Principal) -> int {
        self.ledger(asset).balance(holder)
    }

    pub open spec fn with_ledger(self, asset: AssetRef, ledger: Ledger) -> Assets {
        Assets { ledgers: self.ledgers.insert(asset, ledger) }
    }

    /// Whether the asset module accepts a request: the amount is positive,
    /// and whoever parts with it has it.
    pub open spec fn accepts(self, call: AssetCall) -> bool {
        match call {
            AssetCall::Transfer { asset, from, to, amount } => self.ledger(asset).covers(
                from,
                amount as int,
            ),
            AssetCall::Mint { asset, to, amount } => amount > 0,
            AssetCall::Burn { asset, from, amount } => self.ledger(asset).covers(from, amount as int),
        }
    }

    /// The ledgers after a request that the asset module accepted.
    pub open spec fn after(self, call: AssetCall) -> Assets {
        match call {
            AssetCall::Transfer { asset, from, to, amount } => self.with_ledger(
                asset,
                self.ledger(asset).moved(from, -(amount as int)).moved(to, amount as int),
            ),
            AssetCall::Mint { asset, to, amount } => self.with_ledger(
                asset,
                self.ledger(asset).moved(to, amount as int),
            ),
            AssetCall::Burn { asset, from, amount } => self.with_ledger(
                asset,
                self.ledger(asset).moved(from, -(amount as int)),
            ),
        }
    }

    /// Whether the asset module accepts both requests of an operation, the
    /// second on the ledgers that the first leaves.
    pub open spec fn settles(self, steps: AssetSteps) -> bool {
        self.accepts(steps.first) && self.after(steps.first).accepts(steps.second)
    }

    /// The ledgers after both requests of an operation.
    pub open spec fn settled(self, steps: AssetSteps) -> Assets {
        self.after(steps.first).after(steps.second)
    }

    /// An accepted request leaves every ledger well formed, changes no asset
    /// but its own, and changes the supply only by minting and burning.
    pub proof fn after_accepted(self, call: AssetCall)
        requires
            self.well_formed(),
            self.accepts(call),
        ensures
            self.after(call).well_formed(),
            forall|other: AssetRef|
                other != call_asset(call) ==> #[trigger] self.after(call).ledger(other)
                    == self.ledger(other),
            self.after(call).ledger(call_asset(call)).supply() == self.ledger(
                call_asset(call),
            ).supply() + call_issue(call),
    {
        let asset = call_asset(call);
        let before = self.ledger(asset);
        assert(before.well_formed());
        match call {
            AssetCall::Transfer { asset, from, to, amount } => {
                before.supply_after_move(from, -(amount as int));
                before.moved(from, -(amount as int)).supply_after_move(to, amount as int);
            },
            AssetCall::Mint { asset, to, amount } => {
                before.supply_after_move(to, amount as int);
            },
            AssetCall::Burn { asset, from, amount } => {
                before.supply_after_move(from, -(amount as int));
            },
        }
        assert forall|other: AssetRef| #[trigger] self.after(call).ledger(other).well_formed() by {
            if other != asset {
                assert(self.ledger(other).well_formed());
            }
        }
    }
}

/// The asset that a request addresses.
pub open spec fn call_asset(call: AssetCall) -> AssetRef {
    match call {
        AssetCall::Transfer { asset, from, to, amount } => asset,
        AssetCall::Mint { asset, to, amount } => asset,
        AssetCall::Burn { asset, from, amount } => asset,
    }
}

/// By how much a request changes the supply of its asset.
pub open spec fn call_issue(call: AssetCall) -> int {
    match call {
        AssetCall::Transfer { asset, from, to, amount } => 0,
        AssetCall::Mint { asset, to, amount } => amount as int,
        AssetCall::Burn { asset, from, amount } => -(amount as int),
    }
}

} // verus!
