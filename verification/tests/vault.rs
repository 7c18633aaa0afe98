use staking_vault::{
    AssetCall, AssetRef, AssetSteps, Principal, PrincipalKind, StakingVault, StoredValue,
    VaultConfig, VaultError, VaultKey,
};

fn contract(byte: u8) -> Principal {
    Principal { kind: PrincipalKind::Contract, id: [byte; 32] }
}

fn asset(byte: u8) -> AssetRef {
    AssetRef { id: [byte; 32] }
}

fn account(byte: u8) -> Principal {
    Principal { kind: PrincipalKind::Account, id: [byte; 32] }
}

fn constructed() -> StakingVault {
    let mut vault = StakingVault::new(contract(1));
    assert_eq!(vault.__constructor(asset(2), asset(3), account(4)), Ok(()));
    vault
}

#[test]
fn new_vault_is_empty() {
    let vault = StakingVault::new(contract(1));
    assert_eq!(vault.identity(), contract(1));
    assert!(!vault.is_initialized());
    assert_eq!(vault.get_total_supply(), 0);
    assert_eq!(vault.get_base_token(), Err(VaultError::UninitializedAccess));
    assert_eq!(vault.get_vault_token(), Err(VaultError::UninitializedAccess));
    assert_eq!(vault.entry(VaultKey::IsInitialized), None);
    assert_eq!(vault.entry(VaultKey::TotalVaultSupply), None);
}

#[test]
fn construction_fixes_the_references() {
    let vault = constructed();
    assert!(vault.is_initialized());
    assert_eq!(vault.identity(), contract(1));
    assert_eq!(vault.get_base_token(), Ok(asset(2)));
    assert_eq!(vault.get_vault_token(), Ok(asset(3)));
    assert_eq!(vault.get_total_supply(), 0);
}

#[test]
fn second_construction_is_refused_and_changes_nothing() {
    let mut vault = constructed();
    assert_eq!(vault.record_deposit(70, true), Ok(()));
    assert_eq!(
        vault.__constructor(asset(8), asset(9), account(10)),
        Err(VaultError::AlreadyInitialized)
    );
    assert_eq!(vault.get_base_token(), Ok(asset(2)));
    assert_eq!(vault.get_vault_token(), Ok(asset(3)));
    assert_eq!(vault.entry(VaultKey::Admin), Some(StoredValue::Reference(account(4))));
    assert_eq!(vault.get_total_supply(), 70);
}

#[test]
fn deposit_moves_the_base_asset_then_mints() {
    let vault = constructed();
    assert_eq!(
        vault.deposit_steps(&account(5), 200, true),
        Ok(AssetSteps {
            first: AssetCall::Transfer {
                asset: asset(2),
                from: account(5),
                to: contract(1),
                amount: 200
            },
            second: AssetCall::Mint { asset: asset(3), to: account(5), amount: 200 },
        })
    );
}

#[test]
fn withdrawal_burns_then_moves_the_base_asset() {
    let vault = constructed();
    assert_eq!(
        vault.withdraw_steps(&account(5), 100, true),
        Ok(AssetSteps {
            first: AssetCall::Burn { asset: asset(3), from: account(5), amount: 100 },
            second: AssetCall::Transfer {
                asset: asset(2),
                from: contract(1),
                to: account(5),
                amount: 100
            },
        })
    );
}

#[test]
fn steps_need_authorization_then_construction() {
    let fresh = StakingVault::new(contract(1));
    assert_eq!(fresh.deposit_steps(&account(5), 1, false), Err(VaultError::Unauthorized));
    assert_eq!(fresh.withdraw_steps(&account(5), 1, false), Err(VaultError::Unauthorized));
    assert_eq!(fresh.deposit_steps(&account(5), 1, true), Err(VaultError::UninitializedAccess));
    assert_eq!(fresh.withdraw_steps(&account(5), 1, true), Err(VaultError::UninitializedAccess));
    let vault = constructed();
    assert_eq!(vault.deposit_steps(&account(5), 1, false), Err(VaultError::Unauthorized));
    assert_eq!(vault.withdraw_steps(&account(5), 1, false), Err(VaultError::Unauthorized));
}

#[test]
fn counter_moves_only_when_settled() {
    let mut vault = constructed();
    assert_eq!(vault.record_deposit(200, true), Ok(()));
    assert_eq!(vault.get_total_supply(), 200);
    assert_eq!(vault.record_deposit(300, false), Err(VaultError::InsufficientBalance));
    assert_eq!(vault.get_total_supply(), 200);
    assert_eq!(vault.record_deposit(300, true), Ok(()));
    assert_eq!(vault.get_total_supply(), 500);
    assert_eq!(vault.record_withdrawal(100, true), Ok(()));
    assert_eq!(vault.get_total_supply(), 400);
    assert_eq!(vault.record_withdrawal(400, false), Err(VaultError::InsufficientBalance));
    assert_eq!(vault.get_total_supply(), 400);
    assert_eq!(vault.record_withdrawal(400, true), Ok(()));
    assert_eq!(vault.get_total_supply(), 0);
}

#[test]
fn counter_reaches_the_ends_of_its_range() {
    let mut vault = constructed();
    assert_eq!(vault.record_deposit(i128::MAX, true), Ok(()));
    assert_eq!(vault.get_total_supply(), i128::MAX);
    assert_eq!(vault.record_withdrawal(i128::MAX, true), Ok(()));
    assert_eq!(vault.get_total_supply(), 0);
    assert_eq!(vault.record_deposit(0, true), Ok(()));
    assert_eq!(vault.get_total_supply(), 0);
}

#[test]
fn nothing_is_booked_before_construction() {
    let mut vault = StakingVault::new(contract(1));
    assert_eq!(vault.record_deposit(5, true), Err(VaultError::UninitializedAccess));
    assert_eq!(vault.record_withdrawal(5, true), Err(VaultError::UninitializedAccess));
    assert_eq!(vault.record_deposit(5, false), Err(VaultError::UninitializedAccess));
    assert_eq!(vault.get_total_supply(), 0);
}

#[test]
fn state_store_slots() {
    let mut vault = constructed();
    assert_eq!(vault.record_deposit(42, true), Ok(()));
    assert_eq!(vault.entry(VaultKey::BaseToken), Some(StoredValue::Reference(contract(2))));
    assert_eq!(vault.entry(VaultKey::VaultToken), Some(StoredValue::Reference(contract(3))));
    assert_eq!(vault.entry(VaultKey::Admin), Some(StoredValue::Reference(account(4))));
    assert_eq!(vault.entry(VaultKey::TotalVaultSupply), Some(StoredValue::Amount(42)));
    assert_eq!(vault.entry(VaultKey::IsInitialized), Some(StoredValue::Flag(true)));
}

#[test]
fn only_a_contract_is_an_asset() {
    assert_eq!(AssetRef::from_principal(&contract(6)), Some(asset(6)));
    assert_eq!(AssetRef::from_principal(&account(6)), None);
    assert_eq!(asset(6).principal(), contract(6));
}

#[test]
fn unsettled_withdrawal_of_any_amount_changes_nothing() {
    let mut fresh = StakingVault::new(contract(1));
    assert_eq!(fresh.record_withdrawal(i128::MIN, true), Err(VaultError::UninitializedAccess));
    assert_eq!(fresh.get_total_supply(), 0);
    let mut vault = constructed();
    assert_eq!(vault.record_withdrawal(i128::MIN, false), Err(VaultError::InsufficientBalance));
    assert_eq!(vault.record_deposit(i128::MAX, false), Err(VaultError::InsufficientBalance));
    assert_eq!(vault.get_total_supply(), 0);
}

#[test]
fn slot_numbers() {
    assert_eq!(VaultKey::BaseToken.code(), 0);
    assert_eq!(VaultKey::VaultToken.code(), 1);
    assert_eq!(VaultKey::Admin.code(), 2);
    assert_eq!(VaultKey::TotalVaultSupply.code(), 3);
    assert_eq!(VaultKey::IsInitialized.code(), 4);
}

#[test]
fn restore_rebuilds_the_vault() {
    let config = VaultConfig {
        base_asset: asset(2),
        claim_token: asset(3),
        administrator: account(4),
    };
    let vault = StakingVault::restore(contract(1), Some(config), 400);
    assert!(vault.is_initialized());
    assert_eq!(vault.identity(), contract(1));
    assert_eq!(vault.get_base_token(), Ok(asset(2)));
    assert_eq!(vault.get_vault_token(), Ok(asset(3)));
    assert_eq!(vault.entry(VaultKey::Admin), Some(StoredValue::Reference(account(4))));
    assert_eq!(vault.get_total_supply(), 400);

    let absent = StakingVault::restore(contract(1), None, 400);
    assert!(!absent.is_initialized());
    assert_eq!(absent.get_total_supply(), 0);
}
