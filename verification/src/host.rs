//! The host that the vault runs on: its hashing, its encoding of addresses
//! and the asset module. Nothing in this file is proved; each declaration
//! says what it takes on trust.
//!
//! The host ends an invocation that exhausts its resource budget, whatever
//! the call that it was making. No argument decides that, and no contract
//! here speaks of it.

use vstd::prelude::*;
use soroban_sdk::address_payload::AddressPayload;
use soroban_sdk::token::{StellarAssetClient, TokenClient};
use soroban_sdk::xdr::ToXdr;
use soroban_sdk::{Address, Bytes, BytesN, Env};
use crate::types::{AssetRef, Principal, PrincipalKind};

verus! {

/// The host environment. The library hands it through and never looks inside.
#[verifier::external_type_specification]
#[verifier::external_body]
pub struct ExEnv(Env);

/// The canonical encoding of an asset's address: a four-byte tag for an
/// address value, a four-byte tag for a contract's address, then the 32 bytes
/// of the identifier.
pub open spec fn identity_encoding(asset: AssetRef) -> Seq<u8> {
    seq![0u8, 0u8, 0u8, 18u8, 0u8, 0u8, 0u8, 1u8] + asset.id@
}

/// The SHA-256 digest of a byte string.
pub uninterp spec fn sha256_digest(data: Seq<u8>) -> Seq<u8>;

/// `ToXdr::to_xdr` of soroban-sdk, on the address that
/// `Address::from_payload` builds for the asset. Taken on trust: the bytes
/// are the encoding written out in `identity_encoding`, the layout that
/// soroban-sdk itself assembles and takes apart in `AddressPayload`.
#[verifier::external_body]
pub(crate) fn identity_xdr(e: &Env, asset: &AssetRef) -> (xdr: Vec<u8>)
    ensures
        xdr@ == identity_encoding(*asset),
{
    let payload = AddressPayload::ContractIdHash(BytesN::from_array(e, &asset.id));
    Address::from_payload(e, payload).to_xdr(e).iter().collect()
}

/// `Crypto::sha256` of soroban-sdk. Taken on trust: the result is the
/// SHA-256 digest of `data`, a function of the bytes alone. The host charges
/// for hashing by the byte; the library hashes an encoded identity, of 40
/// bytes, and nothing longer.
#[verifier::external_body]
pub(crate) fn sha256(e: &Env, data: &Vec<u8>) -> (digest: [u8; 32])
    requires
        data@.len() <= 40,
    ensures
        digest@ == sha256_digest(data@),
{
    e.crypto().sha256(&Bytes::from_slice(e, data)).to_array()
}

/// `TokenClient::try_transfer` of soroban-sdk: asks the asset `asset` to move
/// `amount` from `from` to `to`, and tells whether the asset accepted. The
/// answer depends on the ledger, so nothing is claimed of it. The host
/// answers a call to a contract's address, which an asset's address is: where
/// no contract stands there, or the contract fails, the call is refused.
#[verifier::external_body]
pub(crate) fn try_transfer(
    e: &Env,
    asset: &AssetRef,
    from: &Principal,
    to: &Principal,
    amount: i128,
) -> (accepted: bool) {
    let address = |p: &Principal| match p.kind {
        PrincipalKind::Account => AddressPayload::AccountIdPublicKeyEd25519(BytesN::from_array(e, &p.id)),
        PrincipalKind::Contract => AddressPayload::ContractIdHash(BytesN::from_array(e, &p.id)),
    }.to_address(e);
    let asset = AddressPayload::ContractIdHash(BytesN::from_array(e, &asset.id)).to_address(e);
    let outcome = TokenClient::new(e, &asset).try_transfer(&address(from), address(to), &amount);
    matches!(outcome, Ok(Ok(())))
}

/// `StellarAssetClient::try_mint` of soroban-sdk: asks the asset `asset` to
/// issue `amount` to `to`, and tells whether the asset accepted. The answer
/// depends on the ledger, so nothing is claimed of it. The host answers a
/// call to a contract's address, which an asset's address is: where no
/// contract stands there, or the contract fails, the call is refused.
#[verifier::external_body]
pub(crate) fn try_mint(e: &Env, asset: &AssetRef, to: &Principal, amount: i128) -> (accepted: bool) {
    let address = |p: &Principal| match p.kind {
        PrincipalKind::Account => AddressPayload::AccountIdPublicKeyEd25519(BytesN::from_array(e, &p.id)),
        PrincipalKind::Contract => AddressPayload::ContractIdHash(BytesN::from_array(e, &p.id)),
    }.to_address(e);
    let asset = AddressPayload::ContractIdHash(BytesN::from_array(e, &asset.id)).to_address(e);
    let outcome = StellarAssetClient::new(e, &asset).try_mint(&address(to), &amount);
    matches!(outcome, Ok(Ok(())))
}

/// `TokenClient::try_burn` of soroban-sdk: asks the asset `asset` to destroy
/// `amount` held by `from`, and tells whether the asset accepted. The answer
/// depends on the ledger, so nothing is claimed of it. The host answers a
/// call to a contract's address, which an asset's address is: where no
/// contract stands there, or the contract fails, the call is refused.
#[verifier::external_body]
pub(crate) fn try_burn(e: &Env, asset: &AssetRef, from: &Principal, amount: i128) -> (accepted: bool) {
    let address = |p: &Principal| match p.kind {
        PrincipalKind::Account => AddressPayload::AccountIdPublicKeyEd25519(BytesN::from_array(e, &p.id)),
        PrincipalKind::Contract => AddressPayload::ContractIdHash(BytesN::from_array(e, &p.id)),
    }.to_address(e);
    let asset = AddressPayload::ContractIdHash(BytesN::from_array(e, &asset.id)).to_address(e);
    let outcome = TokenClient::new(e, &asset).try_burn(&address(from), &amount);
    matches!(outcome, Ok(Ok(())))
}

} // verus!
