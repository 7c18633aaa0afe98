use vstd::prelude::*;

verus! {

/// What kind of ledger entity a principal is.
#[derive(Clone, Copy, Debug, PartialEq, Eq, Hash)]
pub enum PrincipalKind {
    /// An account, named by its 32-byte public key.
    Account,
    /// A contract instance, named by its 32-byte identifier.
    Contract,
}

/// The identity of a caller, a holder or the vault itself, as plain data.
#[derive(Clone, Copy, Debug, PartialEq, Eq, Hash)]
pub struct Principal {
    pub kind: PrincipalKind,
    pub id: [u8; 32],
}

/// The address of an asset instance. The host runs every asset as a contract,
/// so an asset is named by a contract's 32-byte identifier and by nothing
/// else.
#[derive(Clone, Copy, Debug, PartialEq, Eq, Hash)]
pub struct AssetRef {
    pub id: [u8; 32],
}

impl AssetRef {
    /// The asset instance as a principal: the contract with its identifier.
    pub open spec fn spec_principal(self) -> Principal {
        Principal { kind: PrincipalKind::Contract, id: self.id }
    }

    /// The asset instance as a principal: the contract with its identifier.
    #[verifier::when_used_as_spec(spec_principal)]
    pub fn principal(self) -> (principal: Principal)
        ensures
            principal == self.spec_principal(),
    {
        Principal { kind: PrincipalKind::Contract, id: self.id }
    }

    /// The asset instance at a principal's address, if the principal is a
    /// contract. An account is no asset.
    pub fn from_principal(principal: &Principal) -> (asset: Option<AssetRef>)
        ensures
            asset == match principal.kind {
                PrincipalKind::Contract => Some(AssetRef { id: principal.id }),
                PrincipalKind::Account => None,
            },
    {
        match principal.kind {
            PrincipalKind::Contract => Some(AssetRef { id: principal.id }),
            PrincipalKind::Account => None,
        }
    }
}

/// The failures that a vault operation can end in.
#[derive(Clone, Copy, Debug, PartialEq, Eq)]
pub enum VaultError {
    /// Construction was attempted on a vault that is already set up.
    AlreadyInitialized,
    /// The acting principal has not authorized the call.
    Unauthorized,
    /// The asset module refused to move, mint or burn the amount; with a
    /// standard asset the principal holds too little.
    InsufficientBalance,
    /// A call that needs the vault's configuration came before construction.
    UninitializedAccess,
}

/// The slots of the vault's persistent state.
#[derive(Clone, Copy, Debug, PartialEq, Eq)]
pub enum VaultKey {
    BaseToken,
    VaultToken,
    Admin,
    TotalVaultSupply,
    IsInitialized,
}

impl VaultKey {
    /// The number under which the slot is filed in the state store.
    pub open spec fn spec_code(self) -> u32 {
        match self {
            VaultKey::BaseToken => 0,
            VaultKey::VaultToken => 1,
            VaultKey::Admin => 2,
            VaultKey::TotalVaultSupply => 3,
            VaultKey::IsInitialized => 4,
        }
    }

    /// The number under which the slot is filed in the state store.
    pub fn code(self) -> (code: u32)
        ensures
            code == self.spec_code(),
    {
        match self {
            VaultKey::BaseToken => 0,
            VaultKey::VaultToken => 1,
            VaultKey::Admin => 2,
            VaultKey::TotalVaultSupply => 3,
            VaultKey::IsInitialized => 4,
        }
    }

    /// Distinct slots are filed under distinct numbers.
    pub proof fn codes_are_distinct(a: VaultKey, b: VaultKey)
        ensures
            a.spec_code() == b.spec_code() <==> a == b,
    {
    }
}

/// What one slot of the state store holds.
#[derive(Clone, Copy, Debug, PartialEq, Eq)]
pub enum StoredValue {
    Reference(Principal),
    Amount(i128),
    Flag(bool),
}

/// The references fixed at construction.
#[derive(Clone, Copy, Debug, PartialEq, Eq)]
pub struct VaultConfig {
    /// The asset that principals deposit and redeem.
    pub base_asset: AssetRef,
    /// The claim-token instance that the vault administers.
    pub claim_token: AssetRef,
    /// The administrator named at construction.
    pub administrator: Principal,
}

/// One request to the asset module.
#[derive(Clone, Copy, Debug, PartialEq, Eq)]
pub enum AssetCall {
    /// Move `amount` units of `asset` from `from` to `to`.
    Transfer { asset: AssetRef, from: Principal, to: Principal, amount: i128 },
    /// Issue `amount` new units of `asset` to `to`.
    Mint { asset: AssetRef, to: Principal, amount: i128 },
    /// Destroy `amount` units of `asset` held by `from`.
    Burn { asset: AssetRef, from: Principal, amount: i128 },
}

/// The two requests of one accounting operation, in the order in which they
/// are made. The second is made only if the asset module accepted the first.
#[derive(Clone, Copy, Debug, PartialEq, Eq)]
pub struct AssetSteps {
    pub first: AssetCall,
    pub second: AssetCall,
}

/// A claim-token instance for the host to deploy.
#[derive(Debug, PartialEq, Eq)]
pub struct Deployment {
    /// The code that the instance runs.
    pub template: [u8; 32],
    /// The identity from which, with `salt`, the host derives the address.
    pub deployer: Principal,
    pub salt: [u8; 32],
    /// Who may mint and burn the claim token.
    pub administrator: Principal,
    pub decimals: u32,
    pub name: String,
    pub symbol: String,
}

/// A deployment as a mathematical object.
pub struct DeploymentModel {
    pub template: Seq<u8>,
    pub deployer: Principal,
    pub salt: Seq<u8>,
    pub administrator: Principal,
    pub decimals: u32,
    pub name: Seq<char>,
    pub symbol: Seq<char>,
}

impl View for Deployment {
    type V = DeploymentModel;

    open spec fn view(&self) -> DeploymentModel {
        DeploymentModel {
            template: self.template@,
            deployer: self.deployer,
            salt: self.salt@,
            administrator: self.administrator,
            decimals: self.decimals,
            name: self.name@,
            symbol: self.symbol@,
        }
    }
}

} // verus!
