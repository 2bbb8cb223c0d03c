use vstd::prelude::*;

use crate::assets::{asset_infos_view, AssetInfoView, VaultInfo};
use crate::helpers::{copy_strings, strings_view};
use crate::table::Table;

verus! {

/// The vault's configuration.
#[derive(Clone, Debug, PartialEq, Eq)]
pub struct Config {
    pub owner: String,
    pub vault_info: VaultInfo,
}

/// The mathematical value of a [`Config`].
pub struct ConfigView {
    pub owner: Seq<char>,
    pub contract_addr: Seq<char>,
    pub asset_infos: Seq<AssetInfoView>,
    pub stratgy_infos: Seq<Seq<char>>,
}

impl View for Config {
    type V = ConfigView;

    open spec fn view(&self) -> ConfigView {
        ConfigView {
            owner: self.owner@,
            contract_addr: self.vault_info.contract_addr@,
            asset_infos: asset_infos_view(self.vault_info.asset_infos@),
            stratgy_infos: strings_view(self.vault_info.stratgy_infos@),
        }
    }
}

/// What the vault holds for one user.
#[derive(Clone, Debug, PartialEq, Eq)]
pub struct UserInfo {
    pub shares: u128,
    pub bonded: u128,
    pub strategies: Vec<String>,
}

/// The mathematical value of a [`UserInfo`].
pub struct UserInfoView {
    pub shares: u128,
    pub bonded: u128,
    pub strategies: Seq<Seq<char>>,
}

impl View for UserInfo {
    type V = UserInfoView;

    open spec fn view(&self) -> UserInfoView {
        UserInfoView {
            shares: self.shares,
            bonded: self.bonded,
            strategies: strings_view(self.strategies@),
        }
    }
}

impl UserInfo {
    /// A copy of this record.
    pub fn duplicate(&self) -> (r: UserInfo)
        ensures
            r@ == self@,
    {
        UserInfo {
            shares: self.shares,
            bonded: self.bonded,
            strategies: copy_strings(&self.strategies),
        }
    }
}

/// What the vault holds for one bond with a strategy.
#[derive(Clone, Debug, PartialEq, Eq)]
pub struct BondInfo {
    pub addr: String,
    pub owner_addr: String,
    pub denom: String,
    pub amount: u128,
    pub bonded: bool,
    pub unbonded_amount: u128,
    pub unbonded: bool,
    pub unbond_time: u64,
}

/// The mathematical value of a [`BondInfo`].
pub struct BondInfoView {
    pub addr: Seq<char>,
    pub owner_addr: Seq<char>,
    pub denom: Seq<char>,
    pub amount: u128,
    pub bonded: bool,
    pub unbonded_amount: u128,
    pub unbonded: bool,
    pub unbond_time: u64,
}

impl View for BondInfo {
    type V = BondInfoView;

    open spec fn view(&self) -> BondInfoView {
        BondInfoView {
            addr: self.addr@,
            owner_addr: self.owner_addr@,
            denom: self.denom@,
            amount: self.amount,
            bonded: self.bonded,
            unbonded_amount: self.unbonded_amount,
            unbonded: self.unbonded,
            unbond_time: self.unbond_time,
        }
    }
}

impl BondInfo {
    /// A copy of this record.
    pub fn duplicate(&self) -> (r: BondInfo)
        ensures
            r@ == self@,
    {
        BondInfo {
            addr: self.addr.clone(),
            owner_addr: self.owner_addr.clone(),
            denom: self.denom.clone(),
            amount: self.amount,
            bonded: self.bonded,
            unbonded_amount: self.unbonded_amount,
            unbonded: self.unbonded,
            unbond_time: self.unbond_time,
        }
    }
}

/// The number that the next bond id is made from.
#[derive(Clone, Copy, Debug, PartialEq, Eq, Structural)]
pub struct BondConuter {
    pub count: u64,
}

/// The vault's storage: the configuration, the bond counter, the users' records by address
/// and the bond records by bond id.
#[derive(Debug)]
pub struct Vault {
    pub config: Option<Config>,
    pub counter: Option<BondConuter>,
    pub users: Table<UserInfo>,
    pub strategies: Table<BondInfo>,
}

/// The mathematical value of a [`Vault`].
pub struct VaultView {
    pub config: Option<ConfigView>,
    pub counter: Option<u64>,
    pub users: Map<Seq<char>, UserInfoView>,
    pub strategies: Map<Seq<char>, BondInfoView>,
}

impl View for Vault {
    type V = VaultView;

    open spec fn view(&self) -> VaultView {
        VaultView {
            config: match self.config {
                Some(c) => Some(c@),
                None => None,
            },
            counter: match self.counter {
                Some(c) => Some(c.count),
                None => None,
            },
            users: self.users@,
            strategies: self.strategies@,
        }
    }
}

impl Vault {
    /// Empty storage.
    pub fn new() -> (v: Vault)
        ensures
            v@.config is None,
            v@.counter is None,
            v@.users == Map::<Seq<char>, UserInfoView>::empty(),
            v@.strategies == Map::<Seq<char>, BondInfoView>::empty(),
    {
        Vault { config: None, counter: None, users: Table::new(), strategies: Table::new() }
    }
}

} // verus!
