use vstd::prelude::*;

use crate::assets::{Asset, AssetInfo};
use crate::helpers::strings_view;

verus! {

/// What instantiating the vault takes.
#[derive(Clone, Debug, PartialEq, Eq)]
pub struct InstantiateMsg {
    pub owner: String,
    pub asset_infos: Vec<AssetInfo>,
    pub strategy_infos: Vec<String>,
}

/// The messages that the vault handles.
#[derive(Clone, Debug, PartialEq, Eq)]
pub enum ExecuteMsg {
    Deposit { assets: Vec<Asset> },
    Bond {},
    Unbond { id: String },
    StartUnbond { id: String, amount: u128 },
    Callback { action: CallbackMsg },
}

/// The answers that strategy contracts send back.
#[derive(Clone, Debug, PartialEq, Eq)]
pub enum CallbackMsg {
    BondResponse { share_amount: u128, bond_id: String },
    StartUnbondResponse { share_amount: u128, unbond_id: String },
    UnbondResponse { share_amount: u128, unbond_id: String },
}

/// The queries that the vault answers.
#[derive(Clone, Debug, PartialEq, Eq)]
pub enum QueryMsg {
    Config {},
    UserInfo { user: String },
    BondInfo { id: String },
}

/// The answer to [`QueryMsg::Config`].
#[derive(Clone, Debug, PartialEq, Eq)]
pub struct ConfigResponse {
    pub owner: String,
}

/// The answer to [`QueryMsg::UserInfo`].
#[derive(Clone, Debug, PartialEq, Eq)]
pub struct UserResponse {
    pub shares: u128,
    pub bonded: u128,
    pub strategies: Vec<String>,
}

/// The mathematical value of a [`UserResponse`].
pub struct UserResponseView {
    pub shares: u128,
    pub bonded: u128,
    pub strategies: Seq<Seq<char>>,
}

impl View for UserResponse {
    type V = UserResponseView;

    open spec fn view(&self) -> UserResponseView {
        UserResponseView {
            shares: self.shares,
            bonded: self.bonded,
            strategies: strings_view(self.strategies@),
        }
    }
}

/// The answer to [`QueryMsg::BondInfo`].
#[derive(Clone, Debug, PartialEq, Eq)]
pub struct BondInfoResponse {
    pub addr: String,
    pub amount: u128,
    pub bonded: bool,
    pub unbonded: u128,
}

/// The mathematical value of a [`BondInfoResponse`].
pub struct BondInfoResponseView {
    pub addr: Seq<char>,
    pub amount: u128,
    pub bonded: bool,
    pub unbonded: u128,
}

impl View for BondInfoResponse {
    type V = BondInfoResponseView;

    open spec fn view(&self) -> BondInfoResponseView {
        BondInfoResponseView {
            addr: self.addr@,
            amount: self.amount,
            bonded: self.bonded,
            unbonded: self.unbonded,
        }
    }
}

/// The answer to one of the vault's queries.
#[derive(Clone, Debug, PartialEq, Eq)]
pub enum QueryResponse {
    Config(ConfigResponse),
    User(UserResponse),
    BondInfo(BondInfoResponse),
}

} // verus!
