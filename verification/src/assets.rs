use vstd::prelude::*;

use crate::error::{StdError, StdErrorView};

verus! {

/// An amount of one native token.
#[derive(Clone, Debug, PartialEq, Eq)]
pub struct Coin {
    pub denom: String,
    pub amount: u128,
}

/// The mathematical value of a [`Coin`].
pub struct CoinView {
    pub denom: Seq<char>,
    pub amount: u128,
}

impl View for Coin {
    type V = CoinView;

    open spec fn view(&self) -> CoinView {
        CoinView { denom: self.denom@, amount: self.amount }
    }
}

/// The views of a list of coins.
pub open spec fn coins_view(coins: Seq<Coin>) -> Seq<CoinView> {
    coins.map_values(|c: Coin| c@)
}

/// The kind of an asset that the vault may hold.
#[derive(Clone, Debug, PartialEq, Eq, Hash)]
pub enum AssetInfo {
    /// Non-native Token
    Token { contract_addr: String },
    /// Native token
    NativeToken { denom: String },
}

/// The mathematical value of an [`AssetInfo`].
pub enum AssetInfoView {
    Token { contract_addr: Seq<char> },
    NativeToken { denom: Seq<char> },
}

impl View for AssetInfo {
    type V = AssetInfoView;

    open spec fn view(&self) -> AssetInfoView {
        match self {
            AssetInfo::Token { contract_addr } => AssetInfoView::Token {
                contract_addr: contract_addr@,
            },
            AssetInfo::NativeToken { denom } => AssetInfoView::NativeToken { denom: denom@ },
        }
    }
}

/// The views of a list of asset kinds.
pub open spec fn asset_infos_view(infos: Seq<AssetInfo>) -> Seq<AssetInfoView> {
    infos.map_values(|a: AssetInfo| a@)
}

impl AssetInfo {
    /// Whether two asset kinds are the same kind with the same address or denomination.
    pub fn same_as(&self, other: &AssetInfo) -> (r: bool)
        ensures
            r == (self@ == other@),
    {
        match (self, other) {
            (AssetInfo::Token { contract_addr: a }, AssetInfo::Token { contract_addr: b }) => {
                *a == *b
            },
            (AssetInfo::NativeToken { denom: a }, AssetInfo::NativeToken { denom: b }) => *a == *b,
            _ => false,
        }
    }

    /// A copy of this asset kind.
    pub fn duplicate(&self) -> (r: AssetInfo)
        ensures
            r@ == self@,
    {
        match self {
            AssetInfo::Token { contract_addr } => AssetInfo::Token {
                contract_addr: contract_addr.clone(),
            },
            AssetInfo::NativeToken { denom } => AssetInfo::NativeToken { denom: denom.clone() },
        }
    }
}

/// A copy of a list of asset kinds.
pub fn copy_asset_infos(v: &Vec<AssetInfo>) -> (r: Vec<AssetInfo>)
    ensures
        asset_infos_view(r@) == asset_infos_view(v@),
{
    let mut r: Vec<AssetInfo> = Vec::new();
    let mut i: usize = 0;
    while i < v.len()
        invariant
            i <= v.len(),
            r@.len() == i,
            forall|j: int| 0 <= j < i ==> #[trigger] r@[j]@ == v@[j]@,
        decreases v.len() - i,
    {
        r.push(v[i].duplicate());
        i = i + 1;
    }
    assert(asset_infos_view(r@) =~= asset_infos_view(v@));
    r
}

/// An amount of an asset.
#[derive(Clone, Debug, PartialEq, Eq)]
pub struct Asset {
    pub info: AssetInfo,
    pub amount: u128,
}

/// The mathematical value of an [`Asset`].
pub struct AssetView {
    pub info: AssetInfoView,
    pub amount: u128,
}

impl View for Asset {
    type V = AssetView;

    open spec fn view(&self) -> AssetView {
        AssetView { info: self.info@, amount: self.amount }
    }
}

/// The views of a list of assets.
pub open spec fn assets_view(assets: Seq<Asset>) -> Seq<AssetView> {
    assets.map_values(|a: Asset| a@)
}

/// Where the vault lives, the two assets it takes and the two strategies it bonds with.
#[derive(Clone, Debug, PartialEq, Eq)]
pub struct VaultInfo {
    pub contract_addr: String,
    pub asset_infos: Vec<AssetInfo>,
    pub stratgy_infos: Vec<String>,
}

/// Whether `infos` names the native token `denom`.
pub open spec fn pool_has(infos: Seq<AssetInfoView>, denom: Seq<char>) -> bool {
    exists|i: int|
        0 <= i < infos.len() && #[trigger] infos[i] == (AssetInfoView::NativeToken { denom })
}

/// The first native asset, from position `i` on, whose denomination the pool does not name.
pub open spec fn first_unsupported(
    assets: Seq<AssetView>,
    infos: Seq<AssetInfoView>,
    i: int,
) -> Option<Seq<char>>
    decreases assets.len() - i,
{
    if i < 0 || i >= assets.len() {
        None
    } else {
        match assets[i].info {
            AssetInfoView::NativeToken { denom } => if !pool_has(infos, denom) {
                Some(denom)
            } else {
                first_unsupported(assets, infos, i + 1)
            },
            _ => first_unsupported(assets, infos, i + 1),
        }
    }
}

/// The amount that the last native asset among the first `n` of `assets` with denomination
/// `denom` declares: what a map built from the assets in order holds for `denom`.
pub open spec fn input_amount(assets: Seq<AssetView>, denom: Seq<char>, n: int) -> Option<u128>
    decreases n,
{
    if n <= 0 || n > assets.len() {
        None
    } else if assets[n - 1].info == (AssetInfoView::NativeToken { denom }) {
        Some(assets[n - 1].amount)
    } else {
        input_amount(assets, denom, n - 1)
    }
}

/// The first coin, from position `i` on, that no input asset declares or that differs from
/// the declared amount, with the error it raises.
pub open spec fn first_fund_failure(
    coins: Seq<CoinView>,
    assets: Seq<AssetView>,
    i: int,
) -> Option<StdErrorView>
    decreases coins.len() - i,
{
    if i < 0 || i >= coins.len() {
        None
    } else {
        match input_amount(assets, coins[i].denom, assets.len() as int) {
            None => Some(StdErrorView::UnexpectedCoin { denom: coins[i].denom }),
            Some(a) => if a != coins[i].amount {
                Some(StdErrorView::BalanceMismatch)
            } else {
                first_fund_failure(coins, assets, i + 1)
            },
        }
    }
}

/// What checking the coins sent against the declared assets and the pool gives.
pub open spec fn coins_sent_check(
    coins: Seq<CoinView>,
    assets: Seq<AssetView>,
    infos: Seq<AssetInfoView>,
) -> Result<(), StdErrorView> {
    match first_unsupported(assets, infos, 0) {
        Some(denom) => Err(StdErrorView::UnsupportedAsset { denom }),
        None => match first_fund_failure(coins, assets, 0) {
            Some(e) => Err(e),
            None => Ok(()),
        },
    }
}

/// The view of a result that carries no value.
pub open spec fn unit_result_view(r: Result<(), StdError>) -> Result<(), StdErrorView> {
    match r {
        Ok(()) => Ok(()),
        Err(e) => Err(e@),
    }
}

/// Checks on the coins sent along with a deposit.
pub trait CoinsExt {
    /// The coins, as values.
    spec fn coins(&self) -> Seq<CoinView>;

    fn assert_coins_properly_sent(
        &self,
        assets: &[Asset],
        vault_asset_infos: &[AssetInfo],
    ) -> Result<(), StdError>;

    fn assert_coin_ratio(&self) -> Result<(), StdError>
        requires
            self.coins().len() >= 2,
    ;

    fn calc_shares(&self) -> u128
        requires
            self.coins().len() >= 2,
            self.coins()[0].amount + self.coins()[1].amount <= u128::MAX,
    ;
}

fn pool_names(infos: &[AssetInfo], denom: &String) -> (r: bool)
    ensures
        r == pool_has(asset_infos_view(infos@), denom@),
{
    let ghost iv = asset_infos_view(infos@);
    let mut i: usize = 0;
    while i < infos.len()
        invariant
            i <= infos.len(),
            iv == asset_infos_view(infos@),
            forall|j: int| 0 <= j < i ==> iv[j] != (AssetInfoView::NativeToken { denom: denom@ }),
        decreases infos.len() - i,
    {
        match &infos[i] {
            AssetInfo::NativeToken { denom: d } => {
                if *d == *denom {
                    assert(iv[i as int] == (AssetInfoView::NativeToken { denom: denom@ }));
                    return true;
                }
            },
            _ => {},
        }
        i = i + 1;
    }
    false
}

fn declared_amount(assets: &[Asset], denom: &String) -> (r: Option<u128>)
    ensures
        r == input_amount(assets_view(assets@), denom@, assets@.len() as int),
{
    let ghost av = assets_view(assets@);
    let mut n: usize = assets.len();
    while n > 0
        invariant
            n <= assets.len(),
            av == assets_view(assets@),
            input_amount(av, denom@, assets@.len() as int) == input_amount(av, denom@, n as int),
        decreases n,
    {
        match &assets[n - 1].info {
            AssetInfo::NativeToken { denom: d } => {
                if *d == *denom {
                    return Some(assets[n - 1].amount);
                }
            },
            _ => {},
        }
        n = n - 1;
    }
    None
}

impl CoinsExt for Vec<Coin> {
    open spec fn coins(&self) -> Seq<CoinView> {
        coins_view(self@)
    }

    /// Checks that every native asset that the deposit declares is one of the pool's, and that
    /// every coin sent is declared with exactly its amount.
    fn assert_coins_properly_sent(
        &self,
        input_assets: &[Asset],
        vault_asset_infos: &[AssetInfo],
    ) -> (r: Result<(), StdError>)
        ensures
            unit_result_view(r) == coins_sent_check(
                coins_view(self@),
                assets_view(input_assets@),
                asset_infos_view(vault_asset_infos@),
            ),
    {
        let ghost av = assets_view(input_assets@);
        let ghost iv = asset_infos_view(vault_asset_infos@);
        let ghost cv = coins_view(self@);
        let mut i: usize = 0;
        while i < input_assets.len()
            invariant
                i <= input_assets.len(),
                av == assets_view(input_assets@),
                iv == asset_infos_view(vault_asset_infos@),
                first_unsupported(av, iv, 0) == first_unsupported(av, iv, i as int),
            decreases input_assets.len() - i,
        {
            match &input_assets[i].info {
                AssetInfo::NativeToken { denom } => {
                    if !pool_names(vault_asset_infos, denom) {
                        return Err(StdError::UnsupportedAsset { denom: denom.clone() });
                    }
                },
                _ => {},
            }
            i = i + 1;
        }
        let mut k: usize = 0;
        while k < self.len()
            invariant
                k <= self.len(),
                av == assets_view(input_assets@),
                cv == coins_view(self@),
                iv == asset_infos_view(vault_asset_infos@),
                first_unsupported(av, iv, 0) is None,
                first_fund_failure(cv, av, 0) == first_fund_failure(cv, av, k as int),
            decreases self.len() - k,
        {
            let coin = &self[k];
            assert(cv[k as int] == coin@);
            match declared_amount(input_assets, &coin.denom) {
                None => {
                    return Err(StdError::UnexpectedCoin { denom: coin.denom.clone() });
                },
                Some(a) => {
                    if a != coin.amount {
                        return Err(StdError::BalanceMismatch {});
                    }
                },
            }
            k = k + 1;
        }
        Ok(())
    }

    /// Accepts exactly equal amounts of the first two coins.
    fn assert_coin_ratio(&self) -> (r: Result<(), StdError>)
        ensures
            unit_result_view(r) == if self@[0].amount == self@[1].amount {
                Ok::<(), StdErrorView>(())
            } else {
                Err(StdErrorView::BadRatio)
            },
    {
        if self[0].amount == self[1].amount {
            Ok(())
        } else {
            Err(StdError::BadRatio {})
        }
    }

    /// The shares that the first two coins are worth: the sum of their amounts.
    fn calc_shares(&self) -> (r: u128)
        ensures
            r == self@[0].amount + self@[1].amount,
    {
        self[0].amount + self[1].amount
    }
}

} // verus!
