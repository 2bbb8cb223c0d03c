use vstd::prelude::*;

verus! {

/// A record that the vault keeps in storage.
#[derive(Clone, Copy, Debug, PartialEq, Eq, Structural)]
pub enum Record {
    Config,
    UserInfo,
    BondInfo,
}

/// The failures that the chain's standard error type carries for this contract.
#[derive(Clone, Debug, PartialEq, Eq)]
pub enum StdError {
    /// "asset_infos must contain exactly two elements"
    AssetCount {},
    /// "Asset {denom} is not supported"
    UnsupportedAsset { denom: String },
    /// "Native token balance mismatch between the argument and the transferred"
    BalanceMismatch {},
    /// "Supplied coins contain {denom} that is not in the input asset vector"
    UnexpectedCoin { denom: String },
    /// "Only Ratio 1:1 is supported"
    BadRatio {},
    /// A record that the handler loads is not in storage.
    NotFound { record: Record },
    /// A failure that the host reported (such as an address it does not accept), by its message.
    Host { msg: String },
}

/// The mathematical value of a [`StdError`].
pub enum StdErrorView {
    AssetCount,
    UnsupportedAsset { denom: Seq<char> },
    BalanceMismatch,
    UnexpectedCoin { denom: Seq<char> },
    BadRatio,
    NotFound { record: Record },
    Host { msg: Seq<char> },
}

impl View for StdError {
    type V = StdErrorView;

    open spec fn view(&self) -> StdErrorView {
        match self {
            StdError::AssetCount {} => StdErrorView::AssetCount,
            StdError::UnsupportedAsset { denom } => StdErrorView::UnsupportedAsset { denom: denom@ },
            StdError::BalanceMismatch {} => StdErrorView::BalanceMismatch,
            StdError::UnexpectedCoin { denom } => StdErrorView::UnexpectedCoin { denom: denom@ },
            StdError::BadRatio {} => StdErrorView::BadRatio,
            StdError::NotFound { record } => StdErrorView::NotFound { record: *record },
            StdError::Host { msg } => StdErrorView::Host { msg: msg@ },
        }
    }
}

/// The errors with which the vault refuses a message.
#[derive(Clone, Debug, PartialEq, Eq)]
pub enum ContractError {
    Std(StdError),
    Unauthorized {},
    DoublingAssets {},
    MissingData {},
    NonSupported {},
    Notbonded {},
    Unbonded {},
    BondTime {},
    InsufficientBalance {},
    DataError {},
    BadAmount {},
}

/// The mathematical value of a [`ContractError`].
pub enum ContractErrorView {
    Std(StdErrorView),
    Unauthorized,
    DoublingAssets,
    MissingData,
    NonSupported,
    Notbonded,
    Unbonded,
    BondTime,
    InsufficientBalance,
    DataError,
    BadAmount,
}

impl View for ContractError {
    type V = ContractErrorView;

    open spec fn view(&self) -> ContractErrorView {
        match self {
            ContractError::Std(e) => ContractErrorView::Std(e@),
            ContractError::Unauthorized {} => ContractErrorView::Unauthorized,
            ContractError::DoublingAssets {} => ContractErrorView::DoublingAssets,
            ContractError::MissingData {} => ContractErrorView::MissingData,
            ContractError::NonSupported {} => ContractErrorView::NonSupported,
            ContractError::Notbonded {} => ContractErrorView::Notbonded,
            ContractError::Unbonded {} => ContractErrorView::Unbonded,
            ContractError::BondTime {} => ContractErrorView::BondTime,
            ContractError::InsufficientBalance {} => ContractErrorView::InsufficientBalance,
            ContractError::DataError {} => ContractErrorView::DataError,
            ContractError::BadAmount {} => ContractErrorView::BadAmount,
        }
    }
}

} // verus!
