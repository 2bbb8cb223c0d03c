use vstd::prelude::*;

use crate::error::ContractError;

verus! {

/// The query that a strategy contract answers.
#[derive(Clone, Copy, Debug, PartialEq, Eq, Structural)]
pub enum QueryMsg {
    Config {},
}

/// The messages that the vault sends to a strategy contract.
#[derive(Clone, Debug, PartialEq, Eq)]
pub enum ExecuteMsg {
    Bond { id: String },
    StartUnbond { id: String, share_amount: u128 },
}

/// The mathematical value of a message to a strategy contract.
pub enum StrategyMsgView {
    Bond { id: Seq<char> },
    StartUnbond { id: Seq<char>, share_amount: u128 },
}

impl View for ExecuteMsg {
    type V = StrategyMsgView;

    open spec fn view(&self) -> StrategyMsgView {
        match self {
            ExecuteMsg::Bond { id } => StrategyMsgView::Bond { id: id@ },
            ExecuteMsg::StartUnbond { id, share_amount } => StrategyMsgView::StartUnbond {
                id: id@,
                share_amount: *share_amount,
            },
        }
    }
}

/// What a strategy contract answers to [`QueryMsg::Config`].
#[derive(Clone, Debug, PartialEq, Eq)]
pub struct ConfigResponse {
    pub config: Config,
}

/// The mathematical value of a strategy contract's configuration.
pub struct StrategyConfigView {
    pub lock_period: u64,
    pub local_denom: Seq<char>,
}

impl View for ConfigResponse {
    type V = StrategyConfigView;

    open spec fn view(&self) -> StrategyConfigView {
        StrategyConfigView {
            lock_period: self.config.lock_period,
            local_denom: self.config.local_denom@,
        }
    }
}

/// The configuration of a strategy contract.
#[derive(Clone, Debug, PartialEq, Eq)]
pub struct Config {
    /// The lock period of the strategy
    pub lock_period: u64,
    /// the denom on the wasm chain
    pub local_denom: String,
}

/// The views of a list of strings.
pub open spec fn strings_view(s: Seq<String>) -> Seq<Seq<char>> {
    s.map_values(|x: String| x@)
}

/// A copy of a list of strings.
pub fn copy_strings(v: &Vec<String>) -> (r: Vec<String>)
    ensures
        strings_view(r@) == strings_view(v@),
{
    let mut r: Vec<String> = Vec::new();
    let mut i: usize = 0;
    while i < v.len()
        invariant
            i <= v.len(),
            r@.len() == i,
            forall|j: int| 0 <= j < i ==> #[trigger] r@[j]@ == v@[j]@,
        decreases v.len() - i,
    {
        r.push(v[i].clone());
        i = i + 1;
    }
    assert(strings_view(r@) =~= strings_view(v@));
    r
}

/// Whether `id` is one of the entries of `ids`.
pub open spec fn has_id(ids: Seq<Seq<char>>, id: Seq<char>) -> bool {
    exists|i: int| 0 <= i < ids.len() && #[trigger] ids[i] == id
}

/// Accepts exactly the ids that the user's strategy list holds.
pub fn check_authorization(strategies: Vec<String>, id: String) -> (r: Result<(), ContractError>)
    ensures
        r is Ok <==> has_id(strings_view(strategies@), id@),
        r is Err ==> r->Err_0@ == crate::error::ContractErrorView::Unauthorized,
{
    let ghost sv = strings_view(strategies@);
    let mut i: usize = 0;
    while i < strategies.len()
        invariant
            i <= strategies.len(),
            sv == strings_view(strategies@),
            forall|j: int| 0 <= j < i ==> strategies@[j]@ != id@,
        decreases strategies.len() - i,
    {
        if strategies[i] == id {
            assert(sv[i as int] == id@);
            return Ok(());
        }
        i = i + 1;
    }
    assert(!has_id(strings_view(strategies@), id@)) by {
        if has_id(strings_view(strategies@), id@) {
            let j = choose|j: int| 0 <= j < strategies@.len() && #[trigger] strings_view(strategies@)[j] == id@;
            assert(strategies@[j]@ == id@);
        }
    }
    Err(ContractError::Unauthorized {})
}

} // verus!
