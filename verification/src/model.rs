//! The vault's behaviour as mathematics: for each message, the storage after it and the answer.
use vstd::prelude::*;

use crate::assets::{coins_sent_check, AssetInfoView, AssetView, CoinView};
use crate::decimal::decimal;
use crate::error::{ContractErrorView, Record, StdErrorView};
use crate::helpers::{has_id, StrategyConfigView, StrategyMsgView};
use crate::msg::{CallbackMsg, ExecuteMsg};
use crate::assets::assets_view;
use crate::response::{MsgView, ResponseView};
use crate::state::{BondInfoView, ConfigView, UserInfoView, VaultView};

verus! {

/// What one step of a handler comes to, as a value.
pub enum StepView {
    /// The handler finished with this answer.
    Done(Result<ResponseView, ContractErrorView>),
    /// The handler needs the configuration of the strategy contract at this address.
    Query(Seq<char>),
}

/// A response that only reports attributes.
pub open spec fn attributes_only(attributes: Seq<(Seq<char>, Seq<char>)>) -> ResponseView {
    ResponseView { messages: Seq::empty(), attributes }
}

/// The vault with `user`'s record replaced.
pub open spec fn with_user(v: VaultView, user: Seq<char>, info: UserInfoView) -> VaultView {
    VaultView { users: v.users.insert(user, info), ..v }
}

/// The vault with the bond record `id` replaced.
pub open spec fn with_bond(v: VaultView, id: Seq<char>, info: BondInfoView) -> VaultView {
    VaultView { strategies: v.strategies.insert(id, info), ..v }
}

// ---------------------------------------------------------------- instantiate

/// Instantiation, given the contract's address and what the host made of the owner's address.
pub open spec fn spec_instantiate(
    v: VaultView,
    contract_addr: Seq<char>,
    asset_infos: Seq<AssetInfoView>,
    strategy_infos: Seq<Seq<char>>,
    owner: Result<Seq<char>, StdErrorView>,
) -> (VaultView, Result<ResponseView, ContractErrorView>) {
    if asset_infos.len() != 2 {
        (v, Err(ContractErrorView::Std(StdErrorView::AssetCount)))
    } else if asset_infos[0] == asset_infos[1] {
        (v, Err(ContractErrorView::DoublingAssets))
    } else {
        match owner {
            Err(e) => (v, Err(ContractErrorView::Std(e))),
            Ok(o) => (
                VaultView {
                    config: Some(
                        ConfigView {
                            owner: o,
                            contract_addr,
                            asset_infos,
                            stratgy_infos: strategy_infos,
                        },
                    ),
                    ..v
                },
                Ok(attributes_only(Seq::empty())),
            ),
        }
    }
}

// ---------------------------------------------------------------- deposit

/// The error a deposit is refused with, if any.
pub open spec fn deposit_error(
    v: VaultView,
    funds: Seq<CoinView>,
    assets: Seq<AssetView>,
) -> Option<ContractErrorView> {
    if assets.len() != 2 {
        Some(ContractErrorView::Std(StdErrorView::AssetCount))
    } else {
        match v.config {
            None => Some(ContractErrorView::Std(StdErrorView::NotFound { record: Record::Config })),
            Some(c) => match coins_sent_check(funds, assets, c.asset_infos) {
                Err(e) => Some(ContractErrorView::Std(e)),
                Ok(()) => if funds[0].amount != funds[1].amount {
                    Some(ContractErrorView::Std(StdErrorView::BadRatio))
                } else {
                    None
                },
            },
        }
    }
}

/// A deposit passes the checks on its assets but fewer than two coins come with it, or the
/// two coins are equal and their shares overflow: the contract aborts.
pub open spec fn deposit_aborts(v: VaultView, funds: Seq<CoinView>, assets: Seq<AssetView>) -> bool {
    &&& assets.len() == 2
    &&& v.config is Some
    &&& coins_sent_check(funds, assets, v.config.unwrap().asset_infos) is Ok
    &&& (funds.len() < 2 || (funds[0].amount == funds[1].amount && funds[0].amount
        + funds[1].amount > u128::MAX))
}

/// A deposit by `sender`: the user's record becomes the shares that the two coins are worth.
pub open spec fn spec_deposit(
    v: VaultView,
    sender: Seq<char>,
    funds: Seq<CoinView>,
    assets: Seq<AssetView>,
) -> (VaultView, Result<ResponseView, ContractErrorView>) {
    match deposit_error(v, funds, assets) {
        Some(e) => (v, Err(e)),
        None => {
            let shares = (funds[0].amount + funds[1].amount) as u128;
            (
                with_user(
                    v,
                    sender,
                    UserInfoView { shares, bonded: 0, strategies: Seq::empty() },
                ),
                Ok(
                    attributes_only(
                        seq![
                            ("action"@, "deposit"@),
                            ("sender"@, sender),
                            ("shares"@, decimal(shares as nat)),
                        ],
                    ),
                ),
            )
        },
    }
}

// ---------------------------------------------------------------- bond

/// The error a bond is refused with, if any.
pub open spec fn bond_error(v: VaultView, sender: Seq<char>) -> Option<ContractErrorView> {
    if v.config is None {
        Some(ContractErrorView::Std(StdErrorView::NotFound { record: Record::Config }))
    } else if !v.users.contains_key(sender) {
        Some(ContractErrorView::Std(StdErrorView::NotFound { record: Record::UserInfo }))
    } else if v.users[sender].bonded > v.users[sender].shares {
        Some(ContractErrorView::InsufficientBalance)
    } else {
        None
    }
}

/// The count that the first new bond id is made from.
pub open spec fn first_bond_count(v: VaultView) -> nat {
    match v.counter {
        Some(c) => c as nat,
        None => 1,
    }
}

/// The id of the `i`-th bond that the next bond creates.
pub open spec fn bond_id(v: VaultView, i: int) -> Seq<char> {
    decimal((first_bond_count(v) + i) as nat)
}

/// The number of strategies the vault bonds with.
pub open spec fn strategy_count(v: VaultView) -> nat {
    v.config.unwrap().stratgy_infos.len()
}

/// A bond passes its checks, and the bond counter overflows at a strategy whose configuration
/// is known: the contract aborts.
pub open spec fn bond_aborts(
    v: VaultView,
    sender: Seq<char>,
    answers: Seq<StrategyConfigView>,
) -> bool {
    &&& bond_error(v, sender) is None
    &&& first_bond_count(v) + strategy_count(v) > u64::MAX
    &&& answers.len() + first_bond_count(v) > u64::MAX
}

/// The share amount that each strategy receives when `sender` bonds.
pub open spec fn bond_half(v: VaultView, sender: Seq<char>) -> u128 {
    ((v.users[sender].shares - v.users[sender].bonded) / 2) as u128
}

/// The record of a bond that is created with a strategy.
pub open spec fn new_bond(
    addr: Seq<char>,
    owner: Seq<char>,
    answer: StrategyConfigView,
    amount: u128,
) -> BondInfoView {
    BondInfoView {
        addr,
        owner_addr: owner,
        denom: answer.local_denom,
        amount,
        bonded: false,
        unbonded_amount: 0,
        unbonded: false,
        unbond_time: answer.lock_period,
    }
}

/// The bond records after the first `k` strategies have their bond: a record under an id
/// that is already taken stays as it is.
pub open spec fn bonds_after(
    v: VaultView,
    sender: Seq<char>,
    answers: Seq<StrategyConfigView>,
    k: int,
) -> Map<Seq<char>, BondInfoView>
    decreases k,
{
    if k <= 0 {
        v.strategies
    } else {
        let prev = bonds_after(v, sender, answers, k - 1);
        let id = bond_id(v, k - 1);
        if prev.contains_key(id) {
            prev
        } else {
            prev.insert(
                id,
                new_bond(
                    v.config.unwrap().stratgy_infos[k - 1],
                    sender,
                    answers[k - 1],
                    bond_half(v, sender),
                ),
            )
        }
    }
}

/// The messages that bond the shares with the strategies.
pub open spec fn bond_messages(
    v: VaultView,
    sender: Seq<char>,
    answers: Seq<StrategyConfigView>,
) -> Seq<MsgView> {
    Seq::new(
        strategy_count(v),
        |i: int|
            MsgView::WasmExecute {
                contract_addr: v.config.unwrap().stratgy_infos[i],
                msg: StrategyMsgView::Bond { id: bond_id(v, i) },
                funds: seq![
                    CoinView { denom: answers[i].local_denom, amount: bond_half(v, sender) },
                ],
            },
    )
}

/// The attributes that a bond reports.
pub open spec fn bond_attributes(v: VaultView) -> Seq<(Seq<char>, Seq<char>)> {
    seq![("action"@, "bond"@)] + Seq::new(
        strategy_count(v),
        |i: int| ("strategy"@, bond_id(v, i)),
    )
}

/// A bond by `sender`, given the configurations of the first `answers.len()` strategies.
pub open spec fn spec_bond(
    v: VaultView,
    sender: Seq<char>,
    answers: Seq<StrategyConfigView>,
) -> (VaultView, StepView) {
    match bond_error(v, sender) {
        Some(e) => (v, StepView::Done(Err(e))),
        None => if answers.len() < strategy_count(v) {
            (v, StepView::Query(v.config.unwrap().stratgy_infos[answers.len() as int]))
        } else {
            let n = strategy_count(v);
            let user = v.users[sender];
            (
                VaultView {
                    users: v.users.insert(
                        sender,
                        UserInfoView {
                            shares: user.shares,
                            bonded: user.shares,
                            strategies: user.strategies + Seq::new(n, |i: int| bond_id(v, i)),
                        },
                    ),
                    strategies: bonds_after(v, sender, answers, n as int),
                    counter: if n == 0 {
                        v.counter
                    } else {
                        Some((first_bond_count(v) + n) as u64)
                    },
                    ..v
                },
                StepView::Done(
                    Ok(
                        ResponseView {
                            messages: bond_messages(v, sender, answers),
                            attributes: bond_attributes(v),
                        },
                    ),
                ),
            )
        },
    }
}

// ---------------------------------------------------------------- start unbond

/// The error a start of unbonding is refused with, if any.
pub open spec fn start_unbond_error(
    v: VaultView,
    sender: Seq<char>,
    id: Seq<char>,
    amount: u128,
) -> Option<ContractErrorView> {
    if !v.users.contains_key(sender) {
        Some(ContractErrorView::Std(StdErrorView::NotFound { record: Record::UserInfo }))
    } else if amount == 0 {
        Some(ContractErrorView::BadAmount)
    } else if !has_id(v.users[sender].strategies, id) {
        Some(ContractErrorView::Unauthorized)
    } else if !v.strategies.contains_key(id) {
        Some(ContractErrorView::Std(StdErrorView::NotFound { record: Record::BondInfo }))
    } else if !v.strategies[id].bonded {
        Some(ContractErrorView::Notbonded)
    } else if v.strategies[id].unbonded_amount > 0 {
        Some(ContractErrorView::Unbonded)
    } else if amount > v.strategies[id].amount {
        Some(ContractErrorView::BadAmount)
    } else {
        None
    }
}

/// `sender` asks the strategy of bond `id` to start unbonding `amount` shares.
pub open spec fn spec_start_unbond(
    v: VaultView,
    sender: Seq<char>,
    id: Seq<char>,
    amount: u128,
) -> (VaultView, Result<ResponseView, ContractErrorView>) {
    match start_unbond_error(v, sender, id, amount) {
        Some(e) => (v, Err(e)),
        None => {
            let b = v.strategies[id];
            (
                with_bond(v, id, BondInfoView { unbonded_amount: amount, unbonded: true, ..b }),
                Ok(
                    ResponseView {
                        messages: seq![
                            MsgView::WasmExecute {
                                contract_addr: b.addr,
                                msg: StrategyMsgView::StartUnbond { id, share_amount: amount },
                                funds: Seq::empty(),
                            },
                        ],
                        attributes: seq![
                            ("action"@, "start_unbond"@),
                            ("strategy"@, id),
                            ("amount"@, decimal(amount as nat)),
                        ],
                    },
                ),
            )
        },
    }
}

// ---------------------------------------------------------------- unbond

/// The error an unbonding at block time `time` is refused with, if any.
pub open spec fn unbond_error(
    v: VaultView,
    time: u64,
    sender: Seq<char>,
    id: Seq<char>,
) -> Option<ContractErrorView> {
    if !v.users.contains_key(sender) {
        Some(ContractErrorView::Std(StdErrorView::NotFound { record: Record::UserInfo }))
    } else if !has_id(v.users[sender].strategies, id) {
        Some(ContractErrorView::Unauthorized)
    } else if !v.strategies.contains_key(id) {
        Some(ContractErrorView::Std(StdErrorView::NotFound { record: Record::BondInfo }))
    } else if time < v.strategies[id].unbond_time {
        Some(ContractErrorView::BondTime)
    } else if v.strategies[id].unbonded {
        Some(ContractErrorView::Unbonded)
    } else {
        None
    }
}

/// An unbonding passes its checks, but the user holds fewer shares, or fewer bonded shares,
/// than the amount being unbonded: the contract aborts.
pub open spec fn unbond_aborts(v: VaultView, time: u64, sender: Seq<char>, id: Seq<char>) -> bool {
    &&& unbond_error(v, time, sender, id) is None
    &&& (v.users[sender].shares < v.strategies[id].unbonded_amount || v.users[sender].bonded
        < v.strategies[id].unbonded_amount)
}

/// The position of the first entry of `ids` that is `id`.
pub open spec fn first_position(ids: Seq<Seq<char>>, id: Seq<char>) -> int
    decreases ids.len(),
{
    if ids.len() == 0 {
        0
    } else if ids[0] == id {
        0
    } else {
        1 + first_position(ids.drop_first(), id)
    }
}

/// The first position of `id` in `ids` is the `p` before which `id` does not occur.
pub(crate) proof fn lemma_first_position(ids: Seq<Seq<char>>, id: Seq<char>, p: int)
    requires
        0 <= p < ids.len(),
        ids[p] == id,
        forall|j: int| 0 <= j < p ==> ids[j] != id,
    ensures
        first_position(ids, id) == p,
    decreases p,
{
    if p > 0 {
        lemma_first_position(ids.drop_first(), id, p - 1);
    }
}

/// `ids` with its first entry `id` taken out and its last entry moved into that place.
pub open spec fn swap_remove_id(ids: Seq<Seq<char>>, id: Seq<char>) -> Seq<Seq<char>> {
    let p = first_position(ids, id);
    ids.update(p, ids.last()).drop_last()
}

/// `sender` takes back the shares whose unbonding the strategy of bond `id` confirmed.
pub open spec fn spec_unbond(
    v: VaultView,
    time: u64,
    sender: Seq<char>,
    id: Seq<char>,
) -> (VaultView, Result<ResponseView, ContractErrorView>) {
    match unbond_error(v, time, sender, id) {
        Some(e) => (v, Err(e)),
        None => {
            let b = v.strategies[id];
            let u = v.users[sender];
            let amount = b.unbonded_amount;
            (
                with_user(
                    v,
                    sender,
                    UserInfoView {
                        shares: (u.shares - amount) as u128,
                        bonded: (u.bonded - amount) as u128,
                        strategies: if b.amount == amount {
                            swap_remove_id(u.strategies, id)
                        } else {
                            u.strategies
                        },
                    },
                ),
                Ok(
                    attributes_only(
                        seq![
                            ("action"@, "unbond"@),
                            ("sender"@, sender),
                            ("strategy"@, id),
                            ("amount"@, decimal(amount as nat)),
                        ],
                    ),
                ),
            )
        },
    }
}

// ---------------------------------------------------------------- callbacks

/// The strategy confirms bond `id` with `share_amount` shares. The contract aborts where no
/// such bond is recorded.
pub open spec fn spec_bond_response(v: VaultView, share_amount: u128, id: Seq<char>) -> (
    VaultView,
    Result<ResponseView, ContractErrorView>,
) {
    let b = v.strategies[id];
    (
        with_bond(v, id, BondInfoView { amount: share_amount, bonded: true, ..b }),
        Ok(
            attributes_only(
                seq![("action"@, "bonded"@), ("shares"@, decimal(share_amount as nat))],
            ),
        ),
    )
}

/// The strategy confirms that it started unbonding `share_amount` shares of bond `id` at
/// block time `time`: the lock runs from now. The contract aborts where no such bond is
/// recorded or the unlock time overflows.
pub open spec fn spec_start_unbond_response(
    v: VaultView,
    time: u64,
    share_amount: u128,
    id: Seq<char>,
) -> (VaultView, Result<ResponseView, ContractErrorView>) {
    let b = v.strategies[id];
    (
        with_bond(
            v,
            id,
            BondInfoView {
                unbond_time: (b.unbond_time + time) as u64,
                unbonded_amount: share_amount,
                unbonded: false,
                ..b
            },
        ),
        Ok(
            attributes_only(
                seq![
                    ("action"@, "unbond"@),
                    ("unbond_id"@, id),
                    ("share amount"@, decimal(share_amount as nat)),
                ],
            ),
        ),
    )
}

/// The strategy returned the unbonded tokens of bond `id`: they go to the bond's owner, and
/// the bond's lock is reset to the strategy's lock period (the first answer).
pub open spec fn spec_unbond_response(
    v: VaultView,
    id: Seq<char>,
    answers: Seq<StrategyConfigView>,
) -> (VaultView, StepView) {
    if !v.strategies.contains_key(id) {
        (
            v,
            StepView::Done(
                Err(
                    ContractErrorView::Std(StdErrorView::NotFound { record: Record::BondInfo }),
                ),
            ),
        )
    } else if answers.len() == 0 {
        (v, StepView::Query(v.strategies[id].addr))
    } else {
        let b = v.strategies[id];
        (
            with_bond(
                v,
                id,
                BondInfoView {
                    amount: (b.amount - b.unbonded_amount) as u128,
                    unbonded_amount: 0,
                    unbond_time: answers[0].lock_period,
                    ..b
                },
            ),
            StepView::Done(
                Ok(
                    ResponseView {
                        messages: seq![
                            MsgView::BankSend {
                                to_address: b.owner_addr,
                                amount: seq![CoinView { denom: b.denom, amount: b.unbonded_amount }],
                            },
                        ],
                        attributes: seq![
                            ("action"@, "unbonded"@),
                            ("unbond_id"@, id),
                            ("amount"@, decimal(b.unbonded_amount as nat)),
                        ],
                    },
                ),
            ),
        )
    }
}

/// The unbonded tokens of bond `id` cannot be returned: the bond is recorded, its
/// configuration is known, and less is bonded than is being unbonded.
pub open spec fn unbond_response_aborts(
    v: VaultView,
    id: Seq<char>,
    answers: Seq<StrategyConfigView>,
) -> bool {
    &&& v.strategies.contains_key(id)
    &&& answers.len() > 0
    &&& v.strategies[id].amount < v.strategies[id].unbonded_amount
}

// ---------------------------------------------------------------- dispatch

/// A step that finishes with the given storage and answer.
pub open spec fn done(p: (VaultView, Result<ResponseView, ContractErrorView>)) -> (VaultView, StepView) {
    (p.0, StepView::Done(p.1))
}

/// Whether the contract aborts on a strategy's answer at block time `time`.
pub open spec fn callback_aborts(
    v: VaultView,
    time: u64,
    msg: CallbackMsg,
    answers: Seq<StrategyConfigView>,
) -> bool {
    match msg {
        CallbackMsg::BondResponse { bond_id, .. } => !v.strategies.contains_key(bond_id@),
        CallbackMsg::StartUnbondResponse { unbond_id, .. } => !v.strategies.contains_key(
            unbond_id@,
        ) || v.strategies[unbond_id@].unbond_time + time > u64::MAX,
        CallbackMsg::UnbondResponse { unbond_id, .. } => unbond_response_aborts(
            v,
            unbond_id@,
            answers,
        ),
    }
}

/// A strategy's answer at block time `time`.
pub open spec fn spec_callback(
    v: VaultView,
    time: u64,
    msg: CallbackMsg,
    answers: Seq<StrategyConfigView>,
) -> (VaultView, StepView) {
    match msg {
        CallbackMsg::BondResponse { share_amount, bond_id } => done(
            spec_bond_response(v, share_amount, bond_id@),
        ),
        CallbackMsg::StartUnbondResponse { share_amount, unbond_id } => done(
            spec_start_unbond_response(v, time, share_amount, unbond_id@),
        ),
        CallbackMsg::UnbondResponse { unbond_id, .. } => spec_unbond_response(
            v,
            unbond_id@,
            answers,
        ),
    }
}

/// Whether the contract aborts on `msg` from `sender`, sent with `funds` at block time `time`.
pub open spec fn execute_aborts(
    v: VaultView,
    time: u64,
    sender: Seq<char>,
    funds: Seq<CoinView>,
    msg: ExecuteMsg,
    answers: Seq<StrategyConfigView>,
) -> bool {
    match msg {
        ExecuteMsg::Deposit { assets } => deposit_aborts(v, funds, assets_view(assets@)),
        ExecuteMsg::Bond {} => bond_aborts(v, sender, answers),
        ExecuteMsg::StartUnbond { .. } => false,
        ExecuteMsg::Unbond { id } => unbond_aborts(v, time, sender, id@),
        ExecuteMsg::Callback { action } => callback_aborts(v, time, action, answers),
    }
}

/// The step that `msg` from `sender`, sent with `funds` at block time `time`, comes to.
pub open spec fn spec_execute(
    v: VaultView,
    time: u64,
    sender: Seq<char>,
    funds: Seq<CoinView>,
    msg: ExecuteMsg,
    answers: Seq<StrategyConfigView>,
) -> (VaultView, StepView) {
    match msg {
        ExecuteMsg::Deposit { assets } => done(
            spec_deposit(v, sender, funds, assets_view(assets@)),
        ),
        ExecuteMsg::Bond {} => spec_bond(v, sender, answers),
        ExecuteMsg::StartUnbond { id, amount } => done(spec_start_unbond(v, sender, id@, amount)),
        ExecuteMsg::Unbond { id } => done(spec_unbond(v, time, sender, id@)),
        ExecuteMsg::Callback { action } => spec_callback(v, time, action, answers),
    }
}

// ---------------------------------------------------------------- queries

/// The owner, or the error for a missing configuration.
pub open spec fn spec_query_config(v: VaultView) -> Result<Seq<char>, StdErrorView> {
    match v.config {
        Some(c) => Ok(c.owner),
        None => Err(StdErrorView::NotFound { record: Record::Config }),
    }
}

/// The record of `user`, or the error for a missing one.
pub open spec fn spec_query_user(v: VaultView, user: Seq<char>) -> Result<UserInfoView, StdErrorView> {
    if v.users.contains_key(user) {
        Ok(v.users[user])
    } else {
        Err(StdErrorView::NotFound { record: Record::UserInfo })
    }
}

/// The record of bond `id`, or the error for a missing one.
pub open spec fn spec_query_bond_info(v: VaultView, id: Seq<char>) -> Result<BondInfoView, StdErrorView> {
    if v.strategies.contains_key(id) {
        Ok(v.strategies[id])
    } else {
        Err(StdErrorView::NotFound { record: Record::BondInfo })
    }
}

// ---------------------------------------------------------------- invariants

/// No user has more bonded shares than shares.
pub open spec fn shares_cover_bonded(v: VaultView) -> bool {
    forall|u: Seq<char>| #[trigger] v.users.contains_key(u) ==> v.users[u].bonded <= v.users[u].shares
}

/// Every bond id that a user lists has a bond record.
pub open spec fn listed_bonds_recorded(v: VaultView) -> bool {
    forall|u: Seq<char>, j: int|
        #![trigger v.users[u].strategies[j]]
        v.users.contains_key(u) && 0 <= j < v.users[u].strategies.len()
            ==> v.strategies.contains_key(v.users[u].strategies[j])
}

/// Every bond id that a user lists is the id of a bond that the user owns.
pub open spec fn listed_bonds_owned(v: VaultView) -> bool {
    forall|u: Seq<char>, j: int|
        #![trigger v.users[u].strategies[j]]
        v.users.contains_key(u) && 0 <= j < v.users[u].strategies.len()
            ==> v.strategies[v.users[u].strategies[j]].owner_addr == u
}

/// Every bond id in storage is the decimal form of a count below the one that the next bond
/// id is made from.
pub open spec fn bonds_below_counter(v: VaultView) -> bool {
    forall|k: Seq<char>|
        #[trigger] v.strategies.contains_key(k) ==> exists|m: nat|
            m < first_bond_count(v) && #[trigger] decimal(m) == k
}

/// What holds of the vault's storage in every reachable state.
pub open spec fn vault_invariant(v: VaultView) -> bool {
    &&& shares_cover_bonded(v)
    &&& listed_bonds_recorded(v)
    &&& listed_bonds_owned(v)
    &&& bonds_below_counter(v)
}

} // verus!
