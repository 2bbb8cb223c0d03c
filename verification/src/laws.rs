//! What holds of the vault across its handlers.
use vstd::prelude::*;

use crate::assets::{
    coins_sent_check, first_fund_failure, first_unsupported, input_amount, pool_has, AssetView,
    CoinView,
};
use crate::helpers::StrategyMsgView;
use crate::response::MsgView;
use crate::error::ContractErrorView;
use crate::helpers::{has_id, StrategyConfigView};
use crate::decimal::{decimal, lemma_decimal_injective};
use crate::model::{
    bond_aborts, bond_error, bond_half, new_bond, unbond_aborts, unbond_response_aborts, bonds_below_counter, first_bond_count, listed_bonds_owned,
    bond_id, bonds_after, execute_aborts, first_position, listed_bonds_recorded,
    shares_cover_bonded, spec_bond, spec_bond_response, spec_deposit, spec_execute,
    spec_instantiate, spec_query_bond_info, spec_query_user, spec_start_unbond,
    spec_start_unbond_response, spec_unbond, spec_unbond_response, strategy_count,
    swap_remove_id, vault_invariant, StepView,
};
use crate::msg::ExecuteMsg;
use crate::assets::AssetInfoView;
use crate::error::StdErrorView;
use crate::state::{BondInfoView, UserInfoView, VaultView};

verus! {

proof fn lemma_bonds_after_grows(v: VaultView, sender: Seq<char>, answers: Seq<StrategyConfigView>, k: int)
    ensures
        forall|id: Seq<char>| v.strategies.contains_key(id) ==> #[trigger] bonds_after(v, sender, answers, k).contains_key(id),
        forall|i: int| 0 <= i < k ==> bonds_after(v, sender, answers, k).contains_key(#[trigger] bond_id(v, i)),
    decreases k,
{
    if k > 0 {
        lemma_bonds_after_grows(v, sender, answers, k - 1);
        let prev = bonds_after(v, sender, answers, k - 1);
        let cur = bonds_after(v, sender, answers, k);
        assert forall|id: Seq<char>| prev.contains_key(id) implies #[trigger] cur.contains_key(id) by {}
        assert forall|id: Seq<char>| v.strategies.contains_key(id) implies #[trigger] cur.contains_key(id) by {
            assert(prev.contains_key(id));
        }
        assert forall|i: int| 0 <= i < k implies cur.contains_key(#[trigger] bond_id(v, i)) by {
            if i < k - 1 {
                assert(prev.contains_key(bond_id(v, i)));
            }
        }
    }
}

/// The ids that a bond hands out are not taken yet and differ from one another, where every
/// stored id lies below the counter.
proof fn lemma_bond_ids_fresh(v: VaultView)
    requires
        bonds_below_counter(v),
    ensures
        forall|i: int| 0 <= i ==> !v.strategies.contains_key(#[trigger] bond_id(v, i)),
        forall|i: int, j: int| 0 <= i < j ==> #[trigger] bond_id(v, i) != #[trigger] bond_id(v, j),
{
    assert forall|i: int| 0 <= i implies !v.strategies.contains_key(#[trigger] bond_id(v, i)) by {
        if v.strategies.contains_key(bond_id(v, i)) {
            let m = choose|m: nat| m < first_bond_count(v) && #[trigger] decimal(m) == bond_id(v, i);
            lemma_decimal_injective(m, (first_bond_count(v) + i) as nat);
        }
    }
    assert forall|i: int, j: int| 0 <= i < j implies #[trigger] bond_id(v, i) != #[trigger] bond_id(v, j) by {
        if bond_id(v, i) == bond_id(v, j) {
            lemma_decimal_injective((first_bond_count(v) + i) as nat, (first_bond_count(v) + j) as nat);
        }
    }
}

/// With fresh ids, the first `k` bonds add exactly their ids, owned by `sender`, and keep
/// every earlier record.
proof fn lemma_bonds_after_fresh(
    v: VaultView,
    sender: Seq<char>,
    answers: Seq<StrategyConfigView>,
    k: int,
)
    requires
        0 <= k,
        forall|i: int| 0 <= i ==> !v.strategies.contains_key(#[trigger] bond_id(v, i)),
        forall|i: int, j: int| 0 <= i < j ==> #[trigger] bond_id(v, i) != #[trigger] bond_id(v, j),
    ensures
        forall|key: Seq<char>|
            #[trigger] bonds_after(v, sender, answers, k).contains_key(key) ==> v.strategies.contains_key(key)
                || exists|i: int| 0 <= i < k && #[trigger] bond_id(v, i) == key,
        forall|key: Seq<char>|
            v.strategies.contains_key(key) ==> #[trigger] bonds_after(v, sender, answers, k)[key]
                == v.strategies[key],
        forall|i: int|
            0 <= i < k ==> #[trigger] bonds_after(v, sender, answers, k)[bond_id(v, i)] == new_bond(
                v.config.unwrap().stratgy_infos[i],
                sender,
                answers[i],
                bond_half(v, sender),
            ),
    decreases k,
{
    if k > 0 {
        lemma_bonds_after_fresh(v, sender, answers, k - 1);
        let prev = bonds_after(v, sender, answers, k - 1);
        let cur = bonds_after(v, sender, answers, k);
        let id = bond_id(v, k - 1);
        assert(!prev.contains_key(id)) by {
            if prev.contains_key(id) {
                if !v.strategies.contains_key(id) {
                    let i = choose|i: int| 0 <= i < k - 1 && #[trigger] bond_id(v, i) == id;
                    assert(bond_id(v, i) != bond_id(v, k - 1));
                }
            }
        }
        assert forall|key: Seq<char>| #[trigger] cur.contains_key(key) implies v.strategies.contains_key(key)
            || exists|i: int| 0 <= i < k && #[trigger] bond_id(v, i) == key by {
            if key != id {
                assert(prev.contains_key(key));
                if !v.strategies.contains_key(key) {
                    let i = choose|i: int| 0 <= i < k - 1 && #[trigger] bond_id(v, i) == key;
                    assert(bond_id(v, i) == key);
                }
            } else {
                assert(bond_id(v, k - 1) == key);
            }
        }
        assert forall|key: Seq<char>| v.strategies.contains_key(key) implies #[trigger] cur[key]
            == v.strategies[key] by {
            assert(key != id);
            assert(prev[key] == v.strategies[key]);
        }
        assert forall|i: int| 0 <= i < k implies #[trigger] cur[bond_id(v, i)] == new_bond(
            v.config.unwrap().stratgy_infos[i],
            sender,
            answers[i],
            bond_half(v, sender),
        ) by {
            if i < k - 1 {
                assert(bond_id(v, i) != id);
                assert(prev[bond_id(v, i)] == new_bond(
                    v.config.unwrap().stratgy_infos[i],
                    sender,
                    answers[i],
                    bond_half(v, sender),
                ));
            }
        }
    }
}

proof fn lemma_swap_remove_within(ids: Seq<Seq<char>>, id: Seq<char>)
    requires
        has_id(ids, id),
    ensures
        forall|j: int| 0 <= j < swap_remove_id(ids, id).len() ==> has_id(ids, #[trigger] swap_remove_id(ids, id)[j]),
{
    let i = choose|i: int| 0 <= i < ids.len() && #[trigger] ids[i] == id;
    lemma_first_position_in_range(ids, id, i);
    let p = first_position(ids, id);
    let r = swap_remove_id(ids, id);
    assert forall|j: int| 0 <= j < r.len() implies has_id(ids, #[trigger] r[j]) by {
        if j == p {
            assert(ids[ids.len() - 1] == r[j]);
        } else {
            assert(ids[j] == r[j]);
        }
    }
}

proof fn lemma_first_position_in_range(ids: Seq<Seq<char>>, id: Seq<char>, i: int)
    requires
        0 <= i < ids.len(),
        ids[i] == id,
    ensures
        0 <= first_position(ids, id) <= i,
        ids[first_position(ids, id)] == id,
    decreases ids.len(),
{
    if ids[0] != id {
        lemma_first_position_in_range(ids.drop_first(), id, i - 1);
    }
}

/// Instantiation keeps the storage invariant: no user has more bonded shares than shares,
/// and every bond id that a user lists has a bond record.
pub proof fn instantiate_keeps_invariant(
    v: VaultView,
    contract_addr: Seq<char>,
    asset_infos: Seq<AssetInfoView>,
    strategy_infos: Seq<Seq<char>>,
    owner: Result<Seq<char>, StdErrorView>,
)
    requires
        vault_invariant(v),
    ensures
        vault_invariant(spec_instantiate(v, contract_addr, asset_infos, strategy_infos, owner).0),
{
}

/// Every message that the vault handles without aborting keeps the storage invariant: no
/// user has more bonded shares than shares, and every bond id that a user lists has a bond
/// record.
pub proof fn execute_keeps_invariant(
    v: VaultView,
    time: u64,
    sender: Seq<char>,
    funds: Seq<CoinView>,
    msg: ExecuteMsg,
    answers: Seq<StrategyConfigView>,
)
    requires
        vault_invariant(v),
        !execute_aborts(v, time, sender, funds, msg, answers),
    ensures
        vault_invariant(spec_execute(v, time, sender, funds, msg, answers).0),
{
    let w = spec_execute(v, time, sender, funds, msg, answers).0;
    match msg {
        ExecuteMsg::Bond {} => {
            if w != v {
                let n = strategy_count(v);
                lemma_bonds_after_grows(v, sender, answers, n as int);
                let old_list = v.users[sender].strategies;
                assert forall|u: Seq<char>, j: int|
                    w.users.contains_key(u) && 0 <= j < w.users[u].strategies.len() implies w.strategies.contains_key(
                    #[trigger] w.users[u].strategies[j],
                ) by {
                    if u == sender {
                        if j < old_list.len() {
                            assert(v.users[u].strategies[j] == w.users[u].strategies[j]);
                        } else {
                            assert(w.users[u].strategies[j] == bond_id(v, j - old_list.len()));
                        }
                    } else {
                        assert(v.users[u].strategies[j] == w.users[u].strategies[j]);
                    }
                }
                assert(shares_cover_bonded(w));
                lemma_bond_ids_fresh(v);
                lemma_bonds_after_fresh(v, sender, answers, n as int);
                assert forall|u: Seq<char>, j: int|
                    w.users.contains_key(u) && 0 <= j < w.users[u].strategies.len() implies w.strategies[
                    #[trigger] w.users[u].strategies[j]].owner_addr == u by {
                    if u == sender {
                        if j < old_list.len() {
                            assert(v.users[u].strategies[j] == w.users[u].strategies[j]);
                            assert(v.strategies.contains_key(v.users[u].strategies[j]));
                        } else {
                            assert(w.users[u].strategies[j] == bond_id(v, j - old_list.len()));
                        }
                    } else {
                        assert(v.users[u].strategies[j] == w.users[u].strategies[j]);
                        assert(v.strategies.contains_key(v.users[u].strategies[j]));
                    }
                }
                bond_hands_out_fresh_ids(v, sender, answers);
            }
        },
        ExecuteMsg::Unbond { id } => {
            if w != v {
                let list = v.users[sender].strategies;
                lemma_swap_remove_within(list, id@);
                assert forall|u: Seq<char>, j: int|
                    w.users.contains_key(u) && 0 <= j < w.users[u].strategies.len() implies w.strategies.contains_key(
                    #[trigger] w.users[u].strategies[j],
                ) by {
                    if u == sender {
                        let x = w.users[u].strategies[j];
                        assert(has_id(list, x));
                        let k = choose|k: int| 0 <= k < list.len() && #[trigger] list[k] == x;
                        assert(v.users[u].strategies[k] == x);
                    } else {
                        assert(v.users[u].strategies[j] == w.users[u].strategies[j]);
                    }
                }
                assert(shares_cover_bonded(w));
            }
        },
        ExecuteMsg::Deposit { .. } => {
            assert forall|u: Seq<char>, j: int|
                w.users.contains_key(u) && 0 <= j < w.users[u].strategies.len() implies w.strategies.contains_key(
                #[trigger] w.users[u].strategies[j],
            ) by {
                if u != sender {
                    assert(v.users[u].strategies[j] == w.users[u].strategies[j]);
                }
            }
        },
        ExecuteMsg::StartUnbond { .. } => {
            assert forall|u: Seq<char>, j: int|
                w.users.contains_key(u) && 0 <= j < w.users[u].strategies.len() implies w.strategies.contains_key(
                #[trigger] w.users[u].strategies[j],
            ) by {
                assert(v.users[u].strategies[j] == w.users[u].strategies[j]);
            }
        },
        ExecuteMsg::Callback { .. } => {
            assert forall|u: Seq<char>, j: int|
                w.users.contains_key(u) && 0 <= j < w.users[u].strategies.len() implies w.strategies.contains_key(
                #[trigger] w.users[u].strategies[j],
            ) by {
                assert(v.users[u].strategies[j] == w.users[u].strategies[j]);
            }
        },
    }
}

/// A message that the vault refuses, or that waits for a strategy's configuration, leaves
/// the storage as it was.
pub proof fn refused_or_waiting_changes_nothing(
    v: VaultView,
    time: u64,
    sender: Seq<char>,
    funds: Seq<CoinView>,
    msg: ExecuteMsg,
    answers: Seq<StrategyConfigView>,
)
    requires
        !execute_aborts(v, time, sender, funds, msg, answers),
        spec_execute(v, time, sender, funds, msg, answers).1 matches StepView::Done(r) ==> r is Err,
    ensures
        spec_execute(v, time, sender, funds, msg, answers).0 == v,
{
}

/// Once a start of unbonding for bond `id` has gone through, a second one is refused until
/// the strategy confirms the first.
pub proof fn start_unbond_not_repeated_before_callback(
    v: VaultView,
    sender: Seq<char>,
    id: Seq<char>,
    amount: u128,
    again: u128,
)
    requires
        spec_start_unbond(v, sender, id, amount).1 is Ok,
    ensures
        spec_start_unbond(spec_start_unbond(v, sender, id, amount).0, sender, id, again).1 is Err,
{
}

/// Once a start of unbonding for bond `id` has gone through, unbonding it is refused until
/// the strategy confirms the start.
pub proof fn unbond_refused_before_start_unbond_callback(
    v: VaultView,
    time: u64,
    sender: Seq<char>,
    id: Seq<char>,
    amount: u128,
)
    requires
        spec_start_unbond(v, sender, id, amount).1 is Ok,
    ensures
        spec_unbond(spec_start_unbond(v, sender, id, amount).0, time, sender, id).1 is Err,
{
}

/// After the strategy confirms at block time `time` that it started unbonding bond `id`,
/// unbonding it before the lock period that the bond carried has passed is refused.
pub proof fn unbond_refused_before_lock_ends(
    v: VaultView,
    time: u64,
    share_amount: u128,
    id: Seq<char>,
    later: u64,
    sender: Seq<char>,
)
    requires
        v.strategies.contains_key(id),
        v.strategies[id].unbond_time + time <= u64::MAX,
        later < v.strategies[id].unbond_time + time,
    ensures
        spec_unbond(spec_start_unbond_response(v, time, share_amount, id).0, later, sender, id).1 is Err,
{
}

/// After a deposit goes through, the user query answers the shares that the two coins are
/// worth, nothing bonded and no bonds.
pub proof fn deposit_then_query_user(
    v: VaultView,
    sender: Seq<char>,
    funds: Seq<CoinView>,
    assets: Seq<crate::assets::AssetView>,
)
    requires
        spec_deposit(v, sender, funds, assets).1 is Ok,
    ensures
        spec_query_user(spec_deposit(v, sender, funds, assets).0, sender) == Ok::<UserInfoView, StdErrorView>(
            UserInfoView {
                shares: (funds[0].amount + funds[1].amount) as u128,
                bonded: 0,
                strategies: Seq::empty(),
            },
        ),
{
}

/// After a bond goes through, all of the user's shares are bonded, and the user lists one new
/// bond id per strategy, after the ones listed before.
pub proof fn bond_bonds_all_shares(v: VaultView, sender: Seq<char>, answers: Seq<StrategyConfigView>)
    requires
        spec_bond(v, sender, answers).1 matches StepView::Done(r) && r is Ok,
    ensures
        ({
            let w = spec_bond(v, sender, answers).0;
            &&& w.users[sender].bonded == w.users[sender].shares
            &&& w.users[sender].shares == v.users[sender].shares
            &&& w.users[sender].strategies == v.users[sender].strategies + Seq::new(
                strategy_count(v),
                |i: int| bond_id(v, i),
            )
        }),
{
}

/// After the strategy confirms bond `id` with `share_amount` shares, the bond query answers
/// that amount and that the bond is confirmed.
pub proof fn bond_response_then_query(v: VaultView, share_amount: u128, id: Seq<char>)
    requires
        v.strategies.contains_key(id),
    ensures
        spec_query_bond_info(spec_bond_response(v, share_amount, id).0, id) matches Ok(b) && b.amount
            == share_amount && b.bonded,
{
}

/// After the strategy confirms that it started unbonding `share_amount` shares of bond `id`,
/// the bond query answers that amount as the amount being unbonded.
pub proof fn start_unbond_response_then_query(
    v: VaultView,
    time: u64,
    share_amount: u128,
    id: Seq<char>,
)
    requires
        v.strategies.contains_key(id),
    ensures
        spec_query_bond_info(spec_start_unbond_response(v, time, share_amount, id).0, id) matches Ok(b)
            && b.unbonded_amount == share_amount,
{
}

/// Once the strategy has returned the unbonded tokens of a confirmed bond, the user to whom
/// the bond belongs may start unbonding what is left of it again.
pub proof fn start_unbond_again_after_unbond_response(
    v: VaultView,
    sender: Seq<char>,
    id: Seq<char>,
    answers: Seq<StrategyConfigView>,
    amount: u128,
)
    requires
        v.users.contains_key(sender),
        has_id(v.users[sender].strategies, id),
        v.strategies.contains_key(id),
        v.strategies[id].bonded,
        v.strategies[id].unbonded_amount <= v.strategies[id].amount,
        answers.len() > 0,
        0 < amount <= v.strategies[id].amount - v.strategies[id].unbonded_amount,
    ensures
        spec_start_unbond(spec_unbond_response(v, id, answers).0, sender, id, amount).1 is Ok,
{
}

/// Where every stored bond id lies below the counter, a bond that goes through hands out ids
/// that were not taken before and differ from one another, and afterwards every stored id
/// still lies below the counter; so no two bonds ever hand out the same id.
pub proof fn bond_hands_out_fresh_ids(
    v: VaultView,
    sender: Seq<char>,
    answers: Seq<StrategyConfigView>,
)
    requires
        bonds_below_counter(v),
        !bond_aborts(v, sender, answers),
        spec_bond(v, sender, answers).1 matches StepView::Done(r) && r is Ok,
    ensures
        forall|i: int|
            0 <= i < strategy_count(v) ==> !v.strategies.contains_key(#[trigger] bond_id(v, i)),
        forall|i: int, j: int|
            0 <= i < j < strategy_count(v) ==> #[trigger] bond_id(v, i) != #[trigger] bond_id(v, j),
        bonds_below_counter(spec_bond(v, sender, answers).0),
{
    let w = spec_bond(v, sender, answers).0;
    let n = strategy_count(v);
    lemma_bond_ids_fresh(v);
    lemma_bonds_after_fresh(v, sender, answers, n as int);
    assert forall|key: Seq<char>| #[trigger] w.strategies.contains_key(key) implies exists|m: nat|
        m < first_bond_count(w) && #[trigger] decimal(m) == key by {
        if v.strategies.contains_key(key) {
            let m = choose|m: nat| m < first_bond_count(v) && #[trigger] decimal(m) == key;
            assert(decimal(m) == key);
        } else {
            let i = choose|i: int| 0 <= i < n && #[trigger] bond_id(v, i) == key;
            assert(decimal((first_bond_count(v) + i) as nat) == key);
        }
    }
}

// ---------------------------------------------------------------- what each operation is for

/// A bond that goes through, where every stored bond id lies below the counter, records for
/// each strategy `i` a new bond under its new id: with strategy `i`'s address, owned by the
/// sender, in strategy `i`'s token, for half of the sender's shares that were not bonded, not
/// confirmed yet, with nothing being unbonded, and locked for strategy `i`'s lock period.
pub proof fn bond_records_each_strategy(
    v: VaultView,
    sender: Seq<char>,
    answers: Seq<StrategyConfigView>,
)
    requires
        bonds_below_counter(v),
        spec_bond(v, sender, answers).1 matches StepView::Done(r) && r is Ok,
    ensures
        forall|i: int|
            0 <= i < strategy_count(v) ==> {
                let b = spec_bond(v, sender, answers).0.strategies[#[trigger] bond_id(v, i)];
                &&& spec_bond(v, sender, answers).0.strategies.contains_key(bond_id(v, i))
                &&& b.addr == v.config.unwrap().stratgy_infos[i]
                &&& b.owner_addr == sender
                &&& b.denom == answers[i].local_denom
                &&& b.amount == (v.users[sender].shares - v.users[sender].bonded) / 2
                &&& !b.bonded
                &&& b.unbonded_amount == 0
                &&& !b.unbonded
                &&& b.unbond_time == answers[i].lock_period
            },
{
    let n = strategy_count(v);
    lemma_bond_ids_fresh(v);
    lemma_bonds_after_fresh(v, sender, answers, n as int);
    lemma_bonds_after_grows(v, sender, answers, n as int);
}

/// After a bond goes through and the strategy `i` later confirms, at block time `t`, that it
/// started unbonding the new bond, unbonding it is refused at every block time before
/// `t` plus strategy `i`'s lock period.
pub proof fn bond_then_unbond_waits_for_strategy_lock(
    v: VaultView,
    sender: Seq<char>,
    answers: Seq<StrategyConfigView>,
    i: int,
    t: u64,
    share_amount: u128,
    later: u64,
    who: Seq<char>,
)
    requires
        bonds_below_counter(v),
        spec_bond(v, sender, answers).1 matches StepView::Done(r) && r is Ok,
        0 <= i < strategy_count(v),
        answers[i].lock_period + t <= u64::MAX,
        later < answers[i].lock_period + t,
    ensures
        spec_unbond(
            spec_start_unbond_response(spec_bond(v, sender, answers).0, t, share_amount, bond_id(v, i)).0,
            later,
            who,
            bond_id(v, i),
        ).1 is Err,
{
    bond_records_each_strategy(v, sender, answers);
    let w = spec_bond(v, sender, answers).0;
    assert(w.strategies.contains_key(bond_id(v, i)));
    unbond_refused_before_lock_ends(w, t, share_amount, bond_id(v, i), later, who);
}

/// An unbonding that goes through takes the amount being unbonded off the sender's shares and
/// bonded shares and leaves the bond records alone. Where less than the whole bond is being
/// unbonded, the sender's list of bond ids is unchanged; where the whole bond is, the list
/// loses one entry, keeps only entries it had, and, where it listed each id once, no longer
/// lists the bond.
pub proof fn unbond_keeps_partial_bonds_listed(v: VaultView, time: u64, sender: Seq<char>, id: Seq<char>)
    requires
        !unbond_aborts(v, time, sender, id),
        spec_unbond(v, time, sender, id).1 is Ok,
    ensures
        ({
            let w = spec_unbond(v, time, sender, id).0;
            let b = v.strategies[id];
            let before = v.users[sender].strategies;
            let after = w.users[sender].strategies;
            &&& w.users.contains_key(sender)
            &&& w.users[sender].shares + b.unbonded_amount == v.users[sender].shares
            &&& w.users[sender].bonded + b.unbonded_amount == v.users[sender].bonded
            &&& w.strategies == v.strategies
            &&& (b.unbonded_amount != b.amount ==> after == before)
            &&& (b.unbonded_amount == b.amount ==> {
                &&& after.len() + 1 == before.len()
                &&& forall|j: int| 0 <= j < after.len() ==> has_id(before, #[trigger] after[j])
                &&& (before.no_duplicates() ==> !has_id(after, id))
            })
        }),
{
    let w = spec_unbond(v, time, sender, id).0;
    let b = v.strategies[id];
    let before = v.users[sender].strategies;
    let after = w.users[sender].strategies;
    if b.unbonded_amount == b.amount {
        lemma_swap_remove_within(before, id);
        let i = choose|i: int| 0 <= i < before.len() && #[trigger] before[i] == id;
        lemma_first_position_in_range(before, id, i);
        let p = first_position(before, id);
        if before.no_duplicates() {
            assert(!has_id(after, id)) by {
                if has_id(after, id) {
                    let j = choose|j: int| 0 <= j < after.len() && #[trigger] after[j] == id;
                    if j == p {
                        assert(after[j] == before[before.len() - 1]);
                        assert(before.len() - 1 != p);
                    } else {
                        assert(after[j] == before[j]);
                    }
                }
            }
        }
    }
}

/// The start of an unbonding that goes through asks the bond's strategy to unbond exactly the
/// requested amount, and records that same amount as being unbonded; the bond's amount and
/// the users' records stay as they were.
pub proof fn start_unbond_asks_for_requested_amount(
    v: VaultView,
    sender: Seq<char>,
    id: Seq<char>,
    amount: u128,
)
    requires
        spec_start_unbond(v, sender, id, amount).1 is Ok,
    ensures
        ({
            let w = spec_start_unbond(v, sender, id, amount).0;
            let r = spec_start_unbond(v, sender, id, amount).1->Ok_0;
            &&& r.messages == seq![
                MsgView::WasmExecute {
                    contract_addr: v.strategies[id].addr,
                    msg: StrategyMsgView::StartUnbond { id, share_amount: amount },
                    funds: Seq::empty(),
                },
            ]
            &&& w.strategies[id].unbonded_amount == amount
            &&& w.strategies[id].unbonded
            &&& w.strategies[id].amount == v.strategies[id].amount
            &&& w.strategies[id].unbond_time == v.strategies[id].unbond_time
            &&& w.users == v.users
        }),
{
}

/// The return of unbonded tokens that goes through sends the amount being unbonded, in the
/// bond's token, to the bond's owner; takes it off the bond; and resets the bond's lock to the
/// lock period of the strategy's configuration.
pub proof fn unbond_response_resets_lock_to_strategy_period(
    v: VaultView,
    id: Seq<char>,
    answers: Seq<StrategyConfigView>,
)
    requires
        !unbond_response_aborts(v, id, answers),
        spec_unbond_response(v, id, answers).1 matches StepView::Done(r) && r is Ok,
    ensures
        ({
            let w = spec_unbond_response(v, id, answers).0;
            let b = v.strategies[id];
            let r = spec_unbond_response(v, id, answers).1->Done_0->Ok_0;
            &&& w.strategies.contains_key(id)
            &&& w.strategies[id].unbond_time == answers[0].lock_period
            &&& w.strategies[id].amount + b.unbonded_amount == b.amount
            &&& w.strategies[id].unbonded_amount == 0
            &&& w.strategies[id].owner_addr == b.owner_addr
            &&& r.messages == seq![
                MsgView::BankSend {
                    to_address: b.owner_addr,
                    amount: seq![CoinView { denom: b.denom, amount: b.unbonded_amount }],
                },
            ]
            &&& w.users == v.users
        }),
{
}

/// After the unbonded tokens of bond `id` come back and the strategy later confirms, at block
/// time `t`, a new start of unbonding, unbonding the bond is refused at every block time before
/// `t` plus the strategy's lock period.
pub proof fn unbond_response_then_unbond_waits_for_strategy_lock(
    v: VaultView,
    id: Seq<char>,
    answers: Seq<StrategyConfigView>,
    t: u64,
    share_amount: u128,
    later: u64,
    who: Seq<char>,
)
    requires
        !unbond_response_aborts(v, id, answers),
        spec_unbond_response(v, id, answers).1 matches StepView::Done(r) && r is Ok,
        answers[0].lock_period + t <= u64::MAX,
        later < answers[0].lock_period + t,
    ensures
        spec_unbond(
            spec_start_unbond_response(spec_unbond_response(v, id, answers).0, t, share_amount, id).0,
            later,
            who,
            id,
        ).1 is Err,
{
    unbond_response_resets_lock_to_strategy_period(v, id, answers);
    unbond_refused_before_lock_ends(spec_unbond_response(v, id, answers).0, t, share_amount, id, later, who);
}

// ---------------------------------------------------------------- the coins of a deposit

/// A declared asset is one of the pool's native tokens, or not a native token at all.
pub open spec fn declared_in_pool(info: AssetInfoView, infos: Seq<AssetInfoView>) -> bool {
    match info {
        AssetInfoView::NativeToken { denom } => pool_has(infos, denom),
        _ => true,
    }
}

/// The deposit declares each native token at most once.
pub open spec fn natives_distinct(assets: Seq<AssetView>) -> bool {
    forall|k1: int, k2: int|
        0 <= k1 < k2 < assets.len() && #[trigger] assets[k1].info is NativeToken ==> assets[k1].info
            != #[trigger] assets[k2].info
}

proof fn lemma_first_unsupported_none(assets: Seq<AssetView>, infos: Seq<AssetInfoView>, i: int)
    requires
        0 <= i <= assets.len(),
    ensures
        first_unsupported(assets, infos, i) is None <==> forall|k: int|
            i <= k < assets.len() ==> declared_in_pool(#[trigger] assets[k].info, infos),
    decreases assets.len() - i,
{
    if i < assets.len() {
        lemma_first_unsupported_none(assets, infos, i + 1);
    }
}

proof fn lemma_input_amount(assets: Seq<AssetView>, denom: Seq<char>, n: int)
    requires
        0 <= n <= assets.len(),
    ensures
        input_amount(assets, denom, n) is None <==> forall|k: int|
            0 <= k < n ==> #[trigger] assets[k].info != (AssetInfoView::NativeToken { denom }),
        input_amount(assets, denom, n) matches Some(a) ==> exists|k: int|
            0 <= k < n && #[trigger] assets[k].info == (AssetInfoView::NativeToken { denom })
                && assets[k].amount == a,
        natives_distinct(assets) ==> forall|k: int|
            0 <= k < n && #[trigger] assets[k].info == (AssetInfoView::NativeToken { denom })
                ==> input_amount(assets, denom, n) == Some(assets[k].amount),
    decreases n,
{
    if n > 0 {
        lemma_input_amount(assets, denom, n - 1);
        if natives_distinct(assets) {
            assert forall|k: int|
                0 <= k < n && #[trigger] assets[k].info == (AssetInfoView::NativeToken { denom })
                    implies input_amount(assets, denom, n) == Some(assets[k].amount) by {
                if k < n - 1 && assets[n - 1].info == (AssetInfoView::NativeToken { denom }) {
                    assert(assets[k].info is NativeToken);
                    assert(assets[k].info != assets[n - 1].info);
                }
            }
        }
    }
}

proof fn lemma_first_fund_failure_none(coins: Seq<CoinView>, assets: Seq<AssetView>, i: int)
    requires
        0 <= i <= coins.len(),
    ensures
        first_fund_failure(coins, assets, i) is None <==> forall|j: int|
            i <= j < coins.len() ==> input_amount(assets, #[trigger] coins[j].denom, assets.len() as int)
                == Some(coins[j].amount),
    decreases coins.len() - i,
{
    if i < coins.len() {
        lemma_first_fund_failure_none(coins, assets, i + 1);
    }
}

/// Where a deposit declares each native token at most once, its coins pass the check exactly
/// when every native token it declares is one of the pool's, and every coin sent is declared,
/// by its denomination and wherever in the list, with the coin's own amount.
pub proof fn coins_check_by_denomination(
    coins: Seq<CoinView>,
    assets: Seq<AssetView>,
    infos: Seq<AssetInfoView>,
)
    requires
        natives_distinct(assets),
    ensures
        coins_sent_check(coins, assets, infos) is Ok <==> {
            &&& forall|k: int| 0 <= k < assets.len() ==> declared_in_pool(#[trigger] assets[k].info, infos)
            &&& forall|j: int|
                0 <= j < coins.len() ==> exists|k: int|
                    0 <= k < assets.len() && #[trigger] assets[k] == (AssetView {
                        info: AssetInfoView::NativeToken { denom: #[trigger] coins[j].denom },
                        amount: coins[j].amount,
                    })
        },
{
    lemma_first_unsupported_none(assets, infos, 0);
    lemma_first_fund_failure_none(coins, assets, 0);
    let n = assets.len() as int;
    assert forall|j: int| 0 <= j < coins.len() implies (input_amount(
        assets,
        #[trigger] coins[j].denom,
        n,
    ) == Some(coins[j].amount) <==> exists|k: int|
        0 <= k < assets.len() && #[trigger] assets[k] == (AssetView {
            info: AssetInfoView::NativeToken { denom: coins[j].denom },
            amount: coins[j].amount,
        })) by {
        lemma_input_amount(assets, coins[j].denom, n);
        let target = AssetView {
            info: AssetInfoView::NativeToken { denom: coins[j].denom },
            amount: coins[j].amount,
        };
        if input_amount(assets, coins[j].denom, n) == Some(coins[j].amount) {
            let k = choose|k: int|
                0 <= k < n && #[trigger] assets[k].info == (AssetInfoView::NativeToken {
                    denom: coins[j].denom,
                }) && assets[k].amount == coins[j].amount;
            assert(assets[k] == target);
        }
        if exists|k: int| 0 <= k < assets.len() && #[trigger] assets[k] == target {
            let k = choose|k: int| 0 <= k < assets.len() && #[trigger] assets[k] == target;
            assert(assets[k].info == (AssetInfoView::NativeToken { denom: coins[j].denom }));
        }
    }
}

/// Where each of two lists declares each native token at most once and they hold the same
/// assets in another order, the coins of a deposit pass the check for the one exactly when
/// they pass it for the other.
pub proof fn coins_check_ignores_asset_order(
    coins: Seq<CoinView>,
    assets: Seq<AssetView>,
    reordered: Seq<AssetView>,
    infos: Seq<AssetInfoView>,
)
    requires
        natives_distinct(assets),
        natives_distinct(reordered),
        assets.to_multiset() == reordered.to_multiset(),
    ensures
        (coins_sent_check(coins, assets, infos) is Ok) == (coins_sent_check(
            coins,
            reordered,
            infos,
        ) is Ok),
{
    assets.to_multiset_ensures();
    reordered.to_multiset_ensures();
    coins_check_by_denomination(coins, assets, infos);
    coins_check_by_denomination(coins, reordered, infos);
    assert forall|x: AssetView| assets.contains(x) <==> reordered.contains(x) by {
        assert(assets.to_multiset().count(x) == reordered.to_multiset().count(x));
        assert(assets.contains(x) <==> assets.to_multiset().count(x) > 0);
        assert(reordered.contains(x) <==> reordered.to_multiset().count(x) > 0);
    }
    let pa = forall|k: int| 0 <= k < assets.len() ==> declared_in_pool(#[trigger] assets[k].info, infos);
    let pr = forall|k: int| 0 <= k < reordered.len() ==> declared_in_pool(#[trigger] reordered[k].info, infos);
    assert(pa == pr) by {
        if pa {
            assert forall|k: int| 0 <= k < reordered.len() implies declared_in_pool(#[trigger] reordered[k].info, infos) by {
                assert(reordered.contains(reordered[k]));
                let m = choose|m: int| 0 <= m < assets.len() && assets[m] == reordered[k];
                assert(declared_in_pool(assets[m].info, infos));
            }
        }
        if pr {
            assert forall|k: int| 0 <= k < assets.len() implies declared_in_pool(#[trigger] assets[k].info, infos) by {
                assert(assets.contains(assets[k]));
                let m = choose|m: int| 0 <= m < reordered.len() && reordered[m] == assets[k];
                assert(declared_in_pool(reordered[m].info, infos));
            }
        }
    }
    assert forall|j: int| 0 <= j < coins.len() implies ((exists|k: int|
        0 <= k < assets.len() && #[trigger] assets[k] == (AssetView {
            info: AssetInfoView::NativeToken { denom: #[trigger] coins[j].denom },
            amount: coins[j].amount,
        })) <==> (exists|k: int|
        0 <= k < reordered.len() && #[trigger] reordered[k] == (AssetView {
            info: AssetInfoView::NativeToken { denom: coins[j].denom },
            amount: coins[j].amount,
        }))) by {
        let target = AssetView {
            info: AssetInfoView::NativeToken { denom: coins[j].denom },
            amount: coins[j].amount,
        };
        if exists|k: int| 0 <= k < assets.len() && #[trigger] assets[k] == target {
            let k = choose|k: int| 0 <= k < assets.len() && #[trigger] assets[k] == target;
            assert(assets.contains(target));
            assert(reordered.contains(target));
        }
        if exists|k: int| 0 <= k < reordered.len() && #[trigger] reordered[k] == target {
            let k = choose|k: int| 0 <= k < reordered.len() && #[trigger] reordered[k] == target;
            assert(reordered.contains(target));
            assert(assets.contains(target));
        }
    }
}

} // verus!
