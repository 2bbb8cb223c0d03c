//! The vault's handlers: each message is a transition of the storage model [`Vault`].
use vstd::prelude::*;
use vstd::string::StringExecFns;

use crate::assets::{
    asset_infos_view, assets_view, coins_view, copy_asset_infos, Asset, Coin, CoinsExt, VaultInfo,
};
use crate::decimal::to_decimal;
use crate::error::{ContractError, ContractErrorView, Record, StdError, StdErrorView};
use crate::helpers::{
    check_authorization, copy_strings, strings_view, ConfigResponse as StrategyConfigResponse,
    ExecuteMsg as StrategyExecuteMsg,
};
use crate::laws::execute_keeps_invariant;
use crate::model::{
    bond_aborts, bond_attributes, bond_error, bond_half, bond_id, bond_messages, bonds_after,
    callback_aborts, deposit_aborts, execute_aborts, first_bond_count, lemma_first_position,
    spec_bond, spec_bond_response, spec_callback, spec_deposit, spec_execute, spec_instantiate,
    spec_query_bond_info, spec_query_config, spec_query_user, spec_start_unbond,
    spec_start_unbond_response, spec_unbond, spec_unbond_response, start_unbond_error,
    strategy_count, unbond_aborts, unbond_error, unbond_response_aborts, vault_invariant,
    StepView,
};
use crate::msg::{
    BondInfoResponse, CallbackMsg, ConfigResponse, ExecuteMsg, InstantiateMsg, QueryMsg,
    QueryResponse, UserResponse,
};
use crate::response::{BankMsg, CosmosMsg, Response, WasmMsg};
use crate::state::{BondConuter, BondInfo, BondInfoView, Config, UserInfo, Vault};

verus! {

/// What a handler knows of the block and of the contract itself.
#[derive(Clone, Debug, PartialEq, Eq)]
pub struct Env {
    /// The block time, in seconds.
    pub block_time: u64,
    /// The vault's own address.
    pub contract_address: String,
}

/// Who sent the message, and the coins sent along with it.
#[derive(Clone, Debug, PartialEq, Eq)]
pub struct MessageInfo {
    pub sender: String,
    pub funds: Vec<Coin>,
}

/// What one step of a handler comes to.
#[derive(Debug, PartialEq, Eq)]
pub enum Step {
    /// The handler finished with this answer.
    Done(Result<Response, ContractError>),
    /// The handler needs the configuration of the strategy contract at this address; call it
    /// again with the answer appended to the answers it was given.
    Query(String),
}

/// The view of a handler's answer.
pub open spec fn result_view(r: Result<Response, ContractError>) -> Result<
    crate::response::ResponseView,
    ContractErrorView,
> {
    match r {
        Ok(resp) => Ok(resp@),
        Err(e) => Err(e@),
    }
}

impl View for Step {
    type V = StepView;

    open spec fn view(&self) -> StepView {
        match self {
            Step::Done(r) => StepView::Done(result_view(*r)),
            Step::Query(addr) => StepView::Query(addr@),
        }
    }
}

/// The views of the strategies' answers.
pub open spec fn answers_view(answers: Seq<StrategyConfigResponse>) -> Seq<
    crate::helpers::StrategyConfigView,
> {
    answers.map_values(|a: StrategyConfigResponse| a@)
}

/// The view of what the host made of an address.
pub open spec fn address_view(r: Result<String, StdError>) -> Result<Seq<char>, StdErrorView> {
    match r {
        Ok(a) => Ok(a@),
        Err(e) => Err(e@),
    }
}

fn text(s: &str) -> (r: String)
    ensures
        r@ == s@,
{
    String::from_str(s)
}

impl Vault {
    /// Stores the configuration: the owner as the host validated it, the two assets, which
    /// must differ, and the strategies.
    pub fn instantiate(
        &mut self,
        env: &Env,
        msg: &InstantiateMsg,
        owner: Result<String, StdError>,
    ) -> (r: Result<Response, ContractError>)
        ensures
            (final(self)@, result_view(r)) == spec_instantiate(
                old(self)@,
                env.contract_address@,
                asset_infos_view(msg.asset_infos@),
                strings_view(msg.strategy_infos@),
                address_view(owner),
            ),
            vault_invariant(old(self)@) ==> vault_invariant(final(self)@),
    {
        if msg.asset_infos.len() != 2 {
            return Err(ContractError::Std(StdError::AssetCount {}));
        }
        if msg.asset_infos[0].same_as(&msg.asset_infos[1]) {
            return Err(ContractError::DoublingAssets {});
        }
        match owner {
            Err(e) => Err(ContractError::Std(e)),
            Ok(o) => {
                self.config = Some(
                    Config {
                        owner: o,
                        vault_info: VaultInfo {
                            contract_addr: env.contract_address.clone(),
                            asset_infos: copy_asset_infos(&msg.asset_infos),
                            stratgy_infos: copy_strings(&msg.strategy_infos),
                        },
                    },
                );
                Ok(Response::new())
            },
        }
    }

    /// Takes a deposit of the two native tokens in a 1:1 ratio and records the shares that
    /// they are worth as the sender's, in place of any earlier record.
    pub fn deposit(&mut self, info: &MessageInfo, assets: &Vec<Asset>) -> (r: Result<
        Response,
        ContractError,
    >)
        requires
            !deposit_aborts(old(self)@, coins_view(info.funds@), assets_view(assets@)),
        ensures
            (final(self)@, result_view(r)) == spec_deposit(
                old(self)@,
                info.sender@,
                coins_view(info.funds@),
                assets_view(assets@),
            ),
    {
        if assets.len() != 2 {
            return Err(ContractError::Std(StdError::AssetCount {}));
        }
        let checked = match &self.config {
            None => Err(StdError::NotFound { record: Record::Config }),
            Some(config) => info.funds.assert_coins_properly_sent(
                assets.as_slice(),
                config.vault_info.asset_infos.as_slice(),
            ),
        };
        if let Err(e) = checked {
            return Err(ContractError::Std(e));
        }
        assert(coins_view(info.funds@)[0] == info.funds@[0]@);
        assert(coins_view(info.funds@)[1] == info.funds@[1]@);
        if let Err(e) = info.funds.assert_coin_ratio() {
            return Err(ContractError::Std(e));
        }
        let shares = info.funds.calc_shares();
        self.users.set(
            info.sender.clone(),
            UserInfo { shares, bonded: 0, strategies: Vec::new() },
        );
        let mut response = Response::new();
        response.add_attribute(text("action"), text("deposit"));
        response.add_attribute(text("sender"), info.sender.clone());
        response.add_attribute(text("shares"), to_decimal(shares));
        proof {
            assert(strings_view(Seq::<String>::empty()) =~= Seq::<Seq<char>>::empty());
            assert(response@.attributes =~= seq![
                ("action"@, "deposit"@),
                ("sender"@, info.sender@),
                ("shares"@, crate::decimal::decimal(shares as nat)),
            ]);
        }
        Ok(response)
    }

    fn bond_check(&self, sender: &String) -> (r: Result<(), ContractError>)
        ensures
            r is Ok <==> bond_error(self@, sender@) is None,
            r matches Err(e) ==> bond_error(self@, sender@) == Some(e@),
    {
        match &self.config {
            None => Err(ContractError::Std(StdError::NotFound { record: Record::Config })),
            Some(_) => match self.users.get(sender) {
                None => Err(ContractError::Std(StdError::NotFound { record: Record::UserInfo })),
                Some(user) => if user.bonded > user.shares {
                    Err(ContractError::InsufficientBalance {})
                } else {
                    Ok(())
                },
            },
        }
    }

    /// Bonds the sender's shares that are not bonded yet: half of them with each strategy,
    /// under a new bond id per strategy, counted up from the stored counter (from 1 at first).
    /// The configuration of strategy `i` is `answers[i]`; while some is missing, the step asks
    /// for it and changes nothing.
    pub fn bond(&mut self, sender: &String, answers: &Vec<StrategyConfigResponse>) -> (r: Step)
        requires
            !bond_aborts(old(self)@, sender@, answers_view(answers@)),
        ensures
            (final(self)@, r@) == spec_bond(old(self)@, sender@, answers_view(answers@)),
    {
        let ghost v0 = self@;
        let ghost av = answers_view(answers@);
        if let Err(e) = self.bond_check(sender) {
            return Step::Done(Err(e));
        }
        let strategy_addrs = match &self.config {
            Some(config) => copy_strings(&config.vault_info.stratgy_infos),
            None => Vec::new(),
        };
        let n = strategy_addrs.len();
        if answers.len() < n {
            return Step::Query(strategy_addrs[answers.len()].clone());
        }
        let (shares, mut listed) = match self.users.get(sender) {
            Some(user) => (user.shares, copy_strings(&user.strategies)),
            None => (0, Vec::new()),
        };
        let half = match self.users.get(sender) {
            Some(user) => (user.shares - user.bonded) / 2,
            None => 0,
        };
        let c0: u64 = match self.counter {
            Some(c) => c.count,
            None => 1,
        };
        assert(c0 + n <= u64::MAX);
        let mut response = Response::new();
        response.add_attribute(text("action"), text("bond"));
        let mut i: usize = 0;
        while i < n
            invariant
                i <= n,
                n == strategy_count(v0),
                av == answers_view(answers@),
                av.len() >= n,
                c0 == first_bond_count(v0),
                c0 + n <= u64::MAX,
                half == bond_half(v0, sender@),
                strings_view(strategy_addrs@) == v0.config.unwrap().stratgy_infos,
                self@.config == v0.config,
                self@.users == v0.users,
                self@.strategies == bonds_after(v0, sender@, av, i as int),
                self@.counter == if i == 0 {
                    v0.counter
                } else {
                    Some((c0 + i) as u64)
                },
                strings_view(listed@) == v0.users[sender@].strategies + Seq::new(
                    i as nat,
                    |j: int| bond_id(v0, j),
                ),
                response@.messages == bond_messages(v0, sender@, av).take(i as int),
                response@.attributes == bond_attributes(v0).take(i + 1),
            decreases n - i,
        {
            let count: u64 = c0 + i as u64;
            let id = to_decimal(count as u128);
            assert(id@ == bond_id(v0, i as int));
            let answer = &answers[i];
            assert(answer@ == av[i as int]);
            assert(strategy_addrs@[i as int]@ == v0.config.unwrap().stratgy_infos[i as int]);
            response.add_attribute(text("strategy"), id.clone());
            let mut funds: Vec<Coin> = Vec::new();
            funds.push(Coin { denom: answer.config.local_denom.clone(), amount: half });
            assert(coins_view(funds@) =~= seq![
                crate::assets::CoinView { denom: av[i as int].local_denom, amount: half },
            ]);
            let ghost before = response@.messages;
            response.add_message(
                CosmosMsg::Wasm(
                    WasmMsg::Execute {
                        contract_addr: strategy_addrs[i].clone(),
                        msg: StrategyExecuteMsg::Bond { id: id.clone() },
                        funds,
                    },
                ),
            );
            let ghost listed_before = listed@;
            listed.push(id.clone());
            assert(strings_view(listed@) =~= strings_view(listed_before).push(id@));
            if !self.strategies.contains(&id) {
                self.strategies.set(
                    id,
                    BondInfo {
                        addr: strategy_addrs[i].clone(),
                        owner_addr: sender.clone(),
                        denom: answer.config.local_denom.clone(),
                        amount: half,
                        bonded: false,
                        unbonded_amount: 0,
                        unbonded: false,
                        unbond_time: answer.config.lock_period,
                    },
                );
            }
            self.counter = Some(BondConuter { count: count + 1 });
            proof {
                assert(strings_view(listed@) =~= v0.users[sender@].strategies + Seq::new(
                    (i + 1) as nat,
                    |j: int| bond_id(v0, j),
                ));
                assert(response@.messages == before.push(bond_messages(v0, sender@, av)[i as int]));
                assert(response@.messages =~= bond_messages(v0, sender@, av).take(i + 1));
                assert(response@.attributes =~= bond_attributes(v0).take(i + 2));
            }
            i = i + 1;
        }
        self.users.set(sender.clone(), UserInfo { shares, bonded: shares, strategies: listed });
        proof {
            assert(response@.messages =~= bond_messages(v0, sender@, av));
            assert(response@.attributes =~= bond_attributes(v0));
        }
        Step::Done(Ok(response))
    }

    fn start_unbond_check(&self, sender: &String, id: &String, amount: u128) -> (r: Result<
        (),
        ContractError,
    >)
        ensures
            r is Ok <==> start_unbond_error(self@, sender@, id@, amount) is None,
            r matches Err(e) ==> start_unbond_error(self@, sender@, id@, amount) == Some(e@),
    {
        let user = match self.users.get(sender) {
            None => {
                return Err(ContractError::Std(StdError::NotFound { record: Record::UserInfo }));
            },
            Some(u) => u,
        };
        if amount == 0 {
            return Err(ContractError::BadAmount {});
        }
        check_authorization(copy_strings(&user.strategies), id.clone())?;
        let bond = match self.strategies.get(id) {
            None => {
                return Err(ContractError::Std(StdError::NotFound { record: Record::BondInfo }));
            },
            Some(b) => b,
        };
        if !bond.bonded {
            return Err(ContractError::Notbonded {});
        }
        if bond.unbonded_amount > 0 {
            return Err(ContractError::Unbonded {});
        }
        if amount > bond.amount {
            return Err(ContractError::BadAmount {});
        }
        Ok(())
    }

    /// Asks the strategy of bond `id`, which must be one of the sender's, confirmed and not
    /// unbonding already, to start unbonding `amount` of its shares.
    pub fn start_unbond(&mut self, sender: &String, id: &String, amount: u128) -> (r: Result<
        Response,
        ContractError,
    >)
        ensures
            (final(self)@, result_view(r)) == spec_start_unbond(old(self)@, sender@, id@, amount),
    {
        self.start_unbond_check(sender, id, amount)?;
        let mut bond = match self.strategies.get(id) {
            Some(b) => b.duplicate(),
            None => {
                return Err(ContractError::Std(StdError::NotFound { record: Record::BondInfo }));
            },
        };
        let mut response = Response::new();
        response.add_message(
            CosmosMsg::Wasm(
                WasmMsg::Execute {
                    contract_addr: bond.addr.clone(),
                    msg: StrategyExecuteMsg::StartUnbond { id: id.clone(), share_amount: amount },
                    funds: Vec::new(),
                },
            ),
        );
        bond.unbonded_amount = amount;
        bond.unbonded = true;
        self.strategies.set(id.clone(), bond);
        response.add_attribute(text("action"), text("start_unbond"));
        response.add_attribute(text("strategy"), id.clone());
        response.add_attribute(text("amount"), to_decimal(amount));
        proof {
            assert(coins_view(Seq::<Coin>::empty()) =~= Seq::<crate::assets::CoinView>::empty());
            assert(response@.messages =~= spec_start_unbond(old(self)@, sender@, id@, amount).1->Ok_0.messages);
            assert(response@.attributes =~= seq![
                ("action"@, "start_unbond"@),
                ("strategy"@, id@),
                ("amount"@, crate::decimal::decimal(amount as nat)),
            ]);
        }
        Ok(response)
    }

    fn unbond_check(&self, time: u64, sender: &String, id: &String) -> (r: Result<
        (),
        ContractError,
    >)
        ensures
            r is Ok <==> unbond_error(self@, time, sender@, id@) is None,
            r matches Err(e) ==> unbond_error(self@, time, sender@, id@) == Some(e@),
    {
        let user = match self.users.get(sender) {
            None => {
                return Err(ContractError::Std(StdError::NotFound { record: Record::UserInfo }));
            },
            Some(u) => u,
        };
        check_authorization(copy_strings(&user.strategies), id.clone())?;
        let bond = match self.strategies.get(id) {
            None => {
                return Err(ContractError::Std(StdError::NotFound { record: Record::BondInfo }));
            },
            Some(b) => b,
        };
        if time < bond.unbond_time {
            return Err(ContractError::BondTime {});
        }
        if bond.unbonded {
            return Err(ContractError::Unbonded {});
        }
        Ok(())
    }

    /// Takes the shares whose unbonding the strategy of bond `id` confirmed, once its lock has
    /// run out, off the sender's shares and bonded shares. Where the whole bond is unbonded,
    /// the bond id leaves the sender's list.
    pub fn unbond(&mut self, time: u64, sender: &String, id: &String) -> (r: Result<
        Response,
        ContractError,
    >)
        requires
            !unbond_aborts(old(self)@, time, sender@, id@),
        ensures
            (final(self)@, result_view(r)) == spec_unbond(old(self)@, time, sender@, id@),
    {
        let ghost v0 = self@;
        self.unbond_check(time, sender, id)?;
        let (amount, whole) = match self.strategies.get(id) {
            Some(b) => (b.unbonded_amount, b.amount == b.unbonded_amount),
            None => (0, false),
        };
        let user = match self.users.get(sender) {
            Some(u) => u.duplicate(),
            None => UserInfo { shares: 0, bonded: 0, strategies: Vec::new() },
        };
        let mut listed = user.strategies;
        if whole {
            let mut p: usize = 0;
            while p < listed.len()
                invariant
                    p <= listed@.len(),
                    forall|j: int| 0 <= j < p ==> listed@[j]@ != id@,
                ensures
                    p <= listed@.len(),
                    forall|j: int| 0 <= j < p ==> listed@[j]@ != id@,
                    p < listed@.len() ==> listed@[p as int]@ == id@,
                decreases listed@.len() - p,
            {
                if listed[p] == *id {
                    break;
                }
                p = p + 1;
            }
            assert(p < listed.len()) by {
                if p == listed.len() {
                    let k = choose|k: int|
                        0 <= k < listed@.len() && #[trigger] strings_view(listed@)[k] == id@;
                    assert(listed@[k]@ == id@);
                }
            }
            proof {
                lemma_first_position(strings_view(listed@), id@, p as int);
            }
            let ghost before = listed@;
            listed.swap_remove(p);
            proof {
                assert(strings_view(listed@) =~= strings_view(before).update(
                    p as int,
                    strings_view(before).last(),
                ).drop_last());
            }
        }
        self.users.set(
            sender.clone(),
            UserInfo {
                shares: user.shares - amount,
                bonded: user.bonded - amount,
                strategies: listed,
            },
        );
        let mut response = Response::new();
        response.add_attribute(text("action"), text("unbond"));
        response.add_attribute(text("sender"), sender.clone());
        response.add_attribute(text("strategy"), id.clone());
        response.add_attribute(text("amount"), to_decimal(amount));
        proof {
            assert(response@.attributes =~= seq![
                ("action"@, "unbond"@),
                ("sender"@, sender@),
                ("strategy"@, id@),
                ("amount"@, crate::decimal::decimal(amount as nat)),
            ]);
        }
        Ok(response)
    }

    /// Records the strategy's confirmation of bond `bond_id` with `share_amount` shares.
    pub fn handle_bond_response(&mut self, share_amount: u128, bond_id: &String) -> (r: Result<
        Response,
        ContractError,
    >)
        requires
            old(self)@.strategies.contains_key(bond_id@),
        ensures
            (final(self)@, result_view(r)) == spec_bond_response(old(self)@, share_amount, bond_id@),
    {
        let mut bond = self.strategies.get(bond_id).unwrap().duplicate();
        bond.amount = share_amount;
        bond.bonded = true;
        self.strategies.set(bond_id.clone(), bond);
        let mut response = Response::new();
        response.add_attribute(text("action"), text("bonded"));
        response.add_attribute(text("shares"), to_decimal(share_amount));
        proof {
            assert(response@.attributes =~= seq![
                ("action"@, "bonded"@),
                ("shares"@, crate::decimal::decimal(share_amount as nat)),
            ]);
        }
        Ok(response)
    }

    /// Records the strategy's confirmation that it started unbonding `share_amount` shares of
    /// bond `unbond_id`: the lock runs from the current block time.
    pub fn handle_start_unbond_response(
        &mut self,
        env: &Env,
        share_amount: u128,
        unbond_id: &String,
    ) -> (r: Result<Response, ContractError>)
        requires
            old(self)@.strategies.contains_key(unbond_id@),
            old(self)@.strategies[unbond_id@].unbond_time + env.block_time <= u64::MAX,
        ensures
            (final(self)@, result_view(r)) == spec_start_unbond_response(
                old(self)@,
                env.block_time,
                share_amount,
                unbond_id@,
            ),
    {
        let mut bond = self.strategies.get(unbond_id).unwrap().duplicate();
        bond.unbond_time = bond.unbond_time + env.block_time;
        bond.unbonded_amount = share_amount;
        bond.unbonded = false;
        self.strategies.set(unbond_id.clone(), bond);
        let mut response = Response::new();
        response.add_attribute(text("action"), text("unbond"));
        response.add_attribute(text("unbond_id"), unbond_id.clone());
        response.add_attribute(text("share amount"), to_decimal(share_amount));
        proof {
            assert(response@.attributes =~= seq![
                ("action"@, "unbond"@),
                ("unbond_id"@, unbond_id@),
                ("share amount"@, crate::decimal::decimal(share_amount as nat)),
            ]);
        }
        Ok(response)
    }

    /// Sends the unbonded tokens of bond `bond_id` to its owner, takes them off the bond and
    /// resets its lock to the strategy's lock period, which is `answers[0]`; while that is
    /// missing, the step asks for it and changes nothing.
    pub fn handle_unbond_response(
        &mut self,
        share_amount: u128,
        bond_id: &String,
        answers: &Vec<StrategyConfigResponse>,
    ) -> (r: Step)
        requires
            !unbond_response_aborts(old(self)@, bond_id@, answers_view(answers@)),
        ensures
            (final(self)@, r@) == spec_unbond_response(old(self)@, bond_id@, answers_view(answers@)),
    {
        let mut bond = match self.strategies.get(bond_id) {
            None => {
                return Step::Done(
                    Err(ContractError::Std(StdError::NotFound { record: Record::BondInfo })),
                );
            },
            Some(b) => b.duplicate(),
        };
        let mut amount: Vec<Coin> = Vec::new();
        amount.push(Coin { denom: bond.denom.clone(), amount: bond.unbonded_amount });
        let mut response = Response::new();
        response.add_message(
            CosmosMsg::Bank(BankMsg::Send { to_address: bond.owner_addr.clone(), amount }),
        );
        if answers.len() == 0 {
            return Step::Query(bond.addr.clone());
        }
        let unbonded = bond.unbonded_amount;
        assert(answers@[0]@ == answers_view(answers@)[0]);
        bond.amount = bond.amount - bond.unbonded_amount;
        bond.unbonded_amount = 0;
        bond.unbond_time = answers[0].config.lock_period;
        self.strategies.set(bond_id.clone(), bond);
        response.add_attribute(text("action"), text("unbonded"));
        response.add_attribute(text("unbond_id"), bond_id.clone());
        response.add_attribute(text("amount"), to_decimal(unbonded));
        proof {
            let b = old(self)@.strategies[bond_id@];
            assert(coins_view(amount@) =~= seq![
                crate::assets::CoinView { denom: b.denom, amount: b.unbonded_amount },
            ]);
            assert(response@.messages =~= spec_unbond_response(
                old(self)@,
                bond_id@,
                answers_view(answers@),
            ).1->Done_0->Ok_0.messages);
            assert(response@.attributes =~= seq![
                ("action"@, "unbonded"@),
                ("unbond_id"@, bond_id@),
                ("amount"@, crate::decimal::decimal(unbonded as nat)),
            ]);
        }
        Step::Done(Ok(response))
    }

    /// Dispatches a strategy's answer.
    pub fn handle_callback(
        &mut self,
        env: &Env,
        msg: &CallbackMsg,
        answers: &Vec<StrategyConfigResponse>,
    ) -> (r: Step)
        requires
            !callback_aborts(old(self)@, env.block_time, *msg, answers_view(answers@)),
        ensures
            (final(self)@, r@) == spec_callback(
                old(self)@,
                env.block_time,
                *msg,
                answers_view(answers@),
            ),
    {
        match msg {
            CallbackMsg::BondResponse { share_amount, bond_id } => Step::Done(
                self.handle_bond_response(*share_amount, bond_id),
            ),
            CallbackMsg::StartUnbondResponse { share_amount, unbond_id } => Step::Done(
                self.handle_start_unbond_response(env, *share_amount, unbond_id),
            ),
            CallbackMsg::UnbondResponse { share_amount, unbond_id } => self.handle_unbond_response(
                *share_amount,
                unbond_id,
                answers,
            ),
        }
    }

    /// Dispatches a message to its handler.
    pub fn execute(
        &mut self,
        env: &Env,
        info: &MessageInfo,
        msg: &ExecuteMsg,
        answers: &Vec<StrategyConfigResponse>,
    ) -> (r: Step)
        requires
            !execute_aborts(
                old(self)@,
                env.block_time,
                info.sender@,
                coins_view(info.funds@),
                *msg,
                answers_view(answers@),
            ),
        ensures
            (final(self)@, r@) == spec_execute(
                old(self)@,
                env.block_time,
                info.sender@,
                coins_view(info.funds@),
                *msg,
                answers_view(answers@),
            ),
            vault_invariant(old(self)@) ==> vault_invariant(final(self)@),
    {
        proof {
            if vault_invariant(self@) {
                execute_keeps_invariant(
                    self@,
                    env.block_time,
                    info.sender@,
                    coins_view(info.funds@),
                    *msg,
                    answers_view(answers@),
                );
            }
        }
        match msg {
            ExecuteMsg::Deposit { assets } => Step::Done(self.deposit(info, assets)),
            ExecuteMsg::Bond {} => self.bond(&info.sender, answers),
            ExecuteMsg::StartUnbond { id, amount } => Step::Done(
                self.start_unbond(&info.sender, id, *amount),
            ),
            ExecuteMsg::Unbond { id } => Step::Done(
                self.unbond(env.block_time, &info.sender, id),
            ),
            ExecuteMsg::Callback { action } => self.handle_callback(env, action, answers),
        }
    }

    /// Whether `execute` on these arguments reaches a point where the contract aborts the
    /// transaction (a panic in the contract's code); `execute` must not be called then.
    pub fn would_abort(
        &self,
        env: &Env,
        info: &MessageInfo,
        msg: &ExecuteMsg,
        answers: &Vec<StrategyConfigResponse>,
    ) -> (r: bool)
        ensures
            r == execute_aborts(
                self@,
                env.block_time,
                info.sender@,
                coins_view(info.funds@),
                *msg,
                answers_view(answers@),
            ),
    {
        match msg {
            ExecuteMsg::Deposit { assets } => {
                if assets.len() != 2 {
                    return false;
                }
                let checked = match &self.config {
                    None => false,
                    Some(config) => info.funds.assert_coins_properly_sent(
                        assets.as_slice(),
                        config.vault_info.asset_infos.as_slice(),
                    ).is_ok(),
                };
                if !checked {
                    return false;
                }
                if info.funds.len() < 2 {
                    return true;
                }
                assert(coins_view(info.funds@)[0] == info.funds@[0]@);
                assert(coins_view(info.funds@)[1] == info.funds@[1]@);
                if info.funds[0].amount != info.funds[1].amount {
                    return false;
                }
                info.funds[0].amount.checked_add(info.funds[1].amount).is_none()
            },
            ExecuteMsg::Bond {} => {
                if self.bond_check(&info.sender).is_err() {
                    return false;
                }
                let n: u128 = match &self.config {
                    Some(config) => config.vault_info.stratgy_infos.len() as u128,
                    None => 0,
                };
                let c0: u128 = match self.counter {
                    Some(c) => c.count as u128,
                    None => 1,
                };
                c0 + n > u64::MAX as u128 && (answers.len() as u128) + c0 > u64::MAX as u128
            },
            ExecuteMsg::StartUnbond { .. } => false,
            ExecuteMsg::Unbond { id } => {
                if self.unbond_check(env.block_time, &info.sender, id).is_err() {
                    return false;
                }
                match (self.users.get(&info.sender), self.strategies.get(id)) {
                    (Some(u), Some(b)) => u.shares < b.unbonded_amount || u.bonded
                        < b.unbonded_amount,
                    _ => false,
                }
            },
            ExecuteMsg::Callback { action } => match action {
                CallbackMsg::BondResponse { bond_id, .. } => !self.strategies.contains(bond_id),
                CallbackMsg::StartUnbondResponse { unbond_id, .. } => match self.strategies.get(
                    unbond_id,
                ) {
                    None => true,
                    Some(b) => (b.unbond_time as u128) + (env.block_time as u128) > u64::MAX as u128,
                },
                CallbackMsg::UnbondResponse { unbond_id, .. } => match self.strategies.get(
                    unbond_id,
                ) {
                    None => false,
                    Some(b) => answers.len() > 0 && b.amount < b.unbonded_amount,
                },
            },
        }
    }

    /// The owner, as the configuration query answers.
    pub fn query_config(&self) -> (r: Result<ConfigResponse, StdError>)
        ensures
            match r {
                Ok(resp) => spec_query_config(self@) == Ok::<Seq<char>, StdErrorView>(resp.owner@),
                Err(e) => spec_query_config(self@) == Err::<Seq<char>, StdErrorView>(e@),
            },
    {
        match &self.config {
            None => Err(StdError::NotFound { record: Record::Config }),
            Some(config) => Ok(ConfigResponse { owner: config.owner.clone() }),
        }
    }

    /// The record of `user_addr`, as the user query answers.
    pub fn query_user(&self, user_addr: &String) -> (r: Result<UserResponse, StdError>)
        ensures
            match r {
                Ok(resp) => spec_query_user(self@, user_addr@) == Ok::<
                    crate::state::UserInfoView,
                    StdErrorView,
                >(
                    crate::state::UserInfoView {
                        shares: resp@.shares,
                        bonded: resp@.bonded,
                        strategies: resp@.strategies,
                    },
                ),
                Err(e) => spec_query_user(self@, user_addr@) == Err::<
                    crate::state::UserInfoView,
                    StdErrorView,
                >(e@),
            },
    {
        match self.users.get(user_addr) {
            None => Err(StdError::NotFound { record: Record::UserInfo }),
            Some(user_info) => Ok(
                UserResponse {
                    shares: user_info.shares,
                    bonded: user_info.bonded,
                    strategies: copy_strings(&user_info.strategies),
                },
            ),
        }
    }

    /// The record of bond `id`, as the bond query answers: its strategy, amount, whether it is
    /// confirmed, and the amount being unbonded.
    pub fn query_bond_info(&self, id: &String) -> (r: Result<BondInfoResponse, StdError>)
        ensures
            match r {
                Ok(resp) => spec_query_bond_info(self@, id@) matches Ok(b) && resp@
                    == (crate::msg::BondInfoResponseView {
                    addr: b.addr,
                    amount: b.amount,
                    bonded: b.bonded,
                    unbonded: b.unbonded_amount,
                }),
                Err(e) => spec_query_bond_info(self@, id@) == Err::<BondInfoView, StdErrorView>(
                    e@,
                ),
            },
    {
        match self.strategies.get(id) {
            None => Err(StdError::NotFound { record: Record::BondInfo }),
            Some(bond_info) => Ok(
                BondInfoResponse {
                    addr: bond_info.addr.clone(),
                    amount: bond_info.amount,
                    bonded: bond_info.bonded,
                    unbonded: bond_info.unbonded_amount,
                },
            ),
        }
    }

    /// Answers a query.
    pub fn query(&self, msg: &QueryMsg) -> (r: Result<QueryResponse, StdError>)
        ensures
            match *msg {
                QueryMsg::Config {} => match r {
                    Ok(QueryResponse::Config(resp)) => spec_query_config(self@) == Ok::<
                        Seq<char>,
                        StdErrorView,
                    >(resp.owner@),
                    Err(e) => spec_query_config(self@) == Err::<Seq<char>, StdErrorView>(e@),
                    _ => false,
                },
                QueryMsg::UserInfo { user } => match r {
                    Ok(QueryResponse::User(resp)) => spec_query_user(self@, user@) == Ok::<
                        crate::state::UserInfoView,
                        StdErrorView,
                    >(
                        crate::state::UserInfoView {
                            shares: resp@.shares,
                            bonded: resp@.bonded,
                            strategies: resp@.strategies,
                        },
                    ),
                    Err(e) => spec_query_user(self@, user@) == Err::<
                        crate::state::UserInfoView,
                        StdErrorView,
                    >(e@),
                    _ => false,
                },
                QueryMsg::BondInfo { id } => match r {
                    Ok(QueryResponse::BondInfo(resp)) => spec_query_bond_info(self@, id@) matches Ok(
                        b,
                    ) && resp@ == (crate::msg::BondInfoResponseView {
                        addr: b.addr,
                        amount: b.amount,
                        bonded: b.bonded,
                        unbonded: b.unbonded_amount,
                    }),
                    Err(e) => spec_query_bond_info(self@, id@) == Err::<BondInfoView, StdErrorView>(
                        e@,
                    ),
                    _ => false,
                },
            },
    {
        match msg {
            QueryMsg::Config {} => match self.query_config() {
                Ok(resp) => Ok(QueryResponse::Config(resp)),
                Err(e) => Err(e),
            },
            QueryMsg::UserInfo { user } => match self.query_user(user) {
                Ok(resp) => Ok(QueryResponse::User(resp)),
                Err(e) => Err(e),
            },
            QueryMsg::BondInfo { id } => match self.query_bond_info(id) {
                Ok(resp) => Ok(QueryResponse::BondInfo(resp)),
                Err(e) => Err(e),
            },
        }
    }
}

} // verus!
