use std::collections::HashMap;

use cw_vault::assets::{Asset, AssetInfo, Coin};
use cw_vault::contract::{Env, MessageInfo, Step};
use cw_vault::decimal::to_decimal;
use cw_vault::error::{ContractError, StdError};
use cw_vault::helpers::check_authorization;
use cw_vault::helpers::ConfigResponse as StrategyConfigResponse;
use cw_vault::msg::{
    BondInfoResponse, CallbackMsg, ExecuteMsg, InstantiateMsg, UserResponse,
};
use cw_vault::response::{BankMsg, CosmosMsg, WasmMsg};
use cw_vault::state::Vault;
use cw_vault::strategy_mock::{mock_config_response, mock_config_response2};

const USER1: &str = "user1";
const OWNER: &str = "owner";
const BOND_ID_1: &str = "1";
const BOND_ID_2: &str = "2";
const TOKEN_AMOUNT: u128 = 1000000u128;
const TOKEN_HALF_AMOUNT: u128 = 500000u128;

/// The block time, in seconds, that a fresh test chain starts at.
const GENESIS_TIME: u64 = 1_571_797_419;

/// A small chain: the vault, two stand-in strategies, a bank and a clock.
struct Chain {
    vault: Vault,
    contract: String,
    strategies: Vec<(String, StrategyConfigResponse)>,
    balances: HashMap<(String, String), u128>,
    time: u64,
}

impl Chain {
    fn balance(&self, addr: &str, denom: &str) -> u128 {
        *self.balances.get(&(addr.to_string(), denom.to_string())).unwrap_or(&0)
    }

    fn mint(&mut self, addr: &str, denom: &str, amount: u128) {
        let b = self.balance(addr, denom);
        self.balances.insert((addr.to_string(), denom.to_string()), b + amount);
    }

    fn transfer(&mut self, from: &str, to: &str, coins: &[Coin]) -> Result<(), String> {
        for c in coins {
            if self.balance(from, &c.denom) < c.amount {
                return Err(format!("{} cannot send {} {}", from, c.amount, c.denom));
            }
        }
        for c in coins {
            let b = self.balance(from, &c.denom);
            self.balances.insert((from.to_string(), c.denom.clone()), b - c.amount);
            self.mint(to, &c.denom, c.amount);
        }
        Ok(())
    }

    fn env(&self) -> Env {
        Env { block_time: self.time, contract_address: self.contract.clone() }
    }

    fn strategy_config(&self, addr: &str) -> StrategyConfigResponse {
        for (a, c) in &self.strategies {
            if a == addr {
                return c.clone();
            }
        }
        panic!("no strategy at {}", addr)
    }

    /// Sends `msg` from `sender` with `funds`, as a transaction: the funds move first, the
    /// vault's answer is carried out after.
    fn execute(&mut self, sender: &str, msg: &ExecuteMsg, funds: &[Coin]) -> Result<(), String> {
        let contract = self.contract.clone();
        self.transfer(sender, &contract, funds)?;
        let info = MessageInfo { sender: sender.to_string(), funds: funds.to_vec() };
        let env = self.env();
        let mut answers: Vec<StrategyConfigResponse> = Vec::new();
        let response = loop {
            assert!(!self.vault.would_abort(&env, &info, msg, &answers));
            match self.vault.execute(&env, &info, msg, &answers) {
                Step::Query(addr) => answers.push(self.strategy_config(&addr)),
                Step::Done(Ok(response)) => break response,
                Step::Done(Err(e)) => {
                    let contract = self.contract.clone();
                    self.transfer(&contract, sender, funds).unwrap();
                    return Err(format!("{:?}", e));
                },
            }
        };
        for m in &response.messages {
            match m {
                CosmosMsg::Wasm(WasmMsg::Execute { contract_addr, funds, .. }) => {
                    self.transfer(&contract, contract_addr, funds).unwrap()
                },
                CosmosMsg::Bank(BankMsg::Send { to_address, amount }) => {
                    self.transfer(&contract, to_address, amount).unwrap()
                },
            }
        }
        Ok(())
    }

    fn bond_info(&self, id: &str) -> BondInfoResponse {
        self.vault.query_bond_info(&id.to_string()).unwrap()
    }

    fn user(&self, addr: &str) -> UserResponse {
        self.vault.query_user(&addr.to_string()).unwrap()
    }

    fn update_time(&mut self, seconds: u64) {
        self.time += seconds;
    }
}

fn create_strategies() -> (String, String) {
    ("contract0".to_string(), "contract1".to_string())
}

fn create_bond_contract(
    owner: String,
    asset1: String,
    asset2: String,
    strategy1: String,
    strategy2: String,
) -> Chain {
    let mut chain = Chain {
        vault: Vault::new(),
        contract: "contract2".to_string(),
        strategies: vec![
            (strategy1.clone(), mock_config_response()),
            (strategy2.clone(), mock_config_response2()),
        ],
        balances: HashMap::new(),
        time: GENESIS_TIME,
    };
    let instantiate_msg = InstantiateMsg {
        owner: owner.clone(),
        asset_infos: vec![
            AssetInfo::NativeToken { denom: asset1.to_string() },
            AssetInfo::NativeToken { denom: asset2.to_string() },
        ],
        strategy_infos: vec![strategy1, strategy2],
    };
    let env = chain.env();
    chain.vault.instantiate(&env, &instantiate_msg, Ok(owner)).unwrap();
    chain
}

fn create_correct_deposit_msg(
    asset1: String,
    asset2: String,
    amount_asset1: u128,
    amount_asset2: u128,
) -> (ExecuteMsg, [Coin; 2]) {
    let msg = ExecuteMsg::Deposit {
        assets: vec![
            Asset { info: AssetInfo::NativeToken { denom: asset1.clone() }, amount: amount_asset1 },
            Asset { info: AssetInfo::NativeToken { denom: asset2.clone() }, amount: amount_asset2 },
        ],
    };
    let coins = [
        Coin { denom: asset1.clone(), amount: amount_asset1 },
        Coin { denom: asset2.clone(), amount: amount_asset2 },
    ];
    (msg, coins)
}

fn bond_callback(share_amount: u128, bond_id: &str) -> ExecuteMsg {
    ExecuteMsg::Callback {
        action: CallbackMsg::BondResponse { share_amount, bond_id: bond_id.to_string() },
    }
}

fn start_unbond_callback(share_amount: u128, unbond_id: &str) -> ExecuteMsg {
    ExecuteMsg::Callback {
        action: CallbackMsg::StartUnbondResponse { share_amount, unbond_id: unbond_id.to_string() },
    }
}

fn unbond_callback(share_amount: u128, unbond_id: &str) -> ExecuteMsg {
    ExecuteMsg::Callback {
        action: CallbackMsg::UnbondResponse { share_amount, unbond_id: unbond_id.to_string() },
    }
}

fn start_unbond(id: &str, amount: u128) -> ExecuteMsg {
    ExecuteMsg::StartUnbond { id: id.to_string(), amount }
}

fn unbond(id: &str) -> ExecuteMsg {
    ExecuteMsg::Unbond { id: id.to_string() }
}

/// A chain where user1 deposited and bonded, and both strategies confirmed their bonds.
fn bonded_chain() -> (Chain, String, String) {
    let (strategy1_addr, strategy2_addr) = create_strategies();
    let mut app = create_bond_contract(
        OWNER.to_owned(),
        "token1".to_owned(),
        "token2".to_owned(),
        strategy1_addr.clone(),
        strategy2_addr.clone(),
    );
    app.mint(USER1, "token1", TOKEN_AMOUNT);
    app.mint(USER1, "token2", TOKEN_AMOUNT);
    let (msg, coins) = create_correct_deposit_msg(
        "token1".to_string(),
        "token2".to_string(),
        TOKEN_AMOUNT,
        TOKEN_AMOUNT,
    );
    assert!(app.execute(USER1, &msg, &coins).is_ok());
    assert!(app.execute(USER1, &ExecuteMsg::Bond {}, &[]).is_ok());
    assert!(app.execute(&strategy1_addr, &bond_callback(TOKEN_AMOUNT, BOND_ID_1), &[]).is_ok());
    assert!(app.execute(&strategy2_addr, &bond_callback(TOKEN_AMOUNT, BOND_ID_2), &[]).is_ok());
    (app, strategy1_addr, strategy2_addr)
}

#[test]
fn happy_path_test() {
    let (mut app, strategy1_addr, strategy2_addr) = bonded_chain();
    let contract_addr = app.contract.clone();

    assert!(app.execute(USER1, &start_unbond(BOND_ID_1, TOKEN_AMOUNT), &[]).is_ok());
    assert!(app.execute(USER1, &start_unbond(BOND_ID_2, TOKEN_AMOUNT), &[]).is_ok());

    let _ = app.execute(&strategy1_addr, &start_unbond_callback(TOKEN_AMOUNT, BOND_ID_1), &[]);
    assert_eq!(app.bond_info(BOND_ID_1).unbonded, TOKEN_AMOUNT);
    let _ = app.execute(&strategy2_addr, &start_unbond_callback(TOKEN_AMOUNT, BOND_ID_2), &[]);
    assert_eq!(app.bond_info(BOND_ID_1).unbonded, TOKEN_AMOUNT);

    app.update_time(101);

    assert!(app.execute(USER1, &unbond(BOND_ID_1), &[]).is_ok());
    assert!(app.execute(USER1, &unbond(BOND_ID_2), &[]).is_ok());

    app.mint(&contract_addr, "token1", TOKEN_AMOUNT);
    assert!(app.execute(&strategy1_addr, &unbond_callback(TOKEN_AMOUNT, BOND_ID_1), &[]).is_ok());
    app.mint(&contract_addr, "token2", TOKEN_AMOUNT);
    assert!(app.execute(&strategy2_addr, &unbond_callback(TOKEN_AMOUNT, BOND_ID_2), &[]).is_ok());

    let query_user_info = app.user(USER1);
    assert_eq!(query_user_info.strategies.len(), 0);
    assert_eq!(query_user_info.shares, 0u128);
    assert_eq!(query_user_info.bonded, 0u128);

    assert_eq!(app.balance(USER1, "token1"), TOKEN_AMOUNT);
    assert_eq!(app.balance(USER1, "token2"), TOKEN_AMOUNT);
}

#[test]
fn unbond_in_parts_happy_path_test() {
    let (mut app, strategy1_addr, strategy2_addr) = bonded_chain();
    let contract_addr = app.contract.clone();

    assert!(app.execute(USER1, &start_unbond(BOND_ID_1, TOKEN_HALF_AMOUNT), &[]).is_ok());
    assert!(app.execute(USER1, &start_unbond(BOND_ID_2, TOKEN_HALF_AMOUNT), &[]).is_ok());

    let _ = app.execute(&strategy1_addr, &start_unbond_callback(TOKEN_HALF_AMOUNT, BOND_ID_1), &[]);
    assert_eq!(app.bond_info(BOND_ID_1).unbonded, TOKEN_HALF_AMOUNT);
    let _ = app.execute(&strategy2_addr, &start_unbond_callback(TOKEN_HALF_AMOUNT, BOND_ID_2), &[]);
    assert_eq!(app.bond_info(BOND_ID_1).unbonded, TOKEN_HALF_AMOUNT);

    app.update_time(101);

    assert!(app.execute(USER1, &unbond(BOND_ID_1), &[]).is_ok());
    assert!(app.execute(USER1, &unbond(BOND_ID_2), &[]).is_ok());

    app.mint(&contract_addr, "token1", 1000000);
    assert!(app.execute(&strategy1_addr, &unbond_callback(TOKEN_AMOUNT, BOND_ID_1), &[]).is_ok());
    app.mint(&contract_addr, "token2", 1000000);
    assert!(app.execute(&strategy2_addr, &unbond_callback(TOKEN_AMOUNT, BOND_ID_2), &[]).is_ok());

    assert_eq!(app.user(USER1).strategies.len(), 2);
    assert_eq!(app.balance(USER1, "token1"), TOKEN_HALF_AMOUNT);
    assert_eq!(app.balance(USER1, "token2"), TOKEN_HALF_AMOUNT);

    assert!(app.execute(USER1, &start_unbond(BOND_ID_1, TOKEN_HALF_AMOUNT), &[]).is_ok());
    assert!(app.execute(USER1, &start_unbond(BOND_ID_2, TOKEN_HALF_AMOUNT), &[]).is_ok());

    let _ = app.execute(&strategy1_addr, &start_unbond_callback(TOKEN_HALF_AMOUNT, BOND_ID_1), &[]);
    assert_eq!(app.bond_info(BOND_ID_1).unbonded, TOKEN_HALF_AMOUNT);
    let _ = app.execute(&strategy2_addr, &start_unbond_callback(TOKEN_HALF_AMOUNT, BOND_ID_2), &[]);
    assert_eq!(app.bond_info(BOND_ID_1).unbonded, TOKEN_HALF_AMOUNT);

    app.update_time(102);

    assert!(app.execute(USER1, &unbond(BOND_ID_1), &[]).is_ok());
    assert!(app.execute(USER1, &unbond(BOND_ID_2), &[]).is_ok());

    assert!(app.execute(&strategy1_addr, &unbond_callback(TOKEN_AMOUNT, BOND_ID_1), &[]).is_ok());
    assert!(app.execute(&strategy2_addr, &unbond_callback(TOKEN_AMOUNT, BOND_ID_2), &[]).is_ok());

    let query_user_info = app.user(USER1);
    assert_eq!(query_user_info.strategies.len(), 0);
    assert_eq!(query_user_info.shares, 0u128);
    assert_eq!(query_user_info.bonded, 0u128);

    assert_eq!(app.balance(USER1, "token1"), TOKEN_AMOUNT);
    assert_eq!(app.balance(USER1, "token2"), TOKEN_AMOUNT);
}

#[test]
fn start_unbond_in_parts_befor_async_complete_first_should_fail_test() {
    let (mut app, strategy1_addr, strategy2_addr) = bonded_chain();

    assert!(app.execute(USER1, &start_unbond(BOND_ID_1, TOKEN_HALF_AMOUNT), &[]).is_ok());
    assert!(app.execute(USER1, &start_unbond(BOND_ID_2, TOKEN_HALF_AMOUNT), &[]).is_ok());

    let _ = app.execute(&strategy1_addr, &start_unbond_callback(TOKEN_HALF_AMOUNT, BOND_ID_1), &[]);
    assert_eq!(app.bond_info(BOND_ID_1).unbonded, TOKEN_HALF_AMOUNT);
    let _ = app.execute(&strategy2_addr, &start_unbond_callback(TOKEN_HALF_AMOUNT, BOND_ID_2), &[]);
    assert_eq!(app.bond_info(BOND_ID_1).unbonded, TOKEN_HALF_AMOUNT);

    assert!(app.execute(USER1, &start_unbond(BOND_ID_1, TOKEN_HALF_AMOUNT), &[]).is_err());
    assert!(app.execute(USER1, &start_unbond(BOND_ID_2, TOKEN_HALF_AMOUNT), &[]).is_err());
}

#[test]
fn multiple_start_unbond_before_receiving_callback_should_fail() {
    let (mut app, _strategy1_addr, _strategy2_addr) = bonded_chain();

    assert!(app.execute(USER1, &start_unbond(BOND_ID_1, TOKEN_HALF_AMOUNT), &[]).is_ok());
    assert!(app.execute(USER1, &start_unbond(BOND_ID_2, TOKEN_HALF_AMOUNT), &[]).is_ok());

    assert!(app.execute(USER1, &start_unbond(BOND_ID_1, TOKEN_HALF_AMOUNT), &[]).is_err());
    assert!(app.execute(USER1, &start_unbond(BOND_ID_2, TOKEN_HALF_AMOUNT), &[]).is_err());
}

#[test]
fn unbond_before_receiving_start_unbond_callback_should_fail() {
    let (mut app, _strategy1_addr, _strategy2_addr) = bonded_chain();

    assert!(app.execute(USER1, &start_unbond(BOND_ID_1, TOKEN_HALF_AMOUNT), &[]).is_ok());
    assert!(app.execute(USER1, &start_unbond(BOND_ID_2, TOKEN_HALF_AMOUNT), &[]).is_ok());

    assert!(app.execute(USER1, &unbond(BOND_ID_1), &[]).is_err());
    assert!(app.execute(USER1, &unbond(BOND_ID_2), &[]).is_err());
}

#[test]
fn deposit_bad_ratio_test() {
    let (strategy1_addr, strategy2_addr) = create_strategies();
    let mut app = create_bond_contract(
        OWNER.to_owned(),
        "token1".to_owned(),
        "token2".to_owned(),
        strategy1_addr,
        strategy2_addr,
    );
    app.mint(USER1, "token1", TOKEN_AMOUNT);
    app.mint(USER1, "token2", TOKEN_AMOUNT);
    let (msg, coins) = create_correct_deposit_msg(
        "token1".to_string(),
        "token2".to_string(),
        TOKEN_AMOUNT,
        2000000u128,
    );
    assert!(app.execute(USER1, &msg, &coins).is_err());
}

#[test]
fn deposit_bad_token_test() {
    let (strategy1_addr, strategy2_addr) = create_strategies();
    let mut app = create_bond_contract(
        OWNER.to_owned(),
        "token1".to_owned(),
        "token2".to_owned(),
        strategy1_addr,
        strategy2_addr,
    );
    app.mint(USER1, "token1", TOKEN_AMOUNT);
    app.mint(USER1, "token3", TOKEN_AMOUNT);
    let (msg, coins) = create_correct_deposit_msg(
        "token1".to_string(),
        "token3".to_string(),
        TOKEN_AMOUNT,
        TOKEN_AMOUNT,
    );
    assert!(app.execute(USER1, &msg, &coins).is_err());
}

#[test]
fn unbond_before_lock_time_pass_should_fail_test() {
    let (mut app, strategy1_addr, strategy2_addr) = bonded_chain();

    assert!(app.execute(USER1, &start_unbond(BOND_ID_1, TOKEN_AMOUNT), &[]).is_ok());
    assert!(app.execute(USER1, &start_unbond(BOND_ID_2, TOKEN_AMOUNT), &[]).is_ok());

    let _ = app.execute(&strategy1_addr, &start_unbond_callback(TOKEN_AMOUNT, BOND_ID_1), &[]);
    assert_eq!(app.bond_info(BOND_ID_1).unbonded, TOKEN_AMOUNT);
    let _ = app.execute(&strategy2_addr, &start_unbond_callback(TOKEN_AMOUNT, BOND_ID_2), &[]);
    assert_eq!(app.bond_info(BOND_ID_1).unbonded, TOKEN_AMOUNT);

    assert!(app.execute(USER1, &unbond(BOND_ID_1), &[]).is_err());
}

#[test]
fn unbond_wrong_bond_id_should_fail_test() {
    let (mut app, _strategy1_addr, _strategy2_addr) = bonded_chain();
    assert!(app.execute(USER1, &start_unbond("3", TOKEN_HALF_AMOUNT), &[]).is_err());
}

// ------------------------------------------------------------------ further scenarios

#[test]
fn deposit_records_shares_and_reports_them() {
    let (strategy1_addr, strategy2_addr) = create_strategies();
    let mut app = create_bond_contract(
        OWNER.to_owned(),
        "token1".to_owned(),
        "token2".to_owned(),
        strategy1_addr,
        strategy2_addr,
    );
    let (msg, coins) = create_correct_deposit_msg("token1".into(), "token2".into(), 7, 7);
    let info = MessageInfo { sender: USER1.to_string(), funds: coins.to_vec() };
    let assets = match &msg {
        ExecuteMsg::Deposit { assets } => assets.clone(),
        _ => unreachable!(),
    };
    let response = app.vault.deposit(&info, &assets).unwrap();
    assert!(response.messages.is_empty());
    let attrs: Vec<(String, String)> =
        response.attributes.iter().map(|a| (a.key.clone(), a.value.clone())).collect();
    assert_eq!(
        attrs,
        vec![
            ("action".to_string(), "deposit".to_string()),
            ("sender".to_string(), USER1.to_string()),
            ("shares".to_string(), "14".to_string()),
        ]
    );
    let user = app.user(USER1);
    assert_eq!(user.shares, 14);
    assert_eq!(user.bonded, 0);
    assert!(user.strategies.is_empty());
}

#[test]
fn bond_creates_one_bond_per_strategy() {
    let (app, strategy1_addr, strategy2_addr) = bonded_chain();
    let user = app.user(USER1);
    assert_eq!(user.shares, 2 * TOKEN_AMOUNT);
    assert_eq!(user.bonded, 2 * TOKEN_AMOUNT);
    assert_eq!(user.strategies, vec!["1".to_string(), "2".to_string()]);
    let b1 = app.bond_info(BOND_ID_1);
    assert_eq!(b1.addr, strategy1_addr);
    assert_eq!(b1.amount, TOKEN_AMOUNT);
    assert!(b1.bonded);
    assert_eq!(b1.unbonded, 0);
    let b2 = app.bond_info(BOND_ID_2);
    assert_eq!(b2.addr, strategy2_addr);
    assert_eq!(app.balance(&strategy1_addr, "token1"), TOKEN_AMOUNT);
    assert_eq!(app.balance(&strategy2_addr, "token2"), TOKEN_AMOUNT);
}

#[test]
fn bond_messages_and_ids() {
    let (strategy1_addr, strategy2_addr) = create_strategies();
    let mut app = create_bond_contract(
        OWNER.to_owned(),
        "token1".to_owned(),
        "token2".to_owned(),
        strategy1_addr.clone(),
        strategy2_addr.clone(),
    );
    app.mint(USER1, "token1", 10);
    app.mint(USER1, "token2", 10);
    let (msg, coins) = create_correct_deposit_msg("token1".into(), "token2".into(), 10, 10);
    assert!(app.execute(USER1, &msg, &coins).is_ok());
    let sender = USER1.to_string();
    let first = app.vault.bond(&sender, &vec![]);
    assert_eq!(first, Step::Query(strategy1_addr.clone()));
    let second = app.vault.bond(&sender, &vec![mock_config_response()]);
    assert_eq!(second, Step::Query(strategy2_addr.clone()));
    let done = app.vault.bond(&sender, &vec![mock_config_response(), mock_config_response2()]);
    let response = match done {
        Step::Done(Ok(r)) => r,
        other => panic!("unexpected {:?}", other),
    };
    assert_eq!(response.messages.len(), 2);
    match &response.messages[0] {
        CosmosMsg::Wasm(WasmMsg::Execute { contract_addr, msg, funds }) => {
            assert_eq!(contract_addr, &strategy1_addr);
            assert_eq!(msg, &cw_vault::helpers::ExecuteMsg::Bond { id: "1".to_string() });
            assert_eq!(funds, &vec![Coin { denom: "token1".to_string(), amount: 10 }]);
        },
        other => panic!("unexpected {:?}", other),
    }
    let attrs: Vec<(String, String)> =
        response.attributes.iter().map(|a| (a.key.clone(), a.value.clone())).collect();
    assert_eq!(
        attrs,
        vec![
            ("action".to_string(), "bond".to_string()),
            ("strategy".to_string(), "1".to_string()),
            ("strategy".to_string(), "2".to_string()),
        ]
    );
    // A second bond with nothing left to bond still creates bonds, under the next ids.
    let again = app.vault.bond(&sender, &vec![mock_config_response(), mock_config_response2()]);
    assert!(matches!(again, Step::Done(Ok(_))));
    assert_eq!(
        app.user(USER1).strategies,
        vec!["1".to_string(), "2".to_string(), "3".to_string(), "4".to_string()]
    );
    assert_eq!(app.bond_info("3").amount, 0);
}

#[test]
fn errors_of_each_kind() {
    let (mut app, strategy1_addr, _) = bonded_chain();
    let sender = USER1.to_string();
    // Unknown user.
    assert_eq!(
        app.vault.start_unbond(&"nobody".to_string(), &BOND_ID_1.to_string(), 1),
        Err(ContractError::Std(StdError::NotFound {
            record: cw_vault::error::Record::UserInfo
        }))
    );
    // Zero amount.
    assert_eq!(
        app.vault.start_unbond(&sender, &BOND_ID_1.to_string(), 0),
        Err(ContractError::BadAmount {})
    );
    // More than the bond holds.
    assert_eq!(
        app.vault.start_unbond(&sender, &BOND_ID_1.to_string(), TOKEN_AMOUNT + 1),
        Err(ContractError::BadAmount {})
    );
    // Not the user's bond.
    assert_eq!(
        app.vault.start_unbond(&sender, &"9".to_string(), 1),
        Err(ContractError::Unauthorized {})
    );
    // Unbond before the lock has run out.
    assert!(app.execute(USER1, &start_unbond(BOND_ID_1, 5), &[]).is_ok());
    assert!(app.execute(&strategy1_addr, &start_unbond_callback(5, BOND_ID_1), &[]).is_ok());
    assert_eq!(
        app.vault.unbond(app.time, &sender, &BOND_ID_1.to_string()),
        Err(ContractError::BondTime {})
    );
    // Already unbonding.
    assert_eq!(
        app.vault.start_unbond(&sender, &BOND_ID_1.to_string(), 1),
        Err(ContractError::Unbonded {})
    );
    // Bond response for an unknown id aborts.
    let msg = bond_callback(1, "77");
    let info = MessageInfo { sender: strategy1_addr.clone(), funds: vec![] };
    assert!(app.vault.would_abort(&app.env(), &info, &msg, &vec![]));
}

#[test]
fn not_bonded_before_bond_callback() {
    let (strategy1_addr, strategy2_addr) = create_strategies();
    let mut app = create_bond_contract(
        OWNER.to_owned(),
        "token1".to_owned(),
        "token2".to_owned(),
        strategy1_addr,
        strategy2_addr,
    );
    app.mint(USER1, "token1", 4);
    app.mint(USER1, "token2", 4);
    let (msg, coins) = create_correct_deposit_msg("token1".into(), "token2".into(), 4, 4);
    assert!(app.execute(USER1, &msg, &coins).is_ok());
    assert!(app.execute(USER1, &ExecuteMsg::Bond {}, &[]).is_ok());
    assert_eq!(
        app.vault.start_unbond(&USER1.to_string(), &BOND_ID_1.to_string(), 1),
        Err(ContractError::Notbonded {})
    );
}

#[test]
fn deposit_errors() {
    let (strategy1_addr, strategy2_addr) = create_strategies();
    let mut app = create_bond_contract(
        OWNER.to_owned(),
        "token1".to_owned(),
        "token2".to_owned(),
        strategy1_addr,
        strategy2_addr,
    );
    let sender = USER1.to_string();
    let native = |d: &str, a: u128| Asset { info: AssetInfo::NativeToken { denom: d.to_string() }, amount: a };
    let coin = |d: &str, a: u128| Coin { denom: d.to_string(), amount: a };
    // Wrong number of assets.
    let info = MessageInfo { sender: sender.clone(), funds: vec![] };
    assert_eq!(
        app.vault.deposit(&info, &vec![native("token1", 1)]),
        Err(ContractError::Std(StdError::AssetCount {}))
    );
    // Unsupported asset.
    let info = MessageInfo { sender: sender.clone(), funds: vec![coin("token1", 1), coin("token3", 1)] };
    assert_eq!(
        app.vault.deposit(&info, &vec![native("token1", 1), native("token3", 1)]),
        Err(ContractError::Std(StdError::UnsupportedAsset { denom: "token3".to_string() }))
    );
    // A coin that no asset declares.
    let info = MessageInfo { sender: sender.clone(), funds: vec![coin("token1", 1), coin("token2", 1)] };
    let assets = vec![
        native("token1", 1),
        Asset { info: AssetInfo::Token { contract_addr: "cw20".to_string() }, amount: 1 },
    ];
    assert_eq!(
        app.vault.deposit(&info, &assets),
        Err(ContractError::Std(StdError::UnexpectedCoin { denom: "token2".to_string() }))
    );
    // A coin sent with another amount than declared.
    let info = MessageInfo { sender: sender.clone(), funds: vec![coin("token1", 2), coin("token2", 1)] };
    assert_eq!(
        app.vault.deposit(&info, &vec![native("token1", 1), native("token2", 1)]),
        Err(ContractError::Std(StdError::BalanceMismatch {}))
    );
    // A later declaration of the same denomination wins.
    let info = MessageInfo { sender: sender.clone(), funds: vec![coin("token1", 2), coin("token1", 2)] };
    assert!(app.vault.deposit(&info, &vec![native("token1", 1), native("token1", 2)]).is_ok());
    // Not 1:1.
    let info = MessageInfo { sender: sender.clone(), funds: vec![coin("token1", 2), coin("token2", 1)] };
    assert_eq!(
        app.vault.deposit(&info, &vec![native("token1", 2), native("token2", 1)]),
        Err(ContractError::Std(StdError::BadRatio {}))
    );
    // Fewer than two coins after the checks pass: the contract aborts.
    let info = MessageInfo { sender: sender.clone(), funds: vec![coin("token1", 2)] };
    let msg = ExecuteMsg::Deposit { assets: vec![native("token1", 2), native("token2", 2)] };
    assert!(app.vault.would_abort(&app.env(), &info, &msg, &vec![]));
}

#[test]
fn instantiate_errors() {
    let env = Env { block_time: GENESIS_TIME, contract_address: "contract2".to_string() };
    let same = InstantiateMsg {
        owner: OWNER.to_string(),
        asset_infos: vec![
            AssetInfo::NativeToken { denom: "a".to_string() },
            AssetInfo::NativeToken { denom: "a".to_string() },
        ],
        strategy_infos: vec![],
    };
    let mut vault = Vault::new();
    assert_eq!(vault.instantiate(&env, &same, Ok(OWNER.to_string())), Err(ContractError::DoublingAssets {}));
    let one = InstantiateMsg { asset_infos: vec![AssetInfo::NativeToken { denom: "a".to_string() }], ..same.clone() };
    assert_eq!(
        vault.instantiate(&env, &one, Ok(OWNER.to_string())),
        Err(ContractError::Std(StdError::AssetCount {}))
    );
    assert!(vault.query_config().is_err());
    let good = InstantiateMsg {
        asset_infos: vec![
            AssetInfo::NativeToken { denom: "a".to_string() },
            AssetInfo::Token { contract_addr: "a".to_string() },
        ],
        ..same
    };
    assert!(vault.instantiate(&env, &good, Ok(OWNER.to_string())).is_ok());
    assert_eq!(vault.query_config().unwrap().owner, OWNER.to_string());
}

#[test]
fn unbond_response_sends_tokens_and_resets_lock() {
    let (mut app, strategy1_addr, _) = bonded_chain();
    assert!(app.execute(USER1, &start_unbond(BOND_ID_1, 300), &[]).is_ok());
    assert!(app.execute(&strategy1_addr, &start_unbond_callback(300, BOND_ID_1), &[]).is_ok());
    app.update_time(100);
    assert!(app.execute(USER1, &unbond(BOND_ID_1), &[]).is_ok());
    let user = app.user(USER1);
    assert_eq!(user.shares, 2 * TOKEN_AMOUNT - 300);
    assert_eq!(user.bonded, 2 * TOKEN_AMOUNT - 300);
    assert_eq!(user.strategies.len(), 2);
    let contract = app.contract.clone();
    app.mint(&contract, "token1", 300);
    let step = app.vault.handle_unbond_response(0, &BOND_ID_1.to_string(), &vec![]);
    assert_eq!(step, Step::Query(strategy1_addr.clone()));
    let step = app.vault.handle_unbond_response(0, &BOND_ID_1.to_string(), &vec![mock_config_response()]);
    let response = match step {
        Step::Done(Ok(r)) => r,
        other => panic!("unexpected {:?}", other),
    };
    assert_eq!(
        response.messages,
        vec![CosmosMsg::Bank(BankMsg::Send {
            to_address: USER1.to_string(),
            amount: vec![Coin { denom: "token1".to_string(), amount: 300 }],
        })]
    );
    let b = app.bond_info(BOND_ID_1);
    assert_eq!(b.amount, TOKEN_AMOUNT - 300);
    assert_eq!(b.unbonded, 0);
}

#[test]
fn decimal_rendering() {
    assert_eq!(to_decimal(0), "0");
    assert_eq!(to_decimal(7), "7");
    assert_eq!(to_decimal(10), "10");
    assert_eq!(to_decimal(1000000), "1000000");
    assert_eq!(to_decimal(u128::MAX), u128::MAX.to_string());
}

#[test]
fn check_authorization_cases() {
    assert_eq!(check_authorization(vec!["1".to_string(), "2".to_string()], "2".to_string()), Ok(()));
    assert_eq!(
        check_authorization(vec!["1".to_string()], "3".to_string()),
        Err(ContractError::Unauthorized {})
    );
    assert_eq!(check_authorization(vec![], "1".to_string()), Err(ContractError::Unauthorized {}));
}

#[test]
fn refused_message_changes_nothing() {
    let (mut app, _, _) = bonded_chain();
    let before_user = app.user(USER1);
    let before_bond = app.bond_info(BOND_ID_1);
    assert!(app.execute(USER1, &start_unbond("3", 5), &[]).is_err());
    assert!(app.execute(USER1, &start_unbond(BOND_ID_1, TOKEN_AMOUNT + 1), &[]).is_err());
    let after_user = app.user(USER1);
    assert_eq!(after_user, before_user);
    assert_eq!(app.bond_info(BOND_ID_1), before_bond);
    assert!(after_user.bonded <= after_user.shares);
}

#[test]
fn deposit_unequal_amounts_that_overflow_is_refused_for_ratio() {
    let (strategy1_addr, strategy2_addr) = create_strategies();
    let mut app = create_bond_contract(
        OWNER.to_owned(),
        "token1".to_owned(),
        "token2".to_owned(),
        strategy1_addr,
        strategy2_addr,
    );
    let (msg, coins) = create_correct_deposit_msg("token1".into(), "token2".into(), u128::MAX, 1);
    let info = MessageInfo { sender: USER1.to_string(), funds: coins.to_vec() };
    assert!(!app.vault.would_abort(&app.env(), &info, &msg, &vec![]));
    let assets = match &msg {
        ExecuteMsg::Deposit { assets } => assets.clone(),
        _ => unreachable!(),
    };
    assert_eq!(
        app.vault.deposit(&info, &assets),
        Err(ContractError::Std(StdError::BadRatio {}))
    );
    // Equal amounts whose shares overflow make the contract abort.
    let (msg, coins) =
        create_correct_deposit_msg("token1".into(), "token2".into(), u128::MAX, u128::MAX);
    let info = MessageInfo { sender: USER1.to_string(), funds: coins.to_vec() };
    assert!(app.vault.would_abort(&app.env(), &info, &msg, &vec![]));
}
