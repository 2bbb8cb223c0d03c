//! A stand-in for a strategy contract, for exercising the vault.
use vstd::prelude::*;
use vstd::string::StringExecFns;

use crate::helpers::{Config, ConfigResponse, StrategyConfigView};

verus! {

/// What instantiating the stand-in takes: nothing.
#[derive(Clone, Copy, Debug, PartialEq, Eq, Structural)]
pub struct MockInstantiateMsg {}

/// The messages that the stand-in accepts, each with an empty answer.
#[derive(Clone, Copy, Debug, PartialEq, Eq, Structural)]
pub enum MockExecuteMsg {
    Bond {},
    StartUnbond {},
    Unbond {},
}

/// The query that the stand-in answers.
#[derive(Clone, Copy, Debug, PartialEq, Eq, Structural)]
pub enum MockQueryMsg {
    Config {},
}

/// The configuration of the first stand-in: a lock of 100 seconds, on "token1".
pub fn mock_config_response() -> (r: ConfigResponse)
    ensures
        r@ == (StrategyConfigView { lock_period: 100, local_denom: "token1"@ }),
{
    ConfigResponse {
        config: Config { lock_period: 100u64, local_denom: String::from_str("token1") },
    }
}

/// The configuration of the second stand-in: a lock of 100 seconds, on "token2".
pub fn mock_config_response2() -> (r: ConfigResponse)
    ensures
        r@ == (StrategyConfigView { lock_period: 100, local_denom: "token2"@ }),
{
    ConfigResponse {
        config: Config { lock_period: 100u64, local_denom: String::from_str("token2") },
    }
}

} // verus!
