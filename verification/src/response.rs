use vstd::prelude::*;

use crate::assets::{coins_view, Coin, CoinView};
use crate::helpers::{ExecuteMsg as StrategyExecuteMsg, StrategyMsgView};

verus! {

/// A key-value pair that a response reports.
#[derive(Clone, Debug, PartialEq, Eq)]
pub struct Attribute {
    pub key: String,
    pub value: String,
}

/// A call into a contract.
#[derive(Clone, Debug, PartialEq, Eq)]
pub enum WasmMsg {
    Execute { contract_addr: String, msg: StrategyExecuteMsg, funds: Vec<Coin> },
}

/// A transfer of native tokens.
#[derive(Clone, Debug, PartialEq, Eq)]
pub enum BankMsg {
    Send { to_address: String, amount: Vec<Coin> },
}

/// A message that the vault dispatches after handling one.
#[derive(Clone, Debug, PartialEq, Eq)]
pub enum CosmosMsg {
    Wasm(WasmMsg),
    Bank(BankMsg),
}

/// The mathematical value of a [`CosmosMsg`].
pub enum MsgView {
    WasmExecute { contract_addr: Seq<char>, msg: StrategyMsgView, funds: Seq<CoinView> },
    BankSend { to_address: Seq<char>, amount: Seq<CoinView> },
}

impl View for CosmosMsg {
    type V = MsgView;

    open spec fn view(&self) -> MsgView {
        match self {
            CosmosMsg::Wasm(WasmMsg::Execute { contract_addr, msg, funds }) => MsgView::WasmExecute {
                contract_addr: contract_addr@,
                msg: msg@,
                funds: coins_view(funds@),
            },
            CosmosMsg::Bank(BankMsg::Send { to_address, amount }) => MsgView::BankSend {
                to_address: to_address@,
                amount: coins_view(amount@),
            },
        }
    }
}

/// What handling a message answers: the messages to dispatch and the attributes to report.
#[derive(Clone, Debug, PartialEq, Eq)]
pub struct Response {
    pub messages: Vec<CosmosMsg>,
    pub attributes: Vec<Attribute>,
}

/// The mathematical value of a [`Response`].
pub struct ResponseView {
    pub messages: Seq<MsgView>,
    pub attributes: Seq<(Seq<char>, Seq<char>)>,
}

impl View for Response {
    type V = ResponseView;

    open spec fn view(&self) -> ResponseView {
        ResponseView {
            messages: self.messages@.map_values(|m: CosmosMsg| m@),
            attributes: self.attributes@.map_values(|a: Attribute| (a.key@, a.value@)),
        }
    }
}

impl Response {
    /// A response with no messages and no attributes.
    pub fn new() -> (r: Response)
        ensures
            r@.messages == Seq::<MsgView>::empty(),
            r@.attributes == Seq::<(Seq<char>, Seq<char>)>::empty(),
    {
        let r = Response { messages: Vec::new(), attributes: Vec::new() };
        assert(r@.messages =~= Seq::<MsgView>::empty());
        assert(r@.attributes =~= Seq::<(Seq<char>, Seq<char>)>::empty());
        r
    }

    /// Appends an attribute.
    pub fn add_attribute(&mut self, key: String, value: String)
        ensures
            final(self)@.messages == old(self)@.messages,
            final(self)@.attributes == old(self)@.attributes.push((key@, value@)),
    {
        self.attributes.push(Attribute { key, value });
        assert(self@.attributes =~= old(self)@.attributes.push((key@, value@)));
        assert(self@.messages =~= old(self)@.messages);
    }

    /// Appends a message.
    pub fn add_message(&mut self, msg: CosmosMsg)
        ensures
            final(self)@.messages == old(self)@.messages.push(msg@),
            final(self)@.attributes == old(self)@.attributes,
    {
        self.messages.push(msg);
        assert(self@.messages =~= old(self)@.messages.push(msg@));
        assert(self@.attributes =~= old(self)@.attributes);
    }
}

} // verus!
