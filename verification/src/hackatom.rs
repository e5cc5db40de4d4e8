//! An escrow: funds that the contract holds are released to a beneficiary
//! when the verifier named at initialisation says so.

use vstd::prelude::*;
use crate::coin::{coins_model, Coin, CoinModel};
use crate::error::ContractError;

verus! {

/// Names the parties at initialisation.
#[derive(Debug, PartialEq, Eq)]
pub struct InitMsg {
    pub verifier: String,
    pub beneficiary: String,
}

/// What the escrow keeps: the parties.
#[derive(Debug, PartialEq, Eq)]
pub struct State {
    pub verifier: String,
    pub beneficiary: String,
    pub funder: String,
}

/// The command to release the funds. It has no parameter.
#[derive(Debug, PartialEq, Eq)]
pub struct HandleMsg {}

/// A query for what is stored under a key.
#[derive(Debug, PartialEq, Eq)]
pub struct RawQuery {
    pub key: String,
}

/// A query.
#[derive(Debug, PartialEq, Eq)]
pub enum QueryMsg {
    Raw(RawQuery),
}

/// The contract as the host sees it.
#[derive(Debug)]
pub struct ContractInfo {
    pub address: String,
    pub balance: Option<Vec<Coin>>,
}

/// Who signed the invocation, and the coins sent with it.
#[derive(Debug)]
pub struct MessageInfo {
    pub signer: String,
    pub sent_funds: Option<Vec<Coin>>,
}

/// What the host tells the contract about an invocation.
#[derive(Debug)]
pub struct Params {
    pub contract: ContractInfo,
    pub message: MessageInfo,
}

/// A request to the host.
#[derive(Debug, PartialEq, Eq)]
pub enum CosmosMsg {
    /// Move `amount` from one address to another.
    Send { from_address: String, to_address: String, amount: Vec<Coin> },
}

/// Answer to an initialisation or a command.
#[derive(Debug, PartialEq, Eq)]
pub struct Response {
    pub messages: Vec<CosmosMsg>,
    pub log: Option<String>,
    pub data: Option<Vec<u8>>,
}

/// The coins of a balance, none where the host reports no balance.
pub open spec fn balance_model(balance: Option<Vec<Coin>>) -> Seq<CoinModel> {
    match balance {
        Some(coins) => coins_model(coins@),
        None => Seq::empty(),
    }
}

/// `response` asks for nothing and reports nothing.
pub open spec fn is_empty_response(response: Response) -> bool {
    &&& response.messages@.len() == 0
    &&& response.log is None
    &&& response.data is None
}

/// `response` releases the whole balance of the contract to `beneficiary`.
pub open spec fn releases(response: Response, contract: ContractInfo, beneficiary: Seq<char>) -> bool {
    &&& response.messages@.len() == 1
    &&& response.messages@[0] matches CosmosMsg::Send { from_address, to_address, amount }
        && from_address@ == contract.address@ && to_address@ == beneficiary && coins_model(amount@)
        == balance_model(contract.balance)
    &&& response.log matches Some(log) && log@ == "released funds!"@
    &&& response.data is None
}

/// Sets the escrow up: the state names the parties of `msg` and the signer
/// as the funder.
pub fn init(params: Params, msg: InitMsg) -> (out: (State, Response))
    ensures
        out.0.verifier@ == msg.verifier@,
        out.0.beneficiary@ == msg.beneficiary@,
        out.0.funder@ == params.message.signer@,
        is_empty_response(out.1),
{
    let state = State {
        verifier: msg.verifier,
        beneficiary: msg.beneficiary,
        funder: params.message.signer,
    };
    (state, Response { messages: Vec::new(), log: None, data: None })
}

/// Releases the balance of the contract to the beneficiary, if the
/// verifier signed; refuses anyone else.
pub fn handle(state: &State, params: Params) -> (out: Result<Response, ContractError>)
    ensures
        params.message.signer@ == state.verifier@ ==> out is Ok && releases(
            out->Ok_0,
            params.contract,
            state.beneficiary@,
        ),
        params.message.signer@ != state.verifier@ ==> out is Err && out->Err_0
            == ContractError::Unauthorized,
{
    if params.message.signer == state.verifier {
        let amount = match params.contract.balance {
            Some(coins) => coins,
            None => Vec::new(),
        };
        assert(coins_model(amount@) =~= balance_model(params.contract.balance));
        let mut messages: Vec<CosmosMsg> = Vec::new();
        messages.push(
            CosmosMsg::Send {
                from_address: params.contract.address,
                to_address: state.beneficiary.clone(),
                amount,
            },
        );
        Ok(Response { messages, log: Some("released funds!".to_owned()), data: None })
    } else {
        Err(ContractError::Unauthorized)
    }
}

} // verus!
