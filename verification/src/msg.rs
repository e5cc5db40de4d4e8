//! The commands and queries of the relay, and the answers to the queries.

use vstd::prelude::*;
use crate::coin::{coins_model, Coin};
use crate::lexical::id_less;
use crate::state::{addr_model, AccountData, AccountModel};

verus! {

/// Initialisation takes no parameter: the sender becomes administrator.
#[derive(Debug, PartialEq, Eq)]
pub struct InitMsg {}

/// A command. `M` is the type of the application messages to dispatch.
#[derive(Debug, PartialEq, Eq)]
pub enum HandleMsg<M> {
    /// Hands the administration over to `admin`.
    UpdateAdmin { admin: String },
    /// Has the remote account of the channel execute `msgs`.
    SendMsgs { channel_id: String, msgs: Vec<M> },
    /// Asks for the balances of the remote account of the channel.
    CheckRemoteBalance { channel_id: String },
    /// Moves the attached coin to the remote account of `reflect_channel_id`,
    /// over the transfer channel `transfer_channel_id`.
    SendFunds { reflect_channel_id: String, transfer_channel_id: String },
}

/// A query.
#[derive(Debug, PartialEq, Eq)]
pub enum QueryMsg {
    /// Who the administrator is.
    Admin {},
    /// The record of one channel.
    Account { channel_id: String },
    /// The records of all channels.
    ListAccounts {},
}

/// Answer to [`QueryMsg::Admin`].
#[derive(Debug, PartialEq, Eq)]
pub struct AdminResponse {
    pub admin: String,
}

/// Answer to [`QueryMsg::Account`].
#[derive(Debug, PartialEq, Eq)]
pub struct AccountResponse {
    pub last_update_time: u64,
    pub remote_addr: Option<String>,
    pub remote_balance: Vec<Coin>,
}

impl View for AccountResponse {
    type V = AccountModel;

    open spec fn view(&self) -> AccountModel {
        AccountModel {
            last_update_time: self.last_update_time as nat,
            remote_addr: addr_model(self.remote_addr),
            remote_balance: coins_model(self.remote_balance@),
        }
    }
}

impl vstd::std_specs::convert::FromSpecImpl<AccountData> for AccountResponse {
    open spec fn obeys_from_spec() -> bool {
        true
    }

    open spec fn from_spec(input: AccountData) -> AccountResponse {
        AccountResponse {
            last_update_time: input.last_update_time,
            remote_addr: input.remote_addr,
            remote_balance: input.remote_balance,
        }
    }
}

impl From<AccountData> for AccountResponse {
    fn from(input: AccountData) -> (out: AccountResponse) {
        AccountResponse {
            last_update_time: input.last_update_time,
            remote_addr: input.remote_addr,
            remote_balance: input.remote_balance,
        }
    }
}

/// One record in the answer to [`QueryMsg::ListAccounts`].
#[derive(Debug, PartialEq, Eq)]
pub struct AccountInfo {
    pub channel_id: String,
    pub last_update_time: u64,
    pub remote_addr: Option<String>,
    pub remote_balance: Vec<Coin>,
}

impl AccountInfo {
    /// The record of this entry, without the channel.
    pub open spec fn account(&self) -> AccountModel {
        AccountModel {
            last_update_time: self.last_update_time as nat,
            remote_addr: addr_model(self.remote_addr),
            remote_balance: coins_model(self.remote_balance@),
        }
    }

    /// Joins a record with the channel that it belongs to.
    pub fn convert(channel_id: String, input: AccountData) -> (out: AccountInfo)
        ensures
            out.channel_id@ == channel_id@,
            out.account() == input@,
    {
        AccountInfo {
            channel_id,
            last_update_time: input.last_update_time,
            remote_addr: input.remote_addr,
            remote_balance: input.remote_balance,
        }
    }
}

/// `infos` lists exactly the records of `accounts`, each once, by ascending
/// channel identifier.
pub open spec fn lists(infos: Seq<AccountInfo>, accounts: Map<Seq<char>, AccountModel>) -> bool {
    &&& forall|i: int, j: int|
        0 <= i < j < infos.len() ==> id_less(
            #[trigger] infos[i].channel_id@,
            #[trigger] infos[j].channel_id@,
        )
    &&& forall|i: int|
        0 <= i < infos.len() ==> accounts.contains_key(#[trigger] infos[i].channel_id@)
            && accounts[infos[i].channel_id@] == infos[i].account()
    &&& forall|id: Seq<char>| #[trigger]
        accounts.contains_key(id) ==> exists|i: int|
            0 <= i < infos.len() && #[trigger] infos[i].channel_id@ == id
}

/// Answer to [`QueryMsg::ListAccounts`].
#[derive(Debug, PartialEq, Eq)]
pub struct ListAccountsResponse {
    pub accounts: Vec<AccountInfo>,
}

/// Answer to a query, by the kind of the query.
#[derive(Debug, PartialEq, Eq)]
pub enum QueryResponse {
    Admin(AdminResponse),
    Account(AccountResponse),
    ListAccounts(ListAccountsResponse),
}

} // verus!
