//! The messages of the contract on the other ledger, which creates the
//! remote accounts and executes what the relay dispatches.

use vstd::prelude::*;
use crate::ibc_msg::AcknowledgementMsg as Acknowledgement;

verus! {

/// Initialisation names the code from which remote accounts are created.
#[derive(Clone, Copy, Debug, PartialEq, Eq)]
pub struct InitMsg {
    pub reflect_code_id: u64,
}

/// A command.
#[derive(Debug, PartialEq, Eq)]
pub enum HandleMsg {
    /// Sent back by a remote account once it is set up.
    InitCallback {
        /// The identifier that was handed to the account at its creation.
        id: String,
        /// The address of the account.
        contract_addr: String,
    },
}

/// A query.
#[derive(Debug, PartialEq, Eq)]
pub enum QueryMsg {
    /// The remote account that belongs to a channel, if there is one.
    Account { channel_id: String },
    /// All channels with their remote accounts.
    ListAccounts {},
}

/// Answer to [`QueryMsg::Account`].
#[derive(Debug, PartialEq, Eq)]
pub struct AccountResponse {
    pub account: Option<String>,
}

/// Answer to [`QueryMsg::ListAccounts`].
#[derive(Debug, PartialEq, Eq)]
pub struct ListAccountsResponse {
    pub accounts: Vec<AccountInfo>,
}

/// A channel with its remote account.
#[derive(Debug, PartialEq, Eq)]
pub struct AccountInfo {
    pub account: String,
    pub channel_id: String,
}

/// Initialisation of a remote account.
#[derive(Debug, PartialEq, Eq)]
pub struct ReflectInitMsg {
    pub callback_id: Option<String>,
}

/// A command to a remote account. `M` is the type of the application messages.
#[derive(Debug, PartialEq, Eq)]
pub enum ReflectHandleMsg<M> {
    /// Execute these messages.
    ReflectMsg { msgs: Vec<M> },
}

/// The packet that the other side expects: messages to execute.
#[derive(Debug, PartialEq, Eq)]
pub struct PacketMsg<M> {
    pub msgs: Vec<M>,
}

/// The acknowledgement that the other side gives: success or a reason.
pub type AcknowledgementMsg = Acknowledgement<()>;

} // verus!
