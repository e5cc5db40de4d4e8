//! The rules of the relay as mathematical functions: for each operation,
//! what it answers and what it leaves in the store.

use vstd::prelude::*;
use crate::coin::CoinModel;
use crate::error::ContractError;
use crate::ibc::{IbcMsgModel, IbcOrder};
use crate::ibc_msg::{AckModel, BalancesModel, PacketAckModel, PacketModel, WhoAmIModel};
use crate::msg::HandleMsg;
use crate::response::{AttributeModel, ResponseModel};
use crate::state::{AccountModel, StoreModel};

verus! {

/// The one protocol version that the relay speaks.
pub const IBC_VERSION: &'static str = "ibc-reflect";

/// Seconds after which a packet that was not delivered is given up.
pub const PACKET_LIFETIME: u64 = 3600;

/// The store and the response that an operation leaves.
pub struct Outcome<M> {
    pub state: StoreModel,
    pub response: ResponseModel<M>,
}

/// `result` is the failure `e`.
pub open spec fn fails_with<T>(result: Result<T, ContractError>, e: ContractError) -> bool {
    result is Err && result->Err_0 == e
}

/// `out` is the answer that `expected` asks for.
pub open spec fn answers<M, R: View<V = ResponseModel<M>>>(
    out: Result<R, ContractError>,
    expected: Result<ResponseModel<M>, ContractError>,
) -> bool {
    match expected {
        Ok(response) => out is Ok && out->Ok_0@ == response,
        Err(e) => out is Err && out->Err_0 == e,
    }
}

/// `out` is the answer and `after` the store that `expected` asks for; a
/// failure leaves the store as it was `before`.
pub open spec fn performs<M, R: View<V = ResponseModel<M>>>(
    out: Result<R, ContractError>,
    before: StoreModel,
    after: StoreModel,
    expected: Result<Outcome<M>, ContractError>,
) -> bool {
    match expected {
        Ok(outcome) => out is Ok && out->Ok_0@ == outcome.response && after == outcome.state,
        Err(e) => out is Err && out->Err_0 == e && after == before,
    }
}

/// The store after an operation that was tried on `s`: a failed operation
/// leaves `s` as it was.
pub open spec fn state_after<M>(s: StoreModel, result: Result<Outcome<M>, ContractError>) -> StoreModel {
    match result {
        Ok(outcome) => outcome.state,
        Err(_) => s,
    }
}

/// The attribute that names the operation.
pub open spec fn action(name: Seq<char>) -> AttributeModel {
    AttributeModel { key: "action"@, value: name }
}

/// A response without any request to the channel layer.
pub open spec fn quiet<M>(attributes: Seq<AttributeModel>) -> ResponseModel<M> {
    ResponseModel { messages: Seq::empty(), attributes }
}

/// A packet sent at `now` can be given an expiry: the time of its expiry
/// is one that the clock can show.
pub open spec fn can_expire(now: u64) -> bool {
    now + PACKET_LIFETIME <= u64::MAX
}

/// The time at which a packet sent at `now` expires.
pub open spec fn expiry(now: u64) -> int {
    now + PACKET_LIFETIME
}

/// The request to send `data` over `channel_id` at time `now`: it expires
/// by time, never by height.
pub open spec fn packet<M>(channel_id: Seq<char>, data: PacketModel<M>, now: u64) -> IbcMsgModel<M> {
    IbcMsgModel::SendPacket {
        channel_id,
        data,
        timeout_block: None,
        timeout_timestamp: Some(expiry(now) as u64),
    }
}

/// The request to move `amount` to `to_address` over `channel_id` at time `now`.
pub open spec fn transfer<M>(
    channel_id: Seq<char>,
    to_address: Seq<char>,
    amount: CoinModel,
    now: u64,
) -> IbcMsgModel<M> {
    IbcMsgModel::Transfer {
        channel_id,
        to_address,
        amount,
        timeout_block: None,
        timeout_timestamp: Some(expiry(now) as u64),
    }
}

/// Initialisation: the sender becomes administrator of a relay without channels.
pub open spec fn init<M>(sender: Seq<char>) -> Outcome<M> {
    Outcome {
        state: StoreModel { admin: sender, accounts: Map::empty() },
        response: quiet(seq![action("init"@)]),
    }
}

/// Opening of the handshake: only an ordered channel is accepted, and only
/// with the protocol version on this side and, where the other side has
/// proposed one, on the other side too.
pub open spec fn channel_open(
    order: IbcOrder,
    version: Seq<char>,
    counterparty_version: Option<Seq<char>>,
) -> Result<(), ContractError> {
    if order != IbcOrder::Ordered {
        Err(ContractError::OrderMismatch)
    } else if version != IBC_VERSION@ {
        Err(ContractError::VersionMismatch)
    } else if counterparty_version is Some && counterparty_version->0 != IBC_VERSION@ {
        Err(ContractError::VersionMismatch)
    } else {
        Ok(())
    }
}

/// Connection of a channel: it gets a fresh record, in place of any record
/// it had, and one who-am-i packet is sent over it.
pub open spec fn channel_connect<M>(s: StoreModel, now: u64, channel_id: Seq<char>) -> Outcome<M> {
    Outcome {
        state: StoreModel { accounts: s.accounts.insert(channel_id, AccountModel::fresh()), ..s },
        response: ResponseModel {
            messages: seq![packet(channel_id, PacketModel::WhoAmI, now)],
            attributes: seq![
                action("ibc_connect"@),
                AttributeModel { key: "channel_id"@, value: channel_id },
            ],
        },
    }
}

/// Closing of a channel: its record is deleted, and nothing is sent.
pub open spec fn channel_close<M>(s: StoreModel, channel_id: Seq<char>) -> Outcome<M> {
    Outcome {
        state: StoreModel { accounts: s.accounts.remove(channel_id), ..s },
        response: quiet(
            seq![action("ibc_close"@), AttributeModel { key: "channel_id"@, value: channel_id }],
        ),
    }
}

/// Change of administrator, which only the administrator may ask for.
pub open spec fn update_admin<M>(
    s: StoreModel,
    sender: Seq<char>,
    new_admin: Seq<char>,
) -> Result<Outcome<M>, ContractError> {
    if sender != s.admin {
        Err(ContractError::Unauthorized)
    } else {
        Ok(
            Outcome {
                state: StoreModel { admin: new_admin, ..s },
                response: quiet(
                    seq![
                        action("handle_update_admin"@),
                        AttributeModel { key: "new_admin"@, value: new_admin },
                    ],
                ),
            },
        )
    }
}

/// Dispatch of application messages to the remote account of a channel,
/// which only the administrator may ask for, and only for a connected channel.
pub open spec fn send_msgs<M>(
    s: StoreModel,
    now: u64,
    sender: Seq<char>,
    channel_id: Seq<char>,
    msgs: Seq<M>,
) -> Result<ResponseModel<M>, ContractError> {
    if sender != s.admin {
        Err(ContractError::Unauthorized)
    } else if !s.accounts.contains_key(channel_id) {
        Err(ContractError::NotFound)
    } else {
        Ok(
            ResponseModel {
                messages: seq![packet(channel_id, PacketModel::Dispatch { msgs }, now)],
                attributes: seq![action("handle_send_msgs"@)],
            },
        )
    }
}

/// Request for the balances of the remote account of a channel, under the
/// same conditions as a dispatch.
pub open spec fn check_remote_balance<M>(
    s: StoreModel,
    now: u64,
    sender: Seq<char>,
    channel_id: Seq<char>,
) -> Result<ResponseModel<M>, ContractError> {
    if sender != s.admin {
        Err(ContractError::Unauthorized)
    } else if !s.accounts.contains_key(channel_id) {
        Err(ContractError::NotFound)
    } else {
        Ok(
            ResponseModel {
                messages: seq![packet(channel_id, PacketModel::Balances, now)],
                attributes: seq![action("handle_check_remote_balance"@)],
            },
        )
    }
}

/// Transfer of the attached coin to the remote account of
/// `reflect_channel_id`. Anyone may ask for it. Exactly one coin must be
/// attached, the channel must be connected, and the address of its remote
/// account must be known.
pub open spec fn send_funds<M>(
    s: StoreModel,
    now: u64,
    funds: Seq<CoinModel>,
    reflect_channel_id: Seq<char>,
    transfer_channel_id: Seq<char>,
) -> Result<ResponseModel<M>, ContractError> {
    if funds.len() == 0 {
        Err(ContractError::EmptyFunds)
    } else if funds.len() > 1 {
        Err(ContractError::MultipleDenominations)
    } else if !s.accounts.contains_key(reflect_channel_id) {
        Err(ContractError::NotFound)
    } else if s.accounts[reflect_channel_id].remote_addr is None {
        Err(ContractError::RemoteAddressUnknown)
    } else {
        Ok(
            ResponseModel {
                messages: seq![
                    transfer(
                        transfer_channel_id,
                        s.accounts[reflect_channel_id].remote_addr->0,
                        funds[0],
                        now,
                    ),
                ],
                attributes: seq![action("handle_send_funds"@)],
            },
        )
    }
}

/// A command is handled by its kind. Only a change of administrator
/// touches the store.
pub open spec fn handle<M>(
    s: StoreModel,
    now: u64,
    sender: Seq<char>,
    funds: Seq<CoinModel>,
    msg: HandleMsg<M>,
) -> Result<Outcome<M>, ContractError> {
    match msg {
        HandleMsg::UpdateAdmin { admin } => update_admin(s, sender, admin@),
        HandleMsg::SendMsgs { channel_id, msgs } => unchanged(
            s,
            send_msgs(s, now, sender, channel_id@, msgs@),
        ),
        HandleMsg::CheckRemoteBalance { channel_id } => unchanged(
            s,
            check_remote_balance(s, now, sender, channel_id@),
        ),
        HandleMsg::SendFunds { reflect_channel_id, transfer_channel_id } => unchanged(
            s,
            send_funds(s, now, funds, reflect_channel_id@, transfer_channel_id@),
        ),
    }
}

/// The outcome of an operation that answers `response` and leaves the
/// store `s` as it is.
pub open spec fn unchanged<M>(
    s: StoreModel,
    response: Result<ResponseModel<M>, ContractError>,
) -> Result<Outcome<M>, ContractError> {
    match response {
        Ok(r) => Ok(Outcome { state: s, response: r }),
        Err(e) => Err(e),
    }
}

/// The record of a channel, which must be connected.
pub open spec fn account(s: StoreModel, channel_id: Seq<char>) -> Result<AccountModel, ContractError> {
    if s.accounts.contains_key(channel_id) {
        Ok(s.accounts[channel_id])
    } else {
        Err(ContractError::NotFound)
    }
}

/// The response to an acknowledgement that reports a failure of the other
/// side: the failure is recorded, nothing else happens.
pub open spec fn recorded<M>(name: Seq<char>, reason: Seq<char>) -> ResponseModel<M> {
    quiet(seq![action(name), AttributeModel { key: "error"@, value: reason }])
}

/// Acknowledgement of a dispatch packet: recorded, whatever it reports.
pub open spec fn ack_dispatch<M>(s: StoreModel) -> Outcome<M> {
    Outcome { state: s, response: quiet(seq![action("acknowledge_dispatch"@)]) }
}

/// Acknowledgement of a who-am-i packet. The reported address is taken
/// where none is on record; an address on record stays.
pub open spec fn ack_who_am_i<M>(
    s: StoreModel,
    caller: Seq<char>,
    ack: AckModel<WhoAmIModel>,
) -> Result<Outcome<M>, ContractError> {
    match ack {
        AckModel::Failure(reason) => Ok(
            Outcome { state: s, response: recorded("acknowledge_who_am_i"@, reason) },
        ),
        AckModel::Success(answer) => {
            if !s.accounts.contains_key(caller) {
                Err(ContractError::InconsistentState)
            } else {
                let old = s.accounts[caller];
                let new = if old.remote_addr is None {
                    AccountModel { remote_addr: Some(answer.account), ..old }
                } else {
                    old
                };
                Ok(
                    Outcome {
                        state: StoreModel { accounts: s.accounts.insert(caller, new), ..s },
                        response: quiet(seq![action("acknowledge_who_am_i"@)]),
                    },
                )
            }
        },
    }
}

/// Acknowledgement of a balances packet. A report for another account than
/// the one on record is refused; any other report replaces address,
/// balances and time of the record.
pub open spec fn ack_balances<M>(
    s: StoreModel,
    now: u64,
    caller: Seq<char>,
    ack: AckModel<BalancesModel>,
) -> Result<Outcome<M>, ContractError> {
    match ack {
        AckModel::Failure(reason) => Ok(
            Outcome { state: s, response: recorded("acknowledge_balances"@, reason) },
        ),
        AckModel::Success(answer) => {
            if !s.accounts.contains_key(caller) {
                Err(ContractError::InconsistentState)
            } else if s.accounts[caller].remote_addr is Some && s.accounts[caller].remote_addr->0
                != answer.account {
                Err(ContractError::RemoteAddressChanged)
            } else {
                let new = AccountModel {
                    last_update_time: now as nat,
                    remote_addr: Some(answer.account),
                    remote_balance: answer.balances,
                };
                Ok(
                    Outcome {
                        state: StoreModel { accounts: s.accounts.insert(caller, new), ..s },
                        response: quiet(seq![action("acknowledge_balances"@)]),
                    },
                )
            }
        },
    }
}

/// An acknowledgement is handled by the kind of packet that it answers.
pub open spec fn packet_ack<M>(
    s: StoreModel,
    now: u64,
    caller: Seq<char>,
    ack: PacketAckModel,
) -> Result<Outcome<M>, ContractError> {
    match ack {
        PacketAckModel::Dispatch(_) => Ok(ack_dispatch(s)),
        PacketAckModel::WhoAmI(a) => ack_who_am_i(s, caller, a),
        PacketAckModel::Balances(a) => ack_balances(s, now, caller, a),
    }
}

/// The acknowledgement given to any incoming packet: an empty success.
pub open spec fn empty_ack() -> Seq<u8> {
    seq![0x7bu8, 0x7du8]
}

/// The response to an incoming packet.
pub open spec fn packet_receive<M>() -> ResponseModel<M> {
    quiet(seq![action("ibc_packet_ack"@)])
}

/// The response to a timeout.
pub open spec fn packet_timeout<M>() -> ResponseModel<M> {
    quiet(seq![action("ibc_packet_timeout"@)])
}

/// Something that happens to the relay and may change its store.
pub enum Event {
    /// A channel is connected.
    Connect { now: u64, channel_id: Seq<char> },
    /// A channel is closed.
    Close { channel_id: Seq<char> },
    /// `sender` asks that `new_admin` become administrator.
    UpdateAdmin { sender: Seq<char>, new_admin: Seq<char> },
    /// An acknowledgement arrives for a packet that was sent over `caller`.
    Acknowledge { now: u64, caller: Seq<char>, ack: PacketAckModel },
}

/// The store after one event.
pub open spec fn step(s: StoreModel, event: Event) -> StoreModel {
    match event {
        Event::Connect { now, channel_id } => channel_connect::<()>(s, now, channel_id).state,
        Event::Close { channel_id } => channel_close::<()>(s, channel_id).state,
        Event::UpdateAdmin { sender, new_admin } => state_after(
            s,
            update_admin::<()>(s, sender, new_admin),
        ),
        Event::Acknowledge { now, caller, ack } => state_after(
            s,
            packet_ack::<()>(s, now, caller, ack),
        ),
    }
}

/// The store after a run of events, the first of them first.
pub open spec fn run(s: StoreModel, events: Seq<Event>) -> StoreModel
    decreases events.len(),
{
    if events.len() == 0 {
        s
    } else {
        step(run(s, events.drop_last()), events.last())
    }
}

} // verus!
