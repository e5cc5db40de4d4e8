//! The operations of the relay: initialisation, commands, queries, the
//! channel handshake, and the handling of acknowledgements and timeouts.

use vstd::prelude::*;
use crate::coin::coins_model;
use crate::env::{Env, MessageInfo};
use crate::error::ContractError;
use crate::ibc::{msgs_model, IbcAcknowledgement, IbcChannel, IbcMsg, IbcMsgModel, IbcOrder, IbcPacket};
use crate::ibc_msg::{
    AcknowledgementMsg, BalancesResponse, DispatchResponse, PacketAck, PacketMsg, WhoAmIResponse,
};
use crate::msg::{
    lists, AccountInfo, AccountResponse, AdminResponse, HandleMsg, InitMsg, ListAccountsResponse,
    QueryMsg, QueryResponse,
};
use crate::response::{
    attr, attrs_model, Attribute, HandleResponse, IbcBasicResponse, IbcReceiveResponse,
    InitResponse,
};
use crate::rules;
use crate::rules::{IBC_VERSION, PACKET_LIFETIME};
use crate::lexical::id_less;
use crate::state::{addr_model, holds, slot, AccountData, Store};

verus! {

fn no_msgs<M>() -> (out: Vec<IbcMsg<M>>)
    ensures
        msgs_model(out@) == Seq::<IbcMsgModel<M>>::empty(),
{
    let out: Vec<IbcMsg<M>> = Vec::new();
    assert(msgs_model(out@) =~= Seq::<IbcMsgModel<M>>::empty());
    out
}

fn one_msg<M>(msg: IbcMsg<M>) -> (out: Vec<IbcMsg<M>>)
    ensures
        msgs_model(out@) == seq![msg@],
{
    let mut out: Vec<IbcMsg<M>> = Vec::new();
    out.push(msg);
    assert(msgs_model(out@) =~= seq![msg@]);
    out
}

fn one_attr(first: Attribute) -> (out: Vec<Attribute>)
    ensures
        attrs_model(out@) == seq![first@],
{
    let mut out: Vec<Attribute> = Vec::new();
    out.push(first);
    assert(attrs_model(out@) =~= seq![first@]);
    out
}

fn two_attrs(first: Attribute, second: Attribute) -> (out: Vec<Attribute>)
    ensures
        attrs_model(out@) == seq![first@, second@],
{
    let mut out: Vec<Attribute> = Vec::new();
    out.push(first);
    out.push(second);
    assert(attrs_model(out@) =~= seq![first@, second@]);
    out
}

/// The request to send `data` over `channel_id`, expiring one packet
/// lifetime after the time of `env`.
fn send_packet<M>(env: &Env, channel_id: String, data: PacketMsg<M>) -> (out: IbcMsg<M>)
    requires
        rules::can_expire(env.block.time),
    ensures
        out@ == rules::packet(channel_id@, data@, env.block.time),
{
    IbcMsg::SendPacket {
        channel_id,
        data,
        timeout_block: None,
        timeout_timestamp: Some(env.block.time + PACKET_LIFETIME),
    }
}

/// Sets up the relay: the sender becomes its administrator.
pub fn init<M>(_env: &Env, info: MessageInfo, _msg: InitMsg) -> (out: (Store, InitResponse<M>))
    ensures
        out.0@ == rules::init::<M>(info.sender@).state,
        out.1@ == rules::init::<M>(info.sender@).response,
{
    let store = Store::new(info.sender);
    let response = InitResponse {
        messages: no_msgs(),
        attributes: one_attr(attr("action", "init")),
    };
    (store, response)
}

/// Handles a command.
pub fn handle<M>(store: &mut Store, env: &Env, info: MessageInfo, msg: HandleMsg<M>) -> (out: Result<
    HandleResponse<M>,
    ContractError,
>)
    requires
        !(msg is UpdateAdmin) && rules::handle(
            old(store)@,
            env.block.time,
            info.sender@,
            coins_model(info.sent_funds@),
            msg,
        ) is Ok ==> rules::can_expire(env.block.time),
    ensures
        rules::performs(
            out,
            old(store)@,
            final(store)@,
            rules::handle(
                old(store)@,
                env.block.time,
                info.sender@,
                coins_model(info.sent_funds@),
                msg,
            ),
        ),
        out is Ok ==> out->Ok_0.data is None,
{
    match msg {
        HandleMsg::UpdateAdmin { admin } => handle_update_admin(store, info, admin),
        HandleMsg::SendMsgs { channel_id, msgs } => handle_send_msgs(
            store,
            env,
            info,
            channel_id,
            msgs,
        ),
        HandleMsg::CheckRemoteBalance { channel_id } => handle_check_remote_balance(
            store,
            env,
            info,
            channel_id,
        ),
        HandleMsg::SendFunds { reflect_channel_id, transfer_channel_id } => handle_send_funds(
            store,
            env,
            info,
            reflect_channel_id,
            transfer_channel_id,
        ),
    }
}

/// Hands the administration over to `new_admin`, if the administrator asks.
pub fn handle_update_admin<M>(store: &mut Store, info: MessageInfo, new_admin: String) -> (out:
    Result<HandleResponse<M>, ContractError>)
    ensures
        rules::performs(
            out,
            old(store)@,
            final(store)@,
            rules::update_admin(old(store)@, info.sender@, new_admin@),
        ),
        out is Ok ==> out->Ok_0.data is None,
{
    if !(info.sender == store.config.admin) {
        return Err(ContractError::Unauthorized);
    }
    store.config.admin = new_admin;
    Ok(
        HandleResponse {
            messages: no_msgs(),
            attributes: two_attrs(
                attr("action", "handle_update_admin"),
                attr("new_admin", store.config.admin.as_str()),
            ),
            data: None,
        },
    )
}

/// Sends `msgs` to the remote account of `channel_id` for execution, if the
/// administrator asks and the channel is connected.
pub fn handle_send_msgs<M>(
    store: &Store,
    env: &Env,
    info: MessageInfo,
    channel_id: String,
    msgs: Vec<M>,
) -> (out: Result<HandleResponse<M>, ContractError>)
    requires
        rules::send_msgs(store@, env.block.time, info.sender@, channel_id@, msgs@) is Ok
            ==> rules::can_expire(env.block.time),
    ensures
        rules::answers(
            out,
            rules::send_msgs(store@, env.block.time, info.sender@, channel_id@, msgs@),
        ),
        out is Ok ==> out->Ok_0.data is None,
{
    if !(info.sender == store.config.admin) {
        return Err(ContractError::Unauthorized);
    }
    if !store.accounts.contains(channel_id.as_str()) {
        return Err(ContractError::NotFound);
    }
    let msg = send_packet(env, channel_id, PacketMsg::Dispatch { msgs });
    Ok(
        HandleResponse {
            messages: one_msg(msg),
            attributes: one_attr(attr("action", "handle_send_msgs")),
            data: None,
        },
    )
}

/// Asks for the balances of the remote account of `channel_id`, if the
/// administrator asks and the channel is connected.
pub fn handle_check_remote_balance<M>(
    store: &Store,
    env: &Env,
    info: MessageInfo,
    channel_id: String,
) -> (out: Result<HandleResponse<M>, ContractError>)
    requires
        rules::check_remote_balance::<M>(store@, env.block.time, info.sender@, channel_id@) is Ok
            ==> rules::can_expire(env.block.time),
    ensures
        rules::answers(
            out,
            rules::check_remote_balance(store@, env.block.time, info.sender@, channel_id@),
        ),
        out is Ok ==> out->Ok_0.data is None,
{
    if !(info.sender == store.config.admin) {
        return Err(ContractError::Unauthorized);
    }
    if !store.accounts.contains(channel_id.as_str()) {
        return Err(ContractError::NotFound);
    }
    let msg = send_packet(env, channel_id, PacketMsg::Balances {});
    Ok(
        HandleResponse {
            messages: one_msg(msg),
            attributes: one_attr(attr("action", "handle_check_remote_balance")),
            data: None,
        },
    )
}

/// Moves the one attached coin to the remote account of
/// `reflect_channel_id` over `transfer_channel_id`. Anyone may ask.
pub fn handle_send_funds<M>(
    store: &Store,
    env: &Env,
    info: MessageInfo,
    reflect_channel_id: String,
    transfer_channel_id: String,
) -> (out: Result<HandleResponse<M>, ContractError>)
    requires
        rules::send_funds::<M>(
            store@,
            env.block.time,
            coins_model(info.sent_funds@),
            reflect_channel_id@,
            transfer_channel_id@,
        ) is Ok ==> rules::can_expire(env.block.time),
    ensures
        rules::answers(
            out,
            rules::send_funds(
                store@,
                env.block.time,
                coins_model(info.sent_funds@),
                reflect_channel_id@,
                transfer_channel_id@,
            ),
        ),
        out is Ok ==> out->Ok_0.data is None,
{
    let mut funds = info.sent_funds;
    if funds.len() == 0 {
        return Err(ContractError::EmptyFunds);
    } else if funds.len() > 1 {
        return Err(ContractError::MultipleDenominations);
    }
    let amount = match funds.pop() {
        Some(coin) => coin,
        None => return Err(ContractError::EmptyFunds),
    };
    let to_address = match store.accounts.load(reflect_channel_id.as_str()) {
        None => return Err(ContractError::NotFound),
        Some(data) => match &data.remote_addr {
            Some(addr) => addr.clone(),
            None => return Err(ContractError::RemoteAddressUnknown),
        },
    };
    let msg = IbcMsg::Transfer {
        channel_id: transfer_channel_id,
        to_address,
        amount,
        timeout_block: None,
        timeout_timestamp: Some(env.block.time + PACKET_LIFETIME),
    };
    Ok(
        HandleResponse {
            messages: one_msg(msg),
            attributes: one_attr(attr("action", "handle_send_funds")),
            data: None,
        },
    )
}

/// Answers a query.
pub fn query(store: &Store, _env: &Env, msg: QueryMsg) -> (out: Result<QueryResponse, ContractError>)
    ensures
        match msg {
            QueryMsg::Admin {} => out matches Ok(QueryResponse::Admin(r)) && r.admin@
                == store@.admin,
            QueryMsg::Account { channel_id } => match rules::account(store@, channel_id@) {
                Ok(account) => out matches Ok(QueryResponse::Account(r)) && r@ == account,
                Err(e) => out is Err && out->Err_0 == e,
            },
            QueryMsg::ListAccounts {} => out matches Ok(QueryResponse::ListAccounts(r)) && lists(
                r.accounts@,
                store@.accounts,
            ),
        },
{
    match msg {
        QueryMsg::Admin {} => Ok(QueryResponse::Admin(query_admin(store))),
        QueryMsg::Account { channel_id } => match query_account(store, channel_id) {
            Ok(r) => Ok(QueryResponse::Account(r)),
            Err(e) => Err(e),
        },
        QueryMsg::ListAccounts {} => Ok(QueryResponse::ListAccounts(query_list_accounts(store))),
    }
}

/// The record of `channel_id`, which must be connected.
pub fn query_account(store: &Store, channel_id: String) -> (out: Result<
    AccountResponse,
    ContractError,
>)
    ensures
        match rules::account(store@, channel_id@) {
            Ok(account) => out is Ok && out->Ok_0@ == account,
            Err(e) => out is Err && out->Err_0 == e,
        },
{
    match store.accounts.load(channel_id.as_str()) {
        Some(data) => Ok(AccountResponse::from(data.clone())),
        None => Err(ContractError::NotFound),
    }
}

/// The records of all connected channels, by ascending channel identifier.
pub fn query_list_accounts(store: &Store) -> (out: ListAccountsResponse)
    ensures
        lists(out.accounts@, store@.accounts),
{
    let entries = store.accounts.range();
    let mut accounts: Vec<AccountInfo> = Vec::new();
    let mut i: usize = 0;
    while i < entries.len()
        invariant
            i <= entries@.len(),
            accounts@.len() == i,
            forall|j: int|
                0 <= j < i ==> (#[trigger] accounts@[j]).channel_id@ == entries@[j].channel_id@
                    && accounts@[j].account() == entries@[j].data@,
        decreases entries@.len() - i,
    {
        let entry = &entries[i];
        accounts.push(AccountInfo::convert(entry.channel_id.clone(), entry.data.clone()));
        i += 1;
    }
    proof {
        let src = entries@;
        let all = store@.accounts;
        assert forall|a: int, b: int| 0 <= a < b < accounts@.len() implies id_less(
            #[trigger] accounts@[a].channel_id@,
            #[trigger] accounts@[b].channel_id@,
        ) by {
            assert(id_less(src[a].channel_id@, src[b].channel_id@));
        }
        assert forall|j: int| 0 <= j < accounts@.len() implies all.contains_key(
            #[trigger] accounts@[j].channel_id@,
        ) && all[accounts@[j].channel_id@] == accounts@[j].account() by {
            assert(all.contains_key(src[j].channel_id@));
        }
        assert forall|id: Seq<char>| #[trigger] all.contains_key(id) implies exists|j: int|
            0 <= j < accounts@.len() && #[trigger] accounts@[j].channel_id@ == id by {
            let k = slot(src, id);
            assert(holds(src, id));
            assert(accounts@[k].channel_id@ == id);
        }
    }
    ListAccountsResponse { accounts }
}

/// Who the administrator is.
pub fn query_admin(store: &Store) -> (out: AdminResponse)
    ensures
        out.admin@ == store@.admin,
{
    AdminResponse { admin: store.config.admin.clone() }
}

/// Checks the channel that a handshake proposes: it must be ordered and
/// must speak the protocol version on both sides.
pub fn ibc_channel_open(channel: &IbcChannel) -> (out: Result<(), ContractError>)
    ensures
        out == rules::channel_open(
            channel.order,
            channel.version@,
            addr_model(channel.counterparty_version),
        ),
{
    match channel.order {
        IbcOrder::Ordered => {},
        IbcOrder::Unordered => {
            return Err(ContractError::OrderMismatch);
        },
    }
    let expected = IBC_VERSION.to_owned();
    if !(channel.version == expected) {
        return Err(ContractError::VersionMismatch);
    }
    match &channel.counterparty_version {
        Some(version) => {
            if !(*version == expected) {
                return Err(ContractError::VersionMismatch);
            }
        },
        None => {},
    }
    Ok(())
}

/// Takes note of a channel that both sides have agreed on: the channel gets
/// a fresh record, and the other side is asked who it is.
pub fn ibc_channel_connect<M>(store: &mut Store, env: &Env, channel: IbcChannel) -> (out:
    IbcBasicResponse<M>)
    requires
        rules::can_expire(env.block.time),
    ensures
        final(store)@ == rules::channel_connect::<M>(
            old(store)@,
            env.block.time,
            channel.endpoint.channel_id@,
        ).state,
        out@ == rules::channel_connect::<M>(
            old(store)@,
            env.block.time,
            channel.endpoint.channel_id@,
        ).response,
{
    let channel_id = channel.endpoint.channel_id;
    store.accounts.save(channel_id.clone(), AccountData::default());
    let msg = send_packet(env, channel_id.clone(), PacketMsg::WhoAmI {});
    IbcBasicResponse {
        messages: one_msg(msg),
        attributes: two_attrs(attr("action", "ibc_connect"), attr("channel_id", channel_id.as_str())),
    }
}

/// Forgets a channel that was closed.
pub fn ibc_channel_close<M>(store: &mut Store, channel: IbcChannel) -> (out: IbcBasicResponse<M>)
    ensures
        final(store)@ == rules::channel_close::<M>(old(store)@, channel.endpoint.channel_id@).state,
        out@ == rules::channel_close::<M>(old(store)@, channel.endpoint.channel_id@).response,
{
    let channel_id = channel.endpoint.channel_id;
    store.accounts.remove(channel_id.as_str());
    IbcBasicResponse {
        messages: no_msgs(),
        attributes: two_attrs(attr("action", "ibc_close"), attr("channel_id", channel_id.as_str())),
    }
}

/// Acknowledges an incoming packet with an empty success. The other side
/// is not meant to send any.
pub fn ibc_packet_receive<M>(_packet: &IbcPacket) -> (out: IbcReceiveResponse<M>)
    ensures
        out.acknowledgement@ == rules::empty_ack(),
        out@ == rules::packet_receive::<M>(),
{
    let mut acknowledgement: Vec<u8> = Vec::new();
    acknowledgement.push(0x7bu8);
    acknowledgement.push(0x7du8);
    assert(acknowledgement@ =~= rules::empty_ack());
    IbcReceiveResponse {
        acknowledgement,
        messages: no_msgs(),
        attributes: one_attr(attr("action", "ibc_packet_ack")),
    }
}

/// Handles the acknowledgement of a packet that the relay sent, by the
/// kind of that packet.
pub fn ibc_packet_ack<M>(store: &mut Store, env: &Env, ack: IbcAcknowledgement) -> (out: Result<
    IbcBasicResponse<M>,
    ContractError,
>)
    ensures
        rules::performs(
            out,
            old(store)@,
            final(store)@,
            rules::packet_ack(
                old(store)@,
                env.block.time,
                ack.original_packet.src.channel_id@,
                ack.acknowledgement@,
            ),
        ),
{
    let caller = ack.original_packet.src.channel_id;
    match ack.acknowledgement {
        PacketAck::Dispatch(res) => Ok(acknowledge_dispatch(store, caller, res)),
        PacketAck::WhoAmI(res) => acknowledge_who_am_i(store, caller, res),
        PacketAck::Balances(res) => acknowledge_balances(store, env, caller, res),
    }
}

/// Records the acknowledgement of a dispatch packet, whatever it reports.
pub fn acknowledge_dispatch<M>(
    store: &Store,
    _caller: String,
    _ack: AcknowledgementMsg<DispatchResponse>,
) -> (out: IbcBasicResponse<M>)
    ensures
        out@ == rules::ack_dispatch::<M>(store@).response,
{
    IbcBasicResponse {
        messages: no_msgs(),
        attributes: one_attr(attr("action", "acknowledge_dispatch")),
    }
}

/// Handles the acknowledgement of a who-am-i packet sent over `caller`:
/// the reported address goes on record unless one is there already.
pub fn acknowledge_who_am_i<M>(
    store: &mut Store,
    caller: String,
    ack: AcknowledgementMsg<WhoAmIResponse>,
) -> (out: Result<IbcBasicResponse<M>, ContractError>)
    ensures
        rules::performs(
            out,
            old(store)@,
            final(store)@,
            rules::ack_who_am_i(old(store)@, caller@, ack@),
        ),
{
    let res = match ack {
        AcknowledgementMsg::Success(res) => res,
        AcknowledgementMsg::Failure(e) => {
            return Ok(
                IbcBasicResponse {
                    messages: no_msgs(),
                    attributes: two_attrs(
                        attr("action", "acknowledge_who_am_i"),
                        attr("error", e.as_str()),
                    ),
                },
            );
        },
    };
    let mut acct = match store.accounts.load(caller.as_str()) {
        Some(data) => data.clone(),
        None => {
            return Err(ContractError::InconsistentState);
        },
    };
    if acct.remote_addr.is_none() {
        acct.remote_addr = Some(res.account);
        store.accounts.save(caller, acct);
    } else {
        assert(old(store)@.accounts.insert(caller@, old(store)@.accounts[caller@])
            =~= old(store)@.accounts);
    }
    Ok(
        IbcBasicResponse {
            messages: no_msgs(),
            attributes: one_attr(attr("action", "acknowledge_who_am_i")),
        },
    )
}

/// Handles the acknowledgement of a balances packet sent over `caller`: the
/// report replaces the record, unless it is about another account than the
/// one on record.
pub fn acknowledge_balances<M>(
    store: &mut Store,
    env: &Env,
    caller: String,
    ack: AcknowledgementMsg<BalancesResponse>,
) -> (out: Result<IbcBasicResponse<M>, ContractError>)
    ensures
        rules::performs(
            out,
            old(store)@,
            final(store)@,
            rules::ack_balances(old(store)@, env.block.time, caller@, ack@),
        ),
{
    let res = match ack {
        AcknowledgementMsg::Success(res) => res,
        AcknowledgementMsg::Failure(e) => {
            return Ok(
                IbcBasicResponse {
                    messages: no_msgs(),
                    attributes: two_attrs(
                        attr("action", "acknowledge_balances"),
                        attr("error", e.as_str()),
                    ),
                },
            );
        },
    };
    match store.accounts.load(caller.as_str()) {
        Some(acct) => {
            match &acct.remote_addr {
                Some(old_addr) => {
                    if !(*old_addr == res.account) {
                        return Err(ContractError::RemoteAddressChanged);
                    }
                },
                None => {},
            }
        },
        None => {
            return Err(ContractError::InconsistentState);
        },
    }
    store.accounts.save(
        caller,
        AccountData {
            last_update_time: env.block.time,
            remote_addr: Some(res.account),
            remote_balance: res.balances,
        },
    );
    Ok(
        IbcBasicResponse {
            messages: no_msgs(),
            attributes: one_attr(attr("action", "acknowledge_balances")),
        },
    )
}

/// Records that a packet timed out. Nothing is tried again.
pub fn ibc_packet_timeout<M>(_packet: &IbcPacket) -> (out: IbcBasicResponse<M>)
    ensures
        out@ == rules::packet_timeout::<M>(),
{
    IbcBasicResponse {
        messages: no_msgs(),
        attributes: one_attr(attr("action", "ibc_packet_timeout")),
    }
}

} // verus!
