//! What holds of the rules of the relay, whatever the store and the inputs.

use vstd::prelude::*;
use crate::coin::CoinModel;
use crate::error::ContractError;
use crate::ibc::IbcOrder;
use crate::ibc_msg::{AckModel, BalancesModel, PacketModel, WhoAmIModel};
use crate::rules::{
    account, ack_balances, ack_who_am_i, channel_close, channel_connect, channel_open,
    check_remote_balance, fails_with, init, packet, run, send_funds, send_msgs, state_after, step, transfer,
    Event, IBC_VERSION,
};
use crate::state::{AccountModel, StoreModel};

verus! {

/// For a channel without a record, a dispatch and a balance request by the
/// administrator, and a transfer with exactly one coin attached, all fail
/// because the channel is not found.
pub proof fn law_unknown_channel_not_found<M>(
    s: StoreModel,
    now: u64,
    channel_id: Seq<char>,
    msgs: Seq<M>,
    coin: CoinModel,
    transfer_channel_id: Seq<char>,
)
    requires
        !s.accounts.contains_key(channel_id),
    ensures
        fails_with(send_msgs(s, now, s.admin, channel_id, msgs), ContractError::NotFound),
        fails_with(
            check_remote_balance::<M>(s, now, s.admin, channel_id),
            ContractError::NotFound,
        ),
        fails_with(
            send_funds::<M>(s, now, seq![coin], channel_id, transfer_channel_id),
            ContractError::NotFound,
        ),
{
}

/// `events[at]` connects `channel_id`, and nothing after it closes that channel.
pub open spec fn connected_since(events: Seq<Event>, channel_id: Seq<char>, at: int) -> bool {
    &&& 0 <= at < events.len()
    &&& events[at] matches Event::Connect { channel_id: id, .. } && id == channel_id
    &&& forall|j: int|
        at < j < events.len() ==> !(#[trigger] events[j] matches Event::Close { channel_id: id }
            && id == channel_id)
}

/// After any run of events on a relay that has just been set up, a channel
/// has a record if and only if it was connected and not closed since.
pub proof fn law_record_iff_connected(admin: Seq<char>, events: Seq<Event>, channel_id: Seq<char>)
    ensures
        run(init::<()>(admin).state, events).accounts.contains_key(channel_id) <==> exists|at: int|
            connected_since(events, channel_id, at),
    decreases events.len(),
{
    let s0 = init::<()>(admin).state;
    if events.len() == 0 {
    } else {
        let before = events.drop_last();
        let last = events.last();
        let n = events.len() - 1;
        law_record_iff_connected(admin, before, channel_id);
        let had = run(s0, before).accounts.contains_key(channel_id);
        let has = run(s0, events).accounts.contains_key(channel_id);
        let closes = last matches Event::Close { channel_id: id } && id == channel_id;
        let connects = last matches Event::Connect { channel_id: id, .. } && id == channel_id;
        assert(has <==> (connects || (had && !closes)));
        if has {
            if connects {
                assert(connected_since(events, channel_id, n));
            } else {
                let at = choose|at: int| connected_since(before, channel_id, at);
                assert forall|j: int| at < j < events.len() implies !(#[trigger] events[j] matches Event::Close {
                    channel_id: id,
                } && id == channel_id) by {
                    if j < n {
                        assert(events[j] == before[j]);
                    }
                }
                assert(events[at] == before[at]);
                assert(connected_since(events, channel_id, at));
            }
        }
        if exists|at: int| connected_since(events, channel_id, at) {
            let at = choose|at: int| connected_since(events, channel_id, at);
            if at < n {
                assert(events[at] == before[at]);
                assert forall|j: int| at < j < before.len() implies !(#[trigger] before[j] matches Event::Close {
                    channel_id: id,
                } && id == channel_id) by {
                    assert(events[j] == before[j]);
                }
                assert(connected_since(before, channel_id, at));
                assert(!closes);
            }
        }
    }
}

/// After any run of events on a relay that has just been set up, a channel
/// that no event of the run connected has no record, so that the dispatcher
/// does not find it.
pub proof fn law_never_connected_not_found<M>(
    admin: Seq<char>,
    events: Seq<Event>,
    now: u64,
    channel_id: Seq<char>,
    msgs: Seq<M>,
    coin: CoinModel,
    transfer_channel_id: Seq<char>,
)
    requires
        forall|i: int|
            0 <= i < events.len() ==> !(#[trigger] events[i] matches Event::Connect {
                channel_id: id,
                ..
            } && id == channel_id),
    ensures
        ({
            let s = run(init::<()>(admin).state, events);
            &&& fails_with(send_msgs(s, now, s.admin, channel_id, msgs), ContractError::NotFound)
            &&& fails_with(
                check_remote_balance::<M>(s, now, s.admin, channel_id),
                ContractError::NotFound,
            )
            &&& fails_with(
                send_funds::<M>(s, now, seq![coin], channel_id, transfer_channel_id),
                ContractError::NotFound,
            )
        }),
{
    law_record_iff_connected(admin, events, channel_id);
    assert forall|at: int| !connected_since(events, channel_id, at) by {
        if 0 <= at < events.len() {
            assert(!(events[at] matches Event::Connect { channel_id: id, .. } && id == channel_id));
        }
    }
}

/// The handshake refuses every channel that is not ordered and every
/// version but the protocol version, on either side; it accepts an ordered
/// channel with the protocol version on this side and no other version on
/// the other side.
pub proof fn law_handshake(
    order: IbcOrder,
    version: Seq<char>,
    counterparty_version: Option<Seq<char>>,
)
    ensures
        order != IbcOrder::Ordered ==> fails_with(
            channel_open(order, version, counterparty_version),
            ContractError::OrderMismatch,
        ),
        version != IBC_VERSION@ ==> channel_open(order, version, counterparty_version) is Err,
        counterparty_version is Some && counterparty_version->0 != IBC_VERSION@ ==> channel_open(
            order,
            version,
            counterparty_version,
        ) is Err,
        order == IbcOrder::Ordered && version == IBC_VERSION@ && (counterparty_version is None
            || counterparty_version == Some(IBC_VERSION@)) ==> channel_open(
            order,
            version,
            counterparty_version,
        ) is Ok,
        channel_open(order, version, counterparty_version) is Ok ==> order == IbcOrder::Ordered
            && version == IBC_VERSION@,
{
}

/// A channel that has just been connected has a fresh record, whatever
/// record it had before, and exactly one packet was sent for it: a request
/// to tell who the other side is, over that channel, expiring by time.
pub proof fn law_connect_starts_afresh<M>(s: StoreModel, now: u64, channel_id: Seq<char>)
    ensures
        ({
            let outcome = channel_connect::<M>(s, now, channel_id);
            &&& account(outcome.state, channel_id) == Ok::<AccountModel, ContractError>(
                AccountModel::fresh(),
            )
            &&& outcome.response.messages == seq![packet(channel_id, PacketModel::<M>::WhoAmI, now)]
            &&& outcome.state.admin == s.admin
            &&& forall|other: Seq<char>|
                other != channel_id ==> account(outcome.state, other) == account(s, other)
        }),
{
}

/// The first address that is reported for a channel goes on record.
pub proof fn law_first_address_is_taken<M>(
    s: StoreModel,
    now: u64,
    channel_id: Seq<char>,
    first: Seq<char>,
)
    ensures
        ({
            let connected = channel_connect::<M>(s, now, channel_id).state;
            let told = ack_who_am_i::<M>(
                connected,
                channel_id,
                AckModel::Success(WhoAmIModel { account: first }),
            );
            &&& told is Ok
            &&& account(told->Ok_0.state, channel_id) == Ok::<AccountModel, ContractError>(
                AccountModel { remote_addr: Some(first), ..AccountModel::fresh() },
            )
        }),
{
}

/// An address on record stays when another who-am-i acknowledgement
/// arrives: the store is left exactly as it was.
pub proof fn law_known_address_stays<M>(
    s: StoreModel,
    channel_id: Seq<char>,
    known: Seq<char>,
    later: Seq<char>,
)
    requires
        s.accounts.contains_key(channel_id),
        s.accounts[channel_id].remote_addr == Some(known),
    ensures
        ({
            let told = ack_who_am_i::<M>(
                s,
                channel_id,
                AckModel::Success(WhoAmIModel { account: later }),
            );
            &&& told is Ok
            &&& told->Ok_0.state == s
        }),
{
    assert(s.accounts.insert(channel_id, s.accounts[channel_id]) =~= s.accounts);
}

/// Of two addresses reported one after the other for a channel that has
/// just been connected, the first one is on record in the end.
pub proof fn law_first_write_wins<M>(
    s: StoreModel,
    now: u64,
    channel_id: Seq<char>,
    first: Seq<char>,
    second: Seq<char>,
)
    ensures
        ({
            let connected = channel_connect::<M>(s, now, channel_id).state;
            let once = ack_who_am_i::<M>(
                connected,
                channel_id,
                AckModel::Success(WhoAmIModel { account: first }),
            );
            let twice = ack_who_am_i::<M>(
                state_after(connected, once),
                channel_id,
                AckModel::Success(WhoAmIModel { account: second }),
            );
            &&& once is Ok
            &&& twice is Ok
            &&& twice->Ok_0.state.accounts[channel_id].remote_addr == Some(first)
            &&& twice->Ok_0.state == once->Ok_0.state
        }),
{
    let connected = channel_connect::<M>(s, now, channel_id).state;
    let once = ack_who_am_i::<M>(
        connected,
        channel_id,
        AckModel::Success(WhoAmIModel { account: first }),
    );
    law_known_address_stays::<M>(once->Ok_0.state, channel_id, first, second);
}

/// A balance report for another account than the one on record is refused,
/// and the store stays as it was. A report for the account on record is
/// accepted: it keeps the address and replaces balances and time.
pub proof fn law_balances_consistency<M>(
    s: StoreModel,
    now: u64,
    channel_id: Seq<char>,
    known: Seq<char>,
    reported: Seq<char>,
    balances: Seq<CoinModel>,
)
    requires
        s.accounts.contains_key(channel_id),
        s.accounts[channel_id].remote_addr == Some(known),
    ensures
        ({
            let result = ack_balances::<M>(
                s,
                now,
                channel_id,
                AckModel::Success(BalancesModel { account: reported, balances }),
            );
            &&& reported != known ==> fails_with(result, ContractError::RemoteAddressChanged)
                && state_after(s, result) == s
            &&& reported == known ==> result is Ok && account(result->Ok_0.state, channel_id)
                == Ok::<AccountModel, ContractError>(
                AccountModel {
                    last_update_time: now as nat,
                    remote_addr: Some(known),
                    remote_balance: balances,
                },
            )
        }),
{
}

/// A transfer fails without a coin, with more than one coin, and for a
/// channel whose remote address is not known yet. With one coin and a known
/// remote address it sends exactly one transfer, of that coin, to that
/// address, over the transfer channel.
pub proof fn law_send_funds<M>(
    s: StoreModel,
    now: u64,
    funds: Seq<CoinModel>,
    reflect_channel_id: Seq<char>,
    transfer_channel_id: Seq<char>,
)
    ensures
        ({
            let result = send_funds::<M>(s, now, funds, reflect_channel_id, transfer_channel_id);
            let registered = s.accounts.contains_key(reflect_channel_id);
            let addr = s.accounts[reflect_channel_id].remote_addr;
            &&& funds.len() == 0 ==> fails_with(result, ContractError::EmptyFunds)
            &&& funds.len() > 1 ==> fails_with(result, ContractError::MultipleDenominations)
            &&& funds.len() == 1 && registered && addr is None ==> fails_with(
                result,
                ContractError::RemoteAddressUnknown,
            )
            &&& funds.len() == 1 && registered && addr is Some ==> result is Ok
                && result->Ok_0.messages == seq![
                transfer::<M>(transfer_channel_id, addr->0, funds[0], now),
            ]
            &&& result is Ok ==> funds.len() == 1 && registered && addr is Some
        }),
{
}

/// A channel that has just been closed has no record: a query for its
/// account fails because the channel is not found. Other channels keep
/// their records.
pub proof fn law_close_forgets<M>(s: StoreModel, channel_id: Seq<char>)
    ensures
        ({
            let outcome = channel_close::<M>(s, channel_id);
            &&& fails_with(account(outcome.state, channel_id), ContractError::NotFound)
            &&& outcome.response.messages.len() == 0
            &&& forall|other: Seq<char>|
                other != channel_id ==> account(outcome.state, other) == account(s, other)
        }),
{
}

/// An acknowledgement that reports a failure of the other side is accepted
/// and changes nothing, whether or not the channel has a record.
pub proof fn law_remote_failure_is_recorded_only<M>(
    s: StoreModel,
    now: u64,
    caller: Seq<char>,
    reason: Seq<char>,
)
    ensures
        ack_who_am_i::<M>(s, caller, AckModel::Failure(reason)) is Ok,
        state_after(s, ack_who_am_i::<M>(s, caller, AckModel::Failure(reason))) == s,
        ack_balances::<M>(s, now, caller, AckModel::Failure(reason)) is Ok,
        state_after(s, ack_balances::<M>(s, now, caller, AckModel::Failure(reason))) == s,
{
}

/// The channel that an event is about, where it is about one.
pub open spec fn channel_of(event: Event) -> Option<Seq<char>> {
    match event {
        Event::Connect { channel_id, .. } => Some(channel_id),
        Event::Close { channel_id } => Some(channel_id),
        Event::UpdateAdmin { .. } => None,
        Event::Acknowledge { caller, .. } => Some(caller),
    }
}

/// An event leaves the records of all channels but its own as they were.
pub proof fn law_events_are_local(s: StoreModel, event: Event, other: Seq<char>)
    requires
        channel_of(event) != Some(other),
    ensures
        account(step(s, event), other) == account(s, other),
{
}

/// Only the administrator changes the administrator: after any event, the
/// administrator is who it was, unless the event is the administrator's
/// own request to hand over, and then it is who was named.
pub proof fn law_admin_changes_by_admin_only(s: StoreModel, event: Event)
    ensures
        step(s, event).admin == if event matches Event::UpdateAdmin { sender, new_admin } && sender
            == s.admin {
            event->new_admin
        } else {
            s.admin
        },
{
}

/// An address on record is final for as long as the channel stays
/// connected: no acknowledgement replaces it by another.
pub proof fn law_known_address_is_final(s: StoreModel, event: Event, channel_id: Seq<char>, known: Seq<char>)
    requires
        s.accounts.contains_key(channel_id),
        s.accounts[channel_id].remote_addr == Some(known),
        !(event is Connect),
        !(event is Close),
    ensures
        step(s, event).accounts.contains_key(channel_id),
        step(s, event).accounts[channel_id].remote_addr == Some(known),
{
}

/// Records come and go by the handshake only: an event that neither
/// connects nor closes leaves every channel with a record if and only if
/// it had one.
pub proof fn law_records_follow_the_handshake(s: StoreModel, event: Event, channel_id: Seq<char>)
    requires
        !(event is Connect),
        !(event is Close),
    ensures
        step(s, event).accounts.contains_key(channel_id) == s.accounts.contains_key(channel_id),
{
}

} // verus!
