//! The packets that the relay sends, and the acknowledgements that answer them.

use vstd::prelude::*;
use crate::coin::{coins_model, Coin, CoinModel};

verus! {

/// What the relay asks of the other side.
#[derive(Debug, PartialEq, Eq)]
pub enum PacketMsg<M> {
    /// Execute these messages from the remote account.
    Dispatch { msgs: Vec<M> },
    /// Tell the address of the remote account.
    WhoAmI {},
    /// Tell the balances of the remote account.
    Balances {},
}

/// The mathematical value of a [`PacketMsg`].
pub enum PacketModel<M> {
    Dispatch { msgs: Seq<M> },
    WhoAmI,
    Balances,
}

impl<M> View for PacketMsg<M> {
    type V = PacketModel<M>;

    open spec fn view(&self) -> PacketModel<M> {
        match *self {
            PacketMsg::Dispatch { msgs } => PacketModel::Dispatch { msgs: msgs@ },
            PacketMsg::WhoAmI {} => PacketModel::WhoAmI,
            PacketMsg::Balances {} => PacketModel::Balances,
        }
    }
}

/// The outcome that an acknowledgement reports: the answer, or the reason
/// why the other side could not give one.
#[derive(Debug, PartialEq, Eq)]
pub enum AcknowledgementMsg<T> {
    Success(T),
    Failure(String),
}

/// The mathematical value of an [`AcknowledgementMsg`].
pub enum AckModel<T> {
    Success(T),
    Failure(Seq<char>),
}

impl<T: View> View for AcknowledgementMsg<T> {
    type V = AckModel<T::V>;

    open spec fn view(&self) -> AckModel<T::V> {
        match *self {
            AcknowledgementMsg::Success(answer) => AckModel::Success(answer@),
            AcknowledgementMsg::Failure(reason) => AckModel::Failure(reason@),
        }
    }
}

/// The answer to a dispatch packet.
pub type DispatchResponse = ();

/// The answer to a who-am-i packet.
#[derive(Debug, PartialEq, Eq)]
pub struct WhoAmIResponse {
    pub account: String,
}

/// The mathematical value of a [`WhoAmIResponse`].
pub struct WhoAmIModel {
    pub account: Seq<char>,
}

impl View for WhoAmIResponse {
    type V = WhoAmIModel;

    open spec fn view(&self) -> WhoAmIModel {
        WhoAmIModel { account: self.account@ }
    }
}

/// The answer to a balances packet.
#[derive(Debug, PartialEq, Eq)]
pub struct BalancesResponse {
    pub account: String,
    pub balances: Vec<Coin>,
}

/// The mathematical value of a [`BalancesResponse`].
pub struct BalancesModel {
    pub account: Seq<char>,
    pub balances: Seq<CoinModel>,
}

impl View for BalancesResponse {
    type V = BalancesModel;

    open spec fn view(&self) -> BalancesModel {
        BalancesModel { account: self.account@, balances: coins_model(self.balances@) }
    }
}

/// An acknowledgement together with the kind of packet that it answers.
#[derive(Debug, PartialEq, Eq)]
pub enum PacketAck {
    Dispatch(AcknowledgementMsg<DispatchResponse>),
    WhoAmI(AcknowledgementMsg<WhoAmIResponse>),
    Balances(AcknowledgementMsg<BalancesResponse>),
}

/// The mathematical value of a [`PacketAck`].
pub enum PacketAckModel {
    Dispatch(AckModel<()>),
    WhoAmI(AckModel<WhoAmIModel>),
    Balances(AckModel<BalancesModel>),
}

impl View for PacketAck {
    type V = PacketAckModel;

    open spec fn view(&self) -> PacketAckModel {
        match *self {
            PacketAck::Dispatch(ack) => PacketAckModel::Dispatch(ack@),
            PacketAck::WhoAmI(ack) => PacketAckModel::WhoAmI(ack@),
            PacketAck::Balances(ack) => PacketAckModel::Balances(ack@),
        }
    }
}

} // verus!
