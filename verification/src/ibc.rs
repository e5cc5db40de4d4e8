//! Channels, and the messages that the relay hands to the channel layer.

use vstd::prelude::*;
use crate::coin::{Coin, CoinModel};
use crate::ibc_msg::{PacketAck, PacketModel, PacketMsg};

verus! {

/// Whether a channel delivers packets in the order they were sent.
#[derive(Clone, Copy, Debug, PartialEq, Eq, Structural)]
pub enum IbcOrder {
    Unordered,
    Ordered,
}

/// One end of a channel.
#[derive(Debug)]
pub struct IbcEndpoint {
    pub port_id: String,
    pub channel_id: String,
}

/// A channel as the handshake presents it.
#[derive(Debug)]
pub struct IbcChannel {
    pub endpoint: IbcEndpoint,
    pub counterparty_endpoint: IbcEndpoint,
    pub order: IbcOrder,
    pub version: String,
    /// The version that the other side proposed, once it has proposed one.
    pub counterparty_version: Option<String>,
    pub connection_id: String,
}

/// A packet as it travels over a channel. The relay never reads `data` here:
/// what matters of a packet it sent comes with the acknowledgement.
#[derive(Debug)]
pub struct IbcPacket {
    pub data: Vec<u8>,
    pub src: IbcEndpoint,
    pub dest: IbcEndpoint,
    pub sequence: u64,
}

/// An acknowledgement as the host delivers it: the packet that was sent,
/// and what came back for it.
#[derive(Debug)]
pub struct IbcAcknowledgement {
    pub acknowledgement: PacketAck,
    pub original_packet: IbcPacket,
}

/// Expiry of a packet by block height.
#[derive(Clone, Copy, Debug, PartialEq, Eq, Structural)]
pub struct IbcTimeoutBlock {
    pub revision: u64,
    pub height: u64,
}

/// A request to the channel layer. `M` is the type of the application
/// messages that a dispatch packet carries.
#[derive(Debug, PartialEq, Eq)]
pub enum IbcMsg<M> {
    /// Move `amount` to `to_address` on the other ledger.
    Transfer {
        channel_id: String,
        to_address: String,
        amount: Coin,
        timeout_block: Option<IbcTimeoutBlock>,
        timeout_timestamp: Option<u64>,
    },
    /// Send the packet `data` over the channel.
    SendPacket {
        channel_id: String,
        data: PacketMsg<M>,
        timeout_block: Option<IbcTimeoutBlock>,
        timeout_timestamp: Option<u64>,
    },
}

/// The mathematical value of an [`IbcMsg`].
pub enum IbcMsgModel<M> {
    Transfer {
        channel_id: Seq<char>,
        to_address: Seq<char>,
        amount: CoinModel,
        timeout_block: Option<IbcTimeoutBlock>,
        timeout_timestamp: Option<u64>,
    },
    SendPacket {
        channel_id: Seq<char>,
        data: PacketModel<M>,
        timeout_block: Option<IbcTimeoutBlock>,
        timeout_timestamp: Option<u64>,
    },
}

impl<M> View for IbcMsg<M> {
    type V = IbcMsgModel<M>;

    open spec fn view(&self) -> IbcMsgModel<M> {
        match *self {
            IbcMsg::Transfer { channel_id, to_address, amount, timeout_block, timeout_timestamp } => {
                IbcMsgModel::Transfer {
                    channel_id: channel_id@,
                    to_address: to_address@,
                    amount: amount@,
                    timeout_block,
                    timeout_timestamp,
                }
            },
            IbcMsg::SendPacket { channel_id, data, timeout_block, timeout_timestamp } => {
                IbcMsgModel::SendPacket {
                    channel_id: channel_id@,
                    data: data@,
                    timeout_block,
                    timeout_timestamp,
                }
            },
        }
    }
}

/// The values of a list of requests, in order.
pub open spec fn msgs_model<M>(msgs: Seq<IbcMsg<M>>) -> Seq<IbcMsgModel<M>> {
    Seq::new(msgs.len(), |i: int| msgs[i]@)
}

} // verus!
