//! What the host tells the relay about the invocation at hand.

use vstd::prelude::*;
use crate::coin::Coin;

verus! {

/// The block in which the invocation runs.
#[derive(Clone, Copy, Debug, PartialEq, Eq)]
pub struct BlockInfo {
    pub height: u64,
    /// Block time in seconds.
    pub time: u64,
}

/// The environment of one invocation.
#[derive(Clone, Copy, Debug, PartialEq, Eq)]
pub struct Env {
    pub block: BlockInfo,
}

/// Who invokes a command, and the coins attached to it.
#[derive(Debug)]
pub struct MessageInfo {
    pub sender: String,
    pub sent_funds: Vec<Coin>,
}

} // verus!
