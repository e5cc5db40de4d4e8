//! Why an invocation of the relay fails.

use vstd::prelude::*;

verus! {

/// The failures of the relay. A failed invocation changes nothing.
#[derive(Clone, Copy, Debug, PartialEq, Eq, Structural)]
pub enum ContractError {
    /// A privileged operation was asked for by someone other than the administrator.
    Unauthorized,
    /// The channel has no record in the registry.
    NotFound,
    /// The channel proposed in the handshake is not ordered.
    OrderMismatch,
    /// A version proposed in the handshake is not the protocol version.
    VersionMismatch,
    /// A transfer was asked for without any coin attached.
    EmptyFunds,
    /// A transfer was asked for with more than one coin attached.
    MultipleDenominations,
    /// The address of the remote account has not been learned yet.
    RemoteAddressUnknown,
    /// A balance report names another remote account than the one on record.
    RemoteAddressChanged,
    /// A successful acknowledgement arrived for a channel without a record.
    InconsistentState,
}

} // verus!
