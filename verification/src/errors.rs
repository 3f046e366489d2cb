//! Errors of a single Wake-on-LAN transmission.

use vstd::prelude::*;

verus! {

/// Why binding the local datagram socket failed.
#[derive(Clone, Copy, Debug, PartialEq, Eq, Structural)]
pub enum BindErrorKind {
    /// The local port asked for was zero.
    Unaddressable,
    /// The socket was already bound.
    InvalidState,
    /// The operating system refused to hand out the socket.
    Refused,
}

/// Why sending the packet failed.
#[derive(Clone, Copy, Debug, PartialEq, Eq, Structural)]
pub enum SendErrorKind {
    /// The destination address or port cannot be sent to.
    Unaddressable,
    /// The transmit buffer has no room for the packet.
    BufferFull,
    /// The transport accepted fewer bytes than the payload holds.
    Truncated,
    /// The transport refused the send outright.
    Refused,
}

/// An error of a single Wake-on-LAN transmission. Every error is fatal to
/// the one operation; none is retried.
#[derive(Clone, Copy, Debug, PartialEq, Eq, Structural)]
pub enum Error {
    /// The local datagram socket could not be acquired or bound.
    BindError(BindErrorKind),
    /// Broadcast delivery could not be enabled on the socket.
    ConfigurationError,
    /// The socket could not be associated with the destination.
    ConnectError,
    /// The send failed or wrote fewer bytes than the payload length.
    SendError(SendErrorKind),
}

} // verus!
