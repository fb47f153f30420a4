//! What travels from the connection tasks to the caller's dispatch loop.
use vstd::prelude::*;
use bytes::Bytes;
use crate::error::Error;

verus! {

/// The address of one end of a connection.
#[derive(Debug, Clone, Copy, PartialEq, Eq, Structural)]
pub enum Address {
    /// The bits of an IPv4 address, and the port.
    V4(u32, u16),
    /// The bits of an IPv6 address, the port, the flow information and the
    /// scope.
    V6(u128, u16, u32, u32),
}

/// An event raised by a listener or a socket. Listeners and sockets are
/// named by the numbers that the component gave them.
#[derive(Debug, PartialEq, Eq)]
pub enum Message {
    /// The listener could not bind.
    ListenFatal(u64, Error),
    /// The outbound connection could not be opened.
    ConnectFatal(u64, Error),
    /// A connection is live: accepted by the listener if one is named,
    /// opened by the component otherwise.
    ConnectDone(Option<u64>, u64),
    /// One whole frame arrived on the socket.
    ReceiveDone(u64, Bytes),
    /// The live connection ended with an error.
    ConnectAbort(u64, Error),
    /// The live connection ended.
    ConnectTerminate(u64),
}

impl Message {
    /// Whether the message reports the end of a live connection.
    pub open spec fn closes(&self) -> bool {
        self is ConnectAbort || self is ConnectTerminate
    }

    /// The socket that the message is about, if it is about one.
    pub open spec fn socket(&self) -> Option<u64> {
        match self {
            Message::ListenFatal(_, _) => None,
            Message::ConnectFatal(s, _) => Some(*s),
            Message::ConnectDone(_, s) => Some(*s),
            Message::ReceiveDone(s, _) => Some(*s),
            Message::ConnectAbort(s, _) => Some(*s),
            Message::ConnectTerminate(s) => Some(*s),
        }
    }
}

} // verus!
