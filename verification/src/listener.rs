//! One bind: its state, and what it answers to each thing that happens to it.
use vstd::prelude::*;
use crate::error::Error;
use crate::message::Address;
use crate::message::Message;
use crate::socket::Input;
use crate::socket::Socket;
use crate::socket::State as SocketState;

verus! {

/// Where a listener stands in its life.
#[derive(Debug, Clone, Copy, PartialEq, Eq, Structural)]
pub enum State {
    /// Created; the bind has not been tried yet.
    Binding,
    /// Bound; connections are accepted.
    Done,
    /// The bind failed. The listener never binds.
    Fatal,
    /// The bind was given up, on request or at shutdown.
    Unbound,
}

/// The state of one bind.
#[derive(Debug, PartialEq, Eq)]
pub struct Listener {
    pub id: u64,
    pub addr: Address,
    pub state: State,
}

impl Listener {
    /// A listener that has yet to bind `addr`.
    pub fn new(id: u64, addr: Address) -> (listener: Listener)
        ensures
            listener == (Listener { id, addr, state: State::Binding }),
    {
        Listener { id, addr, state: State::Binding }
    }

    /// The listener in another state, all else equal.
    pub open spec fn at(&self, state: State) -> Listener {
        Listener { id: self.id, addr: self.addr, state }
    }

    /// Takes in how the bind went. A `Binding` listener becomes `Done` on
    /// success; on failure it becomes `Fatal` and raises the one
    /// `ListenFatal` message of its life. In any other state nothing
    /// changes and nothing is raised.
    pub fn bind(&mut self, result: Result<(), Error>) -> (message: Option<Message>)
        ensures
            !(old(self).state is Binding) ==> *final(self) == *old(self) && message.is_none(),
            old(self).state is Binding ==> match result {
                Ok(_) => *final(self) == old(self).at(State::Done) && message.is_none(),
                Err(err) => *final(self) == old(self).at(State::Fatal) && message == Some(
                    Message::ListenFatal(old(self).id, err),
                ),
            },
    {
        match self.state {
            State::Binding => match result {
                Ok(_) => {
                    self.state = State::Done;
                    None
                },
                Err(err) => {
                    self.state = State::Fatal;
                    Some(Message::ListenFatal(self.id, err))
                },
            },
            _ => None,
        }
    }

    /// Attaches an inbound stream with the given addresses to `socket`.
    /// A `Done` listener drives the socket's accept path and, where that
    /// made the socket `Done`, raises `ConnectDone` in its own name. A
    /// listener in any other state leaves the socket alone.
    pub fn accept(&self, socket: &mut Socket, local: Option<Address>, peer: Option<Address>) -> (message:
        Option<Message>)
        ensures
            self.state is Done ==> *final(socket) == old(socket).step(
                Input::Accepted(local, peer),
            ).0,
            !(self.state is Done) ==> *final(socket) == *old(socket),
            self.state is Done && old(socket).state is Connecting ==> message == Some(
                Message::ConnectDone(Some(self.id), old(socket).id),
            ),
            !(self.state is Done && old(socket).state is Connecting) ==> message.is_none(),
    {
        match self.state {
            State::Done => {
                let fresh = match socket.state {
                    SocketState::Connecting => true,
                    _ => false,
                };
                let _ = socket.accept(local, peer);
                if fresh {
                    Some(Message::ConnectDone(Some(self.id), socket.id))
                } else {
                    None
                }
            },
            _ => None,
        }
    }

    /// Gives the bind up, on the application's request or at shutdown.
    /// Only a `Done` listener has a bind to give up: it becomes `Unbound`
    /// and the answer is `true`, which tells the caller to return the
    /// listener's permit. In any other state nothing changes.
    pub fn close(&mut self) -> (released: bool)
        ensures
            released == (old(self).state is Done),
            old(self).state is Done ==> *final(self) == old(self).at(State::Unbound),
            !(old(self).state is Done) ==> *final(self) == *old(self),
    {
        match self.state {
            State::Done => {
                self.state = State::Unbound;
                true
            },
            _ => false,
        }
    }
}

} // verus!
