//! The caller's side of a component: admission of new listeners and
//! sockets, the queue of commands for the runtime, and dispatch.
use vstd::prelude::*;
use std::sync::Arc;
use tokio::sync::mpsc::Receiver;
use tokio::sync::mpsc::Sender;
use tokio::sync::Semaphore;
use crate::channel::available_permits;
use crate::channel::try_send;
use crate::channel::Offer;
use crate::dispatcher::calls_of_all;
use crate::dispatcher::drain;
use crate::dispatcher::Call;
use crate::dispatcher::Dispatcher;
use crate::error::Error;
use crate::framer::Framer;
use crate::message::Address;
use crate::message::Message;

verus! {

/// A command for the runtime.
#[derive(Debug, PartialEq, Eq)]
pub enum Event {
    /// Bind the address for the listener of the given number.
    Listen(u64, Address),
    /// Open a stream to the address for the socket of the given number.
    Connect(Address, u64),
}

/// The two pools of permits.
#[derive(Debug, Clone, Copy, PartialEq, Eq, Structural)]
pub enum Kind {
    Listener,
    Socket,
}

impl Event {
    /// The pool that the command's permit is drawn from: a bind needs a
    /// listener permit, a connection a socket permit.
    pub open spec fn pool(&self) -> Kind {
        match self {
            Event::Listen(_, _) => Kind::Listener,
            Event::Connect(_, _) => Kind::Socket,
        }
    }

    /// The pool that the command's permit is drawn from.
    pub fn kind(&self) -> (kind: Kind)
        ensures
            kind == self.pool(),
    {
        match self {
            Event::Listen(_, _) => Kind::Listener,
            Event::Connect(_, _) => Kind::Socket,
        }
    }
}

/// The text of the error that an empty pool of the given kind is reported
/// with.
pub open spec fn exhausted_text(kind: Kind) -> Seq<char> {
    match kind {
        Kind::Listener => "listener available permit is not enough"@,
        Kind::Socket => "socket available permit is not enough"@,
    }
}

/// The text of the error that a queue nobody reads is reported with.
pub open spec fn closed_text() -> Seq<char> {
    "channel closed"@
}

/// Decides on admission from the number of free permits: with none free the
/// request is rejected at once.
pub fn admission(free: usize, kind: Kind) -> (r: Result<(), Error>)
    ensures
        free > 0 ==> r is Ok,
        free == 0 ==> r is Err && r.unwrap_err() is Module && r.unwrap_err().text()
            == exhausted_text(kind),
{
    if free == 0 {
        match kind {
            Kind::Listener => Err(Error::module("listener available permit is not enough")),
            Kind::Socket => Err(Error::module("socket available permit is not enough")),
        }
    } else {
        Ok(())
    }
}

/// Whether a pool made with `capacity` permits has all of them back, as it
/// must before the runtime may leave at shutdown.
pub fn settled(free: usize, capacity: usize) -> (b: bool)
    ensures
        b == (free == capacity),
{
    free == capacity
}

/// Reads what became of a command that was offered to the runtime's queue
/// without waiting: taken, the request is under way; full, the command
/// comes back for the caller to enqueue once there is room; closed, the
/// request fails.
pub fn submitted(offer: Offer<Event>) -> (r: Result<Option<Event>, Error>)
    ensures
        match offer {
            Offer::Taken => r == Ok::<Option<Event>, Error>(None),
            Offer::Full(event) => r == Ok::<Option<Event>, Error>(Some(event)),
            Offer::Closed(_) => r is Err && r.unwrap_err() is Module && r.unwrap_err().text()
                == closed_text(),
        },
{
    match offer {
        Offer::Taken => Ok(None),
        Offer::Full(event) => Ok(Some(event)),
        Offer::Closed(_) => Err(Error::module("channel closed")),
    }
}

/// The root of the framework, as the caller's thread sees it.
pub struct DefaultComponent<F: Framer, D: Dispatcher> {
    dispatches: usize,
    socket_events: usize,
    framer: F,
    messages: Receiver<Message>,
    events: Sender<Event>,
    listeners: Arc<Semaphore>,
    sockets: Arc<Semaphore>,
    dispatcher: D,
    closed: bool,
}

impl<F: Framer, D: Dispatcher> DefaultComponent<F, D> {
    /// Whether the component was closed.
    pub closed spec fn closed(&self) -> bool {
        self.closed
    }

    /// The most messages that one dispatch hands over.
    pub closed spec fn batch(&self) -> usize {
        self.dispatches
    }

    /// The capacity of a socket's queue of commands.
    pub closed spec fn socket_queue(&self) -> usize {
        self.socket_events
    }

    /// The framer that the component's sockets use.
    pub closed spec fn framing(&self) -> F {
        self.framer
    }

    /// The calls made on the component's dispatcher so far.
    pub closed spec fn calls(&self) -> Seq<Call> {
        self.dispatcher.calls()
    }

    /// Whether the two components have the same options and are both open
    /// or both closed.
    pub open spec fn same_setup(&self, other: &Self) -> bool {
        &&& self.closed() == other.closed()
        &&& self.batch() == other.batch()
        &&& self.socket_queue() == other.socket_queue()
        &&& self.framing() == other.framing()
    }

    /// An open component over the given queues and pools: the receiving end
    /// of the message queue, the sending end of the runtime's command
    /// queue, and the pools of listener and socket permits.
    pub fn new(
        dispatches: usize,
        socket_events: usize,
        framer: F,
        dispatcher: D,
        messages: Receiver<Message>,
        events: Sender<Event>,
        listeners: Arc<Semaphore>,
        sockets: Arc<Semaphore>,
    ) -> (component: Self)
        ensures
            !component.closed(),
            component.batch() == dispatches,
            component.socket_queue() == socket_events,
            component.framing() == framer,
            component.calls() == dispatcher.calls(),
    {
        DefaultComponent {
            dispatches,
            socket_events,
            framer,
            messages,
            events,
            listeners,
            sockets,
            dispatcher,
            closed: false,
        }
    }

    /// Asks the runtime for what `command` names, under the admission rule
    /// of the command's pool.
    fn submit(&mut self, command: Event) -> (r: Result<Option<Event>, Error>)
        ensures
            final(self).same_setup(old(self)),
            final(self).calls() == old(self).calls(),
            old(self).closed() ==> r is Err && r.unwrap_err().text() == closed_text(),
            match r {
                Ok(backlog) => backlog.is_none() || backlog == Some(command),
                Err(err) => err is Module && (err.text() == closed_text() || err.text()
                    == exhausted_text(command.pool())),
            },
    {
        if self.closed {
            return Err(Error::module("channel closed"));
        }
        let kind = command.kind();
        let free: usize = match kind {
            Kind::Listener => available_permits(&self.listeners),
            Kind::Socket => available_permits(&self.sockets),
        };
        match admission(free, kind) {
            Err(err) => Err(err),
            Ok(_) => submitted(try_send(&self.events, command)),
        }
    }

    /// Asks for the listener of the given number to be bound to `addr`.
    ///
    /// The request is rejected at once when the component is closed, when
    /// no listener permit is free at the moment of the call, or when the
    /// runtime no longer reads its queue. Otherwise the command to bind is
    /// offered to the runtime's queue; if the queue is full, the command
    /// comes back for the caller to enqueue once there is room.
    pub fn listen(&mut self, listener: u64, addr: Address) -> (r: Result<Option<Event>, Error>)
        ensures
            final(self).same_setup(old(self)),
            final(self).calls() == old(self).calls(),
            old(self).closed() ==> r is Err && r.unwrap_err().text() == closed_text(),
            match r {
                Ok(backlog) => backlog.is_none() || backlog == Some(Event::Listen(listener, addr)),
                Err(err) => err is Module && (err.text() == closed_text() || err.text()
                    == exhausted_text(Kind::Listener)),
            },
    {
        self.submit(Event::Listen(listener, addr))
    }

    /// Asks for the socket of the given number to be connected to `addr`.
    ///
    /// The request is rejected at once when the component is closed, when
    /// no socket permit is free at the moment of the call, or when the
    /// runtime no longer reads its queue. Otherwise the command to connect
    /// is offered to the runtime's queue; if the queue is full, the command
    /// comes back for the caller to enqueue once there is room.
    pub fn connect(&mut self, addr: Address, socket: u64) -> (r: Result<Option<Event>, Error>)
        ensures
            final(self).same_setup(old(self)),
            final(self).calls() == old(self).calls(),
            old(self).closed() ==> r is Err && r.unwrap_err().text() == closed_text(),
            match r {
                Ok(backlog) => backlog.is_none() || backlog == Some(Event::Connect(addr, socket)),
                Err(err) => err is Module && (err.text() == closed_text() || err.text()
                    == exhausted_text(Kind::Socket)),
            },
    {
        self.submit(Event::Connect(addr, socket))
    }

    /// Hands the messages that wait, up to one batch, to the dispatcher, in
    /// the queue's order and without waiting.
    ///
    /// Returns `true` when a whole batch was handed over, so that more may
    /// wait. A closed component makes no call and returns `false`.
    pub fn dispatch(&mut self) -> (more: bool)
        ensures
            final(self).same_setup(old(self)),
            old(self).closed() ==> !more && final(self).calls() == old(self).calls(),
            !old(self).closed() ==> exists|messages: Seq<Message>|
                {
                    &&& messages.len() <= old(self).batch()
                    &&& more == (messages.len() == old(self).batch())
                    &&& final(self).calls() == old(self).calls() + #[trigger] calls_of_all(
                        messages,
                    )
                },
    {
        if self.closed {
            return false;
        }
        drain(&mut self.messages, &mut self.dispatcher, self.dispatches)
    }

    /// Closes the component: from now on nothing is admitted and nothing is
    /// dispatched.
    pub fn close(&mut self)
        ensures
            final(self).closed(),
            final(self).batch() == old(self).batch(),
            final(self).socket_queue() == old(self).socket_queue(),
            final(self).framing() == old(self).framing(),
            final(self).calls() == old(self).calls(),
    {
        self.closed = true;
    }

    /// Whether the component was closed.
    pub fn is_closed(&self) -> (b: bool)
        ensures
            b == self.closed(),
    {
        self.closed
    }

    /// The framer that the component's sockets use.
    pub fn framer(&self) -> (framer: &F)
        ensures
            *framer == self.framing(),
    {
        &self.framer
    }

    /// The capacity of a socket's queue of commands.
    pub fn socket_events(&self) -> (n: usize)
        ensures
            n == self.socket_queue(),
    {
        self.socket_events
    }

    /// The component's dispatcher.
    pub fn dispatcher(&self) -> (dispatcher: &D)
        ensures
            dispatcher.calls() == self.calls(),
    {
        &self.dispatcher
    }
}

} // verus!
