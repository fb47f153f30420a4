//! The callback surface: what the caller is told, and in which order.
use vstd::prelude::*;
use bytes::Bytes;
use tokio::sync::mpsc::Receiver;
use crate::channel::try_recv;
use crate::error::Error;
use crate::message::Message;

verus! {

/// One call made on a dispatcher.
#[derive(Debug, PartialEq, Eq)]
pub enum Call {
    ListenFatal(u64, Error),
    ConnectFatal(u64, Error),
    ConnectDone(Option<u64>, u64),
    ReceiveDone(u64, Bytes),
    ConnectAbort(u64, Error),
    ConnectTerminate(u64),
}

/// The callbacks that an application supplies. Every call is added to the
/// end of the dispatcher's record of calls.
pub trait Dispatcher {
    /// The calls made so far, oldest first. A dispatcher that keeps a
    /// record says here what it holds; one that keeps none leaves it
    /// unknown.
    closed spec fn calls(&self) -> Seq<Call> {
        arbitrary()
    }

    /// The listener failed to bind, for good.
    fn listen_fatal(&mut self, listener: u64, err: Error)
        ensures
            final(self).calls() == old(self).calls().push(Call::ListenFatal(listener, err)),
    ;

    /// The outbound connection failed, for good.
    fn connect_fatal(&mut self, socket: u64, err: Error)
        ensures
            final(self).calls() == old(self).calls().push(Call::ConnectFatal(socket, err)),
    ;

    /// A connection is live: inbound if a listener is named, outbound if not.
    fn connect_done(&mut self, listener: Option<u64>, socket: u64)
        ensures
            final(self).calls() == old(self).calls().push(Call::ConnectDone(listener, socket)),
    ;

    /// One whole frame was received.
    fn receive_done(&mut self, socket: u64, bytes: Bytes)
        ensures
            final(self).calls() == old(self).calls().push(Call::ReceiveDone(socket, bytes)),
    ;

    /// A live connection ended with an error.
    fn connect_abort(&mut self, socket: u64, err: Error)
        ensures
            final(self).calls() == old(self).calls().push(Call::ConnectAbort(socket, err)),
    ;

    /// A live connection ended.
    fn connect_terminate(&mut self, socket: u64)
        ensures
            final(self).calls() == old(self).calls().push(Call::ConnectTerminate(socket)),
    ;
}

/// A dispatcher that keeps every call it receives.
pub struct Recorder {
    pub log: Vec<Call>,
}

impl Recorder {
    /// A recorder that has seen no call.
    pub fn new() -> (recorder: Recorder)
        ensures
            recorder.calls() == Seq::<Call>::empty(),
    {
        Recorder { log: Vec::new() }
    }
}

impl Dispatcher for Recorder {
    open spec fn calls(&self) -> Seq<Call> {
        self.log@
    }

    fn listen_fatal(&mut self, listener: u64, err: Error) {
        self.log.push(Call::ListenFatal(listener, err));
    }

    fn connect_fatal(&mut self, socket: u64, err: Error) {
        self.log.push(Call::ConnectFatal(socket, err));
    }

    fn connect_done(&mut self, listener: Option<u64>, socket: u64) {
        self.log.push(Call::ConnectDone(listener, socket));
    }

    fn receive_done(&mut self, socket: u64, bytes: Bytes) {
        self.log.push(Call::ReceiveDone(socket, bytes));
    }

    fn connect_abort(&mut self, socket: u64, err: Error) {
        self.log.push(Call::ConnectAbort(socket, err));
    }

    fn connect_terminate(&mut self, socket: u64) {
        self.log.push(Call::ConnectTerminate(socket));
    }
}

/// The calls that one message turns into. An abort is always followed by
/// the terminate of the same socket.
pub open spec fn calls_of(message: Message) -> Seq<Call> {
    match message {
        Message::ListenFatal(l, e) => seq![Call::ListenFatal(l, e)],
        Message::ConnectFatal(s, e) => seq![Call::ConnectFatal(s, e)],
        Message::ConnectDone(l, s) => seq![Call::ConnectDone(l, s)],
        Message::ReceiveDone(s, b) => seq![Call::ReceiveDone(s, b)],
        Message::ConnectAbort(s, e) => seq![Call::ConnectAbort(s, e), Call::ConnectTerminate(s)],
        Message::ConnectTerminate(s) => seq![Call::ConnectTerminate(s)],
    }
}

/// The calls that a run of messages turns into, in the messages' order.
pub open spec fn calls_of_all(messages: Seq<Message>) -> Seq<Call>
    decreases messages.len(),
{
    if messages.len() == 0 {
        Seq::empty()
    } else {
        calls_of_all(messages.drop_last()) + calls_of(messages.last())
    }
}

/// Hands one message to the dispatcher.
pub fn deliver<D: Dispatcher>(dispatcher: &mut D, message: Message)
    ensures
        final(dispatcher).calls() == old(dispatcher).calls() + calls_of(message),
{
    match message {
        Message::ListenFatal(listener, err) => {
            dispatcher.listen_fatal(listener, err);
        },
        Message::ConnectDone(listener, socket) => {
            dispatcher.connect_done(listener, socket);
        },
        Message::ConnectAbort(socket, err) => {
            dispatcher.connect_abort(socket, err);
            dispatcher.connect_terminate(socket);
        },
        Message::ConnectFatal(socket, err) => {
            dispatcher.connect_fatal(socket, err);
        },
        Message::ConnectTerminate(socket) => {
            dispatcher.connect_terminate(socket);
        },
        Message::ReceiveDone(socket, bytes) => {
            dispatcher.receive_done(socket, bytes);
        },
    }
    proof {
        assert(final(dispatcher).calls() =~= old(dispatcher).calls() + calls_of(message));
    }
}

/// Drains up to `limit` messages from the queue without waiting and hands
/// each to the dispatcher, in the order in which the queue gives them.
///
/// Returns `true` when `limit` messages were handed over, so that more may
/// be waiting, and `false` when the queue ran dry first.
pub fn drain<D: Dispatcher>(queue: &mut Receiver<Message>, dispatcher: &mut D, limit: usize) -> (full: bool)
    ensures
        exists|messages: Seq<Message>|
            {
                &&& messages.len() <= limit
                &&& full == (messages.len() == limit)
                &&& final(dispatcher).calls() == old(dispatcher).calls() + #[trigger] calls_of_all(messages)
            },
{
    let ghost mut seen: Seq<Message> = Seq::empty();
    let mut count: usize = 0;
    proof {
        assert(old(dispatcher).calls() + calls_of_all(seen) =~= old(dispatcher).calls());
    }
    while count < limit
        invariant
            count <= limit,
            seen.len() == count,
            dispatcher.calls() == old(dispatcher).calls() + calls_of_all(seen),
        decreases limit - count,
    {
        match try_recv(queue) {
            Some(message) => {
                proof {
                    let grown = seen.push(message);
                    assert(grown.drop_last() =~= seen);
                    assert(grown.last() == message);
                    assert((old(dispatcher).calls() + calls_of_all(seen)) + calls_of(message)
                        =~= old(dispatcher).calls() + calls_of_all(grown));
                    seen = grown;
                }
                deliver(dispatcher, message);
                count = count + 1;
            },
            None => {
                return false;
            },
        }
    }
    true
}

} // verus!
