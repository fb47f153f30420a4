//! One connection: its state, what it answers to each thing that happens to
//! it, and the messages it raises on the way.
use vstd::prelude::*;
use bytes::Bytes;
use tokio::sync::mpsc::Sender;
use crate::channel::try_send;
use crate::channel::Offer;
use crate::dispatcher::calls_of;
use crate::dispatcher::calls_of_all;
use crate::dispatcher::Call;
use crate::error::Error;
use crate::message::Address;
use crate::message::Message;

verus! {

/// Where a socket stands in its life.
#[derive(Debug, Clone, Copy, PartialEq, Eq, Structural)]
pub enum State {
    /// Created, with no stream attached yet.
    Connecting,
    /// A live stream is attached; frames flow.
    Done,
    /// Teardown was asked for; the reader has not left yet.
    Shutdown,
    /// The stream is gone. Nothing happens to the socket any more.
    Disconnected,
}

/// A command for the task that writes to the stream.
#[derive(Debug, PartialEq, Eq)]
pub enum Event {
    /// Write these bytes, which are already framed.
    Send(Bytes),
    /// Wake the socket's tasks so that they leave.
    Terminate,
}

/// Something that happens to a socket.
#[derive(Debug, PartialEq, Eq)]
pub enum Input {
    /// A listener attached an inbound stream with these local and peer
    /// addresses, as far as they are known.
    Accepted(Option<Address>, Option<Address>),
    /// The outbound stream was opened, with these local and peer addresses.
    Connected(Option<Address>, Option<Address>),
    /// The outbound stream could not be opened.
    Refused(Error),
    /// The reader split a frame off the stream.
    Frame(Bytes),
    /// The stream ended between two frames.
    Ended,
    /// Reading failed.
    Failed(Error),
    /// The application asked for teardown.
    Disconnect,
    /// The socket's tasks were told to leave, by the socket's own terminate
    /// signal or by the component's shutdown.
    Cancelled,
}

/// What a socket asks for in answer to an input.
#[derive(Debug, PartialEq, Eq)]
pub struct Outcome {
    /// The message to raise, if any.
    pub message: Option<Message>,
    /// Whether a `Terminate` command goes to the writing task.
    pub terminate: bool,
    /// Whether the socket's admission permit goes back to its pool.
    pub release: bool,
}

/// The state of one connection.
#[derive(Debug, PartialEq, Eq)]
pub struct Socket {
    pub id: u64,
    pub state: State,
    pub local: Option<Address>,
    pub peer: Option<Address>,
    pub tag: Option<u64>,
}

/// The text of the error that a send on a socket without a live stream is
/// refused with.
pub open spec fn unestablished_text() -> Seq<char> {
    "socket has not been established"@
}

/// The answer that asks for nothing.
pub open spec fn nothing() -> Outcome {
    Outcome { message: None, terminate: false, release: false }
}

/// The answer that raises `message` and asks for nothing else.
pub open spec fn raise(message: Message) -> Outcome {
    Outcome { message: Some(message), terminate: false, release: false }
}

/// The answer that raises `message` as the socket gives up its permit.
pub open spec fn leave(message: Message) -> Outcome {
    Outcome { message: Some(message), terminate: false, release: true }
}

impl Socket {
    /// Whether a stream is attached: the socket is `Done` or `Shutdown`.
    pub open spec fn live(&self) -> bool {
        self.state is Done || self.state is Shutdown
    }

    /// The socket in another state, all else equal.
    pub open spec fn at(&self, state: State) -> Socket {
        Socket { id: self.id, state, local: self.local, peer: self.peer, tag: self.tag }
    }

    /// The socket once a stream with the given addresses is attached.
    pub open spec fn attached(&self, local: Option<Address>, peer: Option<Address>) -> Socket {
        Socket { id: self.id, state: State::Done, local, peer, tag: self.tag }
    }

    /// The socket after `input`, and what it asks for.
    ///
    /// A stream is attached only while `Connecting`. Frames are passed on
    /// only while `Done`. A live socket that loses its stream, for whatever
    /// reason, raises one closing message as it becomes `Disconnected`;
    /// teardown requests take effect only on a `Done` socket. The permit
    /// goes back as the socket becomes `Disconnected`. Whatever is not
    /// named here changes nothing and asks for nothing.
    pub open spec fn step(&self, input: Input) -> (Socket, Outcome) {
        match input {
            Input::Accepted(local, peer) => if self.state is Connecting {
                (self.attached(local, peer), nothing())
            } else {
                (*self, nothing())
            },
            Input::Connected(local, peer) => if self.state is Connecting {
                (self.attached(local, peer), raise(Message::ConnectDone(None, self.id)))
            } else {
                (*self, nothing())
            },
            Input::Refused(err) => if self.state is Connecting {
                (self.at(State::Disconnected), leave(Message::ConnectFatal(self.id, err)))
            } else {
                (*self, nothing())
            },
            Input::Frame(bytes) => if self.state is Done {
                (*self, raise(Message::ReceiveDone(self.id, bytes)))
            } else {
                (*self, nothing())
            },
            Input::Ended => if self.live() {
                (self.at(State::Disconnected), leave(Message::ConnectTerminate(self.id)))
            } else {
                (*self, nothing())
            },
            Input::Failed(err) => if self.live() {
                (self.at(State::Disconnected), leave(Message::ConnectAbort(self.id, err)))
            } else {
                (*self, nothing())
            },
            Input::Disconnect => if self.state is Done {
                (self.at(State::Shutdown), Outcome { message: None, terminate: true, release: false })
            } else {
                (*self, nothing())
            },
            Input::Cancelled => if self.live() {
                (self.at(State::Disconnected), leave(Message::ConnectTerminate(self.id)))
            } else {
                (*self, nothing())
            },
        }
    }

    /// A socket that waits for its stream.
    pub fn new(id: u64) -> (socket: Socket)
        ensures
            socket == (Socket { id, state: State::Connecting, local: None, peer: None, tag: None }),
    {
        Socket { id, state: State::Connecting, local: None, peer: None, tag: None }
    }

    /// Takes `input` in: moves the socket on and says what to do.
    pub fn handle(&mut self, input: Input) -> (outcome: Outcome)
        ensures
            (*final(self), outcome) == old(self).step(input),
    {
        let nothing = Outcome { message: None, terminate: false, release: false };
        match input {
            Input::Accepted(local, peer) => {
                if let State::Connecting = self.state {
                    self.state = State::Done;
                    self.local = local;
                    self.peer = peer;
                }
                nothing
            },
            Input::Connected(local, peer) => {
                if let State::Connecting = self.state {
                    self.state = State::Done;
                    self.local = local;
                    self.peer = peer;
                    Outcome {
                        message: Some(Message::ConnectDone(None, self.id)),
                        terminate: false,
                        release: false,
                    }
                } else {
                    nothing
                }
            },
            Input::Refused(err) => {
                if let State::Connecting = self.state {
                    self.state = State::Disconnected;
                    Outcome {
                        message: Some(Message::ConnectFatal(self.id, err)),
                        terminate: false,
                        release: true,
                    }
                } else {
                    nothing
                }
            },
            Input::Frame(bytes) => {
                if let State::Done = self.state {
                    Outcome {
                        message: Some(Message::ReceiveDone(self.id, bytes)),
                        terminate: false,
                        release: false,
                    }
                } else {
                    nothing
                }
            },
            Input::Ended => {
                if self.is_live() {
                    self.state = State::Disconnected;
                    Outcome {
                        message: Some(Message::ConnectTerminate(self.id)),
                        terminate: false,
                        release: true,
                    }
                } else {
                    nothing
                }
            },
            Input::Failed(err) => {
                if self.is_live() {
                    self.state = State::Disconnected;
                    Outcome {
                        message: Some(Message::ConnectAbort(self.id, err)),
                        terminate: false,
                        release: true,
                    }
                } else {
                    nothing
                }
            },
            Input::Disconnect => {
                if let State::Done = self.state {
                    self.state = State::Shutdown;
                    Outcome { message: None, terminate: true, release: false }
                } else {
                    nothing
                }
            },
            Input::Cancelled => {
                if self.is_live() {
                    self.state = State::Disconnected;
                    Outcome {
                        message: Some(Message::ConnectTerminate(self.id)),
                        terminate: false,
                        release: true,
                    }
                } else {
                    nothing
                }
            },
        }
    }

    /// Attaches an inbound stream with the given local and peer addresses.
    pub fn accept(&mut self, local: Option<Address>, peer: Option<Address>) -> (outcome: Outcome)
        ensures
            (*final(self), outcome) == old(self).step(Input::Accepted(local, peer)),
    {
        self.handle(Input::Accepted(local, peer))
    }

    /// Takes in how the attempt to open the outbound stream went: on
    /// success, the stream's local and peer addresses; on failure, the
    /// error.
    pub fn connect(&mut self, result: Result<(Option<Address>, Option<Address>), Error>) -> (outcome:
        Outcome)
        ensures
            (*final(self), outcome) == old(self).step(
                match result {
                    Ok(ends) => Input::Connected(ends.0, ends.1),
                    Err(err) => Input::Refused(err),
                },
            ),
    {
        match result {
            Ok(ends) => self.handle(Input::Connected(ends.0, ends.1)),
            Err(err) => self.handle(Input::Refused(err)),
        }
    }

    /// Whether a stream is attached.
    pub fn is_live(&self) -> (b: bool)
        ensures
            b == self.live(),
    {
        match self.state {
            State::Done => true,
            State::Shutdown => true,
            _ => false,
        }
    }

    /// Asks for `bytes`, already framed, to be written to the stream: on a
    /// `Done` socket the send command is offered to the writing task's
    /// queue without waiting, and the answer is that of [`Socket::sent`];
    /// on any other socket the send is refused and the queue is not
    /// touched.
    pub fn send(&self, queue: &Sender<Event>, bytes: Bytes) -> (r: Result<Option<Event>, Error>)
        ensures
            !(self.state is Done) ==> r is Err,
            match r {
                Ok(backlog) => self.state is Done && (backlog.is_none() || backlog == Some(
                    Event::Send(bytes),
                )),
                Err(err) => err is Module && err.text() == unestablished_text(),
            },
    {
        match self.state {
            State::Done => Socket::sent(try_send(queue, Event::Send(bytes))),
            _ => Err(Error::module("socket has not been established")),
        }
    }

    /// Reads what became of a send command that was offered to the writing
    /// task's queue without waiting: taken, the send is done; full, the
    /// command comes back and the caller waits for room; closed, the stream
    /// is gone and the send is refused.
    pub fn sent(offer: Offer<Event>) -> (r: Result<Option<Event>, Error>)
        ensures
            match offer {
                Offer::Taken => r == Ok::<Option<Event>, Error>(None),
                Offer::Full(event) => r == Ok::<Option<Event>, Error>(Some(event)),
                Offer::Closed(_) => r is Err && r.unwrap_err() is Module
                    && r.unwrap_err().text() == unestablished_text(),
            },
    {
        match offer {
            Offer::Taken => Ok(None),
            Offer::Full(event) => Ok(Some(event)),
            Offer::Closed(_) => Err(Error::module("socket has not been established")),
        }
    }

    /// Asks for teardown. Only the first request on a `Done` socket has an
    /// effect: the socket moves to `Shutdown` and the `Terminate` command
    /// for the writing task is returned.
    pub fn disconnect(&mut self) -> (command: Option<Event>)
        ensures
            *final(self) == old(self).step(Input::Disconnect).0,
            old(self).state is Done ==> command == Some(Event::Terminate),
            !(old(self).state is Done) ==> command.is_none(),
    {
        let outcome = self.handle(Input::Disconnect);
        if outcome.terminate {
            Some(Event::Terminate)
        } else {
            None
        }
    }

    /// The local address, known once a stream is attached.
    pub fn local_addr(&self) -> (addr: Option<Address>)
        ensures
            addr == self.local,
    {
        self.local
    }

    /// The peer's address, known once a stream is attached.
    pub fn peer_addr(&self) -> (addr: Option<Address>)
        ensures
            addr == self.peer,
    {
        self.peer
    }

    /// Attaches the application's annotation.
    pub fn set_tag(&mut self, tag: u64)
        ensures
            *final(self) == (Socket { tag: Some(tag), ..*old(self) }),
    {
        self.tag = Some(tag);
    }

    /// The application's annotation, if one was set.
    pub fn tag(&self) -> (tag: Option<u64>)
        ensures
            tag == self.tag,
    {
        self.tag
    }
}

/// What a socket has asked for over a run of inputs.
pub struct Trace {
    /// The socket at the end of the run.
    pub socket: Socket,
    /// The messages raised, oldest first.
    pub messages: Seq<Message>,
    /// The number of `Terminate` commands asked for.
    pub terminations: nat,
    /// The number of times the permit was given back.
    pub releases: nat,
}

/// Feeds `inputs` to `socket` one after the other.
pub open spec fn run(socket: Socket, inputs: Seq<Input>) -> Trace
    decreases inputs.len(),
{
    if inputs.len() == 0 {
        Trace { socket, messages: Seq::empty(), terminations: 0, releases: 0 }
    } else {
        let before = run(socket, inputs.drop_last());
        let (after, outcome) = before.socket.step(inputs.last());
        Trace {
            socket: after,
            messages: match outcome.message {
                Some(message) => before.messages.push(message),
                None => before.messages,
            },
            terminations: if outcome.terminate {
                before.terminations + 1
            } else {
                before.terminations
            },
            releases: if outcome.release {
                before.releases + 1
            } else {
                before.releases
            },
        }
    }
}

/// The number of closing messages among `messages`.
pub open spec fn closings(messages: Seq<Message>) -> nat
    decreases messages.len(),
{
    if messages.len() == 0 {
        0
    } else if messages.last().closes() {
        closings(messages.drop_last()) + 1
    } else {
        closings(messages.drop_last())
    }
}

/// The closure law. Whatever happens to a socket, and in whatever order:
/// it raises at most one closing message, and nothing after it; a socket
/// that was live has raised exactly one by the time it is `Disconnected`
/// and none before; every message it raises names the socket itself; a
/// `Disconnected` socket stays as it is and raises nothing.
pub proof fn lemma_closure(socket: Socket, inputs: Seq<Input>)
    ensures
        closings(run(socket, inputs).messages) <= 1,
        forall|i: int|
            0 <= i < run(socket, inputs).messages.len() && (#[trigger] run(
                socket,
                inputs,
            ).messages[i]).closes() ==> i == run(socket, inputs).messages.len() - 1,
        forall|i: int|
            0 <= i < run(socket, inputs).messages.len() ==> (#[trigger] run(
                socket,
                inputs,
            ).messages[i]).socket() == Some(socket.id),
        socket.live() ==> closings(run(socket, inputs).messages) == (if run(
            socket,
            inputs,
        ).socket.live() {
            0nat
        } else {
            1nat
        }),
        socket.live() ==> !(run(socket, inputs).socket.state is Connecting),
        closings(run(socket, inputs).messages) == 1 ==> run(socket, inputs).socket.state
            is Disconnected,
        forall|i: int|
            0 <= i < run(socket, inputs).messages.len() && (#[trigger] run(
                socket,
                inputs,
            ).messages[i]).closes() ==> run(socket, inputs).socket.state is Disconnected,
        socket.live() && run(socket, inputs).socket.state is Disconnected ==> run(
            socket,
            inputs,
        ).messages.len() > 0 && run(socket, inputs).messages.last().closes(),
        socket.state is Disconnected ==> run(socket, inputs).socket == socket && run(
            socket,
            inputs,
        ).messages.len() == 0,
        run(socket, inputs).socket.id == socket.id,
    decreases inputs.len(),
{
    if inputs.len() > 0 {
        lemma_closure(socket, inputs.drop_last());
        let before = run(socket, inputs.drop_last());
        let (after, outcome) = before.socket.step(inputs.last());
        let now = run(socket, inputs);
        match outcome.message {
            Some(message) => {
                assert(now.messages == before.messages.push(message));
                assert(now.messages.drop_last() =~= before.messages);
                assert(now.messages.last() == message);
            },
            None => {},
        }
    }
}

/// A call that tells the application that a connection has ended.
pub open spec fn closing_call(call: Call) -> bool {
    call is ConnectAbort || call is ConnectTerminate
}

/// Messages that close nothing turn into calls that close nothing.
pub proof fn lemma_quiet_calls(messages: Seq<Message>)
    requires
        forall|i: int| 0 <= i < messages.len() ==> !(#[trigger] messages[i]).closes(),
    ensures
        forall|j: int|
            0 <= j < calls_of_all(messages).len() ==> !closing_call(
                #[trigger] calls_of_all(messages)[j],
            ),
    decreases messages.len(),
{
    if messages.len() > 0 {
        let front = messages.drop_last();
        assert forall|i: int| 0 <= i < front.len() implies !(#[trigger] front[i]).closes() by {
            assert(front[i] == messages[i]);
        }
        lemma_quiet_calls(front);
        let last = messages[messages.len() - 1];
        let calls = calls_of_all(messages);
        let before = calls_of_all(front);
        assert(!last.closes());
        assert(calls == before + calls_of(last));
        assert forall|j: int| 0 <= j < calls.len() implies !closing_call(#[trigger] calls[j]) by {
            if j < before.len() {
                assert(calls[j] == before[j]);
            } else {
                assert(calls[j] == calls_of(last)[j - before.len()]);
            }
        }
    }
}

/// The closure law as the application sees it. When the messages that a
/// socket raises over any run are dispatched, a `connect_terminate` for the
/// socket is the last call, and so there is at most one; a `connect_abort`
/// is the last but one and is followed by the socket's `connect_terminate`;
/// a socket that was live and is no longer has had its `connect_terminate`;
/// and as long as the socket is not `Disconnected` neither call is made.
pub proof fn lemma_closure_observed(socket: Socket, inputs: Seq<Input>)
    ensures
        ({
            let end = run(socket, inputs).socket;
            let calls = calls_of_all(run(socket, inputs).messages);
            &&& forall|i: int|
                0 <= i < calls.len() && #[trigger] calls[i] is ConnectTerminate ==> i + 1
                    == calls.len() && calls[i] == Call::ConnectTerminate(socket.id)
            &&& forall|i: int|
                0 <= i < calls.len() && #[trigger] calls[i] is ConnectAbort ==> i + 2
                    == calls.len() && calls[i + 1] == Call::ConnectTerminate(socket.id)
            &&& socket.live() && !end.live() ==> calls.len() > 0 && calls.last()
                == Call::ConnectTerminate(socket.id)
            &&& !(end.state is Disconnected) ==> forall|i: int|
                0 <= i < calls.len() ==> !closing_call(#[trigger] calls[i])
        }),
{
    lemma_closure(socket, inputs);
    let messages = run(socket, inputs).messages;
    if messages.len() > 0 {
        let front = messages.drop_last();
        let last = messages.last();
        assert forall|i: int| 0 <= i < front.len() implies !(#[trigger] front[i]).closes() by {
            assert(front[i] == messages[i]);
        }
        lemma_quiet_calls(front);
        assert(calls_of_all(messages) == calls_of_all(front) + calls_of(last));
        assert(last == messages[messages.len() - 1]);
        assert(last.socket() == Some(socket.id));
    }
}

/// Frames are raised only by a `Done` socket: a run that starts past `Done`
/// raises no `ReceiveDone`.
pub proof fn lemma_no_frame_past_done(socket: Socket, inputs: Seq<Input>)
    requires
        socket.state is Shutdown || socket.state is Disconnected,
    ensures
        run(socket, inputs).socket.state is Shutdown || run(socket, inputs).socket.state
            is Disconnected,
        forall|i: int|
            0 <= i < run(socket, inputs).messages.len() ==> !(#[trigger] run(
                socket,
                inputs,
            ).messages[i] is ReceiveDone),
    decreases inputs.len(),
{
    if inputs.len() > 0 {
        lemma_no_frame_past_done(socket, inputs.drop_last());
    }
}

/// Receive order. A `Done` socket that is given frames one after the other
/// stays as it is and raises one `ReceiveDone` for each, in the frames'
/// order; dispatched, they become one `receive_done` call each, in the
/// same order.
pub proof fn lemma_frames_in_order(socket: Socket, frames: Seq<Bytes>)
    requires
        socket.state is Done,
    ensures
        run(socket, frames.map_values(|b: Bytes| Input::Frame(b))).socket == socket,
        run(socket, frames.map_values(|b: Bytes| Input::Frame(b))).messages == frames.map_values(
            |b: Bytes| Message::ReceiveDone(socket.id, b),
        ),
        calls_of_all(run(socket, frames.map_values(|b: Bytes| Input::Frame(b))).messages)
            == frames.map_values(|b: Bytes| Call::ReceiveDone(socket.id, b)),
    decreases frames.len(),
{
    let inputs = frames.map_values(|b: Bytes| Input::Frame(b));
    let messages = frames.map_values(|b: Bytes| Message::ReceiveDone(socket.id, b));
    let calls = frames.map_values(|b: Bytes| Call::ReceiveDone(socket.id, b));
    if frames.len() == 0 {
        assert(run(socket, inputs).messages =~= messages);
        assert(calls_of_all(run(socket, inputs).messages) =~= calls);
    } else {
        let front = frames.drop_last();
        lemma_frames_in_order(socket, front);
        assert(inputs.drop_last() =~= front.map_values(|b: Bytes| Input::Frame(b)));
        assert(inputs.last() == Input::Frame(frames.last()));
        let front_messages = front.map_values(|b: Bytes| Message::ReceiveDone(socket.id, b));
        assert(front_messages.push(Message::ReceiveDone(socket.id, frames.last())) =~= messages);
        assert(messages.drop_last() =~= front_messages);
        assert(calls_of_all(messages) =~= calls);
    }
}

/// Teardown is asked for at most once: however often `Disconnect` comes,
/// and whatever else happens, a socket asks for at most one `Terminate`
/// command, and for none once it is past `Done`.
pub proof fn lemma_single_terminate(socket: Socket, inputs: Seq<Input>)
    ensures
        run(socket, inputs).terminations <= 1,
        socket.state is Shutdown || socket.state is Disconnected ==> run(
            socket,
            inputs,
        ).terminations == 0,
        run(socket, inputs).terminations == 1 ==> run(socket, inputs).socket.state is Shutdown
            || run(socket, inputs).socket.state is Disconnected,
    decreases inputs.len(),
{
    if inputs.len() > 0 {
        lemma_single_terminate(socket, inputs.drop_last());
        if socket.state is Shutdown || socket.state is Disconnected {
            lemma_no_frame_past_done(socket, inputs.drop_last());
        }
    }
}

/// The permit is held as long as the socket has a future and goes back
/// once: over any run, a socket that was not `Disconnected` at the start
/// has given its permit back exactly when it is `Disconnected` at the end,
/// and never more than once; a socket that was `Disconnected` at the start
/// gives nothing back.
pub proof fn lemma_permit_returned_once(socket: Socket, inputs: Seq<Input>)
    ensures
        run(socket, inputs).releases == (if !(socket.state is Disconnected) && run(
            socket,
            inputs,
        ).socket.state is Disconnected {
            1nat
        } else {
            0nat
        }),
        socket.state is Disconnected ==> run(socket, inputs).socket.state is Disconnected,
    decreases inputs.len(),
{
    if inputs.len() > 0 {
        lemma_permit_returned_once(socket, inputs.drop_last());
    }
}

/// A second teardown request changes nothing and asks for nothing.
pub proof fn lemma_disconnect_idempotent(socket: Socket)
    ensures
        socket.step(Input::Disconnect).0.step(Input::Disconnect) == (
            socket.step(Input::Disconnect).0,
            nothing(),
        ),
{
}

} // verus!
