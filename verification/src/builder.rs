//! Assembles a component from its options.
use vstd::prelude::*;
use std::sync::Arc;
use tokio::sync::mpsc::Receiver;
use tokio::sync::mpsc::Sender;
use tokio::sync::Semaphore;
use crate::component::DefaultComponent;
use crate::component::Event;
use crate::config::Config;
use crate::dispatcher::Dispatcher;
use crate::framer::DefaultFramer;
use crate::framer::Framer;
use crate::message::Message;

verus! {

pub const DEFAULT_LISTENER_LIMIT: usize = 0;

pub const DEFAULT_SOCKET_LIMIT: usize = 256;

pub const DEFAULT_MESSAGE_LIMIT: usize = 512;

pub const DEFAULT_EVENT_LIMIT: usize = 128;

pub const DEFAULT_DISPATCH_LIMIT: usize = 8;

pub const DEFAULT_SOCKET_EVENTS: usize = 64;

pub const DEFAULT_RECEIVE_BUFFER: usize = 4096;

/// The options of a component. Every option but the dispatcher has a
/// default.
pub struct Builder<F: Framer, D: Dispatcher> {
    /// The number of listeners that may be bound at once.
    pub listeners: usize,
    /// The number of sockets that may be live at once.
    pub sockets: usize,
    /// The capacity of the queue of messages that wait for dispatch.
    pub messages: usize,
    /// The capacity of the queue of commands for the runtime.
    pub events: usize,
    /// The most messages that one dispatch hands over.
    pub dispatchs: usize,
    /// The capacity of a socket's queue of commands.
    pub socket_events: usize,
    /// The framer that the sockets use.
    pub framer: F,
    /// The application's callbacks.
    pub dispatcher: Option<D>,
}

impl<D: Dispatcher> Builder<DefaultFramer, D> {
    /// The default options: no listener, 256 sockets, 512 messages, 128
    /// commands, batches of 8, 64 commands per socket, the length-prefixed
    /// framer, and no dispatcher yet.
    pub fn default() -> (builder: Self)
        ensures
            builder == (Builder::<DefaultFramer, D> {
                listeners: 0,
                sockets: 256,
                messages: 512,
                events: 128,
                dispatchs: 8,
                socket_events: 64,
                framer: DefaultFramer,
                dispatcher: None,
            }),
    {
        Builder {
            listeners: DEFAULT_LISTENER_LIMIT,
            sockets: DEFAULT_SOCKET_LIMIT,
            messages: DEFAULT_MESSAGE_LIMIT,
            events: DEFAULT_EVENT_LIMIT,
            dispatchs: DEFAULT_DISPATCH_LIMIT,
            socket_events: DEFAULT_SOCKET_EVENTS,
            framer: DefaultFramer,
            dispatcher: None,
        }
    }
}

impl<F: Framer, D: Dispatcher> Builder<F, D> {
    /// Sets the number of listeners that may be bound at once.
    pub fn listener(self, n: usize) -> (builder: Self)
        ensures
            builder == (Builder { listeners: n, ..self }),
    {
        let mut builder = self;
        builder.listeners = n;
        builder
    }

    /// Sets the number of sockets that may be live at once.
    pub fn sockets(self, n: usize) -> (builder: Self)
        ensures
            builder == (Builder { sockets: n, ..self }),
    {
        let mut builder = self;
        builder.sockets = n;
        builder
    }

    /// Sets the capacity of the queue of messages that wait for dispatch.
    pub fn messages(self, n: usize) -> (builder: Self)
        ensures
            builder == (Builder { messages: n, ..self }),
    {
        let mut builder = self;
        builder.messages = n;
        builder
    }

    /// Sets the capacity of the queue of commands for the runtime.
    pub fn events(self, n: usize) -> (builder: Self)
        ensures
            builder == (Builder { events: n, ..self }),
    {
        let mut builder = self;
        builder.events = n;
        builder
    }

    /// Sets the most messages that one dispatch hands over.
    pub fn dispatchs(self, n: usize) -> (builder: Self)
        ensures
            builder == (Builder { dispatchs: n, ..self }),
    {
        let mut builder = self;
        builder.dispatchs = n;
        builder
    }

    /// Sets the capacity of a socket's queue of commands.
    pub fn socket_events(self, n: usize) -> (builder: Self)
        ensures
            builder == (Builder { socket_events: n, ..self }),
    {
        let mut builder = self;
        builder.socket_events = n;
        builder
    }

    /// Replaces the framer.
    pub fn framer<G: Framer>(self, framer: G) -> (builder: Builder<G, D>)
        ensures
            builder == (Builder::<G, D> {
                listeners: self.listeners,
                sockets: self.sockets,
                messages: self.messages,
                events: self.events,
                dispatchs: self.dispatchs,
                socket_events: self.socket_events,
                framer,
                dispatcher: self.dispatcher,
            }),
    {
        Builder {
            listeners: self.listeners,
            sockets: self.sockets,
            messages: self.messages,
            events: self.events,
            dispatchs: self.dispatchs,
            socket_events: self.socket_events,
            framer,
            dispatcher: self.dispatcher,
        }
    }

    /// Sets the application's callbacks.
    pub fn dispatcher(self, dispatcher: D) -> (builder: Self)
        ensures
            builder == (Builder { dispatcher: Some(dispatcher), ..self }),
    {
        let mut builder = self;
        builder.dispatcher = Some(dispatcher);
        builder
    }

    /// The limits that the component's queues and pools are to be made
    /// with, and the initial size of a socket's receive buffer.
    pub fn config(&self) -> (config: Config)
        ensures
            config == (Config {
                socket_recv_buf_size: 4096,
                socket_send_request_limit: self.socket_events,
                bind_listener_limit: self.listeners,
                conn_socket_limit: self.sockets,
                dispatch_queue_limit: self.messages,
            }),
    {
        Config::new(
            DEFAULT_RECEIVE_BUFFER,
            self.socket_events,
            self.listeners,
            self.sockets,
            self.messages,
        )
    }

    /// Builds the component over queues and pools made to the builder's
    /// limits: the receiving end of the message queue, the sending end of
    /// the runtime's command queue, and the two permit pools.
    pub fn build(
        self,
        messages: Receiver<Message>,
        events: Sender<Event>,
        listeners: Arc<Semaphore>,
        sockets: Arc<Semaphore>,
    ) -> (component: DefaultComponent<F, D>)
        requires
            self.dispatcher.is_some(),
        ensures
            !component.closed(),
            component.batch() == self.dispatchs,
            component.socket_queue() == self.socket_events,
            component.framing() == self.framer,
            component.calls() == self.dispatcher.unwrap().calls(),
    {
        DefaultComponent::new(
            self.dispatchs,
            self.socket_events,
            self.framer,
            self.dispatcher.unwrap(),
            messages,
            events,
            listeners,
            sockets,
        )
    }

    /// Builds a component that is meant to listen. It is built as any
    /// other is.
    pub fn build_server(
        self,
        messages: Receiver<Message>,
        events: Sender<Event>,
        listeners: Arc<Semaphore>,
        sockets: Arc<Semaphore>,
    ) -> (component: DefaultComponent<F, D>)
        requires
            self.dispatcher.is_some(),
        ensures
            !component.closed(),
            component.batch() == self.dispatchs,
            component.socket_queue() == self.socket_events,
            component.framing() == self.framer,
            component.calls() == self.dispatcher.unwrap().calls(),
    {
        self.build(messages, events, listeners, sockets)
    }
}

} // verus!
