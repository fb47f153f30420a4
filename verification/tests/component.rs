use bytes::Bytes;
use std::sync::Arc;
use tcp::builder::Builder;
use tcp::channel::Offer;
use tcp::component::admission;
use tcp::component::settled;
use tcp::component::submitted;
use tcp::component::DefaultComponent;
use tcp::component::Event;
use tcp::component::Kind;
use tcp::config::Config;
use tcp::dispatcher::deliver;
use tcp::dispatcher::drain;
use tcp::dispatcher::Call;
use tcp::dispatcher::Dispatcher;
use tcp::dispatcher::Recorder;
use tcp::error::Error;
use tcp::framer::DefaultFramer;
use tcp::message::Address;
use tcp::connection::ConnectionReader;
use tcp::listener::Listener;
use tcp::message::Message;
use tcp::socket::Input;
use tcp::socket::Socket;
use tokio::sync::mpsc::channel;
use tokio::sync::mpsc::Receiver;
use tokio::sync::mpsc::Sender;
use tokio::sync::Semaphore;

const ADDR: Address = Address::V4(0x7F00_0001, 6668);

struct Wiring {
    component: DefaultComponent<DefaultFramer, Recorder>,
    messages: Sender<Message>,
    events: Receiver<Event>,
    listeners: Arc<Semaphore>,
    sockets: Arc<Semaphore>,
}

fn wire(builder: Builder<DefaultFramer, Recorder>) -> Wiring {
    let config = builder.config();
    let (mtx, mrx) = channel(config.dispatch_queue_limit);
    let (etx, erx) = channel(builder.events);
    let listeners = Arc::new(Semaphore::new(config.bind_listener_limit));
    let sockets = Arc::new(Semaphore::new(config.conn_socket_limit));
    let component = builder
        .dispatcher(Recorder::new())
        .build(mrx, etx, listeners.clone(), sockets.clone());
    Wiring { component, messages: mtx, events: erx, listeners, sockets }
}

fn defaults() -> Builder<DefaultFramer, Recorder> {
    Builder::<DefaultFramer, Recorder>::default()
}

#[test]
fn builder_defaults() {
    let builder = defaults();
    assert_eq!(builder.listeners, 0);
    assert_eq!(builder.sockets, 256);
    assert_eq!(builder.messages, 512);
    assert_eq!(builder.events, 128);
    assert_eq!(builder.dispatchs, 8);
    assert_eq!(builder.socket_events, 64);
    assert!(builder.dispatcher.is_none());
}

#[test]
fn builder_options_are_independent() {
    let builder = defaults()
        .listener(1)
        .sockets(2)
        .messages(3)
        .events(4)
        .dispatchs(5)
        .socket_events(6)
        .framer(DefaultFramer)
        .dispatcher(Recorder::new());
    assert_eq!(builder.listeners, 1);
    assert_eq!(builder.sockets, 2);
    assert_eq!(builder.messages, 3);
    assert_eq!(builder.events, 4);
    assert_eq!(builder.dispatchs, 5);
    assert_eq!(builder.socket_events, 6);
    assert!(builder.dispatcher.is_some());
}

#[test]
fn builder_config_names_the_limits() {
    let config = defaults().listener(1).sockets(2).messages(3).socket_events(6).config();
    assert_eq!(config, Config::new(4096, 6, 1, 2, 3));
    assert_eq!(config.socket_recv_buf_size, 4096);
    assert_eq!(config.socket_send_request_limit, 6);
    assert_eq!(config.bind_listener_limit, 1);
    assert_eq!(config.conn_socket_limit, 2);
    assert_eq!(config.dispatch_queue_limit, 3);
}

#[test]
fn config_keeps_its_arguments() {
    let config = Config::new(1, 2, 3, 4, 5);
    assert_eq!(config.socket_recv_buf_size, 1);
    assert_eq!(config.socket_send_request_limit, 2);
    assert_eq!(config.bind_listener_limit, 3);
    assert_eq!(config.conn_socket_limit, 4);
    assert_eq!(config.dispatch_queue_limit, 5);
}

#[test]
fn built_component_is_open() {
    let wiring = wire(defaults().socket_events(9));
    assert!(!wiring.component.is_closed());
    assert_eq!(wiring.component.socket_events(), 9);
    assert!(wiring.component.dispatcher().log.is_empty());
    let _ = wiring.component.framer();
}

#[test]
fn build_server_builds_the_same() {
    let builder = defaults().listener(1).dispatcher(Recorder::new());
    let (_mtx, mrx) = channel(4);
    let (etx, _erx) = channel(4);
    let mut component = builder.build_server(
        mrx,
        etx,
        Arc::new(Semaphore::new(1)),
        Arc::new(Semaphore::new(1)),
    );
    assert_eq!(component.listen(0, ADDR), Ok(None));
}

#[test]
fn admission_rule() {
    assert_eq!(admission(1, Kind::Listener), Ok(()));
    assert_eq!(admission(usize::MAX, Kind::Socket), Ok(()));
    assert_eq!(
        admission(0, Kind::Listener),
        Err(Error::Module("listener available permit is not enough".to_string()))
    );
    assert_eq!(
        admission(0, Kind::Socket),
        Err(Error::Module("socket available permit is not enough".to_string()))
    );
}

#[test]
fn settled_when_every_permit_is_back() {
    assert!(settled(3, 3));
    assert!(settled(0, 0));
    assert!(!settled(2, 3));
}

#[test]
fn command_names_its_pool() {
    assert_eq!(Event::Listen(1, ADDR).kind(), Kind::Listener);
    assert_eq!(Event::Connect(ADDR, 1).kind(), Kind::Socket);
}

#[test]
fn submitted_reads_the_queue_answer() {
    assert_eq!(submitted(Offer::Taken), Ok(None));
    assert_eq!(
        submitted(Offer::Full(Event::Listen(5, ADDR))),
        Ok(Some(Event::Listen(5, ADDR)))
    );
    assert_eq!(
        submitted(Offer::Closed(Event::Listen(5, ADDR))),
        Err(Error::Module("channel closed".to_string()))
    );
}

#[test]
fn listen_without_a_listener_permit_is_rejected() {
    let mut wiring = wire(defaults());
    assert_eq!(
        wiring.component.listen(0, ADDR),
        Err(Error::Module("listener available permit is not enough".to_string()))
    );
    assert!(wiring.events.try_recv().is_err());
}

#[test]
fn listen_enqueues_the_command() {
    let mut wiring = wire(defaults().listener(1));
    assert_eq!(wiring.component.listen(7, ADDR), Ok(None));
    assert_eq!(wiring.events.try_recv(), Ok(Event::Listen(7, ADDR)));
    // Admission here is advisory: the permit is taken by the runtime.
    assert_eq!(wiring.listeners.available_permits(), 1);
    assert_eq!(wiring.component.listen(8, ADDR), Ok(None));
    assert_eq!(wiring.events.try_recv(), Ok(Event::Listen(8, ADDR)));
}

#[test]
fn listen_sees_permits_taken_by_the_runtime() {
    let mut wiring = wire(defaults().listener(1));
    let permit = wiring.listeners.clone().try_acquire_owned().unwrap();
    assert_eq!(
        wiring.component.listen(0, ADDR),
        Err(Error::Module("listener available permit is not enough".to_string()))
    );
    drop(permit);
    assert_eq!(wiring.component.listen(0, ADDR), Ok(None));
}

#[test]
fn connect_enqueues_the_command() {
    let mut wiring = wire(defaults().sockets(2));
    assert_eq!(wiring.component.connect(ADDR, 0), Ok(None));
    assert_eq!(wiring.component.connect(ADDR, 1), Ok(None));
    assert_eq!(wiring.events.try_recv(), Ok(Event::Connect(ADDR, 0)));
    assert_eq!(wiring.events.try_recv(), Ok(Event::Connect(ADDR, 1)));
}

#[test]
fn connect_draws_on_the_socket_pool_only() {
    let mut wiring = wire(defaults().listener(0).sockets(1));
    assert_eq!(wiring.component.connect(ADDR, 0), Ok(None));
    let mut other = wire(defaults().listener(1).sockets(0));
    assert_eq!(
        other.component.connect(ADDR, 0),
        Err(Error::Module("socket available permit is not enough".to_string()))
    );
    assert_eq!(other.component.listen(0, ADDR), Ok(None));
}

#[test]
fn admission_waits_for_the_permit_to_come_back() {
    let mut wiring = wire(defaults().sockets(1));
    assert_eq!(wiring.component.connect(ADDR, 0), Ok(None));
    // The runtime takes the one permit for the first socket.
    let permit = wiring.sockets.clone().try_acquire_owned().unwrap();
    let mut first = Socket::new(0);
    assert_eq!(
        first.handle(Input::Connected(None, Some(ADDR))).message,
        Some(Message::ConnectDone(None, 0))
    );
    assert_eq!(
        wiring.component.connect(ADDR, 1),
        Err(Error::Module("socket available permit is not enough".to_string()))
    );
    // The first socket ends: its permit goes back, and the second is let in.
    let outcome = first.handle(Input::Ended);
    assert!(outcome.release);
    drop(permit);
    assert!(settled(wiring.sockets.available_permits(), 1));
    assert_eq!(wiring.component.connect(ADDR, 1), Ok(None));
}

#[test]
fn a_full_queue_hands_the_command_back() {
    let mut wiring = wire(defaults().sockets(4).events(1));
    assert_eq!(wiring.component.connect(ADDR, 0), Ok(None));
    assert_eq!(wiring.component.connect(ADDR, 1), Ok(Some(Event::Connect(ADDR, 1))));
    assert_eq!(wiring.events.try_recv(), Ok(Event::Connect(ADDR, 0)));
    assert!(wiring.events.try_recv().is_err());
}

#[test]
fn an_abandoned_queue_fails_the_request() {
    let mut wiring = wire(defaults().sockets(4));
    wiring.events.close();
    assert_eq!(
        wiring.component.connect(ADDR, 0),
        Err(Error::Module("channel closed".to_string()))
    );
}

#[test]
fn a_closed_component_admits_nothing() {
    let mut wiring = wire(defaults().listener(1).sockets(1));
    wiring.component.close();
    assert!(wiring.component.is_closed());
    assert_eq!(
        wiring.component.listen(0, ADDR),
        Err(Error::Module("channel closed".to_string()))
    );
    assert_eq!(
        wiring.component.connect(ADDR, 0),
        Err(Error::Module("channel closed".to_string()))
    );
    assert!(wiring.events.try_recv().is_err());
}

#[test]
fn deliver_makes_the_matching_call() {
    let bytes = Bytes::from_static(&[8, 0, 0, 0, 0xDE, 0xAD, 0xBE, 0xEF]);
    let mut recorder = Recorder::new();
    deliver(&mut recorder, Message::ListenFatal(1, Error::system("in use")));
    deliver(&mut recorder, Message::ConnectFatal(2, Error::system("refused")));
    deliver(&mut recorder, Message::ConnectDone(Some(1), 3));
    deliver(&mut recorder, Message::ConnectDone(None, 4));
    deliver(&mut recorder, Message::ReceiveDone(3, bytes.clone()));
    deliver(&mut recorder, Message::ConnectTerminate(3));
    assert_eq!(
        recorder.log,
        vec![
            Call::ListenFatal(1, Error::System("in use".to_string())),
            Call::ConnectFatal(2, Error::System("refused".to_string())),
            Call::ConnectDone(Some(1), 3),
            Call::ConnectDone(None, 4),
            Call::ReceiveDone(3, bytes),
            Call::ConnectTerminate(3),
        ]
    );
}

#[test]
fn abort_is_followed_by_terminate() {
    let mut recorder = Recorder::new();
    deliver(
        &mut recorder,
        Message::ConnectAbort(9, Error::module("connection reset by peer")),
    );
    assert_eq!(
        recorder.log,
        vec![
            Call::ConnectAbort(9, Error::Module("connection reset by peer".to_string())),
            Call::ConnectTerminate(9),
        ]
    );
}

#[test]
fn recorder_keeps_direct_calls() {
    let mut recorder = Recorder::new();
    recorder.connect_done(None, 1);
    recorder.receive_done(1, Bytes::from_static(&[4, 0, 0, 0]));
    recorder.connect_abort(1, Error::module("x"));
    recorder.connect_terminate(1);
    recorder.listen_fatal(2, Error::system("y"));
    recorder.connect_fatal(3, Error::system("z"));
    assert_eq!(recorder.log.len(), 6);
    assert_eq!(recorder.log[0], Call::ConnectDone(None, 1));
    assert_eq!(recorder.log[3], Call::ConnectTerminate(1));
}

#[test]
fn drain_stops_at_the_limit() {
    let (tx, mut rx) = channel(8);
    for id in 0..5 {
        tx.try_send(Message::ConnectTerminate(id)).unwrap();
    }
    let mut recorder = Recorder::new();
    assert!(drain(&mut rx, &mut recorder, 3));
    assert_eq!(
        recorder.log,
        vec![Call::ConnectTerminate(0), Call::ConnectTerminate(1), Call::ConnectTerminate(2)]
    );
    assert!(!drain(&mut rx, &mut recorder, 3));
    assert_eq!(recorder.log.len(), 5);
    assert_eq!(recorder.log[4], Call::ConnectTerminate(4));
    assert!(!drain(&mut rx, &mut recorder, 3));
    assert_eq!(recorder.log.len(), 5);
}

#[test]
fn drain_of_an_exact_batch_reports_more() {
    let (tx, mut rx) = channel(8);
    tx.try_send(Message::ConnectDone(None, 1)).unwrap();
    tx.try_send(Message::ConnectTerminate(1)).unwrap();
    let mut recorder = Recorder::new();
    assert!(drain(&mut rx, &mut recorder, 2));
    assert!(!drain(&mut rx, &mut recorder, 2));
    assert!(drain(&mut rx, &mut recorder, 0));
    assert_eq!(recorder.log.len(), 2);
}

#[test]
fn dispatch_follows_the_queue_order() {
    let frame = Bytes::from_static(&[8, 0, 0, 0, 0xDE, 0xAD, 0xBE, 0xEF]);
    let mut wiring = wire(defaults().listener(1).sockets(2));
    wiring.messages.try_send(Message::ConnectDone(Some(0), 1)).unwrap();
    wiring.messages.try_send(Message::ReceiveDone(1, frame.clone())).unwrap();
    wiring.messages.try_send(Message::ConnectTerminate(1)).unwrap();
    assert!(!wiring.component.dispatch());
    assert_eq!(
        wiring.component.dispatcher().log,
        vec![
            Call::ConnectDone(Some(0), 1),
            Call::ReceiveDone(1, frame),
            Call::ConnectTerminate(1),
        ]
    );
}

#[test]
fn dispatch_hands_over_one_batch() {
    let mut wiring = wire(defaults().dispatchs(2));
    for id in 0..3 {
        wiring.messages.try_send(Message::ConnectTerminate(id)).unwrap();
    }
    assert!(wiring.component.dispatch());
    assert_eq!(wiring.component.dispatcher().log.len(), 2);
    assert!(!wiring.component.dispatch());
    assert_eq!(wiring.component.dispatcher().log.len(), 3);
}

#[test]
fn mid_frame_reset_reaches_the_dispatcher_as_abort_then_terminate() {
    let mut wiring = wire(defaults());
    wiring
        .messages
        .try_send(Message::ConnectAbort(1, Error::module("connection reset by peer")))
        .unwrap();
    assert!(!wiring.component.dispatch());
    assert_eq!(
        wiring.component.dispatcher().log,
        vec![
            Call::ConnectAbort(1, Error::Module("connection reset by peer".to_string())),
            Call::ConnectTerminate(1),
        ]
    );
}

#[test]
fn dispatch_after_close_makes_no_call() {
    let mut wiring = wire(defaults());
    wiring.messages.try_send(Message::ConnectTerminate(1)).unwrap();
    wiring.component.close();
    assert!(!wiring.component.dispatch());
    assert!(!wiring.component.dispatch());
    assert!(wiring.component.dispatcher().log.is_empty());
}

#[test]
fn echo_loopback_trace() {
    let frame = [0x08, 0x00, 0x00, 0x00, 0xDE, 0xAD, 0xBE, 0xEF];
    let mut wiring = wire(defaults().listener(1).sockets(2));
    assert_eq!(wiring.component.listen(0, ADDR), Ok(None));
    assert_eq!(wiring.events.try_recv(), Ok(Event::Listen(0, ADDR)));

    // The runtime binds, accepts one connection and reads one frame.
    let mut listener = Listener::new(0, ADDR);
    assert_eq!(listener.bind(Ok(())), None);
    let mut socket = Socket::new(1);
    let done = listener.accept(&mut socket, Some(ADDR), None).unwrap();
    wiring.messages.try_send(done).unwrap();
    let mut reader = ConnectionReader::new(4096, DefaultFramer);
    assert_eq!(reader.receive(&frame), Ok(true));
    let bytes = reader.parse_frame().unwrap().unwrap();
    let received = socket.handle(Input::Frame(bytes)).message.unwrap();
    wiring.messages.try_send(received).unwrap();

    // The application echoes what it is given.
    assert!(!wiring.component.dispatch());
    let (tx, mut rx) = channel(4);
    let echoed = match &wiring.component.dispatcher().log[1] {
        Call::ReceiveDone(1, bytes) => bytes.clone(),
        other => panic!("unexpected call {:?}", other),
    };
    assert_eq!(socket.send(&tx, echoed), Ok(None));
    assert_eq!(
        rx.try_recv(),
        Ok(tcp::socket::Event::Send(Bytes::from_static(&[
            0x08, 0x00, 0x00, 0x00, 0xDE, 0xAD, 0xBE, 0xEF
        ])))
    );

    // The client leaves.
    assert_eq!(reader.receive(&[]), Ok(false));
    let ended = socket.handle(Input::Ended).message.unwrap();
    wiring.messages.try_send(ended).unwrap();
    assert!(!wiring.component.dispatch());
    assert_eq!(
        wiring.component.dispatcher().log,
        vec![
            Call::ConnectDone(Some(0), 1),
            Call::ReceiveDone(1, Bytes::copy_from_slice(&frame)),
            Call::ConnectTerminate(1),
        ]
    );
}

#[test]
fn bind_failure_surfaces_one_listen_fatal() {
    let mut wiring = wire(defaults().listener(1));
    let mut listener = Listener::new(0, ADDR);
    let failure = Error::system("Address already in use (os error 98)").surfaced();
    let mut raised = Vec::new();
    raised.extend(listener.bind(Err(failure)));
    raised.extend(listener.bind(Ok(())));
    assert!(!listener.close());
    assert_eq!(raised.len(), 1);
    for message in raised {
        wiring.messages.try_send(message).unwrap();
    }
    assert!(!wiring.component.dispatch());
    assert_eq!(
        wiring.component.dispatcher().log,
        vec![Call::ListenFatal(
            0,
            Error::Module("Address already in use (os error 98)".to_string())
        )]
    );
}

#[test]
fn mid_frame_reset_trace() {
    let mut wiring = wire(defaults().sockets(1));
    let mut socket = Socket::new(1);
    socket.handle(Input::Accepted(None, None));
    let mut reader = ConnectionReader::new(4096, DefaultFramer);
    assert_eq!(reader.receive(&[0x08, 0x00, 0x00, 0x00, 0xDE, 0xAD]), Ok(true));
    assert_eq!(reader.parse_frame(), Ok(None));
    let reset = reader.receive(&[]).unwrap_err();
    let outcome = socket.handle(Input::Failed(reset));
    assert!(outcome.release);
    wiring.messages.try_send(outcome.message.unwrap()).unwrap();
    assert!(!wiring.component.dispatch());
    assert_eq!(
        wiring.component.dispatcher().log,
        vec![
            Call::ConnectAbort(1, Error::Module("connection reset by peer".to_string())),
            Call::ConnectTerminate(1),
        ]
    );
}

#[test]
fn graceful_shutdown_then_silence() {
    let mut wiring = wire(defaults().sockets(3).dispatchs(16));
    let mut sockets: Vec<Socket> = (0..3).map(Socket::new).collect();
    for socket in sockets.iter_mut() {
        socket.handle(Input::Accepted(None, None));
    }
    for socket in sockets.iter_mut() {
        let outcome = socket.handle(Input::Cancelled);
        wiring.messages.try_send(outcome.message.unwrap()).unwrap();
    }
    assert!(!wiring.component.dispatch());
    assert_eq!(
        wiring.component.dispatcher().log,
        vec![
            Call::ConnectTerminate(0),
            Call::ConnectTerminate(1),
            Call::ConnectTerminate(2),
        ]
    );
    wiring.component.close();
    wiring.messages.try_send(Message::ConnectTerminate(0)).unwrap();
    assert!(!wiring.component.dispatch());
    assert_eq!(wiring.component.dispatcher().log.len(), 3);
}
