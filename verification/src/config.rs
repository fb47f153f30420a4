//! The limits that a component is wired with.
use vstd::prelude::*;

verus! {

/// The sizes of the buffers, queues and permit pools of one component.
#[derive(Debug, Clone, Copy, PartialEq, Eq, Structural)]
pub struct Config {
    /// The initial capacity of a socket's receive buffer, in bytes.
    pub socket_recv_buf_size: usize,
    /// The capacity of a socket's queue of send commands.
    pub socket_send_request_limit: usize,
    /// The number of listeners that may be bound at once.
    pub bind_listener_limit: usize,
    /// The number of sockets that may be live at once.
    pub conn_socket_limit: usize,
    /// The capacity of the queue of messages that wait for dispatch.
    pub dispatch_queue_limit: usize,
}

impl Config {
    pub fn new(
        socket_recv_buf_size: usize,
        socket_send_request_limit: usize,
        bind_listener_limit: usize,
        conn_socket_limit: usize,
        dispatch_queue_limit: usize,
    ) -> (config: Config)
        ensures
            config == (Config {
                socket_recv_buf_size,
                socket_send_request_limit,
                bind_listener_limit,
                conn_socket_limit,
                dispatch_queue_limit,
            }),
    {
        Config {
            socket_recv_buf_size,
            socket_send_request_limit,
            bind_listener_limit,
            conn_socket_limit,
            dispatch_queue_limit,
        }
    }
}

} // verus!
