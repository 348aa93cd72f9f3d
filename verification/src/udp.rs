//! The consumer-facing datagram socket adapter.
//!
//! A [`UdpSocket`] owns one handle into the shared context's pool. Every
//! operation takes the context as an exclusive borrow, translates the
//! request into the engine's per-socket primitives, raises the driver wake
//! signal on every mutation, and collapses the engine's error surface into
//! the two narrow taxonomies [`BindError`] and [`Error`].
//!
//! `recv_from` and `send_to` are suspension points: each performs one
//! cooperative attempt and reports [`Poll::Pending`] when the caller must
//! yield and retry on a later scheduling turn. A pending send registers a
//! wake with the engine so the caller is resumed once outbound capacity
//! frees up; a pending receive is simply retried every scheduling turn.

use vstd::pervasive::unreached;
use vstd::prelude::*;

use crate::buffer::PacketBuffer;
use crate::endpoint::{IpEndpoint, IpListenEndpoint};
use crate::stack::{
    SocketBindError, SocketHandle, SocketModel, SocketRecvError, SocketSendError, SocketStack,
    StackModel,
};

verus! {

/// Why a bind request failed.
#[derive(Clone, Copy, PartialEq, Eq, Debug, Structural)]
pub enum BindError {
    /// The socket was already open, or the port is taken by another socket
    /// sharing the context.
    InvalidState,
    /// No route to host: the endpoint cannot be serviced.
    NoRoute,
}

/// Why a send request failed. The receive path never surfaces an error.
#[derive(Clone, Copy, PartialEq, Eq, Debug, Structural)]
pub enum Error {
    /// No route to host: the destination cannot be addressed.
    NoRoute,
}

/// The outcome of one cooperative attempt at a suspending operation.
#[derive(PartialEq, Eq, Debug)]
pub enum Poll<T> {
    /// The operation completed with this result.
    Ready(T),
    /// The operation cannot progress yet; the caller must yield and retry.
    Pending,
}

/// The listen endpoint a bind request resolves to: as given, except that
/// port zero is replaced by the lowest free ephemeral port.
pub open spec fn spec_resolved_endpoint(s: StackModel, endpoint: IpListenEndpoint) -> IpListenEndpoint {
    if endpoint.port != 0 {
        endpoint
    } else {
        IpListenEndpoint { addr: endpoint.addr, port: s.free_port().unwrap() }
    }
}

/// What `bind` returns: the engine's outcome for the resolved endpoint,
/// with `Unaddressable` surfaced as `NoRoute`.
pub open spec fn spec_bind_outcome(s: StackModel, h: int, endpoint: IpListenEndpoint) -> Result<
    (),
    BindError,
> {
    match s.spec_bind_result(h, spec_resolved_endpoint(s, endpoint)) {
        Ok(()) => Ok(()),
        Err(SocketBindError::InvalidState) => Err(BindError::InvalidState),
        Err(SocketBindError::Unaddressable) => Err(BindError::NoRoute),
    }
}

/// The context after `bind`: the engine's transition for the resolved
/// endpoint, plus the unconditional driver wake.
pub open spec fn spec_bind_final(s: StackModel, h: int, endpoint: IpListenEndpoint) -> StackModel {
    s.spec_bind_state(h, spec_resolved_endpoint(s, endpoint)).woken()
}

/// What one `send_to` attempt returns: completion, an immediate routing
/// failure, or suspension while the outbound buffer is full.
pub open spec fn spec_send_poll(
    s: StackModel,
    h: int,
    remote: IpEndpoint,
    payload: Seq<u8>,
) -> Poll<Result<(), Error>> {
    match s.spec_send_result(h, remote, payload) {
        Ok(()) => Poll::Ready(Ok(())),
        Err(SocketSendError::BufferFull) => Poll::Pending,
        Err(SocketSendError::Unaddressable) => Poll::Ready(Err(Error::NoRoute)),
    }
}

/// The context after one `send_to` attempt: the datagram enqueued whole, or
/// a send waiter registered while the buffer is full, or nothing on a
/// routing failure; the driver wake is raised in every case.
pub open spec fn spec_send_final(
    s: StackModel,
    h: int,
    remote: IpEndpoint,
    payload: Seq<u8>,
) -> StackModel {
    match s.spec_send_result(h, remote, payload) {
        Ok(()) => s.spec_send_state(h, remote, payload).woken(),
        Err(SocketSendError::BufferFull) => s.spec_register_send_waiter_state(h).woken(),
        Err(SocketSendError::Unaddressable) => s.woken(),
    }
}

/// The context after one `recv_from` attempt: the oldest inbound datagram
/// dequeued when one was queued; the driver wake is raised in every case.
pub open spec fn spec_recv_final(s: StackModel, h: int) -> StackModel {
    s.spec_recv_state(h).woken()
}

/// A datagram socket: one handle into the pool of the shared context it
/// was created against.
pub struct UdpSocket {
    handle: SocketHandle,
}

impl View for UdpSocket {
    type V = int;

    closed spec fn view(&self) -> int {
        self.handle@
    }
}

impl UdpSocket {
    /// Creates a socket against `stack`: fresh unbound state built around
    /// the two caller-owned buffers is inserted into the first free pool
    /// slot, and the returned adapter is bound to the fresh handle. The
    /// buffers belong to the socket from here on.
    pub fn new(stack: &mut SocketStack, rx_buffer: PacketBuffer, tx_buffer: PacketBuffer) -> (r:
        UdpSocket)
        requires
            old(stack).wf(),
            rx_buffer.wf(),
            tx_buffer.wf(),
            old(stack)@.sockets.len() < usize::MAX,
        ensures
            final(stack).wf(),
            r@ == old(stack)@.first_free(),
            !old(stack)@.has_socket(r@),
            final(stack)@ == old(stack)@.spec_add_state(rx_buffer@, tx_buffer@),
            final(stack)@.has_socket(r@),
            final(stack)@.socket(r@) == SocketModel::fresh(rx_buffer@, tx_buffer@),
    {
        let handle = stack.add_socket(rx_buffer, tx_buffer);
        UdpSocket { handle }
    }

    /// The handle naming this socket's state in the pool.
    pub fn handle(&self) -> (h: SocketHandle)
        ensures
            h@ == self@,
    {
        self.handle
    }

    /// Binds the socket to `endpoint`. Port zero asks for a dynamically
    /// assigned port from the context's ephemeral range, unused as long as
    /// any other live socket holds its port. Fails with `InvalidState` when
    /// the socket is already open or the port is taken, and with `NoRoute`
    /// when the endpoint cannot be serviced.
    pub fn bind(&mut self, stack: &mut SocketStack, endpoint: IpListenEndpoint) -> (r: Result<
        (),
        BindError,
    >)
        requires
            old(stack).wf(),
            old(stack)@.has_socket(old(self)@),
            endpoint.port == 0 ==> old(stack)@.free_port() is Some,
        ensures
            *final(self) == *old(self),
            final(stack).wf(),
            r == spec_bind_outcome(old(stack)@, old(self)@, endpoint),
            final(stack)@ == spec_bind_final(old(stack)@, old(self)@, endpoint),
    {
        let resolved = if endpoint.port == 0 {
            match stack.get_local_port() {
                Some(p) => IpListenEndpoint { addr: endpoint.addr, port: p },
                None => unreached(),
            }
        } else {
            endpoint
        };
        let res = stack.socket_bind(self.handle, resolved);
        stack.wake_driver();
        match res {
            Ok(()) => Ok(()),
            Err(SocketBindError::InvalidState) => Err(BindError::InvalidState),
            Err(SocketBindError::Unaddressable) => Err(BindError::NoRoute),
        }
    }

    /// One cooperative attempt to dequeue the oldest inbound datagram into
    /// a prefix of `buf`. Ready with the copied byte count and the sending
    /// endpoint when one was queued — strictly in arrival order — and
    /// `Pending` otherwise; the receive path never surfaces an error, so the
    /// caller retries on its next scheduling turn.
    pub fn recv_from(&self, stack: &mut SocketStack, buf: &mut Vec<u8>) -> (r: Poll<Result<
        (usize, IpEndpoint),
        Error,
    >>)
        requires
            old(stack).wf(),
            old(stack)@.has_socket(self@),
        ensures
            final(stack).wf(),
            final(stack)@ == spec_recv_final(old(stack)@, self@),
            old(stack)@.spec_recv_result(self@) is Err ==> r is Pending && final(buf)@ == old(
                buf,
            )@,
            old(stack)@.spec_recv_result(self@) matches Ok(d) ==> ({
                let n = vstd::math::min(d.payload.len() as int, old(buf)@.len() as int);
                &&& r matches Poll::Ready(Ok(p)) && p.0 == n && p.1 == d.remote
                &&& final(buf)@.len() == old(buf)@.len()
                &&& forall|i: int| 0 <= i < n ==> final(buf)@[i] == d.payload[i]
                &&& forall|i: int| n <= i < old(buf)@.len() ==> final(buf)@[i] == old(buf)@[i]
            }),
    {
        let res = stack.socket_recv(self.handle, buf);
        stack.wake_driver();
        match res {
            Ok((n, remote)) => Poll::Ready(Ok((n, remote))),
            Err(SocketRecvError::Exhausted) => Poll::Pending,
        }
    }

    /// One cooperative attempt to enqueue the whole payload, tagged with
    /// `remote_endpoint`, into the outbound buffer — a datagram is enqueued
    /// entire or not at all. Ready on success; Ready with `NoRoute`, never
    /// retried, when the destination cannot be addressed; `Pending` with a
    /// send wake registered when the buffer is currently full, so the
    /// caller is resumed once capacity frees up.
    pub fn send_to(&self, stack: &mut SocketStack, buf: &[u8], remote_endpoint: IpEndpoint) -> (r:
        Poll<Result<(), Error>>)
        requires
            old(stack).wf(),
            old(stack)@.has_socket(self@),
        ensures
            final(stack).wf(),
            r == spec_send_poll(old(stack)@, self@, remote_endpoint, buf@),
            final(stack)@ == spec_send_final(old(stack)@, self@, remote_endpoint, buf@),
    {
        let res = stack.socket_send(self.handle, remote_endpoint, buf);
        let r = match res {
            Ok(()) => Poll::Ready(Ok(())),
            Err(SocketSendError::BufferFull) => {
                stack.register_send_waiter(self.handle);
                Poll::Pending
            },
            Err(SocketSendError::Unaddressable) => Poll::Ready(Err(Error::NoRoute)),
        };
        stack.wake_driver();
        r
    }

    /// The current bound listen endpoint; unbound (port zero) if `bind` has
    /// not succeeded or the socket was closed.
    pub fn endpoint(&self, stack: &SocketStack) -> (r: IpListenEndpoint)
        requires
            stack@.has_socket(self@),
        ensures
            r == stack@.socket(self@).endpoint,
    {
        stack.socket_endpoint(self.handle)
    }

    /// Whether the socket has completed a successful bind and has not been
    /// closed since.
    pub fn is_open(&self, stack: &SocketStack) -> (r: bool)
        requires
            stack@.has_socket(self@),
        ensures
            r == stack@.socket(self@).is_open(),
    {
        stack.socket_is_open(self.handle)
    }

    /// Whether the outbound buffer currently has a free datagram slot.
    /// Reports readiness without mutating state.
    pub fn may_send(&self, stack: &SocketStack) -> (r: bool)
        requires
            stack@.has_socket(self@),
        ensures
            r == (stack@.socket(self@).tx.datagrams.len() < stack@.socket(self@).tx.meta_capacity),
    {
        stack.socket_may_send(self.handle)
    }

    /// Whether an inbound datagram is currently queued. Reports readiness
    /// without consuming data.
    pub fn may_recv(&self, stack: &SocketStack) -> (r: bool)
        requires
            stack@.has_socket(self@),
        ensures
            r == !stack@.socket(self@).rx.is_empty(),
    {
        stack.socket_may_recv(self.handle)
    }

    /// Closes the socket: back to unbound with both buffers emptied. The
    /// handle stays in the pool, so the same adapter may bind again.
    pub fn close(&mut self, stack: &mut SocketStack)
        requires
            old(stack).wf(),
            old(stack)@.has_socket(old(self)@),
        ensures
            *final(self) == *old(self),
            final(stack).wf(),
            final(stack)@ == old(stack)@.spec_close_state(old(self)@).woken(),
    {
        stack.socket_close(self.handle);
        stack.wake_driver();
    }

    /// Destroys the adapter and removes its state from the pool,
    /// regardless of open or closed state: the handle is dead afterwards
    /// and the slot free for a later socket.
    pub fn drop(self, stack: &mut SocketStack)
        requires
            old(stack).wf(),
            old(stack)@.has_socket(self@),
        ensures
            final(stack).wf(),
            final(stack)@ == old(stack)@.spec_remove_state(self@),
            !final(stack)@.has_socket(self@),
    {
        stack.remove_socket(self.handle);
    }
}

} // verus!
