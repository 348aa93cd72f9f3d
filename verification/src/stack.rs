//! The shared engine context: a pool of socket states, an ephemeral-port
//! allocator and a driver wake signal.
//!
//! Exactly one [`SocketStack`] is shared by every socket built against it.
//! It is handed to each operation as an exclusive borrow, so no two accesses
//! can overlap in time: the non-reentrancy the design relies on is enforced
//! by ownership instead of a documented contract.
//!
//! The methods prefixed `socket_` are the engine's per-socket primitives:
//! each reports one of the outcomes completed / would-block / unaddressable
//! through its result. `deliver` and `transmit` are the engine's own side of
//! the buffers, run by the external driver: they move datagrams into a
//! socket's inbound queue and out of its outbound queue.

use vstd::pervasive::unreached;
use vstd::prelude::*;

use crate::buffer::{Datagram, DatagramModel, PacketBuffer, PacketBufferModel};
use crate::endpoint::{IpEndpoint, IpListenEndpoint};

verus! {

/// Lowest port the ephemeral-port allocator hands out.
pub const EPHEMERAL_PORT_MIN: u16 = 49152;

/// Highest port the ephemeral-port allocator hands out.
pub const EPHEMERAL_PORT_MAX: u16 = 65535;

/// Engine-level outcome of a bind request.
#[derive(Clone, Copy, PartialEq, Eq, Debug, Structural)]
pub enum SocketBindError {
    /// The socket is already open, or the port is taken by another socket.
    InvalidState,
    /// The endpoint cannot be bound: port zero, or an address that names no
    /// host.
    Unaddressable,
}

/// Engine-level outcome of a send request.
#[derive(Clone, Copy, PartialEq, Eq, Debug, Structural)]
pub enum SocketSendError {
    /// The outbound buffer has no room for the whole datagram.
    BufferFull,
    /// The socket is unbound, or the destination cannot be routed.
    Unaddressable,
}

/// Engine-level outcome of a receive request.
#[derive(Clone, Copy, PartialEq, Eq, Debug, Structural)]
pub enum SocketRecvError {
    /// No datagram is queued.
    Exhausted,
}

/// An opaque handle naming one socket's state within the pool. It carries
/// no ownership: it is a lookup key, invalidated when the socket is removed.
#[derive(Clone, Copy, PartialEq, Eq, Debug, Structural)]
pub struct SocketHandle {
    index: usize,
}

impl View for SocketHandle {
    type V = int;

    closed spec fn view(&self) -> int {
        self.index as int
    }
}

/// The mathematical value of one pooled socket state.
#[verifier::ext_equal]
pub ghost struct SocketModel {
    /// The local binding; port zero means unbound.
    pub endpoint: IpListenEndpoint,
    /// Queued inbound datagrams, oldest first.
    pub rx: PacketBufferModel,
    /// Queued outbound datagrams, oldest first.
    pub tx: PacketBufferModel,
    /// Whether a suspended sender waits for outbound capacity.
    pub send_waiter: bool,
}

impl SocketModel {
    /// A socket is open exactly when it holds a nonzero local port.
    pub open spec fn is_open(self) -> bool {
        self.endpoint.port != 0
    }

    /// A fresh socket built around the two given buffers: unbound, with no
    /// waiter registered.
    pub open spec fn fresh(rx: PacketBufferModel, tx: PacketBufferModel) -> SocketModel {
        SocketModel {
            endpoint: IpListenEndpoint::spec_unbound(),
            rx,
            tx,
            send_waiter: false,
        }
    }
}

/// The mathematical value of the shared engine context.
#[verifier::ext_equal]
pub ghost struct StackModel {
    /// The socket pool; a `None` slot is free for reuse.
    pub sockets: Seq<Option<SocketModel>>,
    /// Whether the external driver has been signalled to re-run the engine.
    pub driver_woken: bool,
}

impl StackModel {
    /// Whether `h` names a live socket.
    pub open spec fn has_socket(self, h: int) -> bool {
        0 <= h < self.sockets.len() && self.sockets[h] is Some
    }

    /// The live socket named by `h`.
    pub open spec fn socket(self, h: int) -> SocketModel {
        self.sockets[h].unwrap()
    }

    /// Whether some live socket holds `port` as its local port.
    pub open spec fn port_in_use(self, port: u16) -> bool {
        exists|i: int|
            0 <= i < self.sockets.len() && self.sockets[i] is Some && (
            #[trigger] self.sockets[i]).unwrap().endpoint.port == port
    }

    /// The same pool with the socket named `h` replaced.
    pub open spec fn with_socket(self, h: int, sock: SocketModel) -> StackModel {
        StackModel { sockets: self.sockets.update(h, Some(sock)), driver_woken: self.driver_woken }
    }

    /// The same pool with the driver wake signal raised.
    pub open spec fn woken(self) -> StackModel {
        StackModel { sockets: self.sockets, driver_woken: true }
    }

    /// The slot a new socket goes to: the first free one, else a new slot at
    /// the end.
    pub open spec fn first_free(self) -> int {
        spec_first_free(self.sockets, 0)
    }

    /// The pool after inserting a fresh socket around the given buffers.
    pub open spec fn spec_add_state(
        self,
        rx: PacketBufferModel,
        tx: PacketBufferModel,
    ) -> StackModel {
        let h = self.first_free();
        let sock = Some(SocketModel::fresh(rx, tx));
        let sockets = if h < self.sockets.len() {
            self.sockets.update(h, sock)
        } else {
            self.sockets.push(sock)
        };
        StackModel { sockets, driver_woken: self.driver_woken }
    }

    /// The pool after removing the socket named `h`: the slot is freed and
    /// every other socket is kept.
    pub open spec fn spec_remove_state(self, h: int) -> StackModel {
        StackModel { sockets: self.sockets.update(h, None), driver_woken: self.driver_woken }
    }

    /// The lowest free ephemeral port, if any.
    pub open spec fn free_port(self) -> Option<u16> {
        spec_free_port_from(self, EPHEMERAL_PORT_MIN as int)
    }

    /// Engine outcome of binding socket `h` to `endpoint`: port zero and
    /// unspecified concrete addresses are unaddressable; an already-open
    /// socket, or a port another live socket holds, is an invalid state.
    pub open spec fn spec_bind_result(self, h: int, endpoint: IpListenEndpoint) -> Result<
        (),
        SocketBindError,
    > {
        if endpoint.port == 0 {
            Err(SocketBindError::Unaddressable)
        } else if self.socket(h).is_open() {
            Err(SocketBindError::InvalidState)
        } else if self.port_in_use(endpoint.port) {
            Err(SocketBindError::InvalidState)
        } else if endpoint.addr matches Some(a) && a.spec_is_unspecified() {
            Err(SocketBindError::Unaddressable)
        } else {
            Ok(())
        }
    }

    /// The pool after a bind request: on success the socket takes the
    /// endpoint as its local binding, on failure nothing changes.
    pub open spec fn spec_bind_state(self, h: int, endpoint: IpListenEndpoint) -> StackModel {
        if self.spec_bind_result(h, endpoint) is Ok {
            let sock = self.socket(h);
            self.with_socket(
                h,
                SocketModel {
                    endpoint,
                    rx: sock.rx,
                    tx: sock.tx,
                    send_waiter: sock.send_waiter,
                },
            )
        } else {
            self
        }
    }

    /// Engine outcome of sending `payload` to `remote` on socket `h`.
    pub open spec fn spec_send_result(
        self,
        h: int,
        remote: IpEndpoint,
        payload: Seq<u8>,
    ) -> Result<(), SocketSendError> {
        let sock = self.socket(h);
        if !sock.is_open() {
            Err(SocketSendError::Unaddressable)
        } else if !remote.spec_is_routable() {
            Err(SocketSendError::Unaddressable)
        } else if !sock.tx.fits(payload.len()) {
            Err(SocketSendError::BufferFull)
        } else {
            Ok(())
        }
    }

    /// The pool after a send request: on success the whole datagram stands
    /// at the back of the outbound queue, on failure nothing changes.
    pub open spec fn spec_send_state(
        self,
        h: int,
        remote: IpEndpoint,
        payload: Seq<u8>,
    ) -> StackModel {
        if self.spec_send_result(h, remote, payload) is Ok {
            let sock = self.socket(h);
            self.with_socket(
                h,
                SocketModel {
                    endpoint: sock.endpoint,
                    rx: sock.rx,
                    tx: PacketBufferModel {
                        datagrams: sock.tx.datagrams.push(
                            DatagramModel { remote, payload },
                        ),
                        meta_capacity: sock.tx.meta_capacity,
                        payload_capacity: sock.tx.payload_capacity,
                    },
                    send_waiter: sock.send_waiter,
                },
            )
        } else {
            self
        }
    }

    /// Engine outcome of a receive request on socket `h`: the oldest queued
    /// inbound datagram, or would-block when none is queued.
    pub open spec fn spec_recv_result(self, h: int) -> Result<DatagramModel, SocketRecvError> {
        if self.socket(h).rx.is_empty() {
            Err(SocketRecvError::Exhausted)
        } else {
            Ok(self.socket(h).rx.datagrams.first())
        }
    }

    /// The pool after a receive request: the oldest inbound datagram is
    /// gone; when none was queued nothing changes.
    pub open spec fn spec_recv_state(self, h: int) -> StackModel {
        if self.spec_recv_result(h) is Ok {
            let sock = self.socket(h);
            self.with_socket(
                h,
                SocketModel {
                    endpoint: sock.endpoint,
                    rx: PacketBufferModel {
                        datagrams: sock.rx.datagrams.drop_first(),
                        meta_capacity: sock.rx.meta_capacity,
                        payload_capacity: sock.rx.payload_capacity,
                    },
                    tx: sock.tx,
                    send_waiter: sock.send_waiter,
                },
            )
        } else {
            self
        }
    }

    /// The pool after registering a suspended sender on socket `h`.
    pub open spec fn spec_register_send_waiter_state(self, h: int) -> StackModel {
        let sock = self.socket(h);
        self.with_socket(
            h,
            SocketModel {
                endpoint: sock.endpoint,
                rx: sock.rx,
                tx: sock.tx,
                send_waiter: true,
            },
        )
    }

    /// The pool after closing socket `h`: unbound again, both buffers
    /// emptied, no waiter left; the slot stays valid for rebinding.
    pub open spec fn spec_close_state(self, h: int) -> StackModel {
        let sock = self.socket(h);
        self.with_socket(
            h,
            SocketModel {
                endpoint: IpListenEndpoint::spec_unbound(),
                rx: sock.rx.cleared(),
                tx: sock.tx.cleared(),
                send_waiter: false,
            },
        )
    }

    /// Whether the engine accepts an inbound datagram for socket `h`: the
    /// socket is open and the whole datagram fits its inbound buffer.
    pub open spec fn spec_deliver_accepted(self, h: int, payload: Seq<u8>) -> bool {
        self.socket(h).is_open() && self.socket(h).rx.fits(payload.len())
    }

    /// The pool after the engine delivered an inbound datagram to socket
    /// `h`; a rejected datagram changes nothing.
    pub open spec fn spec_deliver_state(
        self,
        h: int,
        remote: IpEndpoint,
        payload: Seq<u8>,
    ) -> StackModel {
        if self.spec_deliver_accepted(h, payload) {
            let sock = self.socket(h);
            self.with_socket(
                h,
                SocketModel {
                    endpoint: sock.endpoint,
                    rx: PacketBufferModel {
                        datagrams: sock.rx.datagrams.push(
                            DatagramModel { remote, payload },
                        ),
                        meta_capacity: sock.rx.meta_capacity,
                        payload_capacity: sock.rx.payload_capacity,
                    },
                    tx: sock.tx,
                    send_waiter: sock.send_waiter,
                },
            )
        } else {
            self
        }
    }

    /// The pool after the engine took the oldest outbound datagram of
    /// socket `h` for transmission: capacity is freed and a suspended
    /// sender, if any, is woken.
    pub open spec fn spec_transmit_state(self, h: int) -> StackModel {
        if self.socket(h).tx.is_empty() {
            self
        } else {
            let sock = self.socket(h);
            self.with_socket(
                h,
                SocketModel {
                    endpoint: sock.endpoint,
                    rx: sock.rx,
                    tx: PacketBufferModel {
                        datagrams: sock.tx.datagrams.drop_first(),
                        meta_capacity: sock.tx.meta_capacity,
                        payload_capacity: sock.tx.payload_capacity,
                    },
                    send_waiter: false,
                },
            )
        }
    }
}

/// The first index at or after `i` whose slot is free, else the pool's
/// length.
pub open spec fn spec_first_free(s: Seq<Option<SocketModel>>, i: int) -> int
    decreases s.len() - i,
{
    if i < 0 || i >= s.len() {
        s.len() as int
    } else if s[i] is None {
        i
    } else {
        spec_first_free(s, i + 1)
    }
}

/// The lowest port at or above `p` within the ephemeral range that no live
/// socket holds.
pub open spec fn spec_free_port_from(s: StackModel, p: int) -> Option<u16>
    decreases EPHEMERAL_PORT_MAX + 1 - p,
{
    if p < EPHEMERAL_PORT_MIN || p > EPHEMERAL_PORT_MAX {
        None
    } else if !s.port_in_use(p as u16) {
        Some(p as u16)
    } else {
        spec_free_port_from(s, p + 1)
    }
}

/// A free port reported by the allocator lies in the ephemeral range and is
/// held by no live socket; when the allocator reports none, every port of
/// the range is held.
pub proof fn lemma_free_port_from(s: StackModel, p: int)
    requires
        EPHEMERAL_PORT_MIN <= p,
    ensures
        spec_free_port_from(s, p) matches Some(q) ==> p <= q <= EPHEMERAL_PORT_MAX
            && !s.port_in_use(q),
        spec_free_port_from(s, p) is None ==> forall|q: u16|
            p <= q <= EPHEMERAL_PORT_MAX ==> s.port_in_use(q),
    decreases EPHEMERAL_PORT_MAX + 1 - p,
{
    if EPHEMERAL_PORT_MIN <= p <= EPHEMERAL_PORT_MAX && s.port_in_use(p as u16) {
        lemma_free_port_from(s, p + 1);
    }
}

/// One pooled socket: its binding, its two buffers and its waiter mark.
struct SocketState {
    endpoint: IpListenEndpoint,
    rx: PacketBuffer,
    tx: PacketBuffer,
    send_waiter: bool,
}

impl SocketState {
    spec fn model(self) -> SocketModel {
        SocketModel {
            endpoint: self.endpoint,
            rx: self.rx@,
            tx: self.tx@,
            send_waiter: self.send_waiter,
        }
    }

    spec fn wf(self) -> bool {
        self.rx.wf() && self.tx.wf()
    }
}

/// The shared engine context. One instance is created by the owning system
/// and outlives every socket built against it.
pub struct SocketStack {
    sockets: Vec<Option<SocketState>>,
    driver_woken: bool,
}

impl View for SocketStack {
    type V = StackModel;

    closed spec fn view(&self) -> StackModel {
        StackModel {
            sockets: self.sockets@.map_values(
                |o: Option<SocketState>|
                    match o {
                        Some(st) => Some(st.model()),
                        None => None,
                    },
            ),
            driver_woken: self.driver_woken,
        }
    }
}

impl SocketStack {
    /// Validity of the context: every pooled buffer is valid.
    pub closed spec fn wf(self) -> bool {
        forall|i: int|
            0 <= i < self.sockets@.len() && self.sockets@[i] is Some ==> (
            #[trigger] self.sockets@[i]).unwrap().wf()
    }

    /// An empty context: no sockets, wake signal clear.
    pub fn new() -> (r: SocketStack)
        ensures
            r@ == (StackModel { sockets: Seq::<Option<SocketModel>>::empty(), driver_woken: false }),
            r.wf(),
    {
        let r = SocketStack { sockets: Vec::new(), driver_woken: false };
        proof {
            assert(r@.sockets =~= Seq::<Option<SocketModel>>::empty());
        }
        r
    }

    /// How many slots the pool holds, free ones included.
    pub fn slot_count(&self) -> (r: usize)
        ensures
            r == self@.sockets.len(),
    {
        self.sockets.len()
    }

    /// Whether `h` names a live socket.
    pub fn has_socket(&self, h: SocketHandle) -> (r: bool)
        ensures
            r == self@.has_socket(h@),
    {
        h.index < self.sockets.len() && self.sockets[h.index].is_some()
    }

    /// Raises the wake signal: the external driver must re-run the engine.
    pub fn wake_driver(&mut self)
        ensures
            final(self)@ == old(self)@.woken(),
            final(self).wf() == old(self).wf(),
    {
        self.driver_woken = true;
    }

    /// Clears and reports the wake signal; the external driver polls this.
    pub fn take_driver_wake(&mut self) -> (r: bool)
        ensures
            r == old(self)@.driver_woken,
            final(self)@ == (StackModel { sockets: old(self)@.sockets, driver_woken: false }),
            final(self).wf() == old(self).wf(),
    {
        let r = self.driver_woken;
        self.driver_woken = false;
        r
    }

    /// Inserts fresh socket state built around the two given buffers into
    /// the first free slot and returns its handle. The buffers are owned by
    /// the new socket from here on.
    pub fn add_socket(&mut self, rx: PacketBuffer, tx: PacketBuffer) -> (h: SocketHandle)
        requires
            old(self).wf(),
            rx.wf(),
            tx.wf(),
            old(self)@.sockets.len() < usize::MAX,
        ensures
            final(self).wf(),
            h@ == old(self)@.first_free(),
            !old(self)@.has_socket(h@),
            final(self)@ == old(self)@.spec_add_state(rx@, tx@),
            final(self)@.has_socket(h@),
            final(self)@.socket(h@) == SocketModel::fresh(rx@, tx@),
    {
        let ghost pre = self@;
        let mut i: usize = 0;
        while i < self.sockets.len() && self.sockets[i].is_some()
            invariant
                *self == *old(self),
                i <= self.sockets@.len(),
                forall|j: int| 0 <= j < i ==> self.sockets@[j] is Some,
            decreases self.sockets@.len() - i,
        {
            i = i + 1;
        }
        proof {
            lemma_spec_first_free_at(pre.sockets, i as int);
        }
        let state = SocketState {
            endpoint: IpListenEndpoint::unbound(),
            rx,
            tx,
            send_waiter: false,
        };
        if i < self.sockets.len() {
            self.sockets[i] = Some(state);
        } else {
            self.sockets.push(Some(state));
        }
        proof {
            assert(self@.sockets =~= pre.spec_add_state(rx@, tx@).sockets);
            assert(self@ =~= pre.spec_add_state(rx@, tx@));
        }
        SocketHandle { index: i }
    }

    /// Removes the socket named `h` from the pool: the handle is dead
    /// afterwards and the slot free for reuse. Every other socket is kept.
    pub fn remove_socket(&mut self, h: SocketHandle)
        requires
            old(self).wf(),
            old(self)@.has_socket(h@),
        ensures
            final(self).wf(),
            final(self)@ == old(self)@.spec_remove_state(h@),
            !final(self)@.has_socket(h@),
    {
        let ghost pre = self@;
        self.sockets[h.index] = None;
        proof {
            assert(self@.sockets =~= pre.spec_remove_state(h@).sockets);
            assert(self@ =~= pre.spec_remove_state(h@));
        }
    }

    /// Whether some live socket holds `port` as its local port.
    pub fn port_is_bound(&self, port: u16) -> (r: bool)
        ensures
            r == self@.port_in_use(port),
    {
        let mut i: usize = 0;
        while i < self.sockets.len()
            invariant
                i <= self.sockets@.len(),
                forall|j: int|
                    0 <= j < i ==> !(self@.sockets[j] is Some && (
                    #[trigger] self@.sockets[j]).unwrap().endpoint.port == port),
            decreases self.sockets@.len() - i,
        {
            match &self.sockets[i] {
                Some(st) => {
                    if st.endpoint.port == port {
                        assert(self@.sockets[i as int] is Some
                            && self@.sockets[i as int].unwrap().endpoint.port == port);
                        return true;
                    }
                },
                None => {},
            }
            i = i + 1;
        }
        false
    }

    /// The lowest ephemeral port no live socket holds, or `None` when the
    /// whole range is taken. Uniqueness across the context is guaranteed
    /// while any socket holds the port.
    pub fn get_local_port(&self) -> (r: Option<u16>)
        ensures
            r == self@.free_port(),
            r matches Some(p) ==> EPHEMERAL_PORT_MIN <= p <= EPHEMERAL_PORT_MAX
                && !self@.port_in_use(p),
            r is None ==> forall|q: u16|
                EPHEMERAL_PORT_MIN <= q <= EPHEMERAL_PORT_MAX ==> self@.port_in_use(q),
    {
        proof {
            lemma_free_port_from(self@, EPHEMERAL_PORT_MIN as int);
        }
        let mut p: u32 = EPHEMERAL_PORT_MIN as u32;
        while p <= EPHEMERAL_PORT_MAX as u32
            invariant
                EPHEMERAL_PORT_MIN <= p <= EPHEMERAL_PORT_MAX as u32 + 1,
                self@.free_port() == spec_free_port_from(self@, p as int),
            decreases EPHEMERAL_PORT_MAX as int + 1 - p,
        {
            if !self.port_is_bound(p as u16) {
                return Some(p as u16);
            }
            p = p + 1;
        }
        None
    }

    /// The current local binding of socket `h`.
    pub fn socket_endpoint(&self, h: SocketHandle) -> (r: IpListenEndpoint)
        requires
            self@.has_socket(h@),
        ensures
            r == self@.socket(h@).endpoint,
    {
        match &self.sockets[h.index] {
            Some(st) => st.endpoint,
            None => unreached(),
        }
    }

    /// Whether socket `h` is open: bound to a nonzero local port and not
    /// closed since.
    pub fn socket_is_open(&self, h: SocketHandle) -> (r: bool)
        requires
            self@.has_socket(h@),
        ensures
            r == self@.socket(h@).is_open(),
    {
        match &self.sockets[h.index] {
            Some(st) => st.endpoint.port != 0,
            None => unreached(),
        }
    }

    /// Whether socket `h` has a free outbound metadata slot.
    pub fn socket_may_send(&self, h: SocketHandle) -> (r: bool)
        requires
            self@.has_socket(h@),
        ensures
            r == (self@.socket(h@).tx.datagrams.len() < self@.socket(h@).tx.meta_capacity),
    {
        match &self.sockets[h.index] {
            Some(st) => st.tx.len() < st.tx.meta_capacity(),
            None => unreached(),
        }
    }

    /// Whether socket `h` has an inbound datagram queued.
    pub fn socket_may_recv(&self, h: SocketHandle) -> (r: bool)
        requires
            self@.has_socket(h@),
        ensures
            r == !self@.socket(h@).rx.is_empty(),
    {
        match &self.sockets[h.index] {
            Some(st) => !st.rx.is_empty(),
            None => unreached(),
        }
    }

    /// The engine's bind primitive: moves socket `h` from unbound to bound
    /// at `endpoint`, or reports why it cannot.
    pub fn socket_bind(&mut self, h: SocketHandle, endpoint: IpListenEndpoint) -> (r: Result<
        (),
        SocketBindError,
    >)
        requires
            old(self).wf(),
            old(self)@.has_socket(h@),
        ensures
            final(self).wf(),
            r == old(self)@.spec_bind_result(h@, endpoint),
            final(self)@ == old(self)@.spec_bind_state(h@, endpoint),
    {
        let ghost pre = self@;
        if endpoint.port == 0 {
            return Err(SocketBindError::Unaddressable);
        }
        if self.socket_is_open(h) {
            return Err(SocketBindError::InvalidState);
        }
        if self.port_is_bound(endpoint.port) {
            return Err(SocketBindError::InvalidState);
        }
        if let Some(a) = endpoint.addr {
            if a.is_unspecified() {
                return Err(SocketBindError::Unaddressable);
            }
        }
        let st = &mut self.sockets[h.index];
        match st {
            Some(sock) => {
                sock.endpoint = endpoint;
            },
            None => unreached(),
        }
        proof {
            assert(self@.sockets =~= pre.spec_bind_state(h@, endpoint).sockets);
            assert(self@ =~= pre.spec_bind_state(h@, endpoint));
        }
        Ok(())
    }

    /// The engine's send primitive: enqueues the whole payload, tagged with
    /// `remote`, at the back of socket `h`'s outbound queue in one step, or
    /// reports why it cannot. Partial sends do not exist.
    pub fn socket_send(&mut self, h: SocketHandle, remote: IpEndpoint, payload: &[u8]) -> (r:
        Result<(), SocketSendError>)
        requires
            old(self).wf(),
            old(self)@.has_socket(h@),
        ensures
            final(self).wf(),
            r == old(self)@.spec_send_result(h@, remote, payload@),
            final(self)@ == old(self)@.spec_send_state(h@, remote, payload@),
    {
        let ghost pre = self@;
        if !self.socket_is_open(h) {
            return Err(SocketSendError::Unaddressable);
        }
        if !remote.is_routable() {
            return Err(SocketSendError::Unaddressable);
        }
        proof {
            assert(self.sockets@[h@].unwrap().wf());
        }
        let fits = match &self.sockets[h.index] {
            Some(st) => st.tx.can_enqueue(payload.len()),
            None => unreached(),
        };
        if !fits {
            return Err(SocketSendError::BufferFull);
        }
        let payload_vec = vstd::slice::slice_to_vec(payload);
        let st = &mut self.sockets[h.index];
        match st {
            Some(sock) => {
                sock.tx.enqueue(remote, payload_vec);
            },
            None => unreached(),
        }
        proof {
            assert(self@.sockets =~= pre.spec_send_state(h@, remote, payload@).sockets);
            assert(self@ =~= pre.spec_send_state(h@, remote, payload@));
        }
        Ok(())
    }

    /// The engine's receive primitive: dequeues the oldest inbound datagram
    /// of socket `h` into a prefix of `buf` and reports how many bytes were
    /// copied and who sent them, or reports that none is queued. Datagrams
    /// are surfaced in arrival order, never reordered or coalesced; a
    /// payload longer than `buf` is cut at `buf`'s length.
    pub fn socket_recv(&mut self, h: SocketHandle, buf: &mut Vec<u8>) -> (r: Result<
        (usize, IpEndpoint),
        SocketRecvError,
    >)
        requires
            old(self).wf(),
            old(self)@.has_socket(h@),
        ensures
            final(self).wf(),
            final(self)@ == old(self)@.spec_recv_state(h@),
            old(self)@.spec_recv_result(h@) matches Err(e) ==> r == Err::<
                (usize, IpEndpoint),
                SocketRecvError,
            >(e) && final(buf)@ == old(buf)@,
            old(self)@.spec_recv_result(h@) matches Ok(d) ==> ({
                let n = vstd::math::min(d.payload.len() as int, old(buf)@.len() as int);
                &&& r matches Ok(p) && p.1 == d.remote && p.0 == n
                &&& final(buf)@.len() == old(buf)@.len()
                &&& forall|i: int| 0 <= i < n ==> final(buf)@[i] == d.payload[i]
                &&& forall|i: int| n <= i < old(buf)@.len() ==> final(buf)@[i] == old(buf)@[i]
            }),
    {
        let ghost pre = self@;
        let empty = match &self.sockets[h.index] {
            Some(st) => st.rx.is_empty(),
            None => unreached(),
        };
        if empty {
            return Err(SocketRecvError::Exhausted);
        }
        proof {
            assert(self.sockets@[h@].unwrap().wf());
        }
        let st = &mut self.sockets[h.index];
        let d = match st {
            Some(sock) => sock.rx.dequeue(),
            None => unreached(),
        };
        proof {
            assert(self@.sockets =~= pre.spec_recv_state(h@).sockets);
            assert(self@ =~= pre.spec_recv_state(h@));
        }
        let n = copy_prefix(buf, &d.payload);
        Ok((n, d.remote))
    }

    /// Registers a suspended sender on socket `h`, to be woken when
    /// outbound capacity frees up.
    pub fn register_send_waiter(&mut self, h: SocketHandle)
        requires
            old(self).wf(),
            old(self)@.has_socket(h@),
        ensures
            final(self).wf(),
            final(self)@ == old(self)@.spec_register_send_waiter_state(h@),
    {
        let ghost pre = self@;
        let st = &mut self.sockets[h.index];
        match st {
            Some(sock) => {
                sock.send_waiter = true;
            },
            None => unreached(),
        }
        proof {
            assert(self@.sockets =~= pre.spec_register_send_waiter_state(h@).sockets);
            assert(self@ =~= pre.spec_register_send_waiter_state(h@));
        }
    }

    /// The engine's close primitive: socket `h` goes back to unbound with
    /// both buffers emptied. The handle stays valid and may be rebound.
    pub fn socket_close(&mut self, h: SocketHandle)
        requires
            old(self).wf(),
            old(self)@.has_socket(h@),
        ensures
            final(self).wf(),
            final(self)@ == old(self)@.spec_close_state(h@),
    {
        let ghost pre = self@;
        let st = &mut self.sockets[h.index];
        match st {
            Some(sock) => {
                sock.endpoint = IpListenEndpoint::unbound();
                sock.rx.clear();
                sock.tx.clear();
                sock.send_waiter = false;
            },
            None => unreached(),
        }
        proof {
            assert(self@.sockets =~= pre.spec_close_state(h@).sockets);
            assert(self@ =~= pre.spec_close_state(h@));
        }
    }

    /// The engine's inbound side, run by the external driver: offers a
    /// received datagram to socket `h`. It is accepted exactly when the
    /// socket is open and the whole datagram fits the inbound buffer.
    pub fn deliver(&mut self, h: SocketHandle, remote: IpEndpoint, payload: &[u8]) -> (r: bool)
        requires
            old(self).wf(),
            old(self)@.has_socket(h@),
        ensures
            final(self).wf(),
            r == old(self)@.spec_deliver_accepted(h@, payload@),
            final(self)@ == old(self)@.spec_deliver_state(h@, remote, payload@),
    {
        let ghost pre = self@;
        if !self.socket_is_open(h) {
            return false;
        }
        proof {
            assert(self.sockets@[h@].unwrap().wf());
        }
        let fits = match &self.sockets[h.index] {
            Some(st) => st.rx.can_enqueue(payload.len()),
            None => unreached(),
        };
        if !fits {
            return false;
        }
        let payload_vec = vstd::slice::slice_to_vec(payload);
        let st = &mut self.sockets[h.index];
        match st {
            Some(sock) => {
                sock.rx.enqueue(remote, payload_vec);
            },
            None => unreached(),
        }
        proof {
            assert(self@.sockets =~= pre.spec_deliver_state(h@, remote, payload@).sockets);
            assert(self@ =~= pre.spec_deliver_state(h@, remote, payload@));
        }
        true
    }

    /// The engine's outbound side, run by the external driver: takes the
    /// oldest outbound datagram of socket `h` for transmission, freeing
    /// capacity and waking a suspended sender, if one is registered.
    pub fn transmit(&mut self, h: SocketHandle) -> (r: Option<Datagram>)
        requires
            old(self).wf(),
            old(self)@.has_socket(h@),
        ensures
            final(self).wf(),
            final(self)@ == old(self)@.spec_transmit_state(h@),
            old(self)@.socket(h@).tx.is_empty() ==> r is None,
            !old(self)@.socket(h@).tx.is_empty() ==> (r matches Some(d) && d@ == old(
                self,
            )@.socket(h@).tx.datagrams.first()),
    {
        let ghost pre = self@;
        let empty = match &self.sockets[h.index] {
            Some(st) => st.tx.is_empty(),
            None => unreached(),
        };
        if empty {
            return None;
        }
        proof {
            assert(self.sockets@[h@].unwrap().wf());
        }
        let st = &mut self.sockets[h.index];
        let d = match st {
            Some(sock) => {
                let d = sock.tx.dequeue();
                sock.send_waiter = false;
                d
            },
            None => unreached(),
        };
        proof {
            assert(self@.sockets =~= pre.spec_transmit_state(h@).sockets);
            assert(self@ =~= pre.spec_transmit_state(h@));
        }
        Some(d)
    }
}

/// Copies as much of `src` as fits into a prefix of `dst`, leaving the rest
/// of `dst` as it was, and reports how many bytes were copied.
fn copy_prefix(dst: &mut Vec<u8>, src: &Vec<u8>) -> (n: usize)
    ensures
        n == vstd::math::min(src@.len() as int, old(dst)@.len() as int),
        final(dst)@.len() == old(dst)@.len(),
        forall|i: int| 0 <= i < n ==> final(dst)@[i] == src@[i],
        forall|i: int| n <= i < old(dst)@.len() ==> final(dst)@[i] == old(dst)@[i],
{
    let n = if src.len() <= dst.len() {
        src.len()
    } else {
        dst.len()
    };
    let mut i: usize = 0;
    while i < n
        invariant
            i <= n,
            n <= src@.len(),
            n <= old(dst)@.len(),
            dst@.len() == old(dst)@.len(),
            forall|j: int| 0 <= j < i ==> dst@[j] == src@[j],
            forall|j: int| i <= j < old(dst)@.len() ==> dst@[j] == old(dst)@[j],
        decreases n - i,
    {
        let b = src[i];
        dst[i] = b;
        i = i + 1;
    }
    n
}

/// The slot the pool hands out next lies between `i` and the pool's
/// length, and is free when it lies inside the pool.
pub proof fn lemma_first_free_bounds(s: Seq<Option<SocketModel>>, i: int)
    requires
        0 <= i <= s.len(),
    ensures
        i <= spec_first_free(s, i) <= s.len(),
        spec_first_free(s, i) < s.len() ==> s[spec_first_free(s, i)] is None,
    decreases s.len() - i,
{
    if i < s.len() && s[i] is Some {
        lemma_first_free_bounds(s, i + 1);
    }
}

/// The first free slot comes no later than any free slot.
pub proof fn lemma_first_free_le(s: Seq<Option<SocketModel>>, i: int, j: int)
    requires
        0 <= i <= j < s.len(),
        s[j] is None,
    ensures
        spec_first_free(s, i) <= j,
    decreases j - i,
{
    if i < j && s[i] is Some {
        lemma_first_free_le(s, i + 1, j);
    }
}

proof fn lemma_spec_first_free_at(s: Seq<Option<SocketModel>>, k: int)
    requires
        0 <= k <= s.len(),
        forall|j: int| 0 <= j < k ==> s[j] is Some,
        k == s.len() || s[k] is None,
    ensures
        spec_first_free(s, 0) == k,
{
    lemma_spec_first_free_from(s, 0, k);
}

proof fn lemma_spec_first_free_from(s: Seq<Option<SocketModel>>, i: int, k: int)
    requires
        0 <= i <= k <= s.len(),
        forall|j: int| i <= j < k ==> s[j] is Some,
        k == s.len() || s[k] is None,
    ensures
        spec_first_free(s, i) == k,
    decreases k - i,
{
    if i < k {
        lemma_spec_first_free_from(s, i + 1, k);
    }
}

} // verus!
