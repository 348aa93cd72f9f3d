//! Laws of the adapter, stated over the same spec-level transitions that
//! the executable operations are proved to follow.

use vstd::prelude::*;

use crate::buffer::{lemma_total_bytes_push, total_bytes, DatagramModel, PacketBufferModel};
use crate::endpoint::{IpEndpoint, IpListenEndpoint};
use crate::stack::{SocketModel, SocketRecvError, StackModel};
use crate::udp::{
    spec_bind_final, spec_bind_outcome, spec_send_final, spec_send_poll, BindError, Error, Poll,
};

verus! {

/// Binding with port zero on two distinct sockets sharing one context
/// always assigns two different ports: each successful bind takes a port no
/// live socket held, and the first socket holds its port while the second
/// bind runs.
pub proof fn lemma_ephemeral_ports_distinct(
    s0: StackModel,
    h1: int,
    h2: int,
    ep1: IpListenEndpoint,
    ep2: IpListenEndpoint,
)
    requires
        h1 != h2,
        s0.has_socket(h1),
        s0.has_socket(h2),
        ep1.port == 0,
        ep2.port == 0,
        spec_bind_outcome(s0, h1, ep1) == Ok::<(), BindError>(()),
        spec_bind_outcome(spec_bind_final(s0, h1, ep1), h2, ep2) == Ok::<(), BindError>(()),
    ensures
        ({
            let s2 = spec_bind_final(spec_bind_final(s0, h1, ep1), h2, ep2);
            s2.socket(h1).endpoint.port != s2.socket(h2).endpoint.port
        }),
{
    let s1 = spec_bind_final(s0, h1, ep1);
    let p1 = s1.socket(h1).endpoint.port;
    assert(s1.sockets[h1] is Some && s1.sockets[h1].unwrap().endpoint.port == p1);
    assert(s1.port_in_use(p1));
}

/// Binding an explicit fixed port twice on the same context fails the
/// second attempt with `InvalidState`: the first socket holds the port.
pub proof fn lemma_fixed_port_conflict(
    s0: StackModel,
    h1: int,
    h2: int,
    ep: IpListenEndpoint,
)
    requires
        h1 != h2,
        s0.has_socket(h1),
        s0.has_socket(h2),
        ep.port != 0,
        spec_bind_outcome(s0, h1, ep) == Ok::<(), BindError>(()),
    ensures
        spec_bind_outcome(spec_bind_final(s0, h1, ep), h2, ep) == Err::<(), BindError>(
            BindError::InvalidState,
        ),
{
    let s1 = spec_bind_final(s0, h1, ep);
    assert(s1.sockets[h1] is Some && s1.sockets[h1].unwrap().endpoint.port == ep.port);
    assert(s1.port_in_use(ep.port));
}

/// With the outbound buffer holding its full datagram count, a further
/// send to a routable destination does not complete and does not fail: it
/// suspends, loses nothing, and registers a wake; and once the engine
/// transmits one queued datagram, a retry whose payload fits the freed
/// byte capacity completes.
pub proof fn lemma_send_blocked_until_capacity(
    s: StackModel,
    h: int,
    remote: IpEndpoint,
    payload: Seq<u8>,
)
    requires
        s.has_socket(h),
        s.socket(h).is_open(),
        remote.spec_is_routable(),
        s.socket(h).tx.meta_capacity > 0,
        s.socket(h).tx.datagrams.len() == s.socket(h).tx.meta_capacity,
    ensures
        spec_send_poll(s, h, remote, payload) == Poll::<Result<(), Error>>::Pending,
        spec_send_final(s, h, remote, payload).socket(h).tx.datagrams == s.socket(h).tx.datagrams,
        spec_send_final(s, h, remote, payload).socket(h).send_waiter,
        ({
            let s2 = s.spec_transmit_state(h);
            total_bytes(s2.socket(h).tx.datagrams) + payload.len() <= s2.socket(
                h,
            ).tx.payload_capacity ==> spec_send_poll(s2, h, remote, payload) == Poll::<
                Result<(), Error>,
            >::Ready(Ok(()))
        }),
{
}

/// Datagrams delivered to a socket's inbound buffer in order are returned
/// by successive receive attempts in exactly that order, each with its own
/// remote endpoint and payload, and the buffer is empty afterwards.
pub proof fn lemma_recv_fifo_order(
    s0: StackModel,
    h: int,
    d1: DatagramModel,
    d2: DatagramModel,
    d3: DatagramModel,
)
    requires
        s0.has_socket(h),
        s0.socket(h).is_open(),
        s0.socket(h).rx.is_empty(),
        s0.socket(h).rx.meta_capacity >= 3,
        d1.payload.len() + d2.payload.len() + d3.payload.len() <= s0.socket(
            h,
        ).rx.payload_capacity,
    ensures
        ({
            let s1 = s0.spec_deliver_state(h, d1.remote, d1.payload);
            let s2 = s1.spec_deliver_state(h, d2.remote, d2.payload);
            let s3 = s2.spec_deliver_state(h, d3.remote, d3.payload);
            let t1 = s3.spec_recv_state(h);
            let t2 = t1.spec_recv_state(h);
            let t3 = t2.spec_recv_state(h);
            &&& s0.spec_deliver_accepted(h, d1.payload)
            &&& s1.spec_deliver_accepted(h, d2.payload)
            &&& s2.spec_deliver_accepted(h, d3.payload)
            &&& s3.spec_recv_result(h) == Ok::<DatagramModel, SocketRecvError>(d1)
            &&& t1.spec_recv_result(h) == Ok::<DatagramModel, SocketRecvError>(d2)
            &&& t2.spec_recv_result(h) == Ok::<DatagramModel, SocketRecvError>(d3)
            &&& t3.socket(h).rx.is_empty()
        }),
{
    let q0 = s0.socket(h).rx.datagrams;
    assert(q0 =~= Seq::<DatagramModel>::empty());
    assert(total_bytes(q0) == 0);
    lemma_total_bytes_push(q0, d1);
    let q1 = q0.push(d1);
    lemma_total_bytes_push(q1, d2);
    let q2 = q1.push(d2);
    lemma_total_bytes_push(q2, d3);
    let q3 = q2.push(d3);
    let s1 = s0.spec_deliver_state(h, d1.remote, d1.payload);
    let s2 = s1.spec_deliver_state(h, d2.remote, d2.payload);
    let s3 = s2.spec_deliver_state(h, d3.remote, d3.payload);
    assert(d1 == (DatagramModel { remote: d1.remote, payload: d1.payload }));
    assert(s1.socket(h).rx.datagrams == q1);
    assert(s2.socket(h).rx.datagrams == q2);
    assert(s3.socket(h).rx.datagrams == q3);
    assert(q3.first() == d1);
    let t1 = s3.spec_recv_state(h);
    assert(t1.socket(h).rx.datagrams == q3.drop_first());
    assert(q3.drop_first().first() == d2);
    let t2 = t1.spec_recv_state(h);
    assert(t2.socket(h).rx.datagrams == q3.drop_first().drop_first());
    assert(q3.drop_first().drop_first().first() == d3);
    let t3 = t2.spec_recv_state(h);
    assert(t3.socket(h).rx.datagrams.len() == 0);
}

/// Sending to an unroutable destination endpoint reports the routing
/// failure on the very attempt — no suspension — and changes nothing in the
/// context beyond the driver wake; the datagram is not silently dropped
/// into any queue.
pub proof fn lemma_unroutable_send_fails_immediately(
    s: StackModel,
    h: int,
    remote: IpEndpoint,
    payload: Seq<u8>,
)
    requires
        s.has_socket(h),
        !remote.spec_is_routable(),
    ensures
        spec_send_poll(s, h, remote, payload) == Poll::<Result<(), Error>>::Ready(
            Err(Error::NoRoute),
        ),
        spec_send_final(s, h, remote, payload) == s.woken(),
{
}

/// After a close the socket reports not open, and a bind on the same
/// adapter succeeds again without reconstruction — provided the requested
/// port is serviceable: nonzero, not meanwhile taken by another live
/// socket, and not a concrete unspecified address.
pub proof fn lemma_rebind_after_close(s0: StackModel, h: int, ep: IpListenEndpoint)
    requires
        s0.has_socket(h),
        ep.port != 0,
        !s0.spec_close_state(h).woken().port_in_use(ep.port),
        !(ep.addr matches Some(a) && a.spec_is_unspecified()),
    ensures
        !s0.spec_close_state(h).woken().socket(h).is_open(),
        spec_bind_outcome(s0.spec_close_state(h).woken(), h, ep) == Ok::<(), BindError>(()),
{
}

/// After adapter destruction the handle names nothing in the pool; its
/// slot is free for a later socket, and a socket then created around fresh
/// buffers carries exactly those buffers — no datagram of the destroyed
/// socket leaks into it.
pub proof fn lemma_no_state_leaks_across_reuse(
    s0: StackModel,
    h: int,
    rx: PacketBufferModel,
    tx: PacketBufferModel,
)
    requires
        s0.has_socket(h),
    ensures
        !s0.spec_remove_state(h).has_socket(h),
        s0.spec_remove_state(h).first_free() <= h,
        ({
            let s1 = s0.spec_remove_state(h);
            let h2 = s1.first_free();
            let s2 = s1.spec_add_state(rx, tx);
            &&& s2.has_socket(h2)
            &&& s2.socket(h2) == SocketModel::fresh(rx, tx)
        }),
{
    let s1 = s0.spec_remove_state(h);
    crate::stack::lemma_first_free_le(s1.sockets, 0, h);
    crate::stack::lemma_first_free_bounds(s1.sockets, 0);
}

} // verus!
