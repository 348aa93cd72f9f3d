use udp_adapter::buffer::PacketBuffer;
use udp_adapter::endpoint::{IpAddress, IpEndpoint, IpListenEndpoint};
use udp_adapter::stack::SocketStack;
use udp_adapter::udp::{BindError, Error, Poll, UdpSocket};

fn remote(a: u8, b: u8, c: u8, d: u8, port: u16) -> IpEndpoint {
    IpEndpoint::new(IpAddress::new(a, b, c, d), port)
}

fn listen(port: u16) -> IpListenEndpoint {
    IpListenEndpoint { addr: None, port }
}

fn make_socket(stack: &mut SocketStack, meta: usize, payload: usize) -> UdpSocket {
    let rx = PacketBuffer::new(meta, payload);
    let tx = PacketBuffer::new(meta, payload);
    UdpSocket::new(stack, rx, tx)
}

#[test]
fn ephemeral_ports_are_distinct() {
    let mut stack = SocketStack::new();
    let mut s1 = make_socket(&mut stack, 4, 256);
    let mut s2 = make_socket(&mut stack, 4, 256);

    assert_eq!(s1.bind(&mut stack, listen(0)), Ok(()));
    assert_eq!(s2.bind(&mut stack, listen(0)), Ok(()));

    let p1 = s1.endpoint(&stack).port;
    let p2 = s2.endpoint(&stack).port;
    assert_ne!(p1, p2);
    assert!(p1 >= 49152);
    assert!(p2 >= 49152);
    // The allocator hands out the lowest free port of the range.
    assert_eq!(p1, 49152);
    assert_eq!(p2, 49153);
}

#[test]
fn ephemeral_allocation_skips_taken_ports() {
    let mut stack = SocketStack::new();
    let mut s1 = make_socket(&mut stack, 4, 256);
    let mut s2 = make_socket(&mut stack, 4, 256);

    assert_eq!(s1.bind(&mut stack, listen(49152)), Ok(()));
    assert_eq!(s2.bind(&mut stack, listen(0)), Ok(()));
    assert_eq!(s2.endpoint(&stack).port, 49153);
}

#[test]
fn fixed_port_conflict_is_invalid_state() {
    let mut stack = SocketStack::new();
    let mut s1 = make_socket(&mut stack, 4, 256);
    let mut s2 = make_socket(&mut stack, 4, 256);

    assert_eq!(s1.bind(&mut stack, listen(8080)), Ok(()));
    assert_eq!(s2.bind(&mut stack, listen(8080)), Err(BindError::InvalidState));
}

#[test]
fn rebinding_an_open_socket_is_invalid_state() {
    let mut stack = SocketStack::new();
    let mut s = make_socket(&mut stack, 4, 256);

    assert_eq!(s.bind(&mut stack, listen(8080)), Ok(()));
    assert_eq!(s.bind(&mut stack, listen(9090)), Err(BindError::InvalidState));
}

#[test]
fn binding_a_concrete_unspecified_address_is_no_route() {
    let mut stack = SocketStack::new();
    let mut s = make_socket(&mut stack, 4, 256);

    let ep = IpListenEndpoint { addr: Some(IpAddress::new(0, 0, 0, 0)), port: 8080 };
    assert_eq!(s.bind(&mut stack, ep), Err(BindError::NoRoute));
    assert!(!s.is_open(&stack));
}

#[test]
fn send_suspends_when_full_and_resumes_after_transmit() {
    let mut stack = SocketStack::new();
    let mut s = make_socket(&mut stack, 2, 256);
    assert_eq!(s.bind(&mut stack, listen(7000)), Ok(()));

    let dst = remote(10, 0, 0, 1, 9000);
    assert_eq!(s.send_to(&mut stack, &[1], dst), Poll::Ready(Ok(())));
    assert_eq!(s.send_to(&mut stack, &[2], dst), Poll::Ready(Ok(())));
    assert!(!s.may_send(&stack));

    // Outbound capacity is exhausted: the further send suspends, it does
    // not fail, and nothing already queued is lost.
    assert_eq!(s.send_to(&mut stack, &[3], dst), Poll::Pending);
    assert_eq!(s.send_to(&mut stack, &[3], dst), Poll::Pending);

    // The driver transmits the oldest datagram, freeing capacity.
    let taken = stack.transmit(s.handle()).expect("a datagram was queued");
    assert_eq!(taken.payload, vec![1]);
    assert_eq!(taken.remote, dst);

    assert!(s.may_send(&stack));
    assert_eq!(s.send_to(&mut stack, &[3], dst), Poll::Ready(Ok(())));
}

#[test]
fn send_suspends_when_payload_bytes_do_not_fit() {
    let mut stack = SocketStack::new();
    let rx = PacketBuffer::new(4, 64);
    let tx = PacketBuffer::new(4, 4);
    let mut s = UdpSocket::new(&mut stack, rx, tx);
    assert_eq!(s.bind(&mut stack, listen(7000)), Ok(()));

    let dst = remote(10, 0, 0, 1, 9000);
    assert_eq!(s.send_to(&mut stack, &[9, 9, 9], dst), Poll::Ready(Ok(())));
    // A metadata slot is free but only one payload byte is: two do not fit.
    assert_eq!(s.send_to(&mut stack, &[8, 8], dst), Poll::Pending);
    // A datagram is enqueued whole or not at all: nothing partial went in.
    assert_eq!(s.send_to(&mut stack, &[7], dst), Poll::Ready(Ok(())));
}

#[test]
fn recv_returns_datagrams_in_arrival_order() {
    let mut stack = SocketStack::new();
    let mut s = make_socket(&mut stack, 8, 256);
    assert_eq!(s.bind(&mut stack, listen(7000)), Ok(()));

    let r1 = remote(10, 0, 0, 1, 1111);
    let r2 = remote(10, 0, 0, 2, 2222);
    let r3 = remote(10, 0, 0, 3, 3333);
    assert!(stack.deliver(s.handle(), r1, &[1, 2, 3]));
    assert!(stack.deliver(s.handle(), r2, &[4, 5]));
    assert!(stack.deliver(s.handle(), r3, &[6]));

    let mut buf = vec![0u8; 16];
    assert_eq!(s.recv_from(&mut stack, &mut buf), Poll::Ready(Ok((3, r1))));
    assert_eq!(&buf[..3], &[1, 2, 3]);
    assert_eq!(s.recv_from(&mut stack, &mut buf), Poll::Ready(Ok((2, r2))));
    assert_eq!(&buf[..2], &[4, 5]);
    assert_eq!(s.recv_from(&mut stack, &mut buf), Poll::Ready(Ok((1, r3))));
    assert_eq!(&buf[..1], &[6]);

    // Nothing queued any more: the next attempt suspends.
    assert_eq!(s.recv_from(&mut stack, &mut buf), Poll::Pending);
}

#[test]
fn recv_truncates_to_the_caller_buffer() {
    let mut stack = SocketStack::new();
    let mut s = make_socket(&mut stack, 4, 256);
    assert_eq!(s.bind(&mut stack, listen(7000)), Ok(()));

    let r = remote(10, 0, 0, 1, 1111);
    assert!(stack.deliver(s.handle(), r, &[1, 2, 3, 4, 5]));

    let mut buf = vec![9u8; 3];
    assert_eq!(s.recv_from(&mut stack, &mut buf), Poll::Ready(Ok((3, r))));
    assert_eq!(buf, vec![1, 2, 3]);
}

#[test]
fn recv_on_empty_socket_suspends() {
    let mut stack = SocketStack::new();
    let mut s = make_socket(&mut stack, 4, 256);
    assert_eq!(s.bind(&mut stack, listen(7000)), Ok(()));

    let mut buf = vec![0u8; 8];
    assert_eq!(s.recv_from(&mut stack, &mut buf), Poll::Pending);
    assert_eq!(buf, vec![0u8; 8]);
}

#[test]
fn unroutable_send_fails_immediately() {
    let mut stack = SocketStack::new();
    let mut s = make_socket(&mut stack, 4, 256);
    assert_eq!(s.bind(&mut stack, listen(7000)), Ok(()));

    // Port zero and the unspecified address cannot be routed: the failure
    // is reported on the very attempt, with no suspension.
    let no_port = remote(10, 0, 0, 1, 0);
    assert_eq!(s.send_to(&mut stack, &[1], no_port), Poll::Ready(Err(Error::NoRoute)));
    let no_host = remote(0, 0, 0, 0, 9000);
    assert_eq!(s.send_to(&mut stack, &[1], no_host), Poll::Ready(Err(Error::NoRoute)));

    // Nothing was silently dropped into the outbound queue.
    assert!(stack.transmit(s.handle()).is_none());
}

#[test]
fn send_on_unbound_socket_is_no_route() {
    let mut stack = SocketStack::new();
    let s = make_socket(&mut stack, 4, 256);
    let dst = remote(10, 0, 0, 1, 9000);
    assert_eq!(s.send_to(&mut stack, &[1], dst), Poll::Ready(Err(Error::NoRoute)));
}

#[test]
fn close_allows_rebinding_the_same_adapter() {
    let mut stack = SocketStack::new();
    let mut s = make_socket(&mut stack, 4, 256);

    assert!(!s.is_open(&stack));
    assert_eq!(s.bind(&mut stack, listen(7000)), Ok(()));
    assert!(s.is_open(&stack));
    assert_eq!(s.endpoint(&stack).port, 7000);

    s.close(&mut stack);
    assert!(!s.is_open(&stack));
    assert_eq!(s.endpoint(&stack).port, 0);

    // The handle stayed valid: the same adapter binds again, even to the
    // port it held before the close.
    assert_eq!(s.bind(&mut stack, listen(7000)), Ok(()));
    assert!(s.is_open(&stack));
}

#[test]
fn close_discards_queued_datagrams() {
    let mut stack = SocketStack::new();
    let mut s = make_socket(&mut stack, 4, 256);
    assert_eq!(s.bind(&mut stack, listen(7000)), Ok(()));
    assert!(stack.deliver(s.handle(), remote(10, 0, 0, 1, 1111), &[1, 2]));
    assert!(s.may_recv(&stack));

    s.close(&mut stack);
    assert!(!s.may_recv(&stack));
}

#[test]
fn destruction_frees_the_handle_without_state_leaks() {
    let mut stack = SocketStack::new();
    let mut s1 = make_socket(&mut stack, 4, 256);
    assert_eq!(s1.bind(&mut stack, listen(7000)), Ok(()));
    assert!(stack.deliver(s1.handle(), remote(10, 0, 0, 1, 1111), &[42]));

    let h1 = s1.handle();
    s1.drop(&mut stack);
    assert!(!stack.has_socket(h1));

    // A new socket reuses the freed slot, with no stale datagram in it.
    let s2 = make_socket(&mut stack, 4, 256);
    assert_eq!(s2.handle(), h1);
    assert!(stack.has_socket(h1));
    assert!(!s2.may_recv(&stack));
    let mut buf = vec![0u8; 8];
    assert_eq!(s2.recv_from(&mut stack, &mut buf), Poll::Pending);
}

#[test]
fn delivery_to_a_closed_socket_is_rejected() {
    let mut stack = SocketStack::new();
    let s = make_socket(&mut stack, 4, 256);
    assert!(!stack.deliver(s.handle(), remote(10, 0, 0, 1, 1111), &[1]));
    assert!(!s.may_recv(&stack));
}

#[test]
fn delivery_beyond_capacity_is_rejected() {
    let mut stack = SocketStack::new();
    let rx = PacketBuffer::new(1, 64);
    let tx = PacketBuffer::new(1, 64);
    let mut s = UdpSocket::new(&mut stack, rx, tx);
    assert_eq!(s.bind(&mut stack, listen(7000)), Ok(()));

    assert!(stack.deliver(s.handle(), remote(10, 0, 0, 1, 1111), &[1]));
    assert!(!stack.deliver(s.handle(), remote(10, 0, 0, 1, 1111), &[2]));
}

#[test]
fn every_mutation_wakes_the_driver() {
    let mut stack = SocketStack::new();
    let mut s = make_socket(&mut stack, 4, 256);
    // Creating a socket does not go through the guarded-write path.
    assert!(!stack.take_driver_wake());

    assert_eq!(s.bind(&mut stack, listen(7000)), Ok(()));
    assert!(stack.take_driver_wake());
    assert!(!stack.take_driver_wake());

    // Status queries do not mutate and do not wake.
    let _ = s.is_open(&stack);
    let _ = s.may_send(&stack);
    let _ = s.may_recv(&stack);
    let _ = s.endpoint(&stack);
    assert!(!stack.take_driver_wake());

    // Even a failed or suspended attempt ran the guarded path.
    assert_eq!(s.send_to(&mut stack, &[1], remote(0, 0, 0, 0, 0)), Poll::Ready(Err(Error::NoRoute)));
    assert!(stack.take_driver_wake());
    let mut buf = vec![0u8; 4];
    assert_eq!(s.recv_from(&mut stack, &mut buf), Poll::Pending);
    assert!(stack.take_driver_wake());

    s.close(&mut stack);
    assert!(stack.take_driver_wake());
}

#[test]
fn zero_length_datagrams_are_carried_whole() {
    let mut stack = SocketStack::new();
    let mut s = make_socket(&mut stack, 2, 8);
    assert_eq!(s.bind(&mut stack, listen(7000)), Ok(()));

    let r = remote(10, 0, 0, 1, 1111);
    assert_eq!(s.send_to(&mut stack, &[], r), Poll::Ready(Ok(())));
    let taken = stack.transmit(s.handle()).expect("the empty datagram was queued");
    assert_eq!(taken.payload, Vec::<u8>::new());

    assert!(stack.deliver(s.handle(), r, &[]));
    let mut buf = vec![7u8; 4];
    assert_eq!(s.recv_from(&mut stack, &mut buf), Poll::Ready(Ok((0, r))));
    assert_eq!(buf, vec![7u8; 4]);
}
