use udp_adapter::buffer::PacketBuffer;
use udp_adapter::endpoint::{IpAddress, IpEndpoint, IpListenEndpoint};
use udp_adapter::stack::{
    SocketBindError, SocketRecvError, SocketSendError, SocketStack,
};
use udp_adapter::udp::{Poll, UdpSocket};

#[test]
fn a_fresh_buffer_is_empty_and_keeps_its_capacities() {
    let b = PacketBuffer::new(4, 128);
    assert!(b.is_empty());
    assert_eq!(b.len(), 0);
    assert_eq!(b.meta_capacity(), 4);
    assert_eq!(b.payload_capacity(), 128);
}

#[test]
fn addresses_and_endpoints_report_routability() {
    assert!(IpAddress::new(0, 0, 0, 0).is_unspecified());
    assert!(!IpAddress::new(10, 0, 0, 1).is_unspecified());
    assert!(IpEndpoint::new(IpAddress::new(10, 0, 0, 1), 80).is_routable());
    assert!(!IpEndpoint::new(IpAddress::new(10, 0, 0, 1), 0).is_routable());
    assert!(!IpEndpoint::new(IpAddress::new(0, 0, 0, 0), 80).is_routable());
    assert_eq!(IpListenEndpoint::unbound().port, 0);
    assert_eq!(IpListenEndpoint::unbound().addr, None);
}

#[test]
fn engine_primitives_report_their_outcomes() {
    let mut stack = SocketStack::new();
    let rx = PacketBuffer::new(1, 8);
    let tx = PacketBuffer::new(1, 8);
    let s = UdpSocket::new(&mut stack, rx, tx);
    let h = s.handle();
    let dst = IpEndpoint::new(IpAddress::new(10, 0, 0, 1), 9000);

    // Port zero can never be bound directly at the engine level.
    let unbound = IpListenEndpoint { addr: None, port: 0 };
    assert_eq!(stack.socket_bind(h, unbound), Err(SocketBindError::Unaddressable));
    // An unbound socket cannot send.
    assert_eq!(stack.socket_send(h, dst, &[1]), Err(SocketSendError::Unaddressable));

    let ep = IpListenEndpoint { addr: None, port: 7000 };
    assert_eq!(stack.socket_bind(h, ep), Ok(()));
    assert_eq!(stack.socket_bind(h, ep), Err(SocketBindError::InvalidState));

    let mut buf = vec![0u8; 8];
    assert_eq!(stack.socket_recv(h, &mut buf), Err(SocketRecvError::Exhausted));

    assert_eq!(stack.socket_send(h, dst, &[5, 6]), Ok(()));
    assert_eq!(stack.socket_send(h, dst, &[7]), Err(SocketSendError::BufferFull));

    assert!(stack.deliver(h, dst, &[5, 6]));
    assert_eq!(stack.socket_recv(h, &mut buf), Ok((2, dst)));
    assert_eq!(&buf[..2], &[5, 6]);
}

#[test]
fn readiness_follows_free_metadata_slots() {
    let mut stack = SocketStack::new();
    let rx = PacketBuffer::new(4, 64);
    let tx = PacketBuffer::new(2, 4);
    let mut s = UdpSocket::new(&mut stack, rx, tx);
    assert_eq!(s.bind(&mut stack, IpListenEndpoint { addr: None, port: 7000 }), Ok(()));

    let dst = IpEndpoint::new(IpAddress::new(10, 0, 0, 1), 9000);
    assert!(s.may_send(&stack));
    assert_eq!(s.send_to(&mut stack, &[1, 2, 3], dst), Poll::Ready(Ok(())));

    // A metadata slot is still free, so readiness is reported, though the
    // next two-byte datagram will not fit the remaining payload byte.
    assert!(s.may_send(&stack));
    assert_eq!(s.send_to(&mut stack, &[4, 5], dst), Poll::Pending);

    assert!(!s.may_recv(&stack));
    assert!(stack.deliver(s.handle(), dst, &[9]));
    assert!(s.may_recv(&stack));
}
