use std::time::Duration;
use wasix_socket::{
    AcceptCall, Addressfamily, Backend, Errno, InodeSocket, InodeSocketKind, IpAddr, Ipv4Addr,
    NetworkError, PollAction, PollEvent, Polling, Race, RecvCall, RecvEvent, RecvFromCall, SendCall,
    SocketAddr, SocketError, SocketTarget, Socktype,
};
use wasmer_wasix_types::wasi::SockProto;

#[derive(Debug)]
struct Fake;

impl Backend for Fake {
    type Icmp = ();
    type Raw = ();
    type TcpListener = ();
    type TcpStream = ();
    type Udp = ();
}

type Socket = InodeSocket<Fake>;

fn pre() -> Socket {
    Socket::new(InodeSocketKind::PreSocket {
        family: Addressfamily::Inet4,
        ty: Socktype::Stream,
        pt: SockProto::Tcp,
        addr: None,
        only_v6: false,
        reuse_port: false,
        reuse_addr: false,
        send_buf_size: None,
        recv_buf_size: None,
        write_timeout: None,
        read_timeout: None,
        accept_timeout: None,
        connect_timeout: None,
    })
}

fn stream() -> Socket {
    Socket::new(InodeSocketKind::TcpStream { socket: (), write_timeout: None, read_timeout: None })
}

fn listener() -> Socket {
    Socket::new(InodeSocketKind::TcpListener { socket: (), accept_timeout: None })
}

fn udp(peer: Option<SocketAddr>) -> Socket {
    Socket::new(InodeSocketKind::UdpSocket { socket: (), peer })
}

fn icmp() -> Socket {
    Socket::new(InodeSocketKind::Icmp(()))
}

fn raw() -> Socket {
    Socket::new(InodeSocketKind::Raw(()))
}

fn addr(port: u16) -> SocketAddr {
    SocketAddr::new(IpAddr::V4(Ipv4Addr { bits: 0x7f00_0001 }), port)
}

const NOTCONN: SocketError = SocketError::Errno(Errno::Notconn);
const NOTSUP: SocketError = SocketError::Errno(Errno::Notsup);
const UNCONNECTED: SocketError = SocketError::Net(NetworkError::NotConnected);

#[test]
fn requests_begin_without_a_handler() {
    let fresh = Polling { nonblocking: true, handler_registered: false };
    let time = Some(Duration::from_secs(1));
    let accept = Socket::accept(true, time);
    assert_eq!((accept.request.polling, accept.timeout), (fresh, time));
    let send = Socket::send(b"abc", time, true);
    assert_eq!((send.request.polling, send.timeout), (fresh, time));
    assert_eq!(send.request.data, b"abc");
    let send_to = Socket::send_to(b"abc", addr(5), None, true);
    assert_eq!((send_to.request.polling, send_to.timeout), (fresh, None));
    assert_eq!((send_to.request.data, send_to.request.addr), (&b"abc"[..], addr(5)));
    let recv = Socket::recv(time, true);
    assert_eq!((recv.request.polling, recv.timeout), (fresh, time));
    let recv_from = Socket::recv_from(None, false);
    assert_eq!(
        (recv_from.request.polling, recv_from.timeout),
        (Polling { nonblocking: false, handler_registered: false }, None)
    );
}

#[test]
fn what_accepting_tries() {
    let mut request = Socket::accept(false, None).request;
    assert_eq!(
        request.advance::<u8, Fake>(&listener(), PollEvent::Polled),
        PollAction::Call(AcceptCall::TcpTryAccept)
    );
    assert_eq!(
        request.advance::<u8, Fake>(&pre(), PollEvent::Polled),
        PollAction::Ready(Err(NOTCONN))
    );
    for socket in [stream(), udp(None), icmp(), raw()] {
        assert_eq!(
            request.advance::<u8, Fake>(&socket, PollEvent::Polled),
            PollAction::Ready(Err(NOTSUP))
        );
    }
}

#[test]
fn what_sending_tries() {
    let data: &[u8] = b"payload";
    let mut request = Socket::send(data, None, false).request;
    for (socket, expected) in [
        (raw(), PollAction::Call(SendCall::RawTrySend { data })),
        (stream(), PollAction::Call(SendCall::TcpTrySend { data })),
        (
            udp(Some(addr(7))),
            PollAction::Call(SendCall::UdpTrySendTo { data, addr: addr(7) }),
        ),
        (udp(None), PollAction::Ready(Err(UNCONNECTED))),
        (pre(), PollAction::Ready(Err(NOTCONN))),
        (listener(), PollAction::Ready(Err(NOTSUP))),
        (icmp(), PollAction::Ready(Err(NOTSUP))),
    ] {
        assert_eq!(request.advance(&socket, PollEvent::Polled), expected);
    }
}

#[test]
fn what_sending_to_an_address_tries() {
    let data: &[u8] = b"payload";
    let mut request = Socket::send_to(data, addr(3), None, false).request;
    for (socket, expected) in [
        (icmp(), PollAction::Call(SendCall::IcmpTrySendTo { data, addr: addr(3) })),
        (udp(None), PollAction::Call(SendCall::UdpTrySendTo { data, addr: addr(3) })),
        (udp(Some(addr(7))), PollAction::Call(SendCall::UdpTrySendTo { data, addr: addr(3) })),
        (pre(), PollAction::Ready(Err(NOTCONN))),
        (stream(), PollAction::Ready(Err(NOTSUP))),
        (raw(), PollAction::Ready(Err(NOTSUP))),
        (listener(), PollAction::Ready(Err(NOTSUP))),
    ] {
        assert_eq!(request.advance(&socket, PollEvent::Polled), expected);
    }
}

#[test]
fn what_receiving_tries() {
    let mut request = Socket::recv(None, false).request;
    for (socket, expected) in [
        (raw(), PollAction::Call(RecvCall::RawTryRecv)),
        (stream(), PollAction::Call(RecvCall::TcpTryRecv)),
        (udp(Some(addr(7))), PollAction::Call(RecvCall::UdpTryRecvFrom { peer: addr(7) })),
        (udp(None), PollAction::Ready(Err(UNCONNECTED))),
        (pre(), PollAction::Ready(Err(NOTCONN))),
        (listener(), PollAction::Ready(Err(NOTSUP))),
        (icmp(), PollAction::Ready(Err(NOTSUP))),
    ] {
        assert_eq!(request.advance(&socket, RecvEvent::Polled), expected);
    }
}

#[test]
fn what_receiving_from_anyone_tries() {
    let mut request = Socket::recv_from(None, false).request;
    for (socket, expected) in [
        (icmp(), PollAction::Call(RecvFromCall::IcmpTryRecvFrom)),
        (udp(None), PollAction::Call(RecvFromCall::UdpTryRecvFrom)),
        (pre(), PollAction::Ready(Err(NOTCONN))),
        (stream(), PollAction::Ready(Err(NOTSUP))),
        (raw(), PollAction::Ready(Err(NOTSUP))),
        (listener(), PollAction::Ready(Err(NOTSUP))),
    ] {
        assert_eq!(request.advance(&socket, PollEvent::Polled), expected);
    }
}

#[test]
fn a_blocking_request_sets_its_handler_once() {
    let socket = stream();
    let data: &[u8] = b"x";
    let mut request = Socket::send(data, None, false).request;
    let call = PollAction::Call(SendCall::TcpTrySend { data });
    let would_block = || PollEvent::Replied(Err(NetworkError::WouldBlock));

    assert_eq!(request.polling.dropped(&socket), None);
    assert_eq!(request.advance(&socket, PollEvent::Polled), call);
    assert_eq!(
        request.advance(&socket, would_block()),
        PollAction::Register(SocketTarget::TcpStream)
    );
    assert!(!request.polling.handler_registered);
    assert_eq!(request.advance(&socket, PollEvent::Registered(Ok(()))), call);
    assert!(request.polling.handler_registered);
    assert_eq!(request.advance(&socket, would_block()), PollAction::Pending);
    assert_eq!(request.advance(&socket, PollEvent::Polled), call);
    assert_eq!(request.advance(&socket, would_block()), PollAction::Pending);
    assert_eq!(request.advance(&socket, PollEvent::Polled), call);
    assert_eq!(request.advance(&socket, PollEvent::Replied(Ok(1))), PollAction::Ready(Ok(1)));
    assert_eq!(request.polling.dropped(&socket), Some(SocketTarget::TcpStream));
}

#[test]
fn a_handler_that_cannot_be_set_ends_the_request() {
    let socket = listener();
    let mut request = Socket::accept(false, None).request;
    assert_eq!(
        request
            .advance::<u8, Fake>(&socket, PollEvent::Replied(Err(NetworkError::WouldBlock))),
        PollAction::Register(SocketTarget::TcpListener)
    );
    assert_eq!(
        request.advance::<u8, Fake>(&socket, PollEvent::Registered(Err(NetworkError::Unsupported))),
        PollAction::Ready(Err(SocketError::Net(NetworkError::Unsupported)))
    );
    assert_eq!(request.polling.dropped(&socket), None);
}

#[test]
fn a_nonblocking_request_gives_up() {
    let mut request = Socket::recv_from(None, true).request;
    assert_eq!(
        request.advance(&udp(None), PollEvent::Replied(Err(NetworkError::WouldBlock))),
        PollAction::Ready(Err(SocketError::Errno(Errno::Again)))
    );
    assert_eq!(request.polling.dropped(&udp(None)), None);
}

#[test]
fn errors_and_results_end_a_request() {
    let mut request = Socket::recv_from(None, false).request;
    assert_eq!(
        request.advance(&icmp(), PollEvent::Replied(Err(NetworkError::ConnectionReset))),
        PollAction::Ready(Err(SocketError::Net(NetworkError::ConnectionReset)))
    );
    assert_eq!(
        request.advance(&icmp(), PollEvent::Replied(Ok((4, addr(2))))),
        PollAction::Ready(Ok((4, addr(2))))
    );
}

#[test]
fn only_the_peer_is_heard() {
    let peer = addr(7);
    let socket = udp(Some(peer));
    let mut request = Socket::recv(None, false).request;
    assert_eq!(
        request.advance(&socket, RecvEvent::Datagram { peer, reply: Ok((9, addr(8))) }),
        PollAction::Register(SocketTarget::UdpSocket)
    );
    assert_eq!(
        request.advance(&socket, RecvEvent::Registered(Ok(()))),
        PollAction::Call(RecvCall::UdpTryRecvFrom { peer })
    );
    assert_eq!(
        request.advance(&socket, RecvEvent::Datagram { peer, reply: Ok((9, addr(8))) }),
        PollAction::Pending
    );
    assert_eq!(
        request.advance(&socket, RecvEvent::Datagram { peer, reply: Ok((5, peer)) }),
        PollAction::Ready(Ok(5))
    );
    assert_eq!(
        request.advance(
            &socket,
            RecvEvent::Datagram { peer, reply: Err(NetworkError::BrokenPipe) }
        ),
        PollAction::Ready(Err(SocketError::Net(NetworkError::BrokenPipe)))
    );
    let mut request = Socket::recv(None, true).request;
    assert_eq!(
        request.advance(&socket, RecvEvent::Datagram { peer, reply: Ok((9, addr(8))) }),
        PollAction::Ready(Err(SocketError::Errno(Errno::Again)))
    );
    assert_eq!(
        request.advance(&stream(), RecvEvent::Received(Ok(11))),
        PollAction::Ready(Ok(11))
    );
}

#[test]
fn a_connected_udp_socket_talks_to_its_peer() {
    let data: &[u8] = b"x";
    let mut socket = udp(None);
    let _ = socket.connect(addr(4), None);
    let mut send = Socket::send(data, None, false).request;
    assert_eq!(
        send.advance(&socket, PollEvent::Polled),
        PollAction::Call(SendCall::UdpTrySendTo { data, addr: addr(4) })
    );
    let mut recv = Socket::recv(None, false).request;
    assert_eq!(
        recv.advance(&socket, RecvEvent::Polled),
        PollAction::Call(RecvCall::UdpTryRecvFrom { peer: addr(4) })
    );
}

#[test]
fn the_faster_side_of_a_race_counts() {
    assert_eq!(Race::<Result<u8, SocketError>>::Finished(Ok(3)).settle(), Ok(3));
    assert_eq!(Race::<Result<u8, SocketError>>::Finished(Err(NOTCONN)).settle(), Err(NOTCONN));
    assert_eq!(
        Race::<Result<u8, SocketError>>::Elapsed.settle(),
        Err(SocketError::Errno(Errno::Timedout))
    );
}

#[test]
fn writable_sockets_can_send() {
    for socket in [pre(), stream(), listener(), udp(None), udp(Some(addr(1))), icmp(), raw()] {
        let mut request = Socket::send(b"x", None, false).request;
        let refused = matches!(
            request.advance(&socket, PollEvent::Polled),
            PollAction::Ready(Err(SocketError::Errno(_)))
        );
        assert_eq!(Socket::can_write(Some(&socket)), !refused);
    }
}

#[test]
fn a_udp_socket_keeps_its_peer() {
    let data: &[u8] = b"x";
    let mut socket = udp(None);
    let _ = socket.connect(addr(4), None);
    let _ = socket.bind(addr(5));
    let _ = socket.set_recv_buf_size(1);
    let mut send = Socket::send(data, None, false).request;
    assert_eq!(
        send.advance(&socket, PollEvent::Polled),
        PollAction::Call(SendCall::UdpTrySendTo { data, addr: addr(4) })
    );
    let _ = socket.connect(addr(6), None);
    assert_eq!(
        send.advance(&socket, PollEvent::Polled),
        PollAction::Call(SendCall::UdpTrySendTo { data, addr: addr(6) })
    );
}

#[test]
fn an_unopened_socket_gets_no_handler_and_loses_none() {
    let socket = pre();
    let mut request = Socket::recv(None, false).request;
    assert_eq!(request.advance(&socket, RecvEvent::Polled), PollAction::Ready(Err(NOTCONN)));
    assert_eq!(request.polling.dropped(&socket), None);
}

#[test]
fn every_request_removes_the_handler_that_it_set() {
    let mut accept = Socket::accept(false, None).request;
    assert_eq!(
        accept.advance::<u8, Fake>(&listener(), PollEvent::Registered(Ok(()))),
        PollAction::Call(AcceptCall::TcpTryAccept)
    );
    assert_eq!(accept.polling.dropped(&listener()), Some(SocketTarget::TcpListener));
    let mut send_to = Socket::send_to(b"x", addr(1), None, false).request;
    let _ = send_to.advance(&icmp(), PollEvent::Registered(Ok(())));
    assert_eq!(send_to.polling.dropped(&icmp()), Some(SocketTarget::Icmp));
    let mut recv = Socket::recv(None, false).request;
    let _ = recv.advance(&raw(), RecvEvent::Registered(Ok(())));
    assert_eq!(recv.polling.dropped(&raw()), Some(SocketTarget::Raw));
    let mut recv_from = Socket::recv_from(None, false).request;
    let _ = recv_from.advance(&udp(None), PollEvent::Registered(Ok(())));
    assert_eq!(recv_from.polling.dropped(&udp(None)), Some(SocketTarget::UdpSocket));
}

#[test]
fn a_receive_ends_with_the_first_datagram_of_the_peer() {
    let peer = addr(7);
    let mut inbox = vec![
        Err(NetworkError::WouldBlock),
        Ok((9, addr(8))),
        Ok((6, addr(9))),
        Ok((5, peer)),
        Ok((4, peer)),
    ]
    .into_iter();
    let socket = udp(Some(peer));
    let mut request = Socket::recv(None, false).request;
    let mut event = RecvEvent::Polled;
    let mut handlers = 0;
    let received = loop {
        event = match request.advance(&socket, event) {
            PollAction::Call(RecvCall::UdpTryRecvFrom { peer: named }) => {
                assert_eq!(named, peer);
                RecvEvent::Datagram { peer: named, reply: inbox.next().unwrap() }
            }
            PollAction::Register(SocketTarget::UdpSocket) => {
                handlers += 1;
                RecvEvent::Registered(Ok(()))
            }
            PollAction::Pending => RecvEvent::Polled,
            PollAction::Ready(received) => break received,
            _ => panic!("a UDP socket is asked for datagrams"),
        };
    };
    assert_eq!(received, Ok(5));
    assert_eq!(handlers, 1);
    assert_eq!(inbox.next(), Some(Ok((4, peer))));
    assert_eq!(request.polling.dropped(&socket), Some(SocketTarget::UdpSocket));
}
