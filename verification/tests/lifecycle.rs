use std::time::Duration;
use virtual_mio::InterestType as MioInterest;
use wasix_socket::{
    Addressfamily, Backend, BindUdp, ConnectTcp, Errno, InodeSocket, InodeSocketKind,
    InodeSocketNotifications, IpAddr, Ipv4Addr, Ipv6Addr, ListenTcp, LocalAddrCall, NetworkError,
    PeerAddrCall, Race, SettingCall, SocketAddr, SocketAddrV4, SocketAddrV6, SocketError, Socktype,
    Step, TimeType, UdpPeerStep, WasiSocketOption, WasiSocketStatus,
};
use wasmer_wasix_types::wasi::SockProto;

#[derive(Debug)]
struct Fake;

impl Backend for Fake {
    type Icmp = &'static str;
    type Raw = &'static str;
    type TcpListener = &'static str;
    type TcpStream = &'static str;
    type Udp = &'static str;
}

type Socket = InodeSocket<Fake>;

fn pre(family: Addressfamily, ty: Socktype) -> Socket {
    Socket::new(InodeSocketKind::PreSocket {
        family,
        ty,
        pt: SockProto::Ip,
        addr: None,
        only_v6: true,
        reuse_port: true,
        reuse_addr: false,
        send_buf_size: None,
        recv_buf_size: None,
        write_timeout: Some(Duration::from_millis(1)),
        read_timeout: Some(Duration::from_millis(2)),
        accept_timeout: None,
        connect_timeout: None,
    })
}

fn stream() -> Socket {
    Socket::new(InodeSocketKind::TcpStream {
        socket: "stream",
        write_timeout: None,
        read_timeout: None,
    })
}

fn listener() -> Socket {
    Socket::new(InodeSocketKind::TcpListener { socket: "listener", accept_timeout: None })
}

fn udp() -> Socket {
    Socket::new(InodeSocketKind::UdpSocket { socket: "udp", peer: None })
}

fn icmp() -> Socket {
    Socket::new(InodeSocketKind::Icmp("icmp"))
}

fn raw() -> Socket {
    Socket::new(InodeSocketKind::Raw("raw"))
}

fn v4(last: u8, port: u16) -> SocketAddr {
    SocketAddr::new(IpAddr::V4(Ipv4Addr { bits: u32::from_be_bytes([127, 0, 0, last]) }), port)
}

fn v6(port: u16) -> SocketAddr {
    SocketAddr::new(IpAddr::V6(Ipv6Addr { bits: 1 }), port)
}

fn any_v4() -> SocketAddr {
    SocketAddr::V4(SocketAddrV4 { ip: Ipv4Addr { bits: 0 }, port: 0 })
}

fn any_v6() -> SocketAddr {
    SocketAddr::V6(SocketAddrV6 { ip: Ipv6Addr { bits: 0 }, port: 0, flowinfo: 0, scope_id: 0 })
}

fn bound(socket: &Socket) -> Option<SocketAddr> {
    match &socket.inner.kind {
        InodeSocketKind::PreSocket { addr, .. } => *addr,
        other => panic!("not a socket to be opened: {other:?}"),
    }
}

#[test]
fn a_new_stream_counts_as_writable() {
    let socket = stream();
    assert!(socket.inner.aggregate_handler.is_none());
    assert_eq!(
        socket.inner.notifications,
        InodeSocketNotifications { closed: false, failed: false }
    );
    assert!(socket.inner.handler_state.take(MioInterest::Writable));
    assert!(!socket.inner.handler_state.take(MioInterest::Writable));
    assert!(!socket.inner.handler_state.take(MioInterest::Readable));
    assert!(!socket.inner.handler_state.take(MioInterest::Closed));
    assert!(!socket.inner.handler_state.take(MioInterest::Error));
}

#[test]
fn other_new_sockets_have_seen_no_interest() {
    for socket in [
        pre(Addressfamily::Inet4, Socktype::Stream),
        listener(),
        udp(),
        icmp(),
        raw(),
    ] {
        assert!(!socket.inner.handler_state.take(MioInterest::Writable));
        assert!(!socket.inner.handler_state.take(MioInterest::Readable));
    }
}

#[test]
fn binding_a_stream_socket_remembers_the_address() {
    let mut socket = pre(Addressfamily::Inet4, Socktype::Stream);
    assert!(matches!(socket.bind(v4(1, 80)), Step::Done(Ok(None))));
    assert_eq!(bound(&socket), Some(v4(1, 80)));
    assert_eq!(socket.addr_local(), Step::Done(Ok(v4(1, 80))));
    assert!(matches!(socket.bind(v4(2, 81)), Step::Done(Ok(None))));
    assert_eq!(bound(&socket), Some(v4(2, 81)));
}

#[test]
fn binding_a_datagram_socket_opens_it() {
    let mut socket = pre(Addressfamily::Inet6, Socktype::Dgram);
    let call = match socket.bind(v6(53)) {
        Step::Call(call) => call,
        other => panic!("{other:?}"),
    };
    assert_eq!(
        call,
        BindUdp {
            addr: v6(53),
            reuse_port: true,
            reuse_addr: false,
            timeout: Duration::from_secs(30),
        }
    );
    assert_eq!(bound(&socket), Some(v6(53)));
    let opened = call.complete::<Fake>(Race::Finished(Ok("udp"))).unwrap().unwrap();
    assert!(matches!(opened.inner.kind, InodeSocketKind::UdpSocket { socket: "udp", peer: None }));
    assert_eq!(
        call.complete::<Fake>(Race::Finished(Err(NetworkError::AddressInUse))).unwrap_err(),
        SocketError::Net(NetworkError::AddressInUse)
    );
    assert_eq!(
        call.complete::<Fake>(Race::Elapsed).unwrap_err(),
        SocketError::Errno(Errno::Timedout)
    );
}

#[test]
fn a_bind_always_waits_thirty_seconds() {
    let mut socket = pre(Addressfamily::Inet4, Socktype::Dgram);
    for ty in [
        TimeType::ReadTimeout,
        TimeType::WriteTimeout,
        TimeType::AcceptTimeout,
        TimeType::ConnectTimeout,
    ] {
        assert_eq!(socket.set_opt_time(ty, Some(Duration::from_secs(5))), Ok(()));
    }
    assert_eq!(
        socket.set_opt_time(TimeType::BindTimeout, Some(Duration::from_secs(5))),
        Err(Errno::Io)
    );
    match socket.bind(v4(1, 1)) {
        Step::Call(call) => assert_eq!(call.timeout, Duration::from_secs(30)),
        other => panic!("{other:?}"),
    }
}

#[test]
fn a_bind_outside_the_family_is_refused_and_changes_nothing() {
    let mut socket = pre(Addressfamily::Inet4, Socktype::Stream);
    assert!(matches!(socket.bind(v6(80)), Step::Done(Err(Errno::Inval))));
    assert_eq!(bound(&socket), None);
    let mut socket = pre(Addressfamily::Inet6, Socktype::Dgram);
    assert!(matches!(socket.bind(v4(1, 80)), Step::Done(Err(Errno::Inval))));
    assert_eq!(bound(&socket), None);
    for family in [Addressfamily::Unspec, Addressfamily::Unix] {
        let mut socket = pre(family, Socktype::Stream);
        assert!(matches!(socket.bind(v4(1, 80)), Step::Done(Err(Errno::Notsup))));
        assert_eq!(bound(&socket), None);
    }
}

#[test]
fn a_bind_of_another_type_is_refused_but_keeps_the_address() {
    for ty in [Socktype::Raw, Socktype::Seqpacket, Socktype::Unknown] {
        let mut socket = pre(Addressfamily::Inet4, ty);
        assert!(matches!(socket.bind(v4(1, 80)), Step::Done(Err(Errno::Inval))));
        assert_eq!(bound(&socket), Some(v4(1, 80)));
    }
}

#[test]
fn an_open_socket_cannot_be_bound_or_listen() {
    for mut socket in [stream(), listener(), udp(), icmp(), raw()] {
        assert!(matches!(socket.bind(v4(1, 80)), Step::Done(Err(Errno::Notsup))));
        assert!(matches!(socket.listen(1), Step::Done(Err(Errno::Notsup))));
    }
}

#[test]
fn listening_needs_a_bound_stream_socket() {
    let socket = pre(Addressfamily::Inet4, Socktype::Stream);
    assert!(matches!(socket.listen(8), Step::Done(Err(Errno::Inval))));
    for ty in [Socktype::Dgram, Socktype::Raw, Socktype::Seqpacket, Socktype::Unknown] {
        let mut socket = pre(Addressfamily::Inet4, ty);
        let _ = socket.bind(v4(1, 80));
        assert!(matches!(socket.listen(8), Step::Done(Err(Errno::Notsup))));
    }
}

#[test]
fn listening_opens_a_listener_with_the_same_timeout() {
    let mut socket = pre(Addressfamily::Inet4, Socktype::Stream);
    let _ = socket.bind(v4(1, 80));
    let call = match socket.listen(8) {
        Step::Call(call) => call,
        other => panic!("{other:?}"),
    };
    assert_eq!(
        call,
        ListenTcp {
            addr: v4(1, 80),
            only_v6: true,
            reuse_port: true,
            reuse_addr: false,
            timeout: Duration::from_secs(30),
        }
    );
    let opened = call.complete::<Fake>(Race::Finished(Ok("listener"))).unwrap().unwrap();
    assert_eq!(opened.opt_time(TimeType::AcceptTimeout), Ok(Some(Duration::from_secs(30))));
    assert_eq!(
        call.complete::<Fake>(Race::Finished(Err(NetworkError::PermissionDenied))).unwrap_err(),
        SocketError::Net(NetworkError::PermissionDenied)
    );
    assert_eq!(
        call.complete::<Fake>(Race::Elapsed).unwrap_err(),
        SocketError::Errno(Errno::Timedout)
    );

    assert_eq!(
        socket.set_opt_time(TimeType::AcceptTimeout, Some(Duration::from_secs(7))),
        Ok(())
    );
    match socket.listen(8) {
        Step::Call(call) => {
            assert_eq!(call.timeout, Duration::from_secs(7));
            let opened = call.complete::<Fake>(Race::Finished(Ok("listener"))).unwrap().unwrap();
            assert_eq!(opened.opt_time(TimeType::AcceptTimeout), Ok(Some(Duration::from_secs(7))));
        }
        other => panic!("{other:?}"),
    }
}

#[test]
fn connecting_opens_a_stream_with_the_timeouts() {
    let mut socket = pre(Addressfamily::Inet4, Socktype::Stream);
    let call = match socket.connect(v4(9, 90), None) {
        Step::Call(call) => call,
        other => panic!("{other:?}"),
    };
    assert_eq!(
        call,
        ConnectTcp {
            addr: any_v4(),
            peer: v4(9, 90),
            timeout: Duration::from_secs(30),
            write_timeout: Some(Duration::from_millis(1)),
            read_timeout: Some(Duration::from_millis(2)),
        }
    );
    let opened = call.complete::<Fake>(Race::Finished(Ok("stream"))).unwrap().unwrap();
    assert_eq!(opened.opt_time(TimeType::WriteTimeout), Ok(Some(Duration::from_millis(1))));
    assert_eq!(opened.opt_time(TimeType::ReadTimeout), Ok(Some(Duration::from_millis(2))));
    assert!(opened.inner.handler_state.take(MioInterest::Writable));
    assert_eq!(
        call.complete::<Fake>(Race::Finished(Err(NetworkError::ConnectionRefused))).unwrap_err(),
        SocketError::Net(NetworkError::ConnectionRefused)
    );
    assert_eq!(
        call.complete::<Fake>(Race::Elapsed).unwrap_err(),
        SocketError::Errno(Errno::Timedout)
    );
}

#[test]
fn connecting_starts_from_the_bound_address() {
    let mut socket = pre(Addressfamily::Inet4, Socktype::Stream);
    let _ = socket.bind(v4(3, 30));
    match socket.connect(v4(9, 90), Some(Duration::from_secs(4))) {
        Step::Call(call) => {
            assert_eq!(call.addr, v4(3, 30));
            assert_eq!(call.timeout, Duration::from_secs(4));
        }
        other => panic!("{other:?}"),
    }
}

#[test]
fn connecting_unbound_follows_the_family_of_the_peer() {
    let mut socket = pre(Addressfamily::Inet4, Socktype::Stream);
    match socket.connect(v6(90), None) {
        Step::Call(call) => assert_eq!(call.addr, any_v6()),
        other => panic!("{other:?}"),
    }
}

#[test]
fn only_stream_and_udp_sockets_connect() {
    let mut socket = pre(Addressfamily::Inet4, Socktype::Dgram);
    assert!(matches!(socket.connect(v4(1, 1), None), Step::Done(Err(Errno::Inval))));
    for ty in [Socktype::Raw, Socktype::Seqpacket, Socktype::Unknown] {
        let mut socket = pre(Addressfamily::Inet4, ty);
        assert!(matches!(socket.connect(v4(1, 1), None), Step::Done(Err(Errno::Notsup))));
    }
    for mut socket in [stream(), listener(), icmp(), raw()] {
        assert!(matches!(socket.connect(v4(1, 1), None), Step::Done(Err(Errno::Notsup))));
    }
}

#[test]
fn connecting_a_udp_socket_sets_its_peer() {
    let mut socket = udp();
    assert!(matches!(socket.connect(v4(1, 1), None), Step::Done(Ok(None))));
    assert!(matches!(socket.connect(v4(2, 2), None), Step::Done(Ok(None))));
    match socket.inner.kind {
        InodeSocketKind::UdpSocket { socket: "udp", peer } => assert_eq!(peer, Some(v4(2, 2))),
        other => panic!("{other:?}"),
    }
}

#[test]
fn closing_concerns_the_network_for_streams_only() {
    assert_eq!(stream().close(), Step::Call(SettingCall::TcpClose));
    for socket in [listener(), udp(), icmp(), raw()] {
        assert_eq!(socket.close(), Step::Done(Ok(())));
    }
    let socket = pre(Addressfamily::Inet4, Socktype::Stream);
    assert_eq!(socket.close(), Step::Done(Err(Errno::Notconn)));
}

#[test]
fn the_status_follows_the_kind() {
    assert_eq!(
        pre(Addressfamily::Inet4, Socktype::Stream).status(),
        Ok(WasiSocketStatus::Opening)
    );
    for socket in [listener(), stream(), udp()] {
        assert_eq!(socket.status(), Ok(WasiSocketStatus::Opened));
    }
    for socket in [icmp(), raw()] {
        assert_eq!(socket.status(), Ok(WasiSocketStatus::Failed));
    }
}

#[test]
fn the_status_survives_requests() {
    let mut socket = pre(Addressfamily::Inet4, Socktype::Stream);
    let _ = socket.bind(v4(1, 80));
    let _ = socket.connect(v4(2, 80), None);
    assert_eq!(socket.status(), Ok(WasiSocketStatus::Opening));
    let mut socket = udp();
    let _ = socket.connect(v4(2, 80), None);
    assert_eq!(socket.status(), Ok(WasiSocketStatus::Opened));
}

#[test]
fn local_addresses() {
    assert_eq!(
        pre(Addressfamily::Inet4, Socktype::Stream).addr_local(),
        Step::Done(Ok(any_v4()))
    );
    assert_eq!(
        pre(Addressfamily::Inet6, Socktype::Stream).addr_local(),
        Step::Done(Ok(any_v6()))
    );
    assert_eq!(
        pre(Addressfamily::Unix, Socktype::Stream).addr_local(),
        Step::Done(Err(Errno::Inval))
    );
    assert_eq!(icmp().addr_local(), Step::Call(LocalAddrCall::IcmpAddrLocal));
    assert_eq!(listener().addr_local(), Step::Call(LocalAddrCall::TcpListenerAddrLocal));
    assert_eq!(stream().addr_local(), Step::Call(LocalAddrCall::TcpAddrLocal));
    assert_eq!(udp().addr_local(), Step::Call(LocalAddrCall::UdpAddrLocal));
    assert_eq!(raw().addr_local(), Step::Done(Err(Errno::Notsup)));
}

#[test]
fn peer_addresses() {
    let mut socket = pre(Addressfamily::Inet4, Socktype::Stream);
    let _ = socket.bind(v4(1, 80));
    assert_eq!(socket.addr_peer(), Step::Done(Ok(any_v4())));
    assert_eq!(
        pre(Addressfamily::Inet6, Socktype::Stream).addr_peer(),
        Step::Done(Ok(any_v6()))
    );
    assert_eq!(
        pre(Addressfamily::Unspec, Socktype::Stream).addr_peer(),
        Step::Done(Err(Errno::Inval))
    );
    assert_eq!(stream().addr_peer(), Step::Call(PeerAddrCall::TcpAddrPeer));
    assert_eq!(udp().addr_peer(), Step::Call(PeerAddrCall::UdpAddrPeer));
    for socket in [listener(), icmp(), raw()] {
        assert_eq!(socket.addr_peer(), Step::Done(Err(Errno::Notsup)));
    }
}

#[test]
fn the_peer_of_a_udp_socket() {
    assert_eq!(Socket::udp_peer(Ok(Some(v4(1, 1)))), UdpPeerStep::Answer(Ok(v4(1, 1))));
    assert_eq!(Socket::udp_peer(Ok(None)), UdpPeerStep::AddrLocal);
    assert_eq!(
        Socket::udp_peer(Err(NetworkError::InvalidFd)),
        UdpPeerStep::Answer(Err(SocketError::Net(NetworkError::InvalidFd)))
    );
    assert_eq!(Socket::no_peer(Ok(v4(5, 5))), Ok(any_v4()));
    assert_eq!(Socket::no_peer(Ok(v6(5))), Ok(any_v6()));
    assert_eq!(
        Socket::no_peer(Err(NetworkError::IOError)),
        Err(SocketError::Net(NetworkError::IOError))
    );
}

#[test]
fn writable_sockets() {
    for socket in [stream(), udp(), raw()] {
        assert!(Socket::can_write(Some(&socket)));
    }
    for socket in [pre(Addressfamily::Inet4, Socktype::Stream), listener(), icmp()] {
        assert!(!Socket::can_write(Some(&socket)));
    }
    assert!(!Socket::can_write(None));
}

#[test]
fn address_families() {
    assert!(v4(1, 1).is_ipv4() && !v4(1, 1).is_ipv6());
    assert!(v6(1).is_ipv6() && !v6(1).is_ipv4());
    assert_eq!(
        v6(7),
        SocketAddr::V6(SocketAddrV6 { ip: Ipv6Addr { bits: 1 }, port: 7, flowinfo: 0, scope_id: 0 })
    );
}

#[test]
fn refused_requests_change_nothing() {
    let time = Some(Duration::from_secs(1));
    for mut socket in [
        pre(Addressfamily::Inet4, Socktype::Dgram),
        pre(Addressfamily::Unix, Socktype::Stream),
        listener(),
        icmp(),
        raw(),
    ] {
        let before = format!("{:?}", socket.inner.kind);
        assert!(matches!(
            socket.set_opt_flag(WasiSocketOption::KeepAlive, true),
            Step::Done(Err(_))
        ));
        assert!(socket.set_opt_time(TimeType::Linger, time).is_err());
        assert!(matches!(socket.bind(v6(1)), Step::Done(Err(_))));
        let _ = socket.connect(v4(1, 1), time);
        assert_eq!(format!("{:?}", socket.inner.kind), before);
    }
}

#[test]
fn sockets_stay_bound_within_their_family() {
    let mut socket = pre(Addressfamily::Inet6, Socktype::Stream);
    let _ = socket.bind(v6(1));
    let _ = socket.bind(v4(1, 1));
    let _ = socket.connect(v4(1, 1), None);
    let _ = socket.set_opt_flag(WasiSocketOption::OnlyV6, false);
    let _ = socket.set_send_buf_size(1);
    let _ = socket.set_opt_time(TimeType::ReadTimeout, None);
    assert_eq!(bound(&socket), Some(v6(1)));
}

#[test]
fn flags_last_until_they_are_set_again() {
    let mut socket = pre(Addressfamily::Inet4, Socktype::Stream);
    assert_eq!(socket.set_opt_flag(WasiSocketOption::ReusePort, true), Step::Done(Ok(())));
    let _ = socket.set_opt_flag(WasiSocketOption::ReuseAddr, true);
    let _ = socket.set_opt_flag(WasiSocketOption::ReuseAddr, false);
    let _ = socket.bind(v4(1, 80));
    let _ = socket.set_recv_buf_size(1);
    let _ = socket.connect(v4(2, 80), None);
    assert_eq!(socket.get_opt_flag(WasiSocketOption::ReusePort), Step::Done(Ok(true)));
    assert_eq!(socket.set_opt_flag(WasiSocketOption::ReusePort, false), Step::Done(Ok(())));
    assert_eq!(socket.get_opt_flag(WasiSocketOption::ReusePort), Step::Done(Ok(false)));
}

#[test]
fn a_bound_address_lasts() {
    let mut socket = pre(Addressfamily::Inet4, Socktype::Stream);
    let _ = socket.bind(v4(1, 80));
    let _ = socket.bind(v6(9));
    let _ = socket.set_opt_flag(WasiSocketOption::OnlyV6, true);
    let _ = socket.set_opt_time(TimeType::AcceptTimeout, Some(Duration::from_secs(3)));
    let _ = socket.set_send_buf_size(7);
    let _ = socket.connect(v4(2, 80), None);
    assert_eq!(socket.addr_local(), Step::Done(Ok(v4(1, 80))));
    match socket.listen(0) {
        Step::Call(call) => assert_eq!(call.addr, v4(1, 80)),
        _ => panic!("a bound stream socket listens"),
    }
    let _ = socket.bind(v4(3, 81));
    assert_eq!(socket.addr_local(), Step::Done(Ok(v4(3, 81))));
}

#[test]
fn timeouts_and_sizes_last() {
    let time = Some(Duration::from_secs(3));
    let mut socket = pre(Addressfamily::Inet4, Socktype::Stream);
    assert_eq!(socket.set_opt_time(TimeType::ReadTimeout, time), Ok(()));
    let _ = socket.set_send_buf_size(7);
    let _ = socket.set_recv_buf_size(8);
    let _ = socket.set_opt_time(TimeType::WriteTimeout, None);
    let _ = socket.set_opt_flag(WasiSocketOption::ReuseAddr, true);
    let _ = socket.bind(v4(1, 80));
    let _ = socket.connect(v4(2, 80), None);
    assert_eq!(socket.opt_time(TimeType::ReadTimeout), Ok(time));
    assert_eq!(socket.send_buf_size(), Step::Done(Ok(7)));
    assert_eq!(socket.recv_buf_size(), Step::Done(Ok(8)));

    let mut socket = stream();
    assert_eq!(socket.set_opt_time(TimeType::ReadTimeout, time), Ok(()));
    let _ = socket.set_opt_time(TimeType::WriteTimeout, None);
    let _ = socket.set_send_buf_size(7);
    assert_eq!(socket.opt_time(TimeType::ReadTimeout), Ok(time));
}
