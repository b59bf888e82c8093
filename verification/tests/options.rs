use std::time::Duration;
use wasix_socket::{
    answer, Addressfamily, Backend, Errno, FlagCall, InodeSocket, InodeSocketKind, Ipv4Addr,
    Ipv6Addr, LingerCall, NetworkError, SettingCall, Shutdown, SizeCall, SocketError, Sockoption,
    Socktype, Step, TimeType, TtlCall, WasiSocketOption,
};
use wasmer_wasix_types::wasi::SockProto;

#[derive(Debug)]
struct Fake;

impl Backend for Fake {
    type Icmp = ();
    type Raw = ();
    type TcpListener = ();
    type TcpStream = ();
    type Udp = ();
}

type Socket = InodeSocket<Fake>;

const ALL: [WasiSocketOption; 27] = [
    WasiSocketOption::Noop,
    WasiSocketOption::ReusePort,
    WasiSocketOption::ReuseAddr,
    WasiSocketOption::NoDelay,
    WasiSocketOption::DontRoute,
    WasiSocketOption::OnlyV6,
    WasiSocketOption::Broadcast,
    WasiSocketOption::MulticastLoopV4,
    WasiSocketOption::MulticastLoopV6,
    WasiSocketOption::Promiscuous,
    WasiSocketOption::Listening,
    WasiSocketOption::LastError,
    WasiSocketOption::KeepAlive,
    WasiSocketOption::Linger,
    WasiSocketOption::OobInline,
    WasiSocketOption::RecvBufSize,
    WasiSocketOption::SendBufSize,
    WasiSocketOption::RecvLowat,
    WasiSocketOption::SendLowat,
    WasiSocketOption::RecvTimeout,
    WasiSocketOption::SendTimeout,
    WasiSocketOption::ConnectTimeout,
    WasiSocketOption::AcceptTimeout,
    WasiSocketOption::Ttl,
    WasiSocketOption::MulticastTtlV4,
    WasiSocketOption::Type,
    WasiSocketOption::Proto,
];

const TIMES: [TimeType; 6] = [
    TimeType::ReadTimeout,
    TimeType::WriteTimeout,
    TimeType::AcceptTimeout,
    TimeType::ConnectTimeout,
    TimeType::BindTimeout,
    TimeType::Linger,
];

fn pre() -> Socket {
    Socket::new(InodeSocketKind::PreSocket {
        family: Addressfamily::Inet4,
        ty: Socktype::Stream,
        pt: SockProto::Tcp,
        addr: None,
        only_v6: false,
        reuse_port: false,
        reuse_addr: false,
        send_buf_size: None,
        recv_buf_size: None,
        write_timeout: None,
        read_timeout: None,
        accept_timeout: None,
        connect_timeout: None,
    })
}

fn stream() -> Socket {
    Socket::new(InodeSocketKind::TcpStream { socket: (), write_timeout: None, read_timeout: None })
}

fn listener() -> Socket {
    Socket::new(InodeSocketKind::TcpListener { socket: (), accept_timeout: None })
}

fn udp() -> Socket {
    Socket::new(InodeSocketKind::UdpSocket { socket: (), peer: None })
}

fn icmp() -> Socket {
    Socket::new(InodeSocketKind::Icmp(()))
}

fn raw() -> Socket {
    Socket::new(InodeSocketKind::Raw(()))
}

#[test]
fn guest_options_keep_their_names() {
    let guest = [
        Sockoption::Noop,
        Sockoption::ReusePort,
        Sockoption::ReuseAddr,
        Sockoption::NoDelay,
        Sockoption::DontRoute,
        Sockoption::OnlyV6,
        Sockoption::Broadcast,
        Sockoption::MulticastLoopV4,
        Sockoption::MulticastLoopV6,
        Sockoption::Promiscuous,
        Sockoption::Listening,
        Sockoption::LastError,
        Sockoption::KeepAlive,
        Sockoption::Linger,
        Sockoption::OobInline,
        Sockoption::RecvBufSize,
        Sockoption::SendBufSize,
        Sockoption::RecvLowat,
        Sockoption::SendLowat,
        Sockoption::RecvTimeout,
        Sockoption::SendTimeout,
        Sockoption::ConnectTimeout,
        Sockoption::AcceptTimeout,
        Sockoption::Ttl,
        Sockoption::MulticastTtlV4,
        Sockoption::Type,
        Sockoption::Proto,
    ];
    for (option, expected) in guest.iter().zip(ALL.iter()) {
        assert_eq!(WasiSocketOption::from(*option), *expected);
        assert_eq!(format!("{option:?}"), format!("{expected:?}"));
    }
}

#[test]
fn remembered_flags_read_back() {
    for option in
        [WasiSocketOption::OnlyV6, WasiSocketOption::ReusePort, WasiSocketOption::ReuseAddr]
    {
        let mut socket = pre();
        assert_eq!(socket.get_opt_flag(option), Step::Done(Ok(false)));
        assert_eq!(socket.set_opt_flag(option, true), Step::Done(Ok(())));
        for other in ALL {
            let expected = match other {
                WasiSocketOption::OnlyV6
                | WasiSocketOption::ReusePort
                | WasiSocketOption::ReuseAddr => Step::Done(Ok(other == option)),
                _ => Step::Done(Err(Errno::Inval)),
            };
            assert_eq!(socket.get_opt_flag(other), expected);
        }
        assert_eq!(socket.set_opt_flag(option, false), Step::Done(Ok(())));
        assert_eq!(socket.get_opt_flag(option), Step::Done(Ok(false)));
    }
}

#[test]
fn flags_of_open_sockets() {
    let cases = [
        (
            stream(),
            vec![(
                WasiSocketOption::NoDelay,
                SettingCall::TcpSetNoDelay(true),
                FlagCall::TcpNoDelay,
            )],
        ),
        (
            raw(),
            vec![(
                WasiSocketOption::Promiscuous,
                SettingCall::RawSetPromiscuous(true),
                FlagCall::RawPromiscuous,
            )],
        ),
        (
            udp(),
            vec![
                (
                    WasiSocketOption::Broadcast,
                    SettingCall::UdpSetBroadcast(true),
                    FlagCall::UdpBroadcast,
                ),
                (
                    WasiSocketOption::MulticastLoopV4,
                    SettingCall::UdpSetMulticastLoopV4(true),
                    FlagCall::UdpMulticastLoopV4,
                ),
                (
                    WasiSocketOption::MulticastLoopV6,
                    SettingCall::UdpSetMulticastLoopV6(true),
                    FlagCall::UdpMulticastLoopV6,
                ),
            ],
        ),
    ];
    for (mut socket, known) in cases {
        for option in ALL {
            match known.iter().find(|entry| entry.0 == option) {
                Some((_, set, get)) => {
                    assert_eq!(socket.set_opt_flag(option, true), Step::Call(*set));
                    assert_eq!(socket.get_opt_flag(option), Step::Call(*get));
                }
                None => {
                    assert_eq!(socket.set_opt_flag(option, true), Step::Done(Err(Errno::Inval)));
                    assert_eq!(socket.get_opt_flag(option), Step::Done(Err(Errno::Inval)));
                }
            }
        }
    }
}

#[test]
fn listeners_and_icmp_sockets_have_no_flags() {
    for mut socket in [listener(), icmp()] {
        for option in ALL {
            assert_eq!(socket.set_opt_flag(option, true), Step::Done(Err(Errno::Notsup)));
            assert_eq!(socket.get_opt_flag(option), Step::Done(Err(Errno::Notsup)));
        }
    }
}

#[test]
fn buffer_sizes() {
    let mut socket = pre();
    assert_eq!(socket.send_buf_size(), Step::Done(Ok(0)));
    assert_eq!(socket.recv_buf_size(), Step::Done(Ok(0)));
    assert_eq!(socket.set_send_buf_size(4096), Step::Done(Ok(())));
    assert_eq!(socket.send_buf_size(), Step::Done(Ok(4096)));
    assert_eq!(socket.recv_buf_size(), Step::Done(Ok(0)));
    assert_eq!(socket.set_recv_buf_size(17), Step::Done(Ok(())));
    assert_eq!(socket.send_buf_size(), Step::Done(Ok(4096)));
    assert_eq!(socket.recv_buf_size(), Step::Done(Ok(17)));

    let mut socket = stream();
    assert_eq!(socket.set_send_buf_size(1), Step::Call(SettingCall::TcpSetSendBufSize(1)));
    assert_eq!(socket.set_recv_buf_size(2), Step::Call(SettingCall::TcpSetRecvBufSize(2)));
    assert_eq!(socket.send_buf_size(), Step::Call(SizeCall::TcpSendBufSize));
    assert_eq!(socket.recv_buf_size(), Step::Call(SizeCall::TcpRecvBufSize));

    for mut socket in [listener(), udp(), icmp(), raw()] {
        assert_eq!(socket.set_send_buf_size(1), Step::Done(Err(Errno::Notsup)));
        assert_eq!(socket.set_recv_buf_size(1), Step::Done(Err(Errno::Notsup)));
        assert_eq!(socket.send_buf_size(), Step::Done(Err(Errno::Notsup)));
        assert_eq!(socket.recv_buf_size(), Step::Done(Err(Errno::Notsup)));
    }
}

#[test]
fn timeouts_read_back() {
    let time = Some(Duration::from_millis(1500));
    for (make, known) in [
        (
            pre as fn() -> Socket,
            vec![
                TimeType::ReadTimeout,
                TimeType::WriteTimeout,
                TimeType::AcceptTimeout,
                TimeType::ConnectTimeout,
            ],
        ),
        (stream as fn() -> Socket, vec![TimeType::ReadTimeout, TimeType::WriteTimeout]),
        (listener as fn() -> Socket, vec![TimeType::AcceptTimeout]),
    ] {
        for ty in &known {
            let mut socket = make();
            assert_eq!(socket.opt_time(*ty), Ok(None));
            assert_eq!(socket.set_opt_time(*ty, time), Ok(()));
            for other in &known {
                assert_eq!(socket.opt_time(*other), Ok(if other == ty { time } else { None }));
            }
            assert_eq!(socket.set_opt_time(*ty, None), Ok(()));
            assert_eq!(socket.opt_time(*ty), Ok(None));
        }
    }
}

#[test]
fn timeouts_that_a_socket_does_not_have() {
    let time = Some(Duration::from_secs(1));
    for ty in [TimeType::BindTimeout, TimeType::Linger] {
        let mut socket = pre();
        assert_eq!(socket.set_opt_time(ty, time), Err(Errno::Io));
        assert_eq!(socket.opt_time(ty), Err(Errno::Inval));
    }
    for ty in [
        TimeType::AcceptTimeout,
        TimeType::ConnectTimeout,
        TimeType::BindTimeout,
        TimeType::Linger,
    ] {
        let mut socket = stream();
        assert_eq!(socket.set_opt_time(ty, time), Err(Errno::Inval));
        assert_eq!(socket.opt_time(ty), Err(Errno::Inval));
    }
    for ty in [
        TimeType::ReadTimeout,
        TimeType::WriteTimeout,
        TimeType::ConnectTimeout,
        TimeType::BindTimeout,
        TimeType::Linger,
    ] {
        let mut socket = listener();
        assert_eq!(socket.set_opt_time(ty, time), Err(Errno::Inval));
        assert_eq!(socket.opt_time(ty), Err(Errno::Inval));
    }
    for mut socket in [udp(), icmp(), raw()] {
        for ty in TIMES {
            assert_eq!(socket.set_opt_time(ty, time), Err(Errno::Notsup));
            assert_eq!(socket.opt_time(ty), Err(Errno::Notsup));
        }
    }
}

#[test]
fn lingering() {
    let time = Some(Duration::from_secs(3));
    assert_eq!(stream().set_linger(time), Step::Call(SettingCall::TcpSetLinger(time)));
    assert_eq!(stream().linger(), Step::Call(LingerCall::TcpLinger));
    assert_eq!(pre().set_linger(time), Step::Done(Err(Errno::Io)));
    assert_eq!(pre().linger(), Step::Done(Err(Errno::Io)));
    for socket in [listener(), udp(), icmp(), raw()] {
        assert_eq!(socket.set_linger(None), Step::Done(Err(Errno::Notsup)));
        assert_eq!(socket.linger(), Step::Done(Err(Errno::Notsup)));
    }
}

#[test]
fn times_to_live() {
    assert_eq!(stream().set_ttl(9), Step::Call(SettingCall::TcpSetTtl(9)));
    assert_eq!(udp().set_ttl(9), Step::Call(SettingCall::UdpSetTtl(9)));
    assert_eq!(stream().ttl(), Step::Call(TtlCall::TcpTtl));
    assert_eq!(udp().ttl(), Step::Call(TtlCall::UdpTtl));
    assert_eq!(udp().set_multicast_ttl_v4(4), Step::Call(SettingCall::UdpSetMulticastTtlV4(4)));
    assert_eq!(udp().multicast_ttl_v4(), Step::Call(TtlCall::UdpMulticastTtlV4));
    assert_eq!(pre().set_ttl(9), Step::Done(Err(Errno::Io)));
    assert_eq!(pre().ttl(), Step::Done(Err(Errno::Io)));
    assert_eq!(pre().set_multicast_ttl_v4(4), Step::Done(Err(Errno::Io)));
    assert_eq!(pre().multicast_ttl_v4(), Step::Done(Err(Errno::Io)));
    for socket in [listener(), icmp(), raw()] {
        assert_eq!(socket.set_ttl(9), Step::Done(Err(Errno::Notsup)));
        assert_eq!(socket.ttl(), Step::Done(Err(Errno::Notsup)));
    }
    for socket in [listener(), icmp(), raw(), stream()] {
        assert_eq!(socket.set_multicast_ttl_v4(4), Step::Done(Err(Errno::Notsup)));
        assert_eq!(socket.multicast_ttl_v4(), Step::Done(Err(Errno::Notsup)));
    }
}

#[test]
fn multicast_groups() {
    let multiaddr = Ipv4Addr { bits: 0xe000_0001 };
    let iface = Ipv4Addr { bits: 0x7f00_0001 };
    let group = Ipv6Addr { bits: 0xff02 << 112 };
    assert_eq!(
        udp().join_multicast_v4(multiaddr, iface),
        Step::Call(SettingCall::UdpJoinMulticastV4 { multiaddr, iface })
    );
    assert_eq!(
        udp().leave_multicast_v4(multiaddr, iface),
        Step::Call(SettingCall::UdpLeaveMulticastV4 { multiaddr, iface })
    );
    assert_eq!(
        udp().join_multicast_v6(group, 3),
        Step::Call(SettingCall::UdpJoinMulticastV6 { multiaddr: group, iface: 3 })
    );
    assert_eq!(
        udp().leave_multicast_v6(group, 3),
        Step::Call(SettingCall::UdpLeaveMulticastV6 { multiaddr: group, iface: 3 })
    );
    for (socket, errno) in [
        (pre(), Errno::Io),
        (stream(), Errno::Notsup),
        (listener(), Errno::Notsup),
        (icmp(), Errno::Notsup),
        (raw(), Errno::Notsup),
    ] {
        assert_eq!(socket.join_multicast_v4(multiaddr, iface), Step::Done(Err(errno)));
        assert_eq!(socket.leave_multicast_v4(multiaddr, iface), Step::Done(Err(errno)));
        assert_eq!(socket.join_multicast_v6(group, 3), Step::Done(Err(errno)));
        assert_eq!(socket.leave_multicast_v6(group, 3), Step::Done(Err(errno)));
    }
}

#[test]
fn shutting_down() {
    for how in [Shutdown::Read, Shutdown::Write, Shutdown::Both] {
        assert_eq!(stream().shutdown(how), Step::Call(SettingCall::TcpShutdown(how)));
        assert_eq!(pre().shutdown(how), Step::Done(Err(Errno::Notconn)));
        for socket in [listener(), udp(), icmp(), raw()] {
            assert_eq!(socket.shutdown(how), Step::Done(Err(Errno::Notsup)));
        }
    }
}

#[test]
fn replies_become_answers() {
    assert_eq!(answer::<u32>(Ok(64)), Ok(64));
    assert_eq!(
        answer::<u32>(Err(NetworkError::BrokenPipe)),
        Err(SocketError::Net(NetworkError::BrokenPipe))
    );
}

#[test]
fn a_step_is_finished_with_one_call_at_most() {
    let mut asked = Vec::new();
    let done = udp().ttl().finish(|call| {
        asked.push(call);
        Ok(64)
    });
    assert_eq!(done, Ok(64));
    assert_eq!(asked, vec![TtlCall::UdpTtl]);

    let broken = stream().ttl().finish(|_| Err(NetworkError::WouldBlock));
    assert_eq!(broken, Err(SocketError::Net(NetworkError::WouldBlock)));

    let refused = pre().ttl().finish(|_| panic!("no call is to be made"));
    assert_eq!(refused, Err(SocketError::Errno(Errno::Io)));

    let local = pre().recv_buf_size().finish(|_| panic!("no call is to be made"));
    assert_eq!(local, Ok(0));
}
