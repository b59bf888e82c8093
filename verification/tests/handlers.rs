use std::sync::{Arc, Mutex};
use virtual_mio::InterestHandler;
use wasix_socket::{
    all_socket_rights, AddHandlerStep, Addressfamily, Backend, InodeSocket, InodeSocketKind,
    InodeSocketNotifications, InterestType, IpAddr, Ipv4Addr, NetworkError, SocketAddr,
    SocketTarget, Socktype, TimeType, WasiSocketOption,
};
use wasmer_wasix_types::wasi::{Rights, SockProto};

#[derive(Debug)]
struct Fake;

impl Backend for Fake {
    type Icmp = ();
    type Raw = ();
    type TcpListener = ();
    type TcpStream = ();
    type Udp = ();
}

type Socket = InodeSocket<Fake>;

struct Recorder {
    seen: Arc<Mutex<Vec<virtual_mio::InterestType>>>,
}

impl InterestHandler for Recorder {
    fn interest(&mut self, interest: virtual_mio::InterestType) {
        self.seen.lock().unwrap().push(interest);
    }
}

fn pre() -> Socket {
    Socket::new(InodeSocketKind::PreSocket {
        family: Addressfamily::Inet4,
        ty: Socktype::Stream,
        pt: SockProto::Tcp,
        addr: None,
        only_v6: false,
        reuse_port: false,
        reuse_addr: false,
        send_buf_size: None,
        recv_buf_size: None,
        write_timeout: None,
        read_timeout: None,
        accept_timeout: None,
        connect_timeout: None,
    })
}

fn open_sockets() -> Vec<(Socket, SocketTarget)> {
    vec![
        (Socket::new(InodeSocketKind::Icmp(())), SocketTarget::Icmp),
        (Socket::new(InodeSocketKind::Raw(())), SocketTarget::Raw),
        (
            Socket::new(InodeSocketKind::TcpListener { socket: (), accept_timeout: None }),
            SocketTarget::TcpListener,
        ),
        (
            Socket::new(InodeSocketKind::TcpStream {
                socket: (),
                write_timeout: None,
                read_timeout: None,
            }),
            SocketTarget::TcpStream,
        ),
        (
            Socket::new(InodeSocketKind::UdpSocket { socket: (), peer: None }),
            SocketTarget::UdpSocket,
        ),
    ]
}

#[test]
fn handlers_go_to_open_sockets() {
    for (socket, target) in open_sockets() {
        assert_eq!(socket.inner.set_handler(), Ok(target));
        assert_eq!(socket.inner.remove_handler(), Some(target));
    }
    assert_eq!(pre().inner.set_handler(), Err(NetworkError::NotConnected));
    assert_eq!(pre().inner.remove_handler(), None);
}

#[test]
fn an_unopened_socket_takes_no_handler() {
    assert!(matches!(
        pre().inner.add_handler(InterestType::Readable),
        Err(NetworkError::NotConnected)
    ));
}

#[test]
fn the_aggregate_handler_is_installed_once() {
    for (mut socket, expected) in open_sockets() {
        let (mut upper, subscribers) = match socket.inner.add_handler(InterestType::Readable) {
            Ok(AddHandlerStep::Install { target, upper, subscribers }) => {
                assert_eq!(target, expected);
                (upper, subscribers)
            }
            _ => panic!("the aggregate handler is missing"),
        };
        assert!(matches!(
            socket.inner.aggregate_installed(Ok(()), subscribers, InterestType::Readable),
            Ok(AddHandlerStep::Subscribe(InterestType::Readable))
        ));

        // What subscribes to the socket hears what the installed handler is told.
        let seen = Arc::new(Mutex::new(Vec::new()));
        socket.inner.aggregate_handler.as_ref().unwrap().add_interest(
            virtual_mio::InterestType::Readable,
            Box::new(Recorder { seen: seen.clone() }),
        );
        upper.interest(virtual_mio::InterestType::Readable);
        upper.interest(virtual_mio::InterestType::Closed);
        assert_eq!(*seen.lock().unwrap(), vec![virtual_mio::InterestType::Readable]);

        assert!(matches!(
            socket.inner.add_handler(InterestType::Error),
            Ok(AddHandlerStep::Subscribe(InterestType::Error))
        ));
    }
}

#[test]
fn an_aggregate_handler_that_cannot_be_installed_is_forgotten() {
    let (mut socket, _) = open_sockets().remove(3);
    let subscribers = match socket.inner.add_handler(InterestType::Writable) {
        Ok(AddHandlerStep::Install { subscribers, .. }) => subscribers,
        _ => panic!("the aggregate handler is missing"),
    };
    assert!(matches!(
        socket.inner.aggregate_installed(
            Err(NetworkError::InvalidFd),
            subscribers,
            InterestType::Writable
        ),
        Err(NetworkError::InvalidFd)
    ));
    assert!(socket.inner.aggregate_handler.is_none());
    assert!(matches!(
        socket.inner.add_handler(InterestType::Writable),
        Ok(AddHandlerStep::Install { .. })
    ));
}

#[test]
fn nothing_has_happened_by_default() {
    assert_eq!(
        InodeSocketNotifications::default(),
        InodeSocketNotifications { closed: false, failed: false }
    );
}

#[test]
fn the_rights_of_a_socket() {
    let rights = all_socket_rights();
    assert_eq!(rights.bits(), 0x7f_f820_004a);
    let expected = Rights::FD_FDSTAT_SET_FLAGS
        | Rights::FD_FILESTAT_GET
        | Rights::FD_READ
        | Rights::FD_WRITE
        | Rights::POLL_FD_READWRITE
        | Rights::SOCK_SHUTDOWN
        | Rights::SOCK_CONNECT
        | Rights::SOCK_LISTEN
        | Rights::SOCK_BIND
        | Rights::SOCK_ACCEPT
        | Rights::SOCK_RECV
        | Rights::SOCK_SEND
        | Rights::SOCK_ADDR_LOCAL
        | Rights::SOCK_ADDR_REMOTE
        | Rights::SOCK_RECV_FROM
        | Rights::SOCK_SEND_TO;
    assert_eq!(rights, expected);
    assert!(!rights.contains(Rights::FD_SEEK));
    assert!(!rights.contains(Rights::PATH_OPEN));
}

#[test]
fn requests_leave_the_aggregate_handler_installed() {
    for (mut socket, _) in open_sockets() {
        let subscribers = match socket.inner.add_handler(InterestType::Readable) {
            Ok(AddHandlerStep::Install { subscribers, .. }) => subscribers,
            _ => panic!("the aggregate handler is missing"),
        };
        let _ = socket.inner.aggregate_installed(Ok(()), subscribers, InterestType::Readable);
        let peer = SocketAddr::new(IpAddr::V4(Ipv4Addr { bits: 1 }), 1);
        let _ = socket.connect(peer, None);
        let _ = socket.bind(peer);
        let _ = socket.set_opt_flag(WasiSocketOption::NoDelay, true);
        let _ = socket.set_opt_time(TimeType::ReadTimeout, None);
        let _ = socket.set_send_buf_size(1);
        assert!(matches!(
            socket.inner.add_handler(InterestType::Closed),
            Ok(AddHandlerStep::Subscribe(InterestType::Closed))
        ));
    }
}
