//! A socket of the guest: its life and the addresses it has.
use crate::addr::{unspecified_like, unspecified_v4, unspecified_v6, IpAddr, SocketAddr};
use crate::call::{
    raced, refused, BindUdp, ConnectTcp, ListenTcp, LocalAddrCall, PeerAddrCall, Race,
    SettingCall, Step,
};
use crate::error::{answered, Errno, NetworkError, SocketError};
use crate::handler::{new_handler_state, seen_interests, set_interest, InterestType};
use crate::kind::{
    Backend, InodeSocketKind, InodeSocketNotifications, InodeSocketProtected, PreSocketView,
};
use crate::time::{default_timeout, default_timeout_spec};
use crate::types::{Addressfamily, Socktype, TimeType, WasiSocketStatus};
use std::time::Duration;
use vstd::prelude::*;

verus! {

/// A socket of the guest.
#[derive(Debug)]
pub struct InodeSocket<N: Backend> {
    pub inner: InodeSocketProtected<N>,
}

/// What a UDP socket's reply about its peer leads to.
#[derive(Debug, PartialEq, Eq)]
pub enum UdpPeerStep {
    /// The request is answered.
    Answer(Result<SocketAddr, SocketError>),
    /// The local address of the UDP socket has to be read; the reply goes to
    /// `InodeSocket::no_peer`.
    AddrLocal,
}

/// The code that a socket of the family refuses to be bound to the address
/// with, if it does.
pub open spec fn bind_refusal(family: Addressfamily, addr: SocketAddr) -> Option<Errno> {
    match family {
        Addressfamily::Inet4 => if addr is V4 {
            None
        } else {
            Some(Errno::Inval)
        },
        Addressfamily::Inet6 => if addr is V6 {
            None
        } else {
            Some(Errno::Inval)
        },
        _ => Some(Errno::Notsup),
    }
}

/// The unspecified address of a family, with port zero, if the family is one
/// of the two IP families.
pub open spec fn unspecified_of(family: Addressfamily) -> Option<SocketAddr> {
    match family {
        Addressfamily::Inet4 => Some(unspecified_v4()),
        Addressfamily::Inet6 => Some(unspecified_v6()),
        _ => None,
    }
}

impl<N: Backend> InodeSocket<N> {
    /// The socket with another kind, and everything else as it was.
    pub open spec fn with_kind(self, kind: InodeSocketKind<N>) -> Self {
        InodeSocket { inner: InodeSocketProtected { kind, ..self.inner } }
    }

    /// The socket with other settings, and everything else as it was.
    pub open spec fn with_settings(self, settings: PreSocketView) -> Self {
        self.with_kind(InodeSocketKind::with_settings(settings))
    }

    /// A socket in the state that it begins with: nothing has happened to it,
    /// no handler is installed, and a TCP stream counts as writable.
    pub open spec fn is_new(self, kind: InodeSocketKind<N>) -> bool {
        &&& self.inner.kind == kind
        &&& self.inner.notifications == (InodeSocketNotifications { closed: false, failed: false })
        &&& self.inner.aggregate_handler is None
        &&& seen_interests(self.inner.handler_state) == if kind is TcpStream {
            set![InterestType::Writable]
        } else {
            Set::<InterestType>::empty()
        }
    }

    /// The timeout that was chosen for a time type, or the default one.
    pub open spec fn timeout_or_default(self, ty: TimeType) -> Duration {
        match self.inner.kind.timeout(ty) {
            Some(Some(timeout)) => timeout,
            _ => default_timeout_spec(),
        }
    }

    /// Makes a socket of the given kind.
    pub fn new(kind: InodeSocketKind<N>) -> (socket: Self)
        ensures
            socket.is_new(kind),
            socket.inner.well_formed(),
    {
        let mut handler_state = new_handler_state();
        if let InodeSocketKind::TcpStream { .. } = &kind {
            set_interest(&mut handler_state, InterestType::Writable);
        }
        InodeSocket {
            inner: InodeSocketProtected {
                kind,
                notifications: InodeSocketNotifications::default(),
                aggregate_handler: None,
                handler_state,
            },
        }
    }

    /// The timeout that was chosen for a time type, or the default one.
    fn chosen_timeout(&self, ty: TimeType) -> (timeout: Duration)
        ensures
            timeout == self.timeout_or_default(ty),
    {
        match self.opt_time(ty) {
            Ok(Some(timeout)) => timeout,
            _ => default_timeout(),
        }
    }

    /// What binding does: the socket after it, and the step.
    pub open spec fn bind_outcome(self, set_addr: SocketAddr) -> (
        Self,
        Step<BindUdp, Option<InodeSocket<N>>>,
    ) {
        if !(self.inner.kind is PreSocket) {
            (self, refused(Errno::Notsup))
        } else {
            let settings = self.inner.kind.pre();
            match bind_refusal(settings.family, set_addr) {
                Some(errno) => (self, refused(errno)),
                None => (
                    self.with_settings(PreSocketView { addr: Some(set_addr), ..settings }),
                    match settings.ty {
                        Socktype::Stream => Step::Done(Ok(None)),
                        Socktype::Dgram => Step::Call(
                            BindUdp {
                                addr: set_addr,
                                reuse_port: settings.reuse_port,
                                reuse_addr: settings.reuse_addr,
                                timeout: default_timeout_spec(),
                            },
                        ),
                        _ => refused(Errno::Inval),
                    },
                ),
            }
        }
    }

    /// Binds a socket that is not open yet to an address. The address is
    /// remembered once it fits the family, whatever the type of the socket; a
    /// stream socket needs no more than that, and a datagram socket is opened.
    pub fn bind(&mut self, set_addr: SocketAddr) -> (step: Step<BindUdp, Option<InodeSocket<N>>>)
        ensures
            (*final(self), step) == old(self).bind_outcome(set_addr),
            old(self).inner.well_formed() ==> final(self).inner.well_formed(),
    {
        let timeout = self.chosen_timeout(TimeType::BindTimeout);
        match &mut self.inner.kind {
            InodeSocketKind::PreSocket { family, ty, addr, reuse_port, reuse_addr, .. } => {
                match *family {
                    Addressfamily::Inet4 => {
                        if !set_addr.is_ipv4() {
                            return Step::Done(Err(Errno::Inval));
                        }
                    },
                    Addressfamily::Inet6 => {
                        if !set_addr.is_ipv6() {
                            return Step::Done(Err(Errno::Inval));
                        }
                    },
                    _ => {
                        return Step::Done(Err(Errno::Notsup));
                    },
                }
                *addr = Some(set_addr);
                match *ty {
                    // The address is set; the next request listens or connects.
                    Socktype::Stream => Step::Done(Ok(None)),
                    Socktype::Dgram => Step::Call(
                        BindUdp {
                            addr: set_addr,
                            reuse_port: *reuse_port,
                            reuse_addr: *reuse_addr,
                            timeout,
                        },
                    ),
                    _ => Step::Done(Err(Errno::Inval)),
                }
            },
            _ => Step::Done(Err(Errno::Notsup)),
        }
    }

    /// What listening leads to.
    pub open spec fn listen_outcome(self) -> Step<ListenTcp, Option<InodeSocket<N>>> {
        let settings = self.inner.kind.pre();
        if !(self.inner.kind is PreSocket) || !(settings.ty is Stream) {
            refused(Errno::Notsup)
        } else {
            match settings.addr {
                None => refused(Errno::Inval),
                Some(addr) => Step::Call(
                    ListenTcp {
                        addr,
                        only_v6: settings.only_v6,
                        reuse_port: settings.reuse_port,
                        reuse_addr: settings.reuse_addr,
                        timeout: self.timeout_or_default(TimeType::AcceptTimeout),
                    },
                ),
            }
        }
    }

    /// Listens at the address that the socket was bound to.
    pub fn listen(&self, _backlog: usize) -> (step: Step<ListenTcp, Option<InodeSocket<N>>>)
        ensures
            step == self.listen_outcome(),
    {
        let timeout = self.chosen_timeout(TimeType::AcceptTimeout);
        match &self.inner.kind {
            InodeSocketKind::PreSocket { ty, addr, only_v6, reuse_port, reuse_addr, .. } => {
                match *ty {
                    Socktype::Stream => {
                        match *addr {
                            None => Step::Done(Err(Errno::Inval)),
                            Some(addr) => Step::Call(
                                ListenTcp {
                                    addr,
                                    only_v6: *only_v6,
                                    reuse_port: *reuse_port,
                                    reuse_addr: *reuse_addr,
                                    timeout,
                                },
                            ),
                        }
                    },
                    _ => Step::Done(Err(Errno::Notsup)),
                }
            },
            _ => Step::Done(Err(Errno::Notsup)),
        }
    }

    /// What connecting does: the socket after it, and the step.
    pub open spec fn connect_outcome(self, peer: SocketAddr, timeout: Option<Duration>) -> (
        Self,
        Step<ConnectTcp, Option<InodeSocket<N>>>,
    ) {
        match self.inner.kind {
            InodeSocketKind::PreSocket { .. } => {
                let settings = self.inner.kind.pre();
                (
                    self,
                    match settings.ty {
                        Socktype::Stream => Step::Call(
                            ConnectTcp {
                                addr: match settings.addr {
                                    Some(addr) => addr,
                                    None => unspecified_like(peer),
                                },
                                peer,
                                timeout: match timeout {
                                    Some(timeout) => timeout,
                                    None => default_timeout_spec(),
                                },
                                write_timeout: settings.write_timeout,
                                read_timeout: settings.read_timeout,
                            },
                        ),
                        Socktype::Dgram => refused(Errno::Inval),
                        _ => refused(Errno::Notsup),
                    },
                )
            },
            InodeSocketKind::UdpSocket { socket, .. } => (
                self.with_kind(InodeSocketKind::UdpSocket { socket, peer: Some(peer) }),
                Step::Done(Ok(None)),
            ),
            _ => (self, refused(Errno::Notsup)),
        }
    }

    /// Connects the socket to a peer. A stream socket is opened, from the
    /// address it was bound to or else from any address of the peer's family;
    /// a UDP socket only remembers the peer.
    pub fn connect(&mut self, peer: SocketAddr, timeout: Option<Duration>) -> (step: Step<
        ConnectTcp,
        Option<InodeSocket<N>>,
    >)
        ensures
            (*final(self), step) == old(self).connect_outcome(peer, timeout),
            old(self).inner.well_formed() ==> final(self).inner.well_formed(),
    {
        let timeout = match timeout {
            Some(timeout) => timeout,
            None => default_timeout(),
        };
        match &mut self.inner.kind {
            InodeSocketKind::PreSocket { ty, addr, write_timeout, read_timeout, .. } => {
                match *ty {
                    Socktype::Stream => {
                        let addr = match *addr {
                            Some(addr) => addr,
                            None => {
                                let ip = match peer.is_ipv4() {
                                    true => IpAddr::unspecified_v4(),
                                    false => IpAddr::unspecified_v6(),
                                };
                                SocketAddr::new(ip, 0)
                            },
                        };
                        Step::Call(
                            ConnectTcp {
                                addr,
                                peer,
                                timeout,
                                write_timeout: *write_timeout,
                                read_timeout: *read_timeout,
                            },
                        )
                    },
                    Socktype::Dgram => Step::Done(Err(Errno::Inval)),
                    _ => Step::Done(Err(Errno::Notsup)),
                }
            },
            InodeSocketKind::UdpSocket { peer: target_peer, .. } => {
                *target_peer = Some(peer);
                Step::Done(Ok(None))
            },
            _ => Step::Done(Err(Errno::Notsup)),
        }
    }

    /// What closing leads to.
    pub open spec fn close_outcome(self) -> Step<SettingCall, ()> {
        match self.inner.kind {
            InodeSocketKind::PreSocket { .. } => refused(Errno::Notconn),
            InodeSocketKind::TcpStream { .. } => Step::Call(SettingCall::TcpClose),
            _ => Step::Done(Ok(())),
        }
    }

    /// Closes the socket. Only a TCP stream has to be closed on the network.
    pub fn close(&self) -> (step: Step<SettingCall, ()>)
        ensures
            step == self.close_outcome(),
            step matches Step::Call(call) ==> self.inner.kind.target() == Some(call.target()),
    {
        match &self.inner.kind {
            InodeSocketKind::TcpListener { .. } => Step::Done(Ok(())),
            InodeSocketKind::TcpStream { .. } => Step::Call(SettingCall::TcpClose),
            InodeSocketKind::Icmp(_) => Step::Done(Ok(())),
            InodeSocketKind::UdpSocket { .. } => Step::Done(Ok(())),
            InodeSocketKind::Raw(_) => Step::Done(Ok(())),
            InodeSocketKind::PreSocket { .. } => Step::Done(Err(Errno::Notconn)),
        }
    }

    /// The status that the socket reports.
    pub open spec fn status_value(self) -> WasiSocketStatus {
        match self.inner.kind {
            InodeSocketKind::PreSocket { .. } => WasiSocketStatus::Opening,
            InodeSocketKind::Icmp(_) | InodeSocketKind::Raw(_) => WasiSocketStatus::Failed,
            _ => WasiSocketStatus::Opened,
        }
    }

    /// How far the socket has come; it always has a status.
    pub fn status(&self) -> (status: Result<WasiSocketStatus, Errno>)
        ensures
            status == Ok::<WasiSocketStatus, Errno>(self.status_value()),
    {
        Ok(
            match &self.inner.kind {
                InodeSocketKind::PreSocket { .. } => WasiSocketStatus::Opening,
                InodeSocketKind::TcpListener { .. } => WasiSocketStatus::Opened,
                InodeSocketKind::TcpStream { .. } => WasiSocketStatus::Opened,
                InodeSocketKind::UdpSocket { .. } => WasiSocketStatus::Opened,
                _ => WasiSocketStatus::Failed,
            },
        )
    }

    /// What asking for the local address leads to.
    pub open spec fn addr_local_outcome(self) -> Step<LocalAddrCall, SocketAddr> {
        match self.inner.kind {
            InodeSocketKind::PreSocket { .. } => match self.inner.kind.pre().addr {
                Some(addr) => Step::Done(Ok(addr)),
                None => match unspecified_of(self.inner.kind.pre().family) {
                    Some(addr) => Step::Done(Ok(addr)),
                    None => refused(Errno::Inval),
                },
            },
            InodeSocketKind::Icmp(_) => Step::Call(LocalAddrCall::IcmpAddrLocal),
            InodeSocketKind::TcpListener { .. } => Step::Call(LocalAddrCall::TcpListenerAddrLocal),
            InodeSocketKind::TcpStream { .. } => Step::Call(LocalAddrCall::TcpAddrLocal),
            InodeSocketKind::UdpSocket { .. } => Step::Call(LocalAddrCall::UdpAddrLocal),
            InodeSocketKind::Raw(_) => refused(Errno::Notsup),
        }
    }

    /// The local address: the one that the socket was bound to, or the
    /// unspecified one of its family, as long as it is not open.
    pub fn addr_local(&self) -> (step: Step<LocalAddrCall, SocketAddr>)
        ensures
            step == self.addr_local_outcome(),
            step matches Step::Call(call) ==> self.inner.kind.target() == Some(call.target()),
    {
        match &self.inner.kind {
            InodeSocketKind::PreSocket { family, addr, .. } => {
                if let Some(addr) = *addr {
                    Step::Done(Ok(addr))
                } else {
                    Step::Done(Self::unspecified_addr(*family))
                }
            },
            InodeSocketKind::Icmp(_) => Step::Call(LocalAddrCall::IcmpAddrLocal),
            InodeSocketKind::TcpListener { .. } => Step::Call(LocalAddrCall::TcpListenerAddrLocal),
            InodeSocketKind::TcpStream { .. } => Step::Call(LocalAddrCall::TcpAddrLocal),
            InodeSocketKind::UdpSocket { .. } => Step::Call(LocalAddrCall::UdpAddrLocal),
            _ => Step::Done(Err(Errno::Notsup)),
        }
    }

    /// The unspecified address of a family, with port zero.
    fn unspecified_addr(family: Addressfamily) -> (addr: Result<SocketAddr, Errno>)
        ensures
            addr == (match unspecified_of(family) {
                Some(addr) => Ok::<SocketAddr, Errno>(addr),
                None => Err::<SocketAddr, Errno>(Errno::Inval),
            }),
    {
        let ip = match family {
            Addressfamily::Inet4 => IpAddr::unspecified_v4(),
            Addressfamily::Inet6 => IpAddr::unspecified_v6(),
            _ => return Err(Errno::Inval),
        };
        Ok(SocketAddr::new(ip, 0))
    }

    /// What asking for the address of the peer leads to.
    pub open spec fn addr_peer_outcome(self) -> Step<PeerAddrCall, SocketAddr> {
        match self.inner.kind {
            InodeSocketKind::PreSocket { .. } => match unspecified_of(
                self.inner.kind.pre().family,
            ) {
                Some(addr) => Step::Done(Ok(addr)),
                None => refused(Errno::Inval),
            },
            InodeSocketKind::TcpStream { .. } => Step::Call(PeerAddrCall::TcpAddrPeer),
            InodeSocketKind::UdpSocket { .. } => Step::Call(PeerAddrCall::UdpAddrPeer),
            _ => refused(Errno::Notsup),
        }
    }

    /// The address of the peer: the unspecified one of the socket's family as
    /// long as it is not open.
    pub fn addr_peer(&self) -> (step: Step<PeerAddrCall, SocketAddr>)
        ensures
            step == self.addr_peer_outcome(),
            step matches Step::Call(call) ==> self.inner.kind.target() == Some(call.target()),
    {
        match &self.inner.kind {
            InodeSocketKind::PreSocket { family, .. } => Step::Done(
                Self::unspecified_addr(*family),
            ),
            InodeSocketKind::TcpStream { .. } => Step::Call(PeerAddrCall::TcpAddrPeer),
            InodeSocketKind::UdpSocket { .. } => Step::Call(PeerAddrCall::UdpAddrPeer),
            _ => Step::Done(Err(Errno::Notsup)),
        }
    }

    /// Goes on with asking for the address of a UDP socket's peer. Where the
    /// socket has none, its local address is asked for next; that reply goes
    /// to `no_peer`.
    pub fn udp_peer(reply: Result<Option<SocketAddr>, NetworkError>) -> (next: UdpPeerStep)
        ensures
            next == (match reply {
                Ok(Some(addr)) => UdpPeerStep::Answer(Ok(addr)),
                Ok(None) => UdpPeerStep::AddrLocal,
                Err(error) => UdpPeerStep::Answer(Err(SocketError::Net(error))),
            }),
    {
        match reply {
            Ok(Some(addr)) => UdpPeerStep::Answer(Ok(addr)),
            Ok(None) => UdpPeerStep::AddrLocal,
            Err(error) => UdpPeerStep::Answer(Err(SocketError::Net(error))),
        }
    }

    /// The address of the peer that a UDP socket does not have: the
    /// unspecified one of the family of its local address.
    pub fn no_peer(local: Result<SocketAddr, NetworkError>) -> (answer: Result<
        SocketAddr,
        SocketError,
    >)
        ensures
            answer == (match local {
                Ok(addr) => Ok::<SocketAddr, SocketError>(unspecified_like(addr)),
                Err(error) => Err::<SocketAddr, SocketError>(SocketError::Net(error)),
            }),
    {
        match local {
            Ok(addr) => {
                let ip = match addr {
                    SocketAddr::V4(_) => IpAddr::unspecified_v4(),
                    SocketAddr::V6(_) => IpAddr::unspecified_v6(),
                };
                Ok(SocketAddr::new(ip, 0))
            },
            Err(error) => Err(SocketError::Net(error)),
        }
    }

    /// Whether the socket can be written to; `socket` is `None` while someone
    /// else holds it, and then it cannot.
    pub fn can_write(socket: Option<&InodeSocket<N>>) -> (writable: bool)
        ensures
            writable == (socket matches Some(socket) && (socket.inner.kind is TcpStream
                || socket.inner.kind is UdpSocket || socket.inner.kind is Raw)),
    {
        match socket {
            Some(socket) => match &socket.inner.kind {
                InodeSocketKind::TcpStream { .. } => true,
                InodeSocketKind::UdpSocket { .. } => true,
                InodeSocketKind::Raw(_) => true,
                _ => false,
            },
            None => false,
        }
    }
}

impl BindUdp {
    /// Ends a bind with the reply to this call or with its timeout: a new UDP
    /// socket without a peer, or the error.
    pub fn complete<N: Backend>(self, race: Race<Result<N::Udp, NetworkError>>) -> (answer: Result<
        Option<InodeSocket<N>>,
        SocketError,
    >)
        ensures
            match raced(race) {
                Ok(socket) => answer matches Ok(Some(new)) && new.is_new(
                    InodeSocketKind::UdpSocket { socket, peer: None },
                ),
                Err(error) => answer == Err::<Option<InodeSocket<N>>, SocketError>(error),
            },
    {
        match race {
            Race::Finished(Ok(socket)) => Ok(
                Some(InodeSocket::new(InodeSocketKind::UdpSocket { socket, peer: None })),
            ),
            Race::Finished(Err(error)) => Err(SocketError::Net(error)),
            Race::Elapsed => Err(SocketError::Errno(Errno::Timedout)),
        }
    }
}

impl ListenTcp {
    /// Ends a listen with the reply to this call or with its timeout: a new
    /// listener, which accepts with the same timeout, or the error.
    pub fn complete<N: Backend>(self, race: Race<Result<N::TcpListener, NetworkError>>) -> (answer:
        Result<Option<InodeSocket<N>>, SocketError>)
        ensures
            match raced(race) {
                Ok(socket) => answer matches Ok(Some(new)) && new.is_new(
                    InodeSocketKind::TcpListener { socket, accept_timeout: Some(self.timeout) },
                ),
                Err(error) => answer == Err::<Option<InodeSocket<N>>, SocketError>(error),
            },
    {
        match race {
            Race::Finished(Ok(socket)) => Ok(
                Some(
                    InodeSocket::new(
                        InodeSocketKind::TcpListener {
                            socket,
                            accept_timeout: Some(self.timeout),
                        },
                    ),
                ),
            ),
            Race::Finished(Err(error)) => Err(SocketError::Net(error)),
            Race::Elapsed => Err(SocketError::Errno(Errno::Timedout)),
        }
    }
}

impl ConnectTcp {
    /// Ends a connect with the reply to this call or with its timeout: a new
    /// stream, with the timeouts of the socket that was connected, or the
    /// error.
    pub fn complete<N: Backend>(self, race: Race<Result<N::TcpStream, NetworkError>>) -> (answer:
        Result<Option<InodeSocket<N>>, SocketError>)
        ensures
            match raced(race) {
                Ok(socket) => answer matches Ok(Some(new)) && new.is_new(
                    InodeSocketKind::TcpStream {
                        socket,
                        write_timeout: self.write_timeout,
                        read_timeout: self.read_timeout,
                    },
                ),
                Err(error) => answer == Err::<Option<InodeSocket<N>>, SocketError>(error),
            },
    {
        match race {
            Race::Finished(Ok(socket)) => Ok(
                Some(
                    InodeSocket::new(
                        InodeSocketKind::TcpStream {
                            socket,
                            write_timeout: self.write_timeout,
                            read_timeout: self.read_timeout,
                        },
                    ),
                ),
            ),
            Race::Finished(Err(error)) => Err(SocketError::Net(error)),
            Race::Elapsed => Err(SocketError::Errno(Errno::Timedout)),
        }
    }
}

} // verus!
