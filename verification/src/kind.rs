//! What a socket of the guest is and remembers.
use crate::addr::SocketAddr;
use crate::error::NetworkError;
use crate::handler::{
    handler_subscriptions, new_filtered_handler, subscribers_of, InterestType,
};
use crate::types::{Addressfamily, Socktype};
use std::time::Duration;
use virtual_mio::{FilteredHandler, FilteredHandlerSubscriptions, StatefulHandlerState};
use vstd::prelude::*;
use wasmer_wasix_types::wasi::SockProto;

verus! {

/// The protocol that the guest opened a socket with; it is kept, never read.
#[verifier::external_type_specification]
#[verifier::external_body]
pub struct ExSockProto(SockProto);

/// The types of the open sockets of a virtual network.
pub trait Backend {
    type Icmp: std::fmt::Debug;

    type Raw: std::fmt::Debug;

    type TcpListener: std::fmt::Debug;

    type TcpStream: std::fmt::Debug;

    type Udp: std::fmt::Debug;
}

/// A socket as the guest sees it: either not opened on the network yet, with
/// the settings to open it with, or one of the network's open sockets.
#[derive(Debug)]
#[allow(inconsistent_fields)]
pub enum InodeSocketKind<N: Backend> {
    PreSocket {
        family: Addressfamily,
        ty: Socktype,
        pt: SockProto,
        addr: Option<SocketAddr>,
        only_v6: bool,
        reuse_port: bool,
        reuse_addr: bool,
        send_buf_size: Option<usize>,
        recv_buf_size: Option<usize>,
        write_timeout: Option<Duration>,
        read_timeout: Option<Duration>,
        accept_timeout: Option<Duration>,
        connect_timeout: Option<Duration>,
    },
    Icmp(N::Icmp),
    Raw(N::Raw),
    TcpListener { socket: N::TcpListener, accept_timeout: Option<Duration> },
    TcpStream {
        socket: N::TcpStream,
        write_timeout: Option<Duration>,
        read_timeout: Option<Duration>,
    },
    UdpSocket { socket: N::Udp, peer: Option<SocketAddr> },
}

/// The settings of a socket that is not open yet.
pub struct PreSocketView {
    pub family: Addressfamily,
    pub ty: Socktype,
    pub pt: SockProto,
    pub addr: Option<SocketAddr>,
    pub only_v6: bool,
    pub reuse_port: bool,
    pub reuse_addr: bool,
    pub send_buf_size: Option<usize>,
    pub recv_buf_size: Option<usize>,
    pub write_timeout: Option<Duration>,
    pub read_timeout: Option<Duration>,
    pub accept_timeout: Option<Duration>,
    pub connect_timeout: Option<Duration>,
}

impl<N: Backend> InodeSocketKind<N> {
    /// The settings of a socket that is not open yet.
    pub open spec fn pre(self) -> PreSocketView
        recommends
            self is PreSocket,
    {
        PreSocketView {
            family: self->family,
            ty: self->ty,
            pt: self->pt,
            addr: self->addr,
            only_v6: self->only_v6,
            reuse_port: self->reuse_port,
            reuse_addr: self->reuse_addr,
            send_buf_size: self->send_buf_size,
            recv_buf_size: self->recv_buf_size,
            write_timeout: self->PreSocket_write_timeout,
            read_timeout: self->PreSocket_read_timeout,
            accept_timeout: self->PreSocket_accept_timeout,
            connect_timeout: self->connect_timeout,
        }
    }

    /// The socket that is not open yet and has the given settings.
    pub open spec fn with_settings(settings: PreSocketView) -> Self {
        InodeSocketKind::PreSocket {
            family: settings.family,
            ty: settings.ty,
            pt: settings.pt,
            addr: settings.addr,
            only_v6: settings.only_v6,
            reuse_port: settings.reuse_port,
            reuse_addr: settings.reuse_addr,
            send_buf_size: settings.send_buf_size,
            recv_buf_size: settings.recv_buf_size,
            write_timeout: settings.write_timeout,
            read_timeout: settings.read_timeout,
            accept_timeout: settings.accept_timeout,
            connect_timeout: settings.connect_timeout,
        }
    }

    /// The kind of open socket that this one is, if it is open.
    pub open spec fn target(self) -> Option<SocketTarget> {
        match self {
            InodeSocketKind::PreSocket { .. } => None,
            InodeSocketKind::Icmp(_) => Some(SocketTarget::Icmp),
            InodeSocketKind::Raw(_) => Some(SocketTarget::Raw),
            InodeSocketKind::TcpListener { .. } => Some(SocketTarget::TcpListener),
            InodeSocketKind::TcpStream { .. } => Some(SocketTarget::TcpStream),
            InodeSocketKind::UdpSocket { .. } => Some(SocketTarget::UdpSocket),
        }
    }
}

/// The kinds of open sockets that a call can be made on.
#[derive(Debug, Clone, Copy, PartialEq, Eq, Structural)]
pub enum SocketTarget {
    Icmp,
    Raw,
    TcpListener,
    TcpStream,
    UdpSocket,
}

/// What has happened to a socket.
#[derive(Debug, Clone, Copy, PartialEq, Eq, Structural)]
pub struct InodeSocketNotifications {
    pub closed: bool,
    pub failed: bool,
}

impl Default for InodeSocketNotifications {
    fn default() -> (notifications: Self)
        ensures
            notifications == (InodeSocketNotifications { closed: false, failed: false }),
    {
        InodeSocketNotifications { closed: false, failed: false }
    }
}

/// The state of a socket.
#[derive(Debug)]
pub struct InodeSocketProtected<N: Backend> {
    pub kind: InodeSocketKind<N>,
    pub notifications: InodeSocketNotifications,
    pub aggregate_handler: Option<FilteredHandlerSubscriptions>,
    pub handler_state: StatefulHandlerState,
}

/// What adding a handler takes.
pub enum AddHandlerStep {
    /// The aggregate handler has to be installed on the socket first. The
    /// reply goes to `InodeSocketProtected::aggregate_installed`, together
    /// with the subscribers.
    Install {
        target: SocketTarget,
        upper: Box<FilteredHandler>,
        subscribers: FilteredHandlerSubscriptions,
    },
    /// The new handler has to be subscribed, for this interest, to the
    /// socket's aggregate handler.
    Subscribe(InterestType),
}

impl<N: Backend> InodeSocketProtected<N> {
    /// An aggregate handler is only ever installed on an open socket.
    pub open spec fn well_formed(self) -> bool {
        self.aggregate_handler is Some ==> !(self.kind is PreSocket)
    }

    /// Whether adding a handler begins with installing an aggregate handler.
    pub open spec fn lacks_aggregate(self) -> bool {
        self.aggregate_handler is None
    }

    /// The state with an aggregate handler installed.
    pub open spec fn with_aggregate(self, subscribers: FilteredHandlerSubscriptions) -> Self {
        InodeSocketProtected { aggregate_handler: Some(subscribers), ..self }
    }

    /// The socket that the handler has to be removed from, if there is one.
    pub fn remove_handler(&self) -> (target: Option<SocketTarget>)
        ensures
            target == self.kind.target(),
    {
        match &self.kind {
            InodeSocketKind::TcpListener { .. } => Some(SocketTarget::TcpListener),
            InodeSocketKind::TcpStream { .. } => Some(SocketTarget::TcpStream),
            InodeSocketKind::UdpSocket { .. } => Some(SocketTarget::UdpSocket),
            InodeSocketKind::Raw(_) => Some(SocketTarget::Raw),
            InodeSocketKind::Icmp(_) => Some(SocketTarget::Icmp),
            InodeSocketKind::PreSocket { .. } => None,
        }
    }

    /// The socket that a handler has to be set on. A socket that is not open
    /// takes none.
    pub fn set_handler(&self) -> (target: Result<SocketTarget, NetworkError>)
        ensures
            target == (match self.kind.target() {
                Some(target) => Ok(target),
                None => Err(NetworkError::NotConnected),
            }),
    {
        match &self.kind {
            InodeSocketKind::TcpListener { .. } => Ok(SocketTarget::TcpListener),
            InodeSocketKind::TcpStream { .. } => Ok(SocketTarget::TcpStream),
            InodeSocketKind::UdpSocket { .. } => Ok(SocketTarget::UdpSocket),
            InodeSocketKind::Raw(_) => Ok(SocketTarget::Raw),
            InodeSocketKind::Icmp(_) => Ok(SocketTarget::Icmp),
            InodeSocketKind::PreSocket { .. } => Err(NetworkError::NotConnected),
        }
    }

    /// Begins to add a handler for an interest. Where the socket has no
    /// aggregate handler yet, a new one is to be installed first, which fails
    /// on a socket that is not open.
    pub fn add_handler(&self, interest: InterestType) -> (step: Result<
        AddHandlerStep,
        NetworkError,
    >)
        ensures
            !self.lacks_aggregate() ==> step == Ok::<AddHandlerStep, NetworkError>(
                AddHandlerStep::Subscribe(interest),
            ),
            self.lacks_aggregate() && self.kind is PreSocket ==> step == Err::<
                AddHandlerStep,
                NetworkError,
            >(NetworkError::NotConnected),
            self.lacks_aggregate() && !(self.kind is PreSocket) ==> {
                &&& step matches Ok(AddHandlerStep::Install { target, upper, subscribers })
                &&& self.kind.target() == Some(target)
                &&& subscribers == subscribers_of(*upper)
            },
    {
        if self.aggregate_handler.is_none() {
            let upper = new_filtered_handler();
            let subscribers = handler_subscriptions(&upper);
            match self.set_handler() {
                Ok(target) => Ok(AddHandlerStep::Install { target, upper, subscribers }),
                Err(error) => Err(error),
            }
        } else {
            Ok(AddHandlerStep::Subscribe(interest))
        }
    }

    /// Goes on with adding a handler once the aggregate handler has been set
    /// on the socket: if that succeeded, its subscribers are remembered and
    /// the handler is to be subscribed; otherwise the error is the answer.
    pub fn aggregate_installed(
        &mut self,
        reply: Result<(), NetworkError>,
        subscribers: FilteredHandlerSubscriptions,
        interest: InterestType,
    ) -> (step: Result<AddHandlerStep, NetworkError>)
        ensures
            match reply {
                Ok(_) => {
                    &&& step == Ok::<AddHandlerStep, NetworkError>(
                        AddHandlerStep::Subscribe(interest),
                    )
                    &&& *final(self) == old(self).with_aggregate(subscribers)
                },
                Err(error) => {
                    &&& step == Err::<AddHandlerStep, NetworkError>(error)
                    &&& *final(self) == *old(self)
                },
            },
            old(self).kind.target() is Some ==> final(self).well_formed(),
    {
        match reply {
            Ok(_) => {
                self.aggregate_handler = Some(subscribers);
                Ok(AddHandlerStep::Subscribe(interest))
            },
            Err(error) => Err(error),
        }
    }
}

} // verus!
