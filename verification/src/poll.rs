//! The requests that wait until the network is ready.
//!
//! Such a request is tried whenever it is polled. While it would block it
//! either gives up at once or registers a handler, once, to be polled again.
use crate::addr::SocketAddr;
use crate::call::{AcceptCall, RecvCall, RecvFromCall, SendCall};
use crate::error::{Errno, NetworkError, SocketError};
use crate::kind::{Backend, InodeSocketKind, SocketTarget};
use crate::socket::InodeSocket;
use std::time::Duration;
use vstd::prelude::*;

verus! {

/// A request together with the time that it may take, if that is bounded. The
/// two are raced against each other, see `Race::settle`.
#[derive(Debug, PartialEq, Eq)]
pub struct Timed<P> {
    pub request: P,
    pub timeout: Option<Duration>,
}

/// What a waiting request is told.
#[derive(Debug, PartialEq, Eq)]
pub enum PollEvent<T> {
    /// It is polled.
    Polled,
    /// The call it asked for has this reply.
    Replied(Result<T, NetworkError>),
    /// Setting the handler it asked for has this reply.
    Registered(Result<(), NetworkError>),
}

/// What a waiting request asks for.
#[derive(Debug, PartialEq, Eq)]
pub enum PollAction<C, T> {
    /// The call is to be made, and the reply handed back.
    Call(C),
    /// A handler that polls the request again is to be set on the socket, and
    /// the reply handed back.
    Register(SocketTarget),
    /// The request is over.
    Ready(Result<T, SocketError>),
    /// Nothing can be done until the handler is called.
    Pending,
}

/// The request is over with an error code of the socket layer.
pub open spec fn failed<C, T>(errno: Errno) -> PollAction<C, T> {
    PollAction::Ready(Err(SocketError::Errno(errno)))
}

/// The request is over with an error of the network.
pub open spec fn broken<C, T>(error: NetworkError) -> PollAction<C, T> {
    PollAction::Ready(Err(SocketError::Net(error)))
}

impl<C, T> PollAction<C, T> {
    /// The request is over with this error code of the socket layer.
    pub open spec fn fails(self, errno: Errno) -> bool {
        self == failed::<C, T>(errno)
    }

    /// The request is over with this error of the network.
    pub open spec fn breaks(self, error: NetworkError) -> bool {
        self == broken::<C, T>(error)
    }
}

/// How a waiting request stands.
#[derive(Debug, Clone, Copy, PartialEq, Eq, Structural)]
pub struct Polling {
    /// Whether the request gives up rather than wait.
    pub nonblocking: bool,
    /// Whether the request has set its handler on the socket.
    pub handler_registered: bool,
}

/// Where a handler can be set on a socket.
pub open spec fn handler_target<N: Backend>(socket: InodeSocket<N>) -> Result<
    SocketTarget,
    NetworkError,
> {
    match socket.inner.kind.target() {
        Some(target) => Ok(target),
        None => Err(NetworkError::NotConnected),
    }
}

impl Polling {
    /// The standing of a new request.
    pub open spec fn fresh(nonblocking: bool) -> Polling {
        Polling { nonblocking, handler_registered: false }
    }

    /// What follows on the reply to a try.
    pub open spec fn after_reply<C, T>(
        self,
        target: Result<SocketTarget, NetworkError>,
        reply: Result<T, NetworkError>,
    ) -> PollAction<C, T> {
        match reply {
            Ok(value) => PollAction::Ready(Ok(value)),
            Err(NetworkError::WouldBlock) => if self.nonblocking {
                failed(Errno::Again)
            } else if self.handler_registered {
                PollAction::Pending
            } else {
                match target {
                    Ok(target) => PollAction::Register(target),
                    Err(error) => broken(error),
                }
            },
            Err(error) => broken(error),
        }
    }

    /// What a waiting request does on an event: how it stands after it, and
    /// what it asks for. `target` says where a handler can be set, and `retry`
    /// what trying anew asks for.
    pub open spec fn advanced<C, T>(
        self,
        target: Result<SocketTarget, NetworkError>,
        retry: PollAction<C, T>,
        event: PollEvent<T>,
    ) -> (Polling, PollAction<C, T>) {
        match event {
            PollEvent::Polled => (self, retry),
            PollEvent::Replied(reply) => (self, self.after_reply(target, reply)),
            PollEvent::Registered(Ok(_)) => (Polling { handler_registered: true, ..self }, retry),
            PollEvent::Registered(Err(error)) => (self, broken(error)),
        }
    }

    /// Handles one event of a waiting request.
    fn advance<C, T, N: Backend>(
        &mut self,
        socket: &InodeSocket<N>,
        retry: PollAction<C, T>,
        event: PollEvent<T>,
    ) -> (action: PollAction<C, T>)
        ensures
            (*final(self), action) == old(self).advanced(handler_target(*socket), retry, event),
    {
        match event {
            PollEvent::Polled => retry,
            PollEvent::Replied(Ok(value)) => PollAction::Ready(Ok(value)),
            PollEvent::Replied(Err(NetworkError::WouldBlock)) => {
                if self.nonblocking {
                    PollAction::Ready(Err(SocketError::Errno(Errno::Again)))
                } else if !self.handler_registered {
                    match socket.inner.set_handler() {
                        Ok(target) => PollAction::Register(target),
                        Err(error) => PollAction::Ready(Err(SocketError::Net(error))),
                    }
                } else {
                    PollAction::Pending
                }
            },
            PollEvent::Replied(Err(error)) => PollAction::Ready(Err(SocketError::Net(error))),
            PollEvent::Registered(Ok(_)) => {
                self.handler_registered = true;
                retry
            },
            PollEvent::Registered(Err(error)) => PollAction::Ready(Err(SocketError::Net(error))),
        }
    }

    /// The socket that still has a handler of the request, if there is one.
    pub open spec fn leaves_handler<N: Backend>(self, socket: InodeSocket<N>) -> Option<
        SocketTarget,
    > {
        if self.handler_registered {
            socket.inner.kind.target()
        } else {
            None
        }
    }

    /// What is left to do when the request is dropped: the handler that it has
    /// set has to be removed from the socket again.
    pub fn dropped<N: Backend>(&self, socket: &InodeSocket<N>) -> (target: Option<SocketTarget>)
        ensures
            target == self.leaves_handler(*socket),
    {
        if self.handler_registered {
            socket.inner.remove_handler()
        } else {
            None
        }
    }
}

/// Waits for a connection to a listener.
#[derive(Debug, Clone, Copy, PartialEq, Eq, Structural)]
pub struct SocketAccepter {
    pub polling: Polling,
}

/// Waits until bytes can be sent to the peer of the socket.
#[derive(Debug, Clone, Copy, PartialEq, Eq)]
pub struct SocketSender<'a> {
    pub data: &'a [u8],
    pub polling: Polling,
}

/// Waits until bytes can be sent to an address.
#[derive(Debug, Clone, Copy, PartialEq, Eq)]
pub struct SocketSenderTo<'a> {
    pub data: &'a [u8],
    pub addr: SocketAddr,
    pub polling: Polling,
}

/// Waits for bytes from the peer of the socket.
#[derive(Debug, Clone, Copy, PartialEq, Eq, Structural)]
pub struct SocketReceiver {
    pub polling: Polling,
}

/// Waits for a datagram of any sender.
#[derive(Debug, Clone, Copy, PartialEq, Eq, Structural)]
pub struct SocketReceiverFrom {
    pub polling: Polling,
}

impl<N: Backend> InodeSocket<N> {
    /// What trying to accept asks for.
    pub open spec fn accept_attempt<T>(self) -> PollAction<AcceptCall, T> {
        match self.inner.kind {
            InodeSocketKind::TcpListener { .. } => PollAction::Call(AcceptCall::TcpTryAccept),
            InodeSocketKind::PreSocket { .. } => failed(Errno::Notconn),
            _ => failed(Errno::Notsup),
        }
    }

    /// What trying to send to the peer asks for.
    pub open spec fn send_attempt<'a>(self, data: &'a [u8]) -> PollAction<SendCall<'a>, usize> {
        match self.inner.kind {
            InodeSocketKind::Raw(_) => PollAction::Call(SendCall::RawTrySend { data }),
            InodeSocketKind::TcpStream { .. } => PollAction::Call(SendCall::TcpTrySend { data }),
            InodeSocketKind::UdpSocket { peer: Some(addr), .. } => PollAction::Call(
                SendCall::UdpTrySendTo { data, addr },
            ),
            InodeSocketKind::UdpSocket { peer: None, .. } => broken(NetworkError::NotConnected),
            InodeSocketKind::PreSocket { .. } => failed(Errno::Notconn),
            _ => failed(Errno::Notsup),
        }
    }

    /// What trying to send to an address asks for.
    pub open spec fn send_to_attempt<'a>(self, data: &'a [u8], addr: SocketAddr) -> PollAction<
        SendCall<'a>,
        usize,
    > {
        match self.inner.kind {
            InodeSocketKind::Icmp(_) => PollAction::Call(SendCall::IcmpTrySendTo { data, addr }),
            InodeSocketKind::UdpSocket { .. } => PollAction::Call(
                SendCall::UdpTrySendTo { data, addr },
            ),
            InodeSocketKind::PreSocket { .. } => failed(Errno::Notconn),
            _ => failed(Errno::Notsup),
        }
    }

    /// What trying to receive from the peer asks for.
    pub open spec fn recv_attempt(self) -> PollAction<RecvCall, usize> {
        match self.inner.kind {
            InodeSocketKind::Raw(_) => PollAction::Call(RecvCall::RawTryRecv),
            InodeSocketKind::TcpStream { .. } => PollAction::Call(RecvCall::TcpTryRecv),
            InodeSocketKind::UdpSocket { peer: Some(peer), .. } => PollAction::Call(
                RecvCall::UdpTryRecvFrom { peer },
            ),
            InodeSocketKind::UdpSocket { peer: None, .. } => broken(NetworkError::NotConnected),
            InodeSocketKind::PreSocket { .. } => failed(Errno::Notconn),
            _ => failed(Errno::Notsup),
        }
    }

    /// What trying to receive from anyone asks for.
    pub open spec fn recv_from_attempt(self) -> PollAction<RecvFromCall, (usize, SocketAddr)> {
        match self.inner.kind {
            InodeSocketKind::Icmp(_) => PollAction::Call(RecvFromCall::IcmpTryRecvFrom),
            InodeSocketKind::UdpSocket { .. } => PollAction::Call(RecvFromCall::UdpTryRecvFrom),
            InodeSocketKind::PreSocket { .. } => failed(Errno::Notconn),
            _ => failed(Errno::Notsup),
        }
    }

    /// Begins to accept a connection.
    pub fn accept(nonblocking: bool, timeout: Option<Duration>) -> (timed: Timed<SocketAccepter>)
        ensures
            timed == (Timed {
                request: SocketAccepter { polling: Polling::fresh(nonblocking) },
                timeout,
            }),
    {
        Timed {
            request: SocketAccepter { polling: Polling { nonblocking, handler_registered: false } },
            timeout,
        }
    }

    /// Begins to send bytes to the peer.
    pub fn send<'a>(data: &'a [u8], timeout: Option<Duration>, nonblocking: bool) -> (timed: Timed<
        SocketSender<'a>,
    >)
        ensures
            timed == (Timed {
                request: SocketSender { data, polling: Polling::fresh(nonblocking) },
                timeout,
            }),
    {
        Timed {
            request: SocketSender {
                data,
                polling: Polling { nonblocking, handler_registered: false },
            },
            timeout,
        }
    }

    /// Begins to send bytes to an address.
    pub fn send_to<'a>(
        data: &'a [u8],
        addr: SocketAddr,
        timeout: Option<Duration>,
        nonblocking: bool,
    ) -> (timed: Timed<SocketSenderTo<'a>>)
        ensures
            timed == (Timed {
                request: SocketSenderTo { data, addr, polling: Polling::fresh(nonblocking) },
                timeout,
            }),
    {
        Timed {
            request: SocketSenderTo {
                data,
                addr,
                polling: Polling { nonblocking, handler_registered: false },
            },
            timeout,
        }
    }

    /// Begins to receive bytes from the peer.
    pub fn recv(timeout: Option<Duration>, nonblocking: bool) -> (timed: Timed<SocketReceiver>)
        ensures
            timed == (Timed {
                request: SocketReceiver { polling: Polling::fresh(nonblocking) },
                timeout,
            }),
    {
        Timed {
            request: SocketReceiver { polling: Polling { nonblocking, handler_registered: false } },
            timeout,
        }
    }

    /// Begins to receive a datagram of any sender.
    pub fn recv_from(timeout: Option<Duration>, nonblocking: bool) -> (timed: Timed<
        SocketReceiverFrom,
    >)
        ensures
            timed == (Timed {
                request: SocketReceiverFrom { polling: Polling::fresh(nonblocking) },
                timeout,
            }),
    {
        Timed {
            request: SocketReceiverFrom {
                polling: Polling { nonblocking, handler_registered: false },
            },
            timeout,
        }
    }
}

/// What a request to receive from the peer is told.
#[derive(Debug, PartialEq, Eq)]
pub enum RecvEvent {
    /// It is polled.
    Polled,
    /// The call it asked for received this much.
    Received(Result<usize, NetworkError>),
    /// The call it asked for received a datagram, this much and from this
    /// sender. `peer` is the one that the call named.
    Datagram { peer: SocketAddr, reply: Result<(usize, SocketAddr), NetworkError> },
    /// Setting the handler it asked for has this reply.
    Registered(Result<(), NetworkError>),
}

/// What a datagram means to a socket that only hears its peer: one of another
/// sender is as good as none.
pub open spec fn datagram_of(
    peer: SocketAddr,
    reply: Result<(usize, SocketAddr), NetworkError>,
) -> Result<usize, NetworkError> {
    match reply {
        Ok((amount, sender)) => if sender == peer {
            Ok(amount)
        } else {
            Err(NetworkError::WouldBlock)
        },
        Err(error) => Err(error),
    }
}

impl RecvEvent {
    /// The event, with a datagram of another sender than the peer dropped.
    pub open spec fn heard(self) -> PollEvent<usize> {
        match self {
            RecvEvent::Polled => PollEvent::Polled,
            RecvEvent::Received(reply) => PollEvent::Replied(reply),
            RecvEvent::Datagram { peer, reply } => PollEvent::Replied(datagram_of(peer, reply)),
            RecvEvent::Registered(reply) => PollEvent::Registered(reply),
        }
    }

    /// The event, with a datagram of another sender than the peer dropped.
    fn hear(self) -> (event: PollEvent<usize>)
        ensures
            event == self.heard(),
    {
        match self {
            RecvEvent::Polled => PollEvent::Polled,
            RecvEvent::Received(reply) => PollEvent::Replied(reply),
            RecvEvent::Datagram { peer, reply } => PollEvent::Replied(
                match reply {
                    Ok((amount, sender)) => if sender == peer {
                        Ok(amount)
                    } else {
                        Err(NetworkError::WouldBlock)
                    },
                    Err(error) => Err(error),
                },
            ),
            RecvEvent::Registered(reply) => PollEvent::Registered(reply),
        }
    }
}

impl SocketAccepter {
    /// Handles one event. `T` is what the network gives for a connection.
    pub fn advance<T, N: Backend>(
        &mut self,
        socket: &InodeSocket<N>,
        event: PollEvent<T>,
    ) -> (action: PollAction<AcceptCall, T>)
        ensures
            (final(self).polling, action) == old(self).polling.advanced(
                handler_target(*socket),
                socket.accept_attempt(),
                event,
            ),
            action matches PollAction::Call(call) ==> socket.inner.kind.target() == Some(
                call.target(),
            ),
    {
        let attempt = match &socket.inner.kind {
            InodeSocketKind::TcpListener { .. } => PollAction::Call(AcceptCall::TcpTryAccept),
            InodeSocketKind::PreSocket { .. } => PollAction::Ready(
                Err(SocketError::Errno(Errno::Notconn)),
            ),
            _ => PollAction::Ready(Err(SocketError::Errno(Errno::Notsup))),
        };
        self.polling.advance(socket, attempt, event)
    }
}

impl<'a> SocketSender<'a> {
    /// Handles one event.
    pub fn advance<N: Backend>(
        &mut self,
        socket: &InodeSocket<N>,
        event: PollEvent<usize>,
    ) -> (action: PollAction<SendCall<'a>, usize>)
        ensures
            final(self).data == old(self).data,
            (final(self).polling, action) == old(self).polling.advanced(
                handler_target(*socket),
                socket.send_attempt(old(self).data),
                event,
            ),
            action matches PollAction::Call(call) ==> socket.inner.kind.target() == Some(
                call.target(),
            ),
    {
        let data = self.data;
        let attempt = match &socket.inner.kind {
            InodeSocketKind::Raw(_) => PollAction::Call(SendCall::RawTrySend { data }),
            InodeSocketKind::TcpStream { .. } => PollAction::Call(SendCall::TcpTrySend { data }),
            InodeSocketKind::UdpSocket { peer, .. } => {
                if let Some(peer) = peer {
                    PollAction::Call(SendCall::UdpTrySendTo { data, addr: *peer })
                } else {
                    PollAction::Ready(Err(SocketError::Net(NetworkError::NotConnected)))
                }
            },
            InodeSocketKind::PreSocket { .. } => PollAction::Ready(
                Err(SocketError::Errno(Errno::Notconn)),
            ),
            _ => PollAction::Ready(Err(SocketError::Errno(Errno::Notsup))),
        };
        self.polling.advance(socket, attempt, event)
    }
}

impl<'a> SocketSenderTo<'a> {
    /// Handles one event.
    pub fn advance<N: Backend>(
        &mut self,
        socket: &InodeSocket<N>,
        event: PollEvent<usize>,
    ) -> (action: PollAction<SendCall<'a>, usize>)
        ensures
            final(self).data == old(self).data,
            final(self).addr == old(self).addr,
            (final(self).polling, action) == old(self).polling.advanced(
                handler_target(*socket),
                socket.send_to_attempt(old(self).data, old(self).addr),
                event,
            ),
            action matches PollAction::Call(call) ==> socket.inner.kind.target() == Some(
                call.target(),
            ),
    {
        let data = self.data;
        let addr = self.addr;
        let attempt = match &socket.inner.kind {
            InodeSocketKind::Icmp(_) => PollAction::Call(SendCall::IcmpTrySendTo { data, addr }),
            InodeSocketKind::UdpSocket { .. } => PollAction::Call(
                SendCall::UdpTrySendTo { data, addr },
            ),
            InodeSocketKind::PreSocket { .. } => PollAction::Ready(
                Err(SocketError::Errno(Errno::Notconn)),
            ),
            _ => PollAction::Ready(Err(SocketError::Errno(Errno::Notsup))),
        };
        self.polling.advance(socket, attempt, event)
    }
}

impl SocketReceiver {
    /// Handles one event.
    pub fn advance<N: Backend>(
        &mut self,
        socket: &InodeSocket<N>,
        event: RecvEvent,
    ) -> (action: PollAction<RecvCall, usize>)
        ensures
            (final(self).polling, action) == old(self).polling.advanced(
                handler_target(*socket),
                socket.recv_attempt(),
                event.heard(),
            ),
            action matches PollAction::Call(call) ==> socket.inner.kind.target() == Some(
                call.target(),
            ),
    {
        let attempt = match &socket.inner.kind {
            InodeSocketKind::Raw(_) => PollAction::Call(RecvCall::RawTryRecv),
            InodeSocketKind::TcpStream { .. } => PollAction::Call(RecvCall::TcpTryRecv),
            InodeSocketKind::UdpSocket { peer, .. } => {
                if let Some(peer) = peer {
                    PollAction::Call(RecvCall::UdpTryRecvFrom { peer: *peer })
                } else {
                    PollAction::Ready(Err(SocketError::Net(NetworkError::NotConnected)))
                }
            },
            InodeSocketKind::PreSocket { .. } => PollAction::Ready(
                Err(SocketError::Errno(Errno::Notconn)),
            ),
            _ => PollAction::Ready(Err(SocketError::Errno(Errno::Notsup))),
        };
        self.polling.advance(socket, attempt, event.hear())
    }
}

impl SocketReceiverFrom {
    /// Handles one event.
    pub fn advance<N: Backend>(
        &mut self,
        socket: &InodeSocket<N>,
        event: PollEvent<(usize, SocketAddr)>,
    ) -> (action: PollAction<RecvFromCall, (usize, SocketAddr)>)
        ensures
            (final(self).polling, action) == old(self).polling.advanced(
                handler_target(*socket),
                socket.recv_from_attempt(),
                event,
            ),
            action matches PollAction::Call(call) ==> socket.inner.kind.target() == Some(
                call.target(),
            ),
    {
        let attempt = match &socket.inner.kind {
            InodeSocketKind::Icmp(_) => PollAction::Call(RecvFromCall::IcmpTryRecvFrom),
            InodeSocketKind::UdpSocket { .. } => PollAction::Call(RecvFromCall::UdpTryRecvFrom),
            InodeSocketKind::PreSocket { .. } => PollAction::Ready(
                Err(SocketError::Errno(Errno::Notconn)),
            ),
            _ => PollAction::Ready(Err(SocketError::Errno(Errno::Notsup))),
        };
        self.polling.advance(socket, attempt, event)
    }
}

} // verus!
