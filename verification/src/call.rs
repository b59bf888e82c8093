//! The calls that the library asks to be made on the network.
use crate::addr::{Ipv4Addr, Ipv6Addr, Shutdown, SocketAddr};
use crate::error::{answer, answered, Errno, NetworkError, SocketError};
use crate::kind::SocketTarget;
use std::time::Duration;
use vstd::prelude::*;

verus! {

/// What a request leads to.
#[derive(Debug, PartialEq, Eq)]
pub enum Step<C, T> {
    /// The request is answered; the network is not asked.
    Done(Result<T, Errno>),
    /// The call has to be made on the network; its reply decides the answer.
    Call(C),
}

impl<C, T> Step<C, T> {
    /// The request is answered with this value.
    pub open spec fn answers(self, value: T) -> bool {
        self == Self::Done(Ok(value))
    }

    /// The request is refused with this code.
    pub open spec fn refuses(self, errno: Errno) -> bool {
        self == refused::<C, T>(errno)
    }

    /// Ends the request. `ask` makes the call, if there is one to make, and
    /// its reply is then the answer to the guest.
    pub fn finish<F: FnOnce(C) -> Result<T, NetworkError>>(self, ask: F) -> (answer: Result<
        T,
        SocketError,
    >)
        requires
            self matches Step::Call(call) ==> ask.requires((call,)),
        ensures
            match self {
                Step::Done(Ok(value)) => answer == Ok::<T, SocketError>(value),
                Step::Done(Err(errno)) => answer == Err::<T, SocketError>(
                    SocketError::Errno(errno),
                ),
                Step::Call(call) => exists|reply: Result<T, NetworkError>|
                    #[trigger] ask.ensures((call,), reply) && answer == answered(reply),
            },
    {
        match self {
            Step::Done(Ok(value)) => Ok(value),
            Step::Done(Err(errno)) => Err(SocketError::Errno(errno)),
            Step::Call(call) => answer(ask(call)),
        }
    }
}

/// The request is refused with an error code.
pub open spec fn refused<C, T>(errno: Errno) -> Step<C, T> {
    Step::Done(Err(errno))
}

/// How waiting for the network ended.
#[derive(Debug, PartialEq, Eq)]
pub enum Race<T> {
    /// The wait ended with a result.
    Finished(T),
    /// The timeout elapsed first.
    Elapsed,
}

/// The answer to the guest when a request with a result of its own was raced
/// against a timeout.
pub open spec fn settled<T>(race: Race<Result<T, SocketError>>) -> Result<T, SocketError> {
    match race {
        Race::Finished(result) => result,
        Race::Elapsed => Err(SocketError::Errno(Errno::Timedout)),
    }
}

/// A network reply that was raced against a timeout, as the answer to the guest.
pub open spec fn raced<T>(race: Race<Result<T, NetworkError>>) -> Result<T, SocketError> {
    match race {
        Race::Finished(reply) => answered(reply),
        Race::Elapsed => Err(SocketError::Errno(Errno::Timedout)),
    }
}

impl<T> Race<Result<T, SocketError>> {
    /// The answer to the guest: the result, or that the request timed out.
    pub fn settle(self) -> (answer: Result<T, SocketError>)
        ensures
            answer == settled(self),
    {
        match self {
            Race::Finished(result) => result,
            Race::Elapsed => Err(SocketError::Errno(Errno::Timedout)),
        }
    }
}

/// The calls that change an open socket and reply with nothing but success.
#[derive(Debug, Clone, Copy, PartialEq, Eq)]
#[allow(inconsistent_fields)]
pub enum SettingCall {
    TcpClose,
    TcpShutdown(Shutdown),
    TcpSetNoDelay(bool),
    TcpSetSendBufSize(usize),
    TcpSetRecvBufSize(usize),
    TcpSetLinger(Option<Duration>),
    TcpSetTtl(u32),
    RawSetPromiscuous(bool),
    UdpSetBroadcast(bool),
    UdpSetMulticastLoopV4(bool),
    UdpSetMulticastLoopV6(bool),
    UdpSetTtl(u32),
    UdpSetMulticastTtlV4(u32),
    UdpJoinMulticastV4 { multiaddr: Ipv4Addr, iface: Ipv4Addr },
    UdpLeaveMulticastV4 { multiaddr: Ipv4Addr, iface: Ipv4Addr },
    UdpJoinMulticastV6 { multiaddr: Ipv6Addr, iface: u32 },
    UdpLeaveMulticastV6 { multiaddr: Ipv6Addr, iface: u32 },
}

impl SettingCall {
    /// The kind of socket that the call is made on.
    pub open spec fn target(self) -> SocketTarget {
        match self {
            SettingCall::RawSetPromiscuous(_) => SocketTarget::Raw,
            SettingCall::TcpClose
            | SettingCall::TcpShutdown(_)
            | SettingCall::TcpSetNoDelay(_)
            | SettingCall::TcpSetSendBufSize(_)
            | SettingCall::TcpSetRecvBufSize(_)
            | SettingCall::TcpSetLinger(_)
            | SettingCall::TcpSetTtl(_) => SocketTarget::TcpStream,
            _ => SocketTarget::UdpSocket,
        }
    }
}

/// The calls that read a flag of an open socket.
#[derive(Debug, Clone, Copy, PartialEq, Eq, Structural)]
pub enum FlagCall {
    TcpNoDelay,
    RawPromiscuous,
    UdpBroadcast,
    UdpMulticastLoopV4,
    UdpMulticastLoopV6,
}

impl FlagCall {
    /// The kind of socket that the call is made on.
    pub open spec fn target(self) -> SocketTarget {
        match self {
            FlagCall::TcpNoDelay => SocketTarget::TcpStream,
            FlagCall::RawPromiscuous => SocketTarget::Raw,
            _ => SocketTarget::UdpSocket,
        }
    }
}

/// The calls that read the size of a buffer of an open socket.
#[derive(Debug, Clone, Copy, PartialEq, Eq, Structural)]
pub enum SizeCall {
    TcpSendBufSize,
    TcpRecvBufSize,
}

impl SizeCall {
    /// The kind of socket that the call is made on.
    pub open spec fn target(self) -> SocketTarget {
        SocketTarget::TcpStream
    }
}

/// The calls that read a time to live of an open socket.
#[derive(Debug, Clone, Copy, PartialEq, Eq, Structural)]
pub enum TtlCall {
    TcpTtl,
    UdpTtl,
    UdpMulticastTtlV4,
}

impl TtlCall {
    /// The kind of socket that the call is made on.
    pub open spec fn target(self) -> SocketTarget {
        match self {
            TtlCall::TcpTtl => SocketTarget::TcpStream,
            _ => SocketTarget::UdpSocket,
        }
    }
}

/// The call that reads how long an open socket lingers.
#[derive(Debug, Clone, Copy, PartialEq, Eq, Structural)]
pub enum LingerCall {
    TcpLinger,
}

impl LingerCall {
    /// The kind of socket that the call is made on.
    pub open spec fn target(self) -> SocketTarget {
        SocketTarget::TcpStream
    }
}

/// The calls that read the local address of an open socket.
#[derive(Debug, Clone, Copy, PartialEq, Eq, Structural)]
pub enum LocalAddrCall {
    IcmpAddrLocal,
    TcpListenerAddrLocal,
    TcpAddrLocal,
    UdpAddrLocal,
}

impl LocalAddrCall {
    /// The kind of socket that the call is made on.
    pub open spec fn target(self) -> SocketTarget {
        match self {
            LocalAddrCall::IcmpAddrLocal => SocketTarget::Icmp,
            LocalAddrCall::TcpListenerAddrLocal => SocketTarget::TcpListener,
            LocalAddrCall::TcpAddrLocal => SocketTarget::TcpStream,
            LocalAddrCall::UdpAddrLocal => SocketTarget::UdpSocket,
        }
    }
}

/// The calls that read the address of the peer of an open socket.
#[derive(Debug, Clone, Copy, PartialEq, Eq, Structural)]
pub enum PeerAddrCall {
    /// The reply is the answer.
    TcpAddrPeer,
    /// The socket may have no peer: the reply goes to `InodeSocket::udp_peer`.
    UdpAddrPeer,
}

impl PeerAddrCall {
    /// The kind of socket that the call is made on.
    pub open spec fn target(self) -> SocketTarget {
        match self {
            PeerAddrCall::TcpAddrPeer => SocketTarget::TcpStream,
            PeerAddrCall::UdpAddrPeer => SocketTarget::UdpSocket,
        }
    }
}

/// The calls that send bytes; each hands all of `data` to the socket.
#[derive(Debug, Clone, Copy, PartialEq, Eq)]
pub enum SendCall<'a> {
    RawTrySend { data: &'a [u8] },
    TcpTrySend { data: &'a [u8] },
    UdpTrySendTo { data: &'a [u8], addr: SocketAddr },
    IcmpTrySendTo { data: &'a [u8], addr: SocketAddr },
}

impl<'a> SendCall<'a> {
    /// The kind of socket that the call is made on.
    pub open spec fn target(self) -> SocketTarget {
        match self {
            SendCall::RawTrySend { .. } => SocketTarget::Raw,
            SendCall::TcpTrySend { .. } => SocketTarget::TcpStream,
            SendCall::UdpTrySendTo { .. } => SocketTarget::UdpSocket,
            SendCall::IcmpTrySendTo { .. } => SocketTarget::Icmp,
        }
    }
}

/// The calls that receive bytes into the guest's buffer.
#[derive(Debug, Clone, Copy, PartialEq, Eq, Structural)]
pub enum RecvCall {
    RawTryRecv,
    TcpTryRecv,
    /// Only a datagram of this peer counts: the reply is handed back as
    /// `RecvEvent::Datagram`, with the peer.
    UdpTryRecvFrom { peer: SocketAddr },
}

impl RecvCall {
    /// The kind of socket that the call is made on.
    pub open spec fn target(self) -> SocketTarget {
        match self {
            RecvCall::RawTryRecv => SocketTarget::Raw,
            RecvCall::TcpTryRecv => SocketTarget::TcpStream,
            RecvCall::UdpTryRecvFrom { .. } => SocketTarget::UdpSocket,
        }
    }
}

/// The calls that receive a datagram of any sender into the guest's buffer.
#[derive(Debug, Clone, Copy, PartialEq, Eq, Structural)]
pub enum RecvFromCall {
    IcmpTryRecvFrom,
    UdpTryRecvFrom,
}

impl RecvFromCall {
    /// The kind of socket that the call is made on.
    pub open spec fn target(self) -> SocketTarget {
        match self {
            RecvFromCall::IcmpTryRecvFrom => SocketTarget::Icmp,
            RecvFromCall::UdpTryRecvFrom => SocketTarget::UdpSocket,
        }
    }
}

/// The call that takes a connection from a listener.
#[derive(Debug, Clone, Copy, PartialEq, Eq, Structural)]
pub enum AcceptCall {
    TcpTryAccept,
}

impl AcceptCall {
    /// The kind of socket that the call is made on.
    pub open spec fn target(self) -> SocketTarget {
        SocketTarget::TcpListener
    }
}

/// Opens a UDP socket; `timeout` bounds the wait for it.
#[derive(Debug, Clone, Copy, PartialEq, Eq)]
pub struct BindUdp {
    pub addr: SocketAddr,
    pub reuse_port: bool,
    pub reuse_addr: bool,
    pub timeout: Duration,
}

/// Opens a TCP listener; `timeout` bounds the wait for it.
#[derive(Debug, Clone, Copy, PartialEq, Eq)]
pub struct ListenTcp {
    pub addr: SocketAddr,
    pub only_v6: bool,
    pub reuse_port: bool,
    pub reuse_addr: bool,
    pub timeout: Duration,
}

/// Opens a TCP stream from `addr` to `peer`; `timeout` bounds the wait for it.
/// The stream takes over the two other timeouts.
#[derive(Debug, Clone, Copy, PartialEq, Eq)]
pub struct ConnectTcp {
    pub addr: SocketAddr,
    pub peer: SocketAddr,
    pub timeout: Duration,
    pub write_timeout: Option<Duration>,
    pub read_timeout: Option<Duration>,
}

} // verus!
