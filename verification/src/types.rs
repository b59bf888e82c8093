//! The enumerations of the socket interface.
use vstd::prelude::*;
use vstd::std_specs::convert::FromSpecImpl;

verus! {

/// What an HTTP socket is used for.
#[derive(Debug, Clone, Copy, PartialEq, Eq, Structural)]
pub enum InodeHttpSocketType {
    /// Used to feed the bytes into the request itself.
    Request,
    /// Used to receive the bytes from the HTTP server.
    Response,
    /// Used to read the headers from the HTTP server.
    Headers,
}

/// The address family that the guest opened a socket with.
#[derive(Debug, Clone, Copy, PartialEq, Eq, Structural)]
pub enum Addressfamily {
    Unspec,
    Inet4,
    Inet6,
    Unix,
}

/// The type that the guest opened a socket with.
#[derive(Debug, Clone, Copy, PartialEq, Eq, Structural)]
pub enum Socktype {
    Unknown,
    Stream,
    Dgram,
    Raw,
    Seqpacket,
}

/// The socket options as the guest names them.
#[derive(Debug, Clone, Copy, PartialEq, Eq, Structural)]
pub enum Sockoption {
    Noop,
    ReusePort,
    ReuseAddr,
    NoDelay,
    DontRoute,
    OnlyV6,
    Broadcast,
    MulticastLoopV4,
    MulticastLoopV6,
    Promiscuous,
    Listening,
    LastError,
    KeepAlive,
    Linger,
    OobInline,
    RecvBufSize,
    SendBufSize,
    RecvLowat,
    SendLowat,
    RecvTimeout,
    SendTimeout,
    ConnectTimeout,
    AcceptTimeout,
    Ttl,
    MulticastTtlV4,
    Type,
    Proto,
}

/// The socket options as the socket layer names them.
#[derive(Debug, Clone, Copy, PartialEq, Eq, Structural)]
pub enum WasiSocketOption {
    Noop,
    ReusePort,
    ReuseAddr,
    NoDelay,
    DontRoute,
    OnlyV6,
    Broadcast,
    MulticastLoopV4,
    MulticastLoopV6,
    Promiscuous,
    Listening,
    LastError,
    KeepAlive,
    Linger,
    OobInline,
    RecvBufSize,
    SendBufSize,
    RecvLowat,
    SendLowat,
    RecvTimeout,
    SendTimeout,
    ConnectTimeout,
    AcceptTimeout,
    Ttl,
    MulticastTtlV4,
    Type,
    Proto,
}

/// The option of the socket layer that carries the guest's name for it.
pub open spec fn option_named(opt: Sockoption) -> WasiSocketOption {
    match opt {
        Sockoption::Noop => WasiSocketOption::Noop,
        Sockoption::ReusePort => WasiSocketOption::ReusePort,
        Sockoption::ReuseAddr => WasiSocketOption::ReuseAddr,
        Sockoption::NoDelay => WasiSocketOption::NoDelay,
        Sockoption::DontRoute => WasiSocketOption::DontRoute,
        Sockoption::OnlyV6 => WasiSocketOption::OnlyV6,
        Sockoption::Broadcast => WasiSocketOption::Broadcast,
        Sockoption::MulticastLoopV4 => WasiSocketOption::MulticastLoopV4,
        Sockoption::MulticastLoopV6 => WasiSocketOption::MulticastLoopV6,
        Sockoption::Promiscuous => WasiSocketOption::Promiscuous,
        Sockoption::Listening => WasiSocketOption::Listening,
        Sockoption::LastError => WasiSocketOption::LastError,
        Sockoption::KeepAlive => WasiSocketOption::KeepAlive,
        Sockoption::Linger => WasiSocketOption::Linger,
        Sockoption::OobInline => WasiSocketOption::OobInline,
        Sockoption::RecvBufSize => WasiSocketOption::RecvBufSize,
        Sockoption::SendBufSize => WasiSocketOption::SendBufSize,
        Sockoption::RecvLowat => WasiSocketOption::RecvLowat,
        Sockoption::SendLowat => WasiSocketOption::SendLowat,
        Sockoption::RecvTimeout => WasiSocketOption::RecvTimeout,
        Sockoption::SendTimeout => WasiSocketOption::SendTimeout,
        Sockoption::ConnectTimeout => WasiSocketOption::ConnectTimeout,
        Sockoption::AcceptTimeout => WasiSocketOption::AcceptTimeout,
        Sockoption::Ttl => WasiSocketOption::Ttl,
        Sockoption::MulticastTtlV4 => WasiSocketOption::MulticastTtlV4,
        Sockoption::Type => WasiSocketOption::Type,
        Sockoption::Proto => WasiSocketOption::Proto,
    }
}

impl From<Sockoption> for WasiSocketOption {
    fn from(opt: Sockoption) -> (option: WasiSocketOption) {
        match opt {
            Sockoption::Noop => WasiSocketOption::Noop,
            Sockoption::ReusePort => WasiSocketOption::ReusePort,
            Sockoption::ReuseAddr => WasiSocketOption::ReuseAddr,
            Sockoption::NoDelay => WasiSocketOption::NoDelay,
            Sockoption::DontRoute => WasiSocketOption::DontRoute,
            Sockoption::OnlyV6 => WasiSocketOption::OnlyV6,
            Sockoption::Broadcast => WasiSocketOption::Broadcast,
            Sockoption::MulticastLoopV4 => WasiSocketOption::MulticastLoopV4,
            Sockoption::MulticastLoopV6 => WasiSocketOption::MulticastLoopV6,
            Sockoption::Promiscuous => WasiSocketOption::Promiscuous,
            Sockoption::Listening => WasiSocketOption::Listening,
            Sockoption::LastError => WasiSocketOption::LastError,
            Sockoption::KeepAlive => WasiSocketOption::KeepAlive,
            Sockoption::Linger => WasiSocketOption::Linger,
            Sockoption::OobInline => WasiSocketOption::OobInline,
            Sockoption::RecvBufSize => WasiSocketOption::RecvBufSize,
            Sockoption::SendBufSize => WasiSocketOption::SendBufSize,
            Sockoption::RecvLowat => WasiSocketOption::RecvLowat,
            Sockoption::SendLowat => WasiSocketOption::SendLowat,
            Sockoption::RecvTimeout => WasiSocketOption::RecvTimeout,
            Sockoption::SendTimeout => WasiSocketOption::SendTimeout,
            Sockoption::ConnectTimeout => WasiSocketOption::ConnectTimeout,
            Sockoption::AcceptTimeout => WasiSocketOption::AcceptTimeout,
            Sockoption::Ttl => WasiSocketOption::Ttl,
            Sockoption::MulticastTtlV4 => WasiSocketOption::MulticastTtlV4,
            Sockoption::Type => WasiSocketOption::Type,
            Sockoption::Proto => WasiSocketOption::Proto,
        }
    }
}

impl FromSpecImpl<Sockoption> for WasiSocketOption {
    open spec fn obeys_from_spec() -> bool {
        true
    }

    open spec fn from_spec(opt: Sockoption) -> WasiSocketOption {
        option_named(opt)
    }
}

/// How far a socket has come.
#[derive(Debug, Clone, Copy, PartialEq, Eq, Structural)]
pub enum WasiSocketStatus {
    Opening,
    Opened,
    Closed,
    Failed,
}

/// The timeouts of a socket.
#[derive(Debug, Clone, Copy, PartialEq, Eq, Structural)]
pub enum TimeType {
    ReadTimeout,
    WriteTimeout,
    AcceptTimeout,
    ConnectTimeout,
    BindTimeout,
    Linger,
}

} // verus!
