//! The socket layer of a WASIX runtime: what a socket of the guest remembers,
//! which calls of the virtual network each guest request leads to, and what
//! the guest is answered for every reply of the network.
//!
//! The library decides and remembers; it performs no input or output. A
//! request either is answered at once or names the call that has to be made
//! on the network, and the reply to that call is handed back to the library.
pub mod addr;
pub mod call;
pub mod error;
pub mod handler;
pub mod kind;
pub mod laws;
pub mod options;
pub mod poll;
pub mod rights;
pub mod settings;
pub mod socket;
pub mod time;
pub mod types;

pub use addr::{IpAddr, Ipv4Addr, Ipv6Addr, Shutdown, SocketAddr, SocketAddrV4, SocketAddrV6};
pub use call::{
    AcceptCall, BindUdp, ConnectTcp, FlagCall, LingerCall, ListenTcp, LocalAddrCall, PeerAddrCall,
    Race, RecvCall, RecvFromCall, SendCall, SettingCall, SizeCall, Step, TtlCall,
};
pub use error::{answer, Errno, NetworkError, SocketError};
pub use handler::InterestType;
pub use kind::{
    AddHandlerStep, Backend, InodeSocketKind, InodeSocketNotifications, InodeSocketProtected,
    SocketTarget,
};
pub use poll::{
    PollAction, PollEvent, Polling, RecvEvent, SocketAccepter, SocketReceiver, SocketReceiverFrom,
    SocketSender, SocketSenderTo, Timed,
};
pub use rights::all_socket_rights;
pub use socket::{InodeSocket, UdpPeerStep};
pub use types::{
    Addressfamily, InodeHttpSocketType, Sockoption, Socktype, TimeType, WasiSocketOption,
    WasiSocketStatus,
};
