//! What binding, listening, connecting and the address requests promise, field
//! by field.
use crate::addr::SocketAddr;
use crate::call::{raced, settled, LocalAddrCall, PeerAddrCall, Race, SettingCall, Step};
use crate::error::{answered, Errno, NetworkError, SocketError};
use crate::handler::{seen_interests, InterestType};
use crate::kind::{Backend, InodeSocketKind};
use crate::poll::PollAction;
use crate::socket::{unspecified_of, InodeSocket};
use crate::time::{default_timeout_spec, duration_of_secs};
use crate::types::{Addressfamily, WasiSocketStatus};
use std::time::Duration;
use vstd::prelude::*;

verus! {

/// Whether an address belongs to a family.
pub open spec fn of_family(addr: SocketAddr, family: Addressfamily) -> bool {
    (family is Inet4 && addr is V4) || (family is Inet6 && addr is V6)
}

/// Whether an address names no interface and no port.
pub open spec fn names_nothing(addr: SocketAddr) -> bool {
    match addr {
        SocketAddr::V4(v4) => v4.ip.bits == 0 && v4.port == 0,
        SocketAddr::V6(v6) => v6.ip.bits == 0 && v6.port == 0 && v6.flowinfo == 0 && v6.scope_id
            == 0,
    }
}

/// Whether a timeout is the one that was chosen, or thirty seconds if none was.
pub open spec fn chosen_or_thirty_seconds(timeout: Duration, chosen: Option<Duration>) -> bool {
    match chosen {
        Some(chosen) => timeout == chosen,
        None => timeout == duration_of_secs(30),
    }
}

/// A bind that asks the network opens a UDP socket at the very address that it
/// was given, with the flags that the socket remembers, and waits thirty
/// seconds. Exactly the datagram sockets whose family has the address ask.
pub proof fn law_bind_opens_where_it_was_asked<N: Backend>(
    socket: InodeSocket<N>,
    set_addr: SocketAddr,
)
    ensures
        socket.bind_outcome(set_addr).1 matches Step::Call(call) ==> {
            &&& call.addr == set_addr
            &&& call.timeout == duration_of_secs(30)
            &&& socket.inner.kind matches InodeSocketKind::PreSocket {
                family,
                ty,
                reuse_port,
                reuse_addr,
                ..
            }
            &&& ty is Dgram
            &&& of_family(set_addr, family)
            &&& call.reuse_port == reuse_port
            &&& call.reuse_addr == reuse_addr
        },
        socket.inner.kind matches InodeSocketKind::PreSocket { family, ty, .. } ==> (ty is Dgram
            && of_family(set_addr, family) ==> socket.bind_outcome(set_addr).1 is Call),
{
}

/// A bind that does not ask the network is granted exactly to stream sockets
/// whose family has the address. Sockets that are open, or of a family that is
/// not an internet one, do not support it; every other bind is invalid.
pub proof fn law_bind_answers<N: Backend>(socket: InodeSocket<N>, set_addr: SocketAddr)
    ensures
        socket.bind_outcome(set_addr).1 matches Step::Done(answer) ==> {
            let granted = socket.inner.kind matches InodeSocketKind::PreSocket { family, ty, .. }
                && ty is Stream && of_family(set_addr, family);
            let supported = socket.inner.kind matches InodeSocketKind::PreSocket { family, .. } && (
            family is Inet4 || family is Inet6);
            &&& granted <==> answer is Ok
            &&& (answer matches Ok(opened) ==> opened is None)
            &&& (answer matches Err(errno) ==> errno == if supported {
                Errno::Inval
            } else {
                Errno::Notsup
            })
        },
{
}

/// After a bind the socket has the address if its family has it, and is what it
/// was otherwise. Nothing else about it changes.
pub proof fn law_bind_remembers_the_address<N: Backend>(
    socket: InodeSocket<N>,
    set_addr: SocketAddr,
)
    ensures
        ({
            let after = socket.bind_outcome(set_addr).0;
            let fits = socket.inner.kind matches InodeSocketKind::PreSocket { family, .. }
                && of_family(set_addr, family);
            &&& !fits ==> after == socket
            &&& fits ==> {
                &&& after.inner.kind matches InodeSocketKind::PreSocket { addr, .. }
                &&& addr == Some(set_addr)
                &&& same_settings_but_address(socket.inner.kind, after.inner.kind)
                &&& after.inner.notifications == socket.inner.notifications
                &&& after.inner.aggregate_handler == socket.inner.aggregate_handler
                &&& after.inner.handler_state == socket.inner.handler_state
            }
        }),
{
}

/// Whether two sockets that are not open have the same settings, apart from the
/// address.
pub open spec fn same_settings_but_address<N: Backend>(
    left: InodeSocketKind<N>,
    right: InodeSocketKind<N>,
) -> bool {
    &&& left is PreSocket
    &&& right is PreSocket
    &&& left->family == right->family
    &&& left->ty == right->ty
    &&& left->pt == right->pt
    &&& left->only_v6 == right->only_v6
    &&& left->reuse_port == right->reuse_port
    &&& left->reuse_addr == right->reuse_addr
    &&& left->send_buf_size == right->send_buf_size
    &&& left->recv_buf_size == right->recv_buf_size
    &&& left->PreSocket_write_timeout == right->PreSocket_write_timeout
    &&& left->PreSocket_read_timeout == right->PreSocket_read_timeout
    &&& left->PreSocket_accept_timeout == right->PreSocket_accept_timeout
    &&& left->connect_timeout == right->connect_timeout
}

/// A listen that asks the network opens a listener at the address that the
/// socket was bound to, with the flags that it remembers, and waits for as long
/// as accepting may take. Exactly the stream sockets that were bound ask.
pub proof fn law_listen_opens_where_it_was_bound<N: Backend>(socket: InodeSocket<N>)
    ensures
        socket.listen_outcome() matches Step::Call(call) ==> {
            &&& socket.inner.kind matches InodeSocketKind::PreSocket {
                ty,
                addr,
                only_v6,
                reuse_port,
                reuse_addr,
                accept_timeout,
                ..
            }
            &&& ty is Stream
            &&& addr == Some(call.addr)
            &&& call.only_v6 == only_v6
            &&& call.reuse_port == reuse_port
            &&& call.reuse_addr == reuse_addr
            &&& chosen_or_thirty_seconds(call.timeout, accept_timeout)
        },
        socket.inner.kind matches InodeSocketKind::PreSocket { ty, addr, .. } ==> (ty is Stream
            && addr is Some ==> socket.listen_outcome() is Call),
        socket.listen_outcome() matches Step::Done(answer) ==> {
            let stream = socket.inner.kind matches InodeSocketKind::PreSocket { ty, .. } && ty
                is Stream;
            &&& answer matches Err(errno)
            &&& errno == if stream {
                Errno::Inval
            } else {
                Errno::Notsup
            }
        },
{
}

/// A connect that asks the network opens a stream to the very peer that it was
/// given, from the address that the socket was bound to, or else from no
/// particular address of the peer's family. It waits for as long as it was told,
/// and the stream gets the timeouts that the socket remembers. Exactly the stream
/// sockets that are not open ask, whatever their family.
pub proof fn law_connect_reaches_the_peer<N: Backend>(
    socket: InodeSocket<N>,
    peer: SocketAddr,
    timeout: Option<Duration>,
)
    ensures
        socket.connect_outcome(peer, timeout).1 matches Step::Call(call) ==> {
            &&& call.peer == peer
            &&& chosen_or_thirty_seconds(call.timeout, timeout)
            &&& socket.inner.kind matches InodeSocketKind::PreSocket {
                ty,
                addr,
                write_timeout,
                read_timeout,
                ..
            }
            &&& ty is Stream
            &&& addr is Some ==> call.addr == addr->0
            &&& addr is None ==> names_nothing(call.addr) && (call.addr is V4 <==> peer is V4)
            &&& call.write_timeout == write_timeout
            &&& call.read_timeout == read_timeout
        },
        socket.inner.kind matches InodeSocketKind::PreSocket { ty, .. } ==> (ty is Stream
            ==> socket.connect_outcome(peer, timeout).1 is Call),
{
}

/// A connect that does not ask the network is granted exactly to UDP sockets,
/// which then have the peer and nothing else new. Connecting a datagram socket
/// that is not open is invalid, and no other socket supports it.
pub proof fn law_connect_answers<N: Backend>(
    socket: InodeSocket<N>,
    peer: SocketAddr,
    timeout: Option<Duration>,
)
    ensures
        socket.connect_outcome(peer, timeout).1 matches Step::Done(answer) ==> {
            let datagrams = socket.inner.kind matches InodeSocketKind::PreSocket { ty, .. } && ty
                is Dgram;
            &&& socket.inner.kind is UdpSocket <==> answer is Ok
            &&& (answer matches Ok(opened) ==> opened is None)
            &&& (answer matches Err(errno) ==> errno == if datagrams {
                Errno::Inval
            } else {
                Errno::Notsup
            })
        },
        ({
            let after = socket.connect_outcome(peer, timeout).0;
            &&& !(socket.inner.kind is UdpSocket) ==> after == socket
            &&& socket.inner.kind is UdpSocket ==> {
                &&& after.inner.kind is UdpSocket
                &&& after.inner.kind->peer == Some(peer)
                &&& after.inner.kind->UdpSocket_socket == socket.inner.kind->UdpSocket_socket
                &&& after.inner.notifications == socket.inner.notifications
                &&& after.inner.aggregate_handler == socket.inner.aggregate_handler
                &&& after.inner.handler_state == socket.inner.handler_state
            }
        }),
{
}

/// The reply of the network is the answer, and a request that ran out of time
/// has timed out: nothing is answered that the network did not reply.
pub proof fn law_replies_are_answers<T>(
    reply: Result<T, NetworkError>,
    result: Result<T, SocketError>,
)
    ensures
        raced(Race::Finished(reply)) == answered(reply),
        raced(Race::<Result<T, NetworkError>>::Elapsed) == Err::<T, SocketError>(
            SocketError::Errno(Errno::Timedout),
        ),
        settled(Race::Finished(result)) == result,
        settled(Race::<Result<T, SocketError>>::Elapsed) == Err::<T, SocketError>(
            SocketError::Errno(Errno::Timedout),
        ),
        reply is Ok <==> answered(reply) is Ok,
        reply matches Ok(value) ==> answered(reply)->Ok_0 == value,
        reply matches Err(error) ==> answered(reply)->Err_0 == SocketError::Net(error),
{
}

/// A new socket is of the kind that it was made of; nothing happened to it and
/// nobody waits for it. A stream, and no other, counts as writable from the
/// start.
pub proof fn law_new_sockets<N: Backend>(socket: InodeSocket<N>, kind: InodeSocketKind<N>)
    requires
        socket.is_new(kind),
    ensures
        socket.inner.kind == kind,
        !socket.inner.notifications.closed,
        !socket.inner.notifications.failed,
        socket.inner.aggregate_handler is None,
        forall|interest: InterestType|
            #[trigger] seen_interests(socket.inner.handler_state).contains(interest) <==> kind
                is TcpStream && interest is Writable,
{
}

/// Every listener accepts, however it was opened and whatever its timeout, and
/// every stream sends all that it is given, receives, and knows its addresses.
pub proof fn law_opened_sockets_work<'a, T, N: Backend>(
    listener: InodeSocket<N>,
    stream: InodeSocket<N>,
    open_listener: N::TcpListener,
    open_stream: N::TcpStream,
    accept_timeout: Option<Duration>,
    write_timeout: Option<Duration>,
    read_timeout: Option<Duration>,
    data: &'a [u8],
)
    requires
        listener.is_new(InodeSocketKind::TcpListener { socket: open_listener, accept_timeout }),
        stream.is_new(
            InodeSocketKind::TcpStream { socket: open_stream, write_timeout, read_timeout },
        ),
    ensures
        listener.accept_attempt::<T>() is Call,
        listener.addr_local_outcome() is Call,
        listener.status_value() is Opened,
        stream.status_value() is Opened,
        stream.send_attempt(data) matches PollAction::Call(call) && call->TcpTrySend_data == data,
        stream.recv_attempt() is Call,
        stream.addr_local_outcome() is Call,
        stream.addr_peer_outcome() is Call,
        stream.close_outcome() is Call,
{
}

/// Only a TCP stream is closed on the network; every other open socket closes
/// without it, and a socket that is not open cannot be closed.
pub proof fn law_close_answers<N: Backend>(socket: InodeSocket<N>)
    ensures
        socket.close_outcome() matches Step::Call(call) ==> socket.inner.kind is TcpStream && call
            == SettingCall::TcpClose,
        socket.inner.kind is TcpStream ==> socket.close_outcome() is Call,
        socket.close_outcome() matches Step::Done(answer) ==> {
            &&& answer is Err <==> socket.inner.kind is PreSocket
            &&& (answer matches Err(errno) ==> errno == Errno::Notconn)
        },
{
}

/// A socket is opening until it is open; ICMP and raw sockets count as failed,
/// and no socket counts as closed.
pub proof fn law_status_follows_the_kind<N: Backend>(socket: InodeSocket<N>)
    ensures
        socket.status_value() == WasiSocketStatus::Opening <==> socket.inner.kind is PreSocket,
        socket.status_value() == WasiSocketStatus::Failed <==> socket.inner.kind is Icmp
            || socket.inner.kind is Raw,
        socket.status_value() != WasiSocketStatus::Closed,
{
}

/// The local address of a socket that is not open is the one that it was bound
/// to, or else one of its family that names nothing. An open socket is asked for
/// its own local address; only raw sockets have none.
pub proof fn law_local_address<N: Backend>(socket: InodeSocket<N>)
    ensures
        socket.inner.kind matches InodeSocketKind::PreSocket { family, addr, .. } ==> {
            &&& socket.addr_local_outcome() matches Step::Done(answer)
            &&& addr is Some ==> answer == Ok::<SocketAddr, Errno>(addr->0)
            &&& addr is None ==> {
                &&& answer is Ok <==> family is Inet4 || family is Inet6
                &&& (answer matches Ok(local) ==> names_nothing(local) && of_family(local, family))
                &&& (answer matches Err(errno) ==> errno == Errno::Inval)
            }
        },
        socket.addr_local_outcome() matches Step::Call(call) ==> {
            &&& socket.inner.kind is Icmp <==> call == LocalAddrCall::IcmpAddrLocal
            &&& socket.inner.kind is TcpListener <==> call == LocalAddrCall::TcpListenerAddrLocal
            &&& socket.inner.kind is TcpStream <==> call == LocalAddrCall::TcpAddrLocal
            &&& socket.inner.kind is UdpSocket <==> call == LocalAddrCall::UdpAddrLocal
        },
        socket.addr_local_outcome() is Call <==> !(socket.inner.kind is PreSocket)
            && !(socket.inner.kind is Raw),
        socket.inner.kind is Raw ==> socket.addr_local_outcome().refuses(Errno::Notsup),
{
}

/// The peer of a socket that is not open is an address of its family that names
/// nothing, even if the socket was bound. Streams and UDP sockets are asked for
/// theirs, and no other socket has one.
pub proof fn law_peer_address<N: Backend>(socket: InodeSocket<N>)
    ensures
        socket.inner.kind matches InodeSocketKind::PreSocket { family, .. } ==> {
            &&& socket.addr_peer_outcome() matches Step::Done(answer)
            &&& answer is Ok <==> family is Inet4 || family is Inet6
            &&& (answer matches Ok(peer) ==> names_nothing(peer) && of_family(peer, family))
            &&& (answer matches Err(errno) ==> errno == Errno::Inval)
        },
        socket.addr_peer_outcome() matches Step::Call(call) ==> {
            &&& socket.inner.kind is TcpStream <==> call == PeerAddrCall::TcpAddrPeer
            &&& socket.inner.kind is UdpSocket <==> call == PeerAddrCall::UdpAddrPeer
        },
        socket.addr_peer_outcome() is Call <==> socket.inner.kind is TcpStream
            || socket.inner.kind is UdpSocket,
        socket.inner.kind is Icmp || socket.inner.kind is Raw || socket.inner.kind is TcpListener
            ==> socket.addr_peer_outcome().refuses(Errno::Notsup),
{
}

/// The address that stands in for one that is missing is of the same family and
/// names nothing.
pub proof fn law_stand_in_addresses(addr: SocketAddr, family: Addressfamily)
    ensures
        names_nothing(crate::addr::unspecified_like(addr)),
        crate::addr::unspecified_like(addr) is V4 <==> addr is V4,
        unspecified_of(family) is Some <==> family is Inet4 || family is Inet6,
        unspecified_of(family) matches Some(any) ==> names_nothing(any) && of_family(any, family),
        default_timeout_spec() == duration_of_secs(30),
{
}

} // verus!
