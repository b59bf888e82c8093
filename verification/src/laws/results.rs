//! What the executable functions give back, said of their results themselves.
use crate::addr::{IpAddr, Ipv4Addr, Ipv6Addr, SocketAddr};
use crate::call::{
    BindUdp, ConnectTcp, LingerCall, ListenTcp, Race, SettingCall, Step, TtlCall,
};
use crate::error::{answer, Errno, NetworkError, SocketError};
use crate::handler::{subscribers_of, InterestType};
use crate::kind::{AddHandlerStep, Backend, InodeSocketProtected, SocketTarget};
use crate::laws::opening::names_nothing;
use crate::poll::{
    SocketAccepter, SocketReceiver, SocketReceiverFrom, SocketSender, SocketSenderTo, Timed,
};
use crate::socket::{InodeSocket, UdpPeerStep};
use std::time::Duration;
use vstd::prelude::*;

verus! {

/// The code that a socket without the option refuses it with.
pub open spec fn lacks_option<N: Backend>(socket: InodeSocket<N>) -> Errno {
    if socket.inner.kind is PreSocket {
        Errno::Io
    } else {
        Errno::Notsup
    }
}

/// Setting how long to linger hands that very time to a stream, and reading it
/// asks the stream; no other socket lingers.
pub proof fn law_lingering<N: Backend>(
    socket: InodeSocket<N>,
    linger: Option<Duration>,
    set: Step<SettingCall, ()>,
    read: Step<LingerCall, Option<Duration>>,
)
    requires
        InodeSocket::<N>::set_linger.ensures((&socket, linger), set),
        InodeSocket::<N>::linger.ensures((&socket,), read),
    ensures
        set is Call <==> socket.inner.kind is TcpStream,
        read is Call <==> socket.inner.kind is TcpStream,
        set matches Step::Call(call) ==> call == SettingCall::TcpSetLinger(linger),
        set is Done ==> set.refuses(lacks_option(socket)),
        read is Done ==> read.refuses(lacks_option(socket)),
{
}

/// Setting the time to live hands that very number to a stream or a UDP socket,
/// and reading it asks that socket; no other socket has one.
pub proof fn law_times_to_live<N: Backend>(
    socket: InodeSocket<N>,
    ttl: u32,
    set: Step<SettingCall, ()>,
    read: Step<TtlCall, u32>,
)
    requires
        InodeSocket::<N>::set_ttl.ensures((&socket, ttl), set),
        InodeSocket::<N>::ttl.ensures((&socket,), read),
    ensures
        set is Call <==> socket.inner.kind is TcpStream || socket.inner.kind is UdpSocket,
        read is Call <==> set is Call,
        set matches Step::Call(call) ==> call == if socket.inner.kind is TcpStream {
            SettingCall::TcpSetTtl(ttl)
        } else {
            SettingCall::UdpSetTtl(ttl)
        },
        read matches Step::Call(call) ==> call == if socket.inner.kind is TcpStream {
            TtlCall::TcpTtl
        } else {
            TtlCall::UdpTtl
        },
        set is Done ==> set.refuses(lacks_option(socket)),
        read is Done ==> read.refuses(lacks_option(socket)),
{
}

/// Setting the time to live of multicast datagrams hands that very number to a
/// UDP socket, and reading it asks the socket; no other socket has one.
pub proof fn law_multicast_times_to_live<N: Backend>(
    socket: InodeSocket<N>,
    ttl: u32,
    set: Step<SettingCall, ()>,
    read: Step<TtlCall, u32>,
)
    requires
        InodeSocket::<N>::set_multicast_ttl_v4.ensures((&socket, ttl), set),
        InodeSocket::<N>::multicast_ttl_v4.ensures((&socket,), read),
    ensures
        set is Call <==> socket.inner.kind is UdpSocket,
        read is Call <==> socket.inner.kind is UdpSocket,
        set matches Step::Call(call) ==> call == SettingCall::UdpSetMulticastTtlV4(ttl),
        read matches Step::Call(call) ==> call == TtlCall::UdpMulticastTtlV4,
        set is Done ==> set.refuses(lacks_option(socket)),
        read is Done ==> read.refuses(lacks_option(socket)),
{
}

/// Joining and leaving an IPv4 group name that very group and interface to a UDP
/// socket, and joining is never taken for leaving; no other socket has groups.
pub proof fn law_multicast_groups_v4<N: Backend>(
    socket: InodeSocket<N>,
    group: Ipv4Addr,
    iface: Ipv4Addr,
    join: Step<SettingCall, ()>,
    leave: Step<SettingCall, ()>,
)
    requires
        InodeSocket::<N>::join_multicast_v4.ensures((&socket, group, iface), join),
        InodeSocket::<N>::leave_multicast_v4.ensures((&socket, group, iface), leave),
    ensures
        join is Call <==> socket.inner.kind is UdpSocket,
        leave is Call <==> socket.inner.kind is UdpSocket,
        join matches Step::Call(call) ==> call is UdpJoinMulticastV4
            && call->UdpJoinMulticastV4_multiaddr == group && call->UdpJoinMulticastV4_iface
            == iface,
        leave matches Step::Call(call) ==> call is UdpLeaveMulticastV4
            && call->UdpLeaveMulticastV4_multiaddr == group && call->UdpLeaveMulticastV4_iface
            == iface,
        join is Done ==> join.refuses(lacks_option(socket)),
        leave is Done ==> leave.refuses(lacks_option(socket)),
{
}

/// Joining and leaving an IPv6 group name that very group and interface to a UDP
/// socket, and joining is never taken for leaving; no other socket has groups.
pub proof fn law_multicast_groups_v6<N: Backend>(
    socket: InodeSocket<N>,
    group: Ipv6Addr,
    iface: u32,
    join: Step<SettingCall, ()>,
    leave: Step<SettingCall, ()>,
)
    requires
        InodeSocket::<N>::join_multicast_v6.ensures((&socket, group, iface), join),
        InodeSocket::<N>::leave_multicast_v6.ensures((&socket, group, iface), leave),
    ensures
        join is Call <==> socket.inner.kind is UdpSocket,
        leave is Call <==> socket.inner.kind is UdpSocket,
        join matches Step::Call(call) ==> call is UdpJoinMulticastV6
            && call->UdpJoinMulticastV6_multiaddr == group && call->UdpJoinMulticastV6_iface
            == iface,
        leave matches Step::Call(call) ==> call is UdpLeaveMulticastV6
            && call->UdpLeaveMulticastV6_multiaddr == group && call->UdpLeaveMulticastV6_iface
            == iface,
        join is Done ==> join.refuses(lacks_option(socket)),
        leave is Done ==> leave.refuses(lacks_option(socket)),
{
}

/// A UDP socket that has a peer answers with it. One that has none answers with an
/// address of its own family that names nothing. An error of the network is the
/// answer in either case.
pub proof fn law_udp_peers<N: Backend>(
    reply: Result<Option<SocketAddr>, NetworkError>,
    next: UdpPeerStep,
    local: Result<SocketAddr, NetworkError>,
    missing: Result<SocketAddr, SocketError>,
)
    requires
        InodeSocket::<N>::udp_peer.ensures((reply,), next),
        InodeSocket::<N>::no_peer.ensures((local,), missing),
    ensures
        next is AddrLocal <==> reply == Ok::<Option<SocketAddr>, NetworkError>(None),
        reply matches Ok(Some(peer)) ==> next == UdpPeerStep::Answer(Ok(peer)),
        reply matches Err(error) ==> next == UdpPeerStep::Answer(Err(SocketError::Net(error))),
        local is Ok <==> missing is Ok,
        local matches Ok(addr) ==> names_nothing(missing->Ok_0) && (missing->Ok_0 is V4 <==> addr
            is V4),
        local matches Err(error) ==> missing == Err::<SocketAddr, SocketError>(
            SocketError::Net(error),
        ),
{
}

/// A new waiting request carries what it was given: its bytes, its address, how
/// long it may take and whether it may block. It has set no handler.
pub proof fn law_new_requests<'a, N: Backend>(
    data: &'a [u8],
    addr: SocketAddr,
    timeout: Option<Duration>,
    nonblocking: bool,
    accept: Timed<SocketAccepter>,
    send: Timed<SocketSender<'a>>,
    send_to: Timed<SocketSenderTo<'a>>,
    recv: Timed<SocketReceiver>,
    recv_from: Timed<SocketReceiverFrom>,
)
    requires
        InodeSocket::<N>::accept.ensures((nonblocking, timeout), accept),
        InodeSocket::<N>::send.ensures((data, timeout, nonblocking), send),
        InodeSocket::<N>::send_to.ensures((data, addr, timeout, nonblocking), send_to),
        InodeSocket::<N>::recv.ensures((timeout, nonblocking), recv),
        InodeSocket::<N>::recv_from.ensures((timeout, nonblocking), recv_from),
    ensures
        accept.timeout == timeout,
        send.timeout == timeout,
        send_to.timeout == timeout,
        recv.timeout == timeout,
        recv_from.timeout == timeout,
        accept.request.polling.nonblocking == nonblocking,
        send.request.polling.nonblocking == nonblocking,
        send_to.request.polling.nonblocking == nonblocking,
        recv.request.polling.nonblocking == nonblocking,
        recv_from.request.polling.nonblocking == nonblocking,
        !accept.request.polling.handler_registered,
        !send.request.polling.handler_registered,
        !send_to.request.polling.handler_registered,
        !recv.request.polling.handler_registered,
        !recv_from.request.polling.handler_registered,
        send.request.data@ == data@,
        send_to.request.data@ == data@,
        send_to.request.addr == addr,
{
}

/// What a bind opens is a UDP socket with the network's own socket and without a
/// peer. Nothing is opened where the network failed or the time ran out, and the
/// answer says which.
pub proof fn law_a_bind_completes<N: Backend>(
    call: BindUdp,
    race: Race<Result<N::Udp, NetworkError>>,
    done: Result<Option<InodeSocket<N>>, SocketError>,
)
    requires
        BindUdp::complete::<N>.ensures((call, race), done),
    ensures
        race matches Race::Finished(Ok(opened)) ==> {
            &&& done matches Ok(Some(socket))
            &&& socket.inner.kind is UdpSocket
            &&& socket.inner.kind->UdpSocket_socket == opened
            &&& socket.inner.kind->peer is None
        },
        race matches Race::Finished(Err(error)) ==> (done matches Err(failure) && failure
            == SocketError::Net(error)),
        race is Elapsed ==> (done matches Err(failure) && failure == SocketError::Errno(
            Errno::Timedout,
        )),
{
}

/// What a listen opens is a listener with the network's own socket, which accepts
/// for as long as the listen could wait. Nothing is opened where the network
/// failed or the time ran out, and the answer says which.
pub proof fn law_a_listen_completes<N: Backend>(
    call: ListenTcp,
    race: Race<Result<N::TcpListener, NetworkError>>,
    done: Result<Option<InodeSocket<N>>, SocketError>,
)
    requires
        ListenTcp::complete::<N>.ensures((call, race), done),
    ensures
        race matches Race::Finished(Ok(opened)) ==> {
            &&& done matches Ok(Some(socket))
            &&& socket.inner.kind is TcpListener
            &&& socket.inner.kind->TcpListener_socket == opened
            &&& socket.inner.kind->TcpListener_accept_timeout == Some(call.timeout)
            &&& socket.accept_attempt::<()>() is Call
        },
        race matches Race::Finished(Err(error)) ==> (done matches Err(failure) && failure
            == SocketError::Net(error)),
        race is Elapsed ==> (done matches Err(failure) && failure == SocketError::Errno(
            Errno::Timedout,
        )),
{
}

/// What a connect opens is a stream with the network's own socket and the
/// timeouts of the socket that was connected. Nothing is opened where the network
/// failed or the time ran out, and the answer says which.
pub proof fn law_a_connect_completes<N: Backend>(
    call: ConnectTcp,
    race: Race<Result<N::TcpStream, NetworkError>>,
    done: Result<Option<InodeSocket<N>>, SocketError>,
)
    requires
        ConnectTcp::complete::<N>.ensures((call, race), done),
    ensures
        race matches Race::Finished(Ok(opened)) ==> {
            &&& done matches Ok(Some(socket))
            &&& socket.inner.kind is TcpStream
            &&& socket.inner.kind->TcpStream_socket == opened
            &&& socket.inner.kind->TcpStream_write_timeout == call.write_timeout
            &&& socket.inner.kind->TcpStream_read_timeout == call.read_timeout
        },
        race matches Race::Finished(Err(error)) ==> (done matches Err(failure) && failure
            == SocketError::Net(error)),
        race is Elapsed ==> (done matches Err(failure) && failure == SocketError::Errno(
            Errno::Timedout,
        )),
{
}

/// A socket counts as writable if nobody holds it and it is a stream, a UDP or a
/// raw socket; listeners, ICMP sockets and sockets that are not open never do.
pub proof fn law_writable<N: Backend>(socket: InodeSocket<N>, free: bool, held: bool)
    requires
        InodeSocket::<N>::can_write.ensures((Some(&socket),), free),
        InodeSocket::<N>::can_write.ensures((None,), held),
    ensures
        !held,
        free <==> !(socket.inner.kind is PreSocket) && !(socket.inner.kind is TcpListener)
            && !(socket.inner.kind is Icmp),
{
}

/// An address with a port keeps both and its family; the address that names
/// nothing names nothing in either family.
pub proof fn law_addresses(ip: IpAddr, port: u16, addr: SocketAddr, v4: bool, v6: bool)
    requires
        SocketAddr::new.ensures((ip, port), addr),
        SocketAddr::is_ipv4.ensures((&addr,), v4),
        SocketAddr::is_ipv6.ensures((&addr,), v6),
    ensures
        v4 <==> ip is V4,
        v6 <==> !v4,
        v4 ==> addr->V4_0.ip == ip->V4_0 && addr->V4_0.port == port,
        v6 ==> addr->V6_0.ip == ip->V6_0 && addr->V6_0.port == port && addr->V6_0.flowinfo == 0
            && addr->V6_0.scope_id == 0,
{
}

/// Adding a handler subscribes it, for its own interest, where there is an
/// aggregate handler; elsewhere an aggregate handler is to be set on the open
/// socket first, together with its own subscribers. A socket that is not open
/// takes no handler, and has none to be removed.
pub proof fn law_adding_handlers<N: Backend>(
    socket: InodeSocket<N>,
    interest: InterestType,
    added: Result<AddHandlerStep, NetworkError>,
    set: Result<SocketTarget, NetworkError>,
    removed: Option<SocketTarget>,
)
    requires
        InodeSocketProtected::<N>::add_handler.ensures((&socket.inner, interest), added),
        InodeSocketProtected::<N>::set_handler.ensures((&socket.inner,), set),
        InodeSocketProtected::<N>::remove_handler.ensures((&socket.inner,), removed),
    ensures
        socket.inner.aggregate_handler is Some ==> (added matches Ok(AddHandlerStep::Subscribe(to))
            && to == interest),
        socket.inner.aggregate_handler is None && set is Err ==> (added matches Err(error) && error
            == set->Err_0),
        socket.inner.aggregate_handler is None && set is Ok ==> {
            &&& added matches Ok(AddHandlerStep::Install { target, upper, subscribers })
            &&& target == set->Ok_0
            &&& subscribers == subscribers_of(*upper)
        },
        set is Ok <==> !(socket.inner.kind is PreSocket),
        set matches Err(error) ==> error == NetworkError::NotConnected,
        set matches Ok(target) ==> removed == Some(target),
        set is Err ==> removed is None,
        set == Ok::<SocketTarget, NetworkError>(SocketTarget::Icmp) <==> socket.inner.kind is Icmp,
        set == Ok::<SocketTarget, NetworkError>(SocketTarget::Raw) <==> socket.inner.kind is Raw,
        set == Ok::<SocketTarget, NetworkError>(SocketTarget::TcpListener) <==> socket.inner.kind
            is TcpListener,
        set == Ok::<SocketTarget, NetworkError>(SocketTarget::TcpStream) <==> socket.inner.kind
            is TcpStream,
        set == Ok::<SocketTarget, NetworkError>(SocketTarget::UdpSocket) <==> socket.inner.kind
            is UdpSocket,
{
}

/// A network reply becomes the answer: a value stays the value, and an error the
/// network's error.
pub proof fn law_answers<T>(reply: Result<T, NetworkError>, answered: Result<T, SocketError>)
    requires
        answer::<T>.ensures((reply,), answered),
    ensures
        reply matches Ok(value) ==> answered == Ok::<T, SocketError>(value),
        reply matches Err(error) ==> answered == Err::<T, SocketError>(SocketError::Net(error)),
{
}

} // verus!
