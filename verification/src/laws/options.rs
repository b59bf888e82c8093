//! What the requests for options promise: what each remembers, reads and hands
//! to the network.
use crate::addr::Shutdown;
use crate::call::{FlagCall, SettingCall, SizeCall, Step};
use crate::error::Errno;
use crate::kind::{Backend, InodeSocketKind, InodeSocketProtected};
use crate::laws::{changed_by_all, Change};
use crate::socket::InodeSocket;
use crate::types::{option_named, Sockoption, TimeType, WasiSocketOption};
use std::time::Duration;
use virtual_mio::FilteredHandlerSubscriptions;
use vstd::prelude::*;

verus! {

/// A flag that reaches the network reaches it with the value it was set to, under
/// its own name, on the one kind of socket that has it.
pub proof fn law_flags_reach_the_network<N: Backend>(
    socket: InodeSocket<N>,
    option: WasiSocketOption,
    val: bool,
)
    ensures
        ({
            let kind = socket.inner.kind;
            let step = socket.set_opt_flag_outcome(option, val).1;
            let read = socket.get_opt_flag_outcome(option);
            &&& step == Step::<SettingCall, ()>::Call(SettingCall::RawSetPromiscuous(val)) <==> kind
                is Raw && option is Promiscuous
            &&& step == Step::<SettingCall, ()>::Call(SettingCall::TcpSetNoDelay(val)) <==> kind
                is TcpStream && option is NoDelay
            &&& step == Step::<SettingCall, ()>::Call(SettingCall::UdpSetBroadcast(val)) <==> kind
                is UdpSocket && option is Broadcast
            &&& step == Step::<SettingCall, ()>::Call(SettingCall::UdpSetMulticastLoopV4(val))
                <==> kind is UdpSocket && option is MulticastLoopV4
            &&& step == Step::<SettingCall, ()>::Call(SettingCall::UdpSetMulticastLoopV6(val))
                <==> kind is UdpSocket && option is MulticastLoopV6
            &&& read == Step::<FlagCall, bool>::Call(FlagCall::RawPromiscuous) <==> kind is Raw
                && option is Promiscuous
            &&& read == Step::<FlagCall, bool>::Call(FlagCall::TcpNoDelay) <==> kind is TcpStream
                && option is NoDelay
            &&& read == Step::<FlagCall, bool>::Call(FlagCall::UdpBroadcast) <==> kind is UdpSocket
                && option is Broadcast
            &&& read == Step::<FlagCall, bool>::Call(FlagCall::UdpMulticastLoopV4) <==> kind
                is UdpSocket && option is MulticastLoopV4
            &&& read == Step::<FlagCall, bool>::Call(FlagCall::UdpMulticastLoopV6) <==> kind
                is UdpSocket && option is MulticastLoopV6
            &&& step is Call <==> (kind is Raw && option is Promiscuous) || (kind is TcpStream
                && option is NoDelay) || (kind is UdpSocket && (option is Broadcast || option
                is MulticastLoopV4 || option is MulticastLoopV6))
            &&& read is Call <==> step is Call
        }),
{
}

/// Before a socket is open exactly three flags can be set and read: each is a
/// field of its own. What cannot be set is invalid, and on listeners and ICMP
/// sockets, which have no flags, not supported.
pub proof fn law_flags_are_remembered<N: Backend>(
    socket: InodeSocket<N>,
    option: WasiSocketOption,
    val: bool,
)
    ensures
        ({
            let kind = socket.inner.kind;
            let (after, step) = socket.set_opt_flag_outcome(option, val);
            let read = socket.get_opt_flag_outcome(option);
            &&& step.answers(()) <==> kind is PreSocket && (option is OnlyV6 || option is ReusePort
                || option is ReuseAddr)
            &&& (step matches Step::Done(Err(errno)) ==> errno == if kind is TcpListener || kind
                is Icmp {
                Errno::Notsup
            } else {
                Errno::Inval
            })
            &&& (read matches Step::Done(Err(errno)) ==> step.refuses(errno))
            &&& (read matches Step::Done(Ok(_))) <==> step.answers(())
            &&& step.answers(()) ==> {
                &&& after.inner.kind is PreSocket
                &&& after.inner.kind->only_v6 == if option is OnlyV6 {
                    val
                } else {
                    kind->only_v6
                }
                &&& after.inner.kind->reuse_port == if option is ReusePort {
                    val
                } else {
                    kind->reuse_port
                }
                &&& after.inner.kind->reuse_addr == if option is ReuseAddr {
                    val
                } else {
                    kind->reuse_addr
                }
            }
            &&& kind is PreSocket && option is OnlyV6 ==> read.answers(kind->only_v6)
            &&& kind is PreSocket && option is ReusePort ==> read.answers(kind->reuse_port)
            &&& kind is PreSocket && option is ReuseAddr ==> read.answers(kind->reuse_addr)
        }),
{
}

/// A buffer size reaches the network exactly on a stream, as it was set. Before a
/// socket is open it is remembered, and reads as zero if it was never set. No
/// other socket has buffer sizes.
pub proof fn law_buf_sizes<N: Backend>(socket: InodeSocket<N>, size: usize)
    ensures
        ({
            let kind = socket.inner.kind;
            let (sending, set_send) = socket.set_send_buf_size_outcome(size);
            let (receiving, set_recv) = socket.set_recv_buf_size_outcome(size);
            &&& kind is TcpStream ==> {
                &&& set_send == Step::<SettingCall, ()>::Call(SettingCall::TcpSetSendBufSize(size))
                &&& set_recv == Step::<SettingCall, ()>::Call(SettingCall::TcpSetRecvBufSize(size))
                &&& socket.send_buf_size_outcome() == Step::<SizeCall, usize>::Call(
                    SizeCall::TcpSendBufSize,
                )
                &&& socket.recv_buf_size_outcome() == Step::<SizeCall, usize>::Call(
                    SizeCall::TcpRecvBufSize,
                )
            }
            &&& kind is PreSocket ==> {
                &&& set_send.answers(())
                &&& set_recv.answers(())
                &&& sending.inner.kind is PreSocket
                &&& receiving.inner.kind is PreSocket
                &&& sending.inner.kind->send_buf_size == Some(size)
                &&& receiving.inner.kind->recv_buf_size == Some(size)
                &&& sending.inner.kind->recv_buf_size == kind->recv_buf_size
                &&& receiving.inner.kind->send_buf_size == kind->send_buf_size
                &&& kind->send_buf_size is None ==> socket.send_buf_size_outcome().answers(0)
                &&& kind->recv_buf_size is None ==> socket.recv_buf_size_outcome().answers(0)
                &&& kind->send_buf_size is Some ==> socket.send_buf_size_outcome().answers(
                    kind->send_buf_size->0,
                )
                &&& kind->recv_buf_size is Some ==> socket.recv_buf_size_outcome().answers(
                    kind->recv_buf_size->0,
                )
            }
            &&& !(kind is TcpStream) && !(kind is PreSocket) ==> {
                &&& set_send.refuses(Errno::Notsup)
                &&& set_recv.refuses(Errno::Notsup)
                &&& socket.send_buf_size_outcome().refuses(Errno::Notsup)
                &&& socket.recv_buf_size_outcome().refuses(Errno::Notsup)
            }
        }),
{
}

/// The timeout that a socket remembers for a time type reads as it is
/// remembered: a socket that is not open remembers four, a stream two and a
/// listener one. What is not remembered is refused.
pub proof fn law_timeouts_read_as_remembered<N: Backend>(socket: InodeSocket<N>, ty: TimeType)
    ensures
        ({
            let kind = socket.inner.kind;
            let read = socket.opt_time_outcome(ty);
            &&& kind is PreSocket && ty is ReadTimeout ==> read == Ok::<Option<Duration>, Errno>(
                kind->PreSocket_read_timeout,
            )
            &&& kind is PreSocket && ty is WriteTimeout ==> read == Ok::<Option<Duration>, Errno>(
                kind->PreSocket_write_timeout,
            )
            &&& kind is PreSocket && ty is AcceptTimeout ==> read == Ok::<Option<Duration>, Errno>(
                kind->PreSocket_accept_timeout,
            )
            &&& kind is PreSocket && ty is ConnectTimeout ==> read == Ok::<
                Option<Duration>,
                Errno,
            >(kind->connect_timeout)
            &&& kind is TcpStream && ty is ReadTimeout ==> read == Ok::<Option<Duration>, Errno>(
                kind->TcpStream_read_timeout,
            )
            &&& kind is TcpStream && ty is WriteTimeout ==> read == Ok::<Option<Duration>, Errno>(
                kind->TcpStream_write_timeout,
            )
            &&& kind is TcpListener && ty is AcceptTimeout ==> read == Ok::<
                Option<Duration>,
                Errno,
            >(kind->TcpListener_accept_timeout)
            &&& read is Ok ==> {
                ||| kind is PreSocket && !(ty is BindTimeout) && !(ty is Linger)
                ||| kind is TcpStream && (ty is ReadTimeout || ty is WriteTimeout)
                ||| kind is TcpListener && ty is AcceptTimeout
            }
            &&& (read matches Err(errno) ==> errno == if kind is PreSocket || kind is TcpStream
                || kind is TcpListener {
                Errno::Inval
            } else {
                Errno::Notsup
            })
        }),
{
}

/// Setting a timeout is granted exactly where it reads. Where it is not, the code
/// tells sockets that are not open, open ones with other timeouts, and those
/// without timeouts apart. The open socket stays the same one.
pub proof fn law_timeouts_are_set<N: Backend>(
    socket: InodeSocket<N>,
    ty: TimeType,
    timeout: Option<Duration>,
)
    ensures
        ({
            let kind = socket.inner.kind;
            let (after, answer) = socket.set_opt_time_outcome(ty, timeout);
            &&& answer is Ok <==> socket.opt_time_outcome(ty) is Ok
            &&& answer is Ok ==> after.opt_time_outcome(ty) == Ok::<Option<Duration>, Errno>(
                timeout,
            )
            &&& (answer matches Err(errno) ==> {
                &&& kind is PreSocket ==> errno == Errno::Io
                &&& kind is TcpStream || kind is TcpListener ==> errno == Errno::Inval
                &&& kind is UdpSocket || kind is Icmp || kind is Raw ==> errno == Errno::Notsup
            })
            &&& kind is TcpStream ==> after.inner.kind is TcpStream
                && after.inner.kind->TcpStream_socket == kind->TcpStream_socket
            &&& kind is TcpListener ==> after.inner.kind is TcpListener
                && after.inner.kind->TcpListener_socket == kind->TcpListener_socket
        }),
{
}

/// However many requests are made, an open socket of the network stays the very
/// socket that it was.
pub proof fn law_open_sockets_stay<N: Backend>(socket: InodeSocket<N>, changes: Seq<Change>)
    ensures
        ({
            let kind = socket.inner.kind;
            let after = changed_by_all(socket, changes).inner.kind;
            &&& kind is Icmp ==> after == kind
            &&& kind is Raw ==> after == kind
            &&& kind is TcpListener ==> after is TcpListener && after->TcpListener_socket
                == kind->TcpListener_socket
            &&& kind is TcpStream ==> after is TcpStream && after->TcpStream_socket
                == kind->TcpStream_socket
            &&& kind is UdpSocket ==> after is UdpSocket && after->UdpSocket_socket
                == kind->UdpSocket_socket
        }),
    decreases changes.len(),
{
    if changes.len() > 0 {
        law_open_sockets_stay(socket, changes.drop_last());
    }
}

/// The requests that only some open sockets serve hand their own call to the
/// network, unchanged, exactly on those sockets, and are refused on all others.
pub proof fn law_calls_are_handed_on<C, T, N: Backend>(
    kind: InodeSocketKind<N>,
    call: C,
    other: C,
    unopened: Errno,
)
    ensures
        ({
            let on_stream: Step<C, T> = kind.on_stream(call, unopened);
            let on_udp: Step<C, T> = kind.on_udp(call);
            let on_both: Step<C, T> = kind.on_stream_or_udp(call, other);
            &&& on_stream is Call <==> kind is TcpStream
            &&& on_udp is Call <==> kind is UdpSocket
            &&& on_both is Call <==> kind is TcpStream || kind is UdpSocket
            &&& kind is TcpStream ==> on_stream->Call_0 == call && on_both->Call_0 == call
            &&& kind is UdpSocket ==> on_udp->Call_0 == call && on_both->Call_0 == other
            &&& kind is PreSocket ==> {
                &&& on_stream == Step::<C, T>::Done(Err(unopened))
                &&& on_udp == Step::<C, T>::Done(Err(Errno::Io))
                &&& on_both == Step::<C, T>::Done(Err(Errno::Io))
            }
            &&& on_stream is Done && !(kind is PreSocket) ==> on_stream == Step::<C, T>::Done(
                Err(Errno::Notsup),
            )
            &&& on_udp is Done && !(kind is PreSocket) ==> on_udp == Step::<C, T>::Done(
                Err(Errno::Notsup),
            )
            &&& on_both is Done && !(kind is PreSocket) ==> on_both == Step::<C, T>::Done(
                Err(Errno::Notsup),
            )
        }),
{
}

/// A stream is shut down on the network in the very way that was asked for. A
/// socket that is not open is not connected, and no other one supports it.
pub proof fn law_shutdown_is_handed_on<N: Backend>(socket: InodeSocket<N>, how: Shutdown)
    ensures
        socket.shutdown_outcome(how) matches Step::Call(call) ==> call == SettingCall::TcpShutdown(
            how,
        ),
        socket.shutdown_outcome(how) is Call <==> socket.inner.kind is TcpStream,
        socket.shutdown_outcome(how) matches Step::Done(answer) ==> {
            &&& answer matches Err(errno)
            &&& errno == if socket.inner.kind is PreSocket {
                Errno::Notconn
            } else {
                Errno::Notsup
            }
        },
{
}

/// A socket answers with a value, or refuses with a code, and asks nobody then.
pub proof fn law_answers_and_refusals<C, T>(step: Step<C, T>, value: T, errno: Errno)
    ensures
        step.answers(value) <==> step == Step::<C, T>::Done(Ok(value)),
        step.refuses(errno) <==> step == Step::<C, T>::Done(Err(errno)),
{
}

/// A socket lacks an aggregate handler exactly if it remembers none. Installing
/// one remembers its subscribers and changes nothing else, and a state with one
/// is well-formed exactly on an open socket.
pub proof fn law_installing_an_aggregate<N: Backend>(
    state: InodeSocketProtected<N>,
    subscribers: FilteredHandlerSubscriptions,
)
    ensures
        state.lacks_aggregate() <==> state.aggregate_handler is None,
        ({
            let after = state.with_aggregate(subscribers);
            &&& after.aggregate_handler == Some(subscribers)
            &&& after.kind == state.kind
            &&& after.notifications == state.notifications
            &&& after.handler_state == state.handler_state
            &&& after.well_formed() <==> !(state.kind is PreSocket)
        }),
        state.aggregate_handler is None ==> state.well_formed(),
{
}

/// An option of the guest is the option of the same name.
pub proof fn law_options_keep_their_names(opt: Sockoption)
    ensures
        opt is Noop <==> option_named(opt) is Noop,
        opt is ReusePort <==> option_named(opt) is ReusePort,
        opt is ReuseAddr <==> option_named(opt) is ReuseAddr,
        opt is NoDelay <==> option_named(opt) is NoDelay,
        opt is DontRoute <==> option_named(opt) is DontRoute,
        opt is OnlyV6 <==> option_named(opt) is OnlyV6,
        opt is Broadcast <==> option_named(opt) is Broadcast,
        opt is MulticastLoopV4 <==> option_named(opt) is MulticastLoopV4,
        opt is MulticastLoopV6 <==> option_named(opt) is MulticastLoopV6,
        opt is Promiscuous <==> option_named(opt) is Promiscuous,
        opt is Listening <==> option_named(opt) is Listening,
        opt is LastError <==> option_named(opt) is LastError,
        opt is KeepAlive <==> option_named(opt) is KeepAlive,
        opt is Linger <==> option_named(opt) is Linger,
        opt is OobInline <==> option_named(opt) is OobInline,
        opt is RecvBufSize <==> option_named(opt) is RecvBufSize,
        opt is SendBufSize <==> option_named(opt) is SendBufSize,
        opt is RecvLowat <==> option_named(opt) is RecvLowat,
        opt is SendLowat <==> option_named(opt) is SendLowat,
        opt is RecvTimeout <==> option_named(opt) is RecvTimeout,
        opt is SendTimeout <==> option_named(opt) is SendTimeout,
        opt is ConnectTimeout <==> option_named(opt) is ConnectTimeout,
        opt is AcceptTimeout <==> option_named(opt) is AcceptTimeout,
        opt is Ttl <==> option_named(opt) is Ttl,
        opt is MulticastTtlV4 <==> option_named(opt) is MulticastTtlV4,
        opt is Type <==> option_named(opt) is Type,
        opt is Proto <==> option_named(opt) is Proto,
{
}

} // verus!
