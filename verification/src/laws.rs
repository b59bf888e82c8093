//! What holds of the library as a whole. The modules below say of each request
//! by itself what it promises; this one says how requests hang together.
pub mod opening;
pub mod options;
pub mod results;
pub mod waiting;

use crate::addr::{Shutdown, SocketAddr};
use crate::call::{AcceptCall, RecvCall, RecvFromCall, SendCall, Step};
use crate::error::{Errno, NetworkError, SocketError};
use crate::kind::{Backend, InodeSocketKind, SocketTarget};
use crate::poll::{
    datagram_of, failed, handler_target, PollAction, PollEvent, Polling, RecvEvent, SocketAccepter,
    SocketReceiver, SocketReceiverFrom, SocketSender, SocketSenderTo,
};
use crate::rights::socket_rights_bits;
use crate::socket::{bind_refusal, InodeSocket};
use crate::time::default_timeout_spec;
use crate::types::{option_named, Sockoption, TimeType, WasiSocketOption};
use std::time::Duration;
use virtual_mio::FilteredHandlerSubscriptions;
use vstd::prelude::*;

verus! {

/// A flag that a socket takes until it is opened reads back as it was set, and
/// every other flag reads as before.
pub proof fn law_flag_reads_back<N: Backend>(
    socket: InodeSocket<N>,
    option: WasiSocketOption,
    other: WasiSocketOption,
    val: bool,
)
    requires
        socket.set_opt_flag_outcome(option, val).1.answers(()),
        other != option,
    ensures
        ({
            let after = socket.set_opt_flag_outcome(option, val).0;
            &&& after.get_opt_flag_outcome(option).answers(val)
            &&& after.get_opt_flag_outcome(other) == socket.get_opt_flag_outcome(other)
        }),
{
}

/// A flag can be set on a socket exactly where it can be read, and both
/// requests refuse with the same code.
pub proof fn law_flags_are_set_where_they_are_read<N: Backend>(
    socket: InodeSocket<N>,
    option: WasiSocketOption,
    val: bool,
)
    ensures
        match (
            socket.set_opt_flag_outcome(option, val).1,
            socket.get_opt_flag_outcome(option),
        ) {
            (Step::Done(Ok(_)), Step::Done(Ok(_))) => true,
            (Step::Done(Err(set)), Step::Done(Err(get))) => set == get,
            (Step::Call(set), Step::Call(get)) => set.target() == get.target(),
            _ => false,
        },
{
}

/// A timeout that a socket takes reads back as it was set, whatever requests
/// follow until that timeout is set again. At once, every other timeout reads as
/// before.
pub proof fn law_timeout_reads_back<N: Backend>(
    socket: InodeSocket<N>,
    ty: TimeType,
    other: TimeType,
    timeout: Option<Duration>,
    changes: Seq<Change>,
)
    requires
        socket.set_opt_time_outcome(ty, timeout).1 is Ok,
        other != ty,
        forall|i: int|
            0 <= i < changes.len() ==> !(#[trigger] changes[i] is Timeout && changes[i]->Timeout_0
                == ty),
    ensures
        ({
            let set = socket.set_opt_time_outcome(ty, timeout).0;
            &&& changed_by_all(set, changes).opt_time_outcome(ty) == Ok::<Option<Duration>, Errno>(
                timeout,
            )
            &&& set.opt_time_outcome(other) == socket.opt_time_outcome(other)
        }),
{
    law_timeouts_last(socket.set_opt_time_outcome(ty, timeout).0, ty, changes);
}

/// A timeout can be set on a socket exactly where it can be read. No socket
/// has a timeout for binding or for lingering.
pub proof fn law_timeouts_are_set_where_they_are_read<N: Backend>(
    socket: InodeSocket<N>,
    ty: TimeType,
    timeout: Option<Duration>,
)
    ensures
        socket.set_opt_time_outcome(ty, timeout).1 is Ok <==> socket.opt_time_outcome(ty) is Ok,
        ty is BindTimeout || ty is Linger ==> socket.opt_time_outcome(ty) is Err,
{
}

/// The send buffer size of a socket that is not open reads back as it was set,
/// whatever requests follow until it is set again. At once, the other size reads
/// as before.
pub proof fn law_send_buf_size_reads_back<N: Backend>(
    socket: InodeSocket<N>,
    size: usize,
    changes: Seq<Change>,
)
    requires
        socket.inner.kind is PreSocket,
        forall|i: int| 0 <= i < changes.len() ==> !(#[trigger] changes[i] is SendBufSize),
    ensures
        ({
            let set = socket.set_send_buf_size_outcome(size).0;
            &&& changed_by_all(set, changes).send_buf_size_outcome().answers(size)
            &&& set.recv_buf_size_outcome() == socket.recv_buf_size_outcome()
        }),
{
    law_send_buf_size_lasts(socket.set_send_buf_size_outcome(size).0, changes);
}

/// The receive buffer size of a socket that is not open reads back as it was
/// set, whatever requests follow until it is set again. At once, the other size
/// reads as before.
pub proof fn law_recv_buf_size_reads_back<N: Backend>(
    socket: InodeSocket<N>,
    size: usize,
    changes: Seq<Change>,
)
    requires
        socket.inner.kind is PreSocket,
        forall|i: int| 0 <= i < changes.len() ==> !(#[trigger] changes[i] is RecvBufSize),
    ensures
        ({
            let set = socket.set_recv_buf_size_outcome(size).0;
            &&& changed_by_all(set, changes).recv_buf_size_outcome().answers(size)
            &&& set.send_buf_size_outcome() == socket.send_buf_size_outcome()
        }),
{
    law_recv_buf_size_lasts(socket.set_recv_buf_size_outcome(size).0, changes);
}

/// A request to set an option or to connect changes what the socket remembers
/// only where it is granted at once: one that is refused, or left to the
/// network, changes nothing.
pub proof fn law_only_granted_requests_change_the_socket<N: Backend>(
    socket: InodeSocket<N>,
    option: WasiSocketOption,
    val: bool,
    size: usize,
    ty: TimeType,
    timeout: Option<Duration>,
    peer: SocketAddr,
)
    ensures
        ({
            let (after, step) = socket.set_opt_flag_outcome(option, val);
            !(step matches Step::Done(Ok(_))) ==> after == socket
        }),
        ({
            let (after, step) = socket.set_send_buf_size_outcome(size);
            !(step matches Step::Done(Ok(_))) ==> after == socket
        }),
        ({
            let (after, step) = socket.set_recv_buf_size_outcome(size);
            !(step matches Step::Done(Ok(_))) ==> after == socket
        }),
        ({
            let (after, answer) = socket.set_opt_time_outcome(ty, timeout);
            answer is Err ==> after == socket
        }),
        ({
            let (after, step) = socket.connect_outcome(peer, timeout);
            !(step matches Step::Done(Ok(_))) ==> after == socket
        }),
{
}

/// A bind that is refused changes nothing, unless the address is a new one that
/// fits the family of a socket which is neither a stream nor a datagram socket.
pub proof fn law_refused_bind_changes_nothing<N: Backend>(
    socket: InodeSocket<N>,
    set_addr: SocketAddr,
)
    requires
        socket.bind_outcome(set_addr).1 matches Step::Done(Err(_)),
        socket.inner.kind is PreSocket ==> bind_refusal(socket.inner.kind.pre().family, set_addr)
            is Some || socket.inner.kind.pre().addr == Some(set_addr),
    ensures
        socket.bind_outcome(set_addr).0 == socket,
{
}

/// The requests that can change what a socket remembers.
pub enum Change {
    Flag(WasiSocketOption, bool),
    SendBufSize(usize),
    RecvBufSize(usize),
    Timeout(TimeType, Option<Duration>),
    Bind(SocketAddr),
    Connect(SocketAddr, Option<Duration>),
    /// A handler is added. If that takes an aggregate handler with these
    /// subscribers, setting it on the socket has this reply.
    AddHandler(FilteredHandlerSubscriptions, Result<(), NetworkError>),
}

/// Whether adding a handler to a socket installs an aggregate handler, where
/// setting that one on the socket has this reply.
pub open spec fn installs_aggregate<N: Backend>(
    socket: InodeSocket<N>,
    reply: Result<(), NetworkError>,
) -> bool {
    socket.inner.lacks_aggregate() && !(socket.inner.kind is PreSocket) && reply is Ok
}

/// The socket after a request.
pub open spec fn changed<N: Backend>(socket: InodeSocket<N>, change: Change) -> InodeSocket<N> {
    match change {
        Change::Flag(option, val) => socket.set_opt_flag_outcome(option, val).0,
        Change::SendBufSize(size) => socket.set_send_buf_size_outcome(size).0,
        Change::RecvBufSize(size) => socket.set_recv_buf_size_outcome(size).0,
        Change::Timeout(ty, timeout) => socket.set_opt_time_outcome(ty, timeout).0,
        Change::Bind(addr) => socket.bind_outcome(addr).0,
        Change::Connect(peer, timeout) => socket.connect_outcome(peer, timeout).0,
        Change::AddHandler(subscribers, reply) => if installs_aggregate(socket, reply) {
            InodeSocket { inner: socket.inner.with_aggregate(subscribers) }
        } else {
            socket
        },
    }
}

/// The socket after some requests, one after the other.
pub open spec fn changed_by_all<N: Backend>(
    socket: InodeSocket<N>,
    changes: Seq<Change>,
) -> InodeSocket<N>
    decreases changes.len(),
{
    if changes.len() == 0 {
        socket
    } else {
        changed(changed_by_all(socket, changes.drop_last()), changes.last())
    }
}

/// Whether the address that a socket is bound to fits its family.
pub open spec fn bound_within_family<N: Backend>(socket: InodeSocket<N>) -> bool {
    socket.inner.kind is PreSocket ==> (socket.inner.kind.pre().addr matches Some(addr)
        ==> bind_refusal(socket.inner.kind.pre().family, addr) is None)
}

/// However many requests are made, a socket never turns into one of another
/// kind, so its status stays what it was; what happened to it stays what it was,
/// and so do its handlers unless one is added; and its state stays well-formed.
pub proof fn law_requests_keep_the_kind<N: Backend>(socket: InodeSocket<N>, changes: Seq<Change>)
    ensures
        ({
            let after = changed_by_all(socket, changes);
            &&& after.inner.kind.target() == socket.inner.kind.target()
            &&& after.status_value() == socket.status_value()
            &&& after.inner.notifications == socket.inner.notifications
            &&& after.inner.handler_state == socket.inner.handler_state
            &&& socket.inner.well_formed() ==> after.inner.well_formed()
            &&& (forall|i: int| 0 <= i < changes.len() ==> !(#[trigger] changes[i] is AddHandler))
                ==> after.inner.aggregate_handler == socket.inner.aggregate_handler
        }),
    decreases changes.len(),
{
    if changes.len() > 0 {
        law_requests_keep_the_kind(socket, changes.drop_last());
    }
}

/// However many requests are made, a socket that is not open keeps the family,
/// the type and the protocol that it was made with, and if it was bound to no
/// address of another family before, it is bound to none after.
pub proof fn law_sockets_stay_bound_within_their_family<N: Backend>(
    socket: InodeSocket<N>,
    changes: Seq<Change>,
)
    requires
        bound_within_family(socket),
    ensures
        bound_within_family(changed_by_all(socket, changes)),
        socket.inner.kind is PreSocket ==> {
            let settings = socket.inner.kind.pre();
            let after = changed_by_all(socket, changes).inner.kind;
            &&& after is PreSocket
            &&& after.pre().family == settings.family
            &&& after.pre().ty == settings.ty
            &&& after.pre().pt == settings.pt
        },
    decreases changes.len(),
{
    if changes.len() > 0 {
        law_sockets_stay_bound_within_their_family(socket, changes.drop_last());
    }
}

/// How a flag reads changes only with a request to set that flag.
pub proof fn law_flags_last<N: Backend>(
    socket: InodeSocket<N>,
    option: WasiSocketOption,
    changes: Seq<Change>,
)
    requires
        forall|i: int|
            0 <= i < changes.len() ==> !(#[trigger] changes[i] is Flag && changes[i]->Flag_0
                == option),
    ensures
        changed_by_all(socket, changes).get_opt_flag_outcome(option)
            == socket.get_opt_flag_outcome(option),
    decreases changes.len(),
{
    if changes.len() > 0 {
        law_flags_last(socket, option, changes.drop_last());
    }
}

/// How a timeout reads changes only with a request to set that timeout.
pub proof fn law_timeouts_last<N: Backend>(
    socket: InodeSocket<N>,
    ty: TimeType,
    changes: Seq<Change>,
)
    requires
        forall|i: int|
            0 <= i < changes.len() ==> !(#[trigger] changes[i] is Timeout && changes[i]->Timeout_0
                == ty),
    ensures
        changed_by_all(socket, changes).opt_time_outcome(ty) == socket.opt_time_outcome(ty),
    decreases changes.len(),
{
    if changes.len() > 0 {
        law_timeouts_last(socket, ty, changes.drop_last());
    }
}

/// How the send buffer size reads changes only with a request to set it.
pub proof fn law_send_buf_size_lasts<N: Backend>(socket: InodeSocket<N>, changes: Seq<Change>)
    requires
        forall|i: int| 0 <= i < changes.len() ==> !(#[trigger] changes[i] is SendBufSize),
    ensures
        changed_by_all(socket, changes).send_buf_size_outcome() == socket.send_buf_size_outcome(),
    decreases changes.len(),
{
    if changes.len() > 0 {
        law_send_buf_size_lasts(socket, changes.drop_last());
    }
}

/// How the receive buffer size reads changes only with a request to set it.
pub proof fn law_recv_buf_size_lasts<N: Backend>(socket: InodeSocket<N>, changes: Seq<Change>)
    requires
        forall|i: int| 0 <= i < changes.len() ==> !(#[trigger] changes[i] is RecvBufSize),
    ensures
        changed_by_all(socket, changes).recv_buf_size_outcome() == socket.recv_buf_size_outcome(),
    decreases changes.len(),
{
    if changes.len() > 0 {
        law_recv_buf_size_lasts(socket, changes.drop_last());
    }
}

/// A socket that is not open stays bound to its address, or to none, as long as
/// it is not bound to another one that fits its family.
pub proof fn law_bound_address_lasts<N: Backend>(socket: InodeSocket<N>, changes: Seq<Change>)
    requires
        socket.inner.kind is PreSocket,
        forall|i: int|
            0 <= i < changes.len() && #[trigger] changes[i] is Bind ==> bind_refusal(
                socket.inner.kind.pre().family,
                changes[i]->Bind_0,
            ) is Some,
    ensures
        ({
            let after = changed_by_all(socket, changes).inner.kind;
            &&& after is PreSocket
            &&& after.pre().family == socket.inner.kind.pre().family
            &&& after.pre().ty == socket.inner.kind.pre().ty
            &&& after.pre().addr == socket.inner.kind.pre().addr
        }),
    decreases changes.len(),
{
    if changes.len() > 0 {
        law_bound_address_lasts(socket, changes.drop_last());
    }
}

/// A UDP socket keeps its peer, or stays without one, as long as it is not
/// connected.
pub proof fn law_peer_lasts<N: Backend>(socket: InodeSocket<N>, changes: Seq<Change>)
    requires
        socket.inner.kind is UdpSocket,
        forall|i: int| 0 <= i < changes.len() ==> !(#[trigger] changes[i] is Connect),
    ensures
        changed_by_all(socket, changes).inner.kind == socket.inner.kind,
    decreases changes.len(),
{
    if changes.len() > 0 {
        law_peer_lasts(socket, changes.drop_last());
    }
}

/// The address that a socket was bound to is its local address, and a stream
/// socket listens there and connects from there, whatever requests follow until
/// it is bound to another address that fits its family.
pub proof fn law_bound_address_is_used<N: Backend>(
    socket: InodeSocket<N>,
    set_addr: SocketAddr,
    peer: SocketAddr,
    timeout: Option<Duration>,
    changes: Seq<Change>,
)
    requires
        socket.inner.kind is PreSocket,
        bind_refusal(socket.inner.kind.pre().family, set_addr) is None,
        forall|i: int|
            0 <= i < changes.len() && #[trigger] changes[i] is Bind ==> bind_refusal(
                socket.inner.kind.pre().family,
                changes[i]->Bind_0,
            ) is Some,
    ensures
        ({
            let after = changed_by_all(socket.bind_outcome(set_addr).0, changes);
            &&& after.addr_local_outcome().answers(set_addr)
            &&& socket.inner.kind.pre().ty is Stream ==> {
                &&& after.listen_outcome() matches Step::Call(call)
                &&& call.addr == set_addr
                &&& after.connect_outcome(peer, timeout).1 matches Step::Call(connect)
                &&& connect.addr == set_addr
                &&& connect.peer == peer
            }
        }),
{
    law_bound_address_lasts(socket.bind_outcome(set_addr).0, changes);
}

/// A stream socket cannot listen before it was bound.
pub proof fn law_listening_needs_an_address<N: Backend>(socket: InodeSocket<N>)
    requires
        socket.inner.kind is PreSocket,
        socket.inner.kind.pre().ty is Stream,
    ensures
        socket.inner.kind.pre().addr is None ==> socket.listen_outcome().refuses(
            Errno::Inval,
        ),
        socket.inner.kind.pre().addr is Some ==> socket.listen_outcome() is Call,
{
}

/// Flags that were set before a socket is opened are the ones that it is
/// opened with.
pub proof fn law_opening_uses_the_flags<N: Backend>(socket: InodeSocket<N>, addr: SocketAddr)
    requires
        socket.inner.kind is PreSocket,
    ensures
        socket.bind_outcome(addr).1 matches Step::Call(call) ==> {
            &&& socket.get_opt_flag_outcome(WasiSocketOption::ReusePort).answers(call.reuse_port)
            &&& socket.get_opt_flag_outcome(WasiSocketOption::ReuseAddr).answers(call.reuse_addr)
        },
        socket.listen_outcome() matches Step::Call(call) ==> {
            &&& socket.get_opt_flag_outcome(WasiSocketOption::OnlyV6).answers(call.only_v6)
            &&& socket.get_opt_flag_outcome(WasiSocketOption::ReusePort).answers(call.reuse_port)
            &&& socket.get_opt_flag_outcome(WasiSocketOption::ReuseAddr).answers(call.reuse_addr)
        },
{
}

/// A listener accepts with the timeout that was set before it was opened, or
/// with the default one.
pub proof fn law_listener_keeps_the_accept_timeout<N: Backend>(
    socket: InodeSocket<N>,
    opened: N::TcpListener,
    listener: InodeSocket<N>,
)
    requires
        socket.listen_outcome() is Call,
        listener.is_new(
            InodeSocketKind::TcpListener {
                socket: opened,
                accept_timeout: Some(socket.listen_outcome()->Call_0.timeout),
            },
        ),
    ensures
        listener.opt_time_outcome(TimeType::AcceptTimeout) == Ok::<Option<Duration>, Errno>(
            Some(
                match socket.opt_time_outcome(TimeType::AcceptTimeout) {
                    Ok(Some(timeout)) => timeout,
                    _ => default_timeout_spec(),
                },
            ),
        ),
{
}

/// A stream reads and writes with the timeouts that were set before it was
/// connected.
pub proof fn law_stream_keeps_the_timeouts<N: Backend>(
    socket: InodeSocket<N>,
    peer: SocketAddr,
    timeout: Option<Duration>,
    opened: N::TcpStream,
    stream: InodeSocket<N>,
)
    requires
        socket.connect_outcome(peer, timeout).1 is Call,
        stream.is_new(
            InodeSocketKind::TcpStream {
                socket: opened,
                write_timeout: socket.connect_outcome(peer, timeout).1->Call_0.write_timeout,
                read_timeout: socket.connect_outcome(peer, timeout).1->Call_0.read_timeout,
            },
        ),
    ensures
        stream.opt_time_outcome(TimeType::ReadTimeout) == socket.opt_time_outcome(
            TimeType::ReadTimeout,
        ),
        stream.opt_time_outcome(TimeType::WriteTimeout) == socket.opt_time_outcome(
            TimeType::WriteTimeout,
        ),
{
}

/// Nothing can be sent, received, accepted, closed or shut down on a socket
/// that is not open: the guest is told that it is not connected.
pub proof fn law_unopened_sockets_are_not_connected<'a, N: Backend>(
    socket: InodeSocket<N>,
    data: &'a [u8],
    addr: SocketAddr,
    how: Shutdown,
)
    requires
        socket.inner.kind is PreSocket,
    ensures
        socket.accept_attempt::<()>().fails(Errno::Notconn),
        socket.send_attempt(data).fails(Errno::Notconn),
        socket.send_to_attempt(data, addr).fails(Errno::Notconn),
        socket.recv_attempt().fails(Errno::Notconn),
        socket.recv_from_attempt().fails(Errno::Notconn),
        socket.close_outcome().refuses(Errno::Notconn),
        socket.shutdown_outcome(how).refuses(Errno::Notconn),
{
}

/// A UDP socket that was connected sends to that peer and hears only that
/// peer, whatever requests follow until it is connected again. As long as it was
/// not connected it does neither.
pub proof fn law_udp_talks_to_its_peer<'a, N: Backend>(
    socket: InodeSocket<N>,
    peer: SocketAddr,
    timeout: Option<Duration>,
    data: &'a [u8],
    changes: Seq<Change>,
)
    requires
        socket.inner.kind is UdpSocket,
        forall|i: int| 0 <= i < changes.len() ==> !(#[trigger] changes[i] is Connect),
    ensures
        ({
            let after = changed_by_all(socket.connect_outcome(peer, timeout).0, changes);
            &&& after.send_attempt(data) == PollAction::<_, usize>::Call(
                SendCall::UdpTrySendTo { data, addr: peer },
            )
            &&& after.recv_attempt() == PollAction::<_, usize>::Call(
                RecvCall::UdpTryRecvFrom { peer },
            )
        }),
        socket.inner.kind->peer is None ==> {
            let after = changed_by_all(socket, changes);
            &&& after.send_attempt(data).breaks(NetworkError::NotConnected)
            &&& after.recv_attempt().breaks(NetworkError::NotConnected)
        },
{
    law_peer_lasts(socket.connect_outcome(peer, timeout).0, changes);
    law_peer_lasts(socket, changes);
}

/// A request to receive from the peer ends with bytes only if the peer sent
/// them.
pub proof fn law_only_the_peer_is_heard<C>(
    polling: Polling,
    target: Result<SocketTarget, NetworkError>,
    peer: SocketAddr,
    reply: Result<(usize, SocketAddr), NetworkError>,
)
    ensures
        polling.after_reply::<C, usize>(target, datagram_of(peer, reply)) matches PollAction::Ready(
            Ok(amount),
        ) ==> reply == Ok::<(usize, SocketAddr), NetworkError>((amount, peer)),
{
}

/// A request that must not block never waits and sets no handler: while it
/// would block it is answered to try again.
pub proof fn law_nonblocking_requests_never_wait<C, T>(
    polling: Polling,
    target: Result<SocketTarget, NetworkError>,
    reply: Result<T, NetworkError>,
)
    requires
        polling.nonblocking,
    ensures
        polling.after_reply::<C, T>(target, reply) is Ready,
        reply == Err::<T, NetworkError>(NetworkError::WouldBlock) ==> polling.after_reply::<C, T>(
            target,
            reply,
        ) == failed::<C, T>(Errno::Again),
{
}

/// A request waits only with its handler set on the socket, and once it is set
/// it is not set again; a handler that was set stays known.
pub proof fn law_waiting_requests_have_one_handler<C, T>(
    polling: Polling,
    target: Result<SocketTarget, NetworkError>,
    retry: PollAction<C, T>,
    event: PollEvent<T>,
)
    requires
        !(retry is Pending),
        !(retry is Register),
    ensures
        ({
            let (after, action) = polling.advanced(target, retry, event);
            &&& action is Pending ==> after.handler_registered
            &&& action is Register ==> !after.handler_registered
            &&& polling.handler_registered ==> after.handler_registered
            &&& after.nonblocking == polling.nonblocking
            &&& after.handler_registered != polling.handler_registered ==> (event matches
                PollEvent::Registered(Ok(_)))
        }),
{
}

/// How a poll ends of which the tries reply `first` and `second` and setting
/// the handler replies `registered`. The socket may change between the tries:
/// `target` and `retry` are of the first one, `next` and `again` of the second.
pub open spec fn poll_end<C, T>(
    polling: Polling,
    target: Result<SocketTarget, NetworkError>,
    retry: PollAction<C, T>,
    first: Result<T, NetworkError>,
    registered: Result<(), NetworkError>,
    next: Result<SocketTarget, NetworkError>,
    again: PollAction<C, T>,
    second: Result<T, NetworkError>,
) -> (Polling, PollAction<C, T>) {
    let (polled, tried) = polling.advanced(target, retry, PollEvent::Polled);
    if tried is Call {
        let (replied, asked) = polled.advanced(target, retry, PollEvent::Replied(first));
        if asked is Register {
            let (set, retried) = replied.advanced(next, again, PollEvent::Registered(registered));
            if retried is Call {
                set.advanced(next, again, PollEvent::Replied(second))
            } else {
                (set, retried)
            }
        } else {
            (replied, asked)
        }
    } else {
        (polled, tried)
    }
}

/// Every poll ends after two tries at most, with the request over or waiting.
pub proof fn law_polls_end_after_two_tries<C, T>(
    polling: Polling,
    target: Result<SocketTarget, NetworkError>,
    retry: PollAction<C, T>,
    first: Result<T, NetworkError>,
    registered: Result<(), NetworkError>,
    next: Result<SocketTarget, NetworkError>,
    again: PollAction<C, T>,
    second: Result<T, NetworkError>,
)
    requires
        retry is Call || retry is Ready,
        again is Call || again is Ready,
    ensures
        ({
            let (after, end) = poll_end(
                polling,
                target,
                retry,
                first,
                registered,
                next,
                again,
                second,
            );
            &&& end is Ready || end is Pending
            &&& end is Pending ==> after.handler_registered && !after.nonblocking
        }),
{
}

/// A request that waits for the network, by what it tries on a socket.
pub trait Waits<N: Backend, T> {
    /// The calls that it tries.
    type Call;

    /// What trying asks for.
    spec fn attempt(self, socket: InodeSocket<N>) -> PollAction<Self::Call, T>;

    /// A try is a call or ends the request, and then with an error; on a socket
    /// that is not open it ends the request.
    proof fn tries_call_or_end(self, socket: InodeSocket<N>)
        ensures
            self.attempt(socket) is Call || self.attempt(socket) is Ready,
            self.attempt(socket) matches PollAction::Ready(result) ==> result is Err,
            socket.inner.kind is PreSocket ==> self.attempt(socket) is Ready,
    ;
}

impl<N: Backend, T> Waits<N, T> for SocketAccepter {
    type Call = AcceptCall;

    open spec fn attempt(self, socket: InodeSocket<N>) -> PollAction<AcceptCall, T> {
        socket.accept_attempt()
    }

    proof fn tries_call_or_end(self, socket: InodeSocket<N>) {
    }
}

impl<'a, N: Backend> Waits<N, usize> for SocketSender<'a> {
    type Call = SendCall<'a>;

    open spec fn attempt(self, socket: InodeSocket<N>) -> PollAction<SendCall<'a>, usize> {
        socket.send_attempt(self.data)
    }

    proof fn tries_call_or_end(self, socket: InodeSocket<N>) {
    }
}

impl<'a, N: Backend> Waits<N, usize> for SocketSenderTo<'a> {
    type Call = SendCall<'a>;

    open spec fn attempt(self, socket: InodeSocket<N>) -> PollAction<SendCall<'a>, usize> {
        socket.send_to_attempt(self.data, self.addr)
    }

    proof fn tries_call_or_end(self, socket: InodeSocket<N>) {
    }
}

impl<N: Backend> Waits<N, usize> for SocketReceiver {
    type Call = RecvCall;

    open spec fn attempt(self, socket: InodeSocket<N>) -> PollAction<RecvCall, usize> {
        socket.recv_attempt()
    }

    proof fn tries_call_or_end(self, socket: InodeSocket<N>) {
    }
}

impl<N: Backend> Waits<N, (usize, SocketAddr)> for SocketReceiverFrom {
    type Call = RecvFromCall;

    open spec fn attempt(self, socket: InodeSocket<N>) -> PollAction<
        RecvFromCall,
        (usize, SocketAddr),
    > {
        socket.recv_from_attempt()
    }

    proof fn tries_call_or_end(self, socket: InodeSocket<N>) {
    }
}

/// One exchange with a waiting request: what it is told, and the socket at that
/// moment.
pub struct Exchange<N: Backend, T> {
    pub socket: InodeSocket<N>,
    pub event: PollEvent<T>,
}

/// How a new request stands after some exchanges, and what it asked for last.
pub open spec fn run<N: Backend, T, R: Waits<N, T>>(
    request: R,
    nonblocking: bool,
    exchanges: Seq<Exchange<N, T>>,
) -> (Polling, Option<PollAction<R::Call, T>>)
    decreases exchanges.len(),
{
    if exchanges.len() == 0 {
        (Polling::fresh(nonblocking), None)
    } else {
        let last = exchanges.last();
        let (after, action) = run(request, nonblocking, exchanges.drop_last()).0.advanced(
            handler_target(last.socket),
            request.attempt(last.socket),
            last.event,
        );
        (after, Some(action))
    }
}

/// Whether an event is one that can follow on what a request asked for: a call
/// is replied to, a handler is set or not, and a request that waits, or that
/// has asked for nothing yet, is polled. Nothing follows on the end.
pub open spec fn follows<C, T>(asked: Option<PollAction<C, T>>, event: PollEvent<T>) -> bool {
    match asked {
        None | Some(PollAction::Pending) => event is Polled,
        Some(PollAction::Call(_)) => event is Replied,
        Some(PollAction::Register(_)) => event is Registered,
        Some(PollAction::Ready(_)) => false,
    }
}

/// Whether the exchanges can happen one after the other with a new request on
/// one socket, which is of this kind throughout.
pub open spec fn orderly<N: Backend, T, R: Waits<N, T>>(
    request: R,
    nonblocking: bool,
    target: Option<SocketTarget>,
    exchanges: Seq<Exchange<N, T>>,
) -> bool
    decreases exchanges.len(),
{
    exchanges.len() > 0 ==> {
        let earlier = exchanges.drop_last();
        let last = exchanges.last();
        &&& orderly(request, nonblocking, target, earlier)
        &&& follows(run(request, nonblocking, earlier).1, last.event)
        &&& last.socket.inner.kind.target() == target
    }
}

/// How often a handler was set on the socket in the course of the exchanges.
pub open spec fn handlers_set<N: Backend, T>(exchanges: Seq<Exchange<N, T>>) -> nat
    decreases exchanges.len(),
{
    if exchanges.len() == 0 {
        0
    } else {
        let last = exchanges.last().event;
        handlers_set(exchanges.drop_last()) + if last matches PollEvent::Registered(Ok(_)) {
            1nat
        } else {
            0nat
        }
    }
}

/// How often a handler is removed from the socket when a request is dropped.
pub open spec fn handlers_removed<N: Backend>(polling: Polling, socket: InodeSocket<N>) -> nat {
    if polling.leaves_handler(socket) is Some {
        1
    } else {
        0
    }
}

/// However often a request is polled and whatever the network replies, it sets
/// its handler once at most, never if it must not block, and only on the open
/// socket that it waits for. When the request is dropped, at whatever moment, the
/// handlers that it has set are removed from that socket, and no other.
pub proof fn law_a_request_sets_one_handler<N: Backend, T, R: Waits<N, T>>(
    request: R,
    nonblocking: bool,
    exchanges: Seq<Exchange<N, T>>,
    socket: InodeSocket<N>,
)
    requires
        orderly(request, nonblocking, socket.inner.kind.target(), exchanges),
    ensures
        handlers_set(exchanges) <= 1,
        nonblocking ==> handlers_set(exchanges) == 0,
        run(request, nonblocking, exchanges).1 matches Some(PollAction::Register(target))
            ==> socket.inner.kind.target() == Some(target),
        handlers_removed(run(request, nonblocking, exchanges).0, socket) == handlers_set(
            exchanges,
        ),
        run(request, nonblocking, exchanges).0.leaves_handler(socket) matches Some(target)
            ==> socket.inner.kind.target() == Some(target),
{
    lemma_run_keeps_one_handler(request, nonblocking, socket.inner.kind.target(), exchanges);
}

/// The law above, with what the induction needs besides.
proof fn lemma_run_keeps_one_handler<N: Backend, T, R: Waits<N, T>>(
    request: R,
    nonblocking: bool,
    target: Option<SocketTarget>,
    exchanges: Seq<Exchange<N, T>>,
)
    requires
        orderly(request, nonblocking, target, exchanges),
    ensures
        ({
            let (after, asked) = run(request, nonblocking, exchanges);
            let count = handlers_set(exchanges);
            &&& after.nonblocking == nonblocking
            &&& after.handler_registered <==> count == 1
            &&& count <= 1
            &&& nonblocking ==> count == 0
            &&& (asked matches Some(PollAction::Register(asked_for)) ==> count == 0 && !nonblocking
                && target == Some(asked_for))
            &&& target is None ==> count == 0 && (asked is None || asked->0 is Ready)
        }),
    decreases exchanges.len(),
{
    if exchanges.len() > 0 {
        lemma_run_keeps_one_handler(request, nonblocking, target, exchanges.drop_last());
        request.tries_call_or_end(exchanges.last().socket);
    }
}

/// One exchange with a request to receive from the peer: what it is told, and
/// the socket at that moment.
pub struct Reception<N: Backend> {
    pub socket: InodeSocket<N>,
    pub event: RecvEvent,
}

/// The exchanges, with the datagrams of other senders dropped.
pub open spec fn heard_exchanges<N: Backend>(receptions: Seq<Reception<N>>) -> Seq<
    Exchange<N, usize>,
> {
    receptions.map_values(
        |reception: Reception<N>|
            Exchange { socket: reception.socket, event: reception.event.heard() },
    )
}

/// Whether an event is one that can follow on what a request to receive asked
/// for. A call that hears one peer is replied to with a datagram and that peer,
/// any other call with an amount.
pub open spec fn reception_follows(
    asked: Option<PollAction<RecvCall, usize>>,
    event: RecvEvent,
) -> bool {
    match asked {
        None | Some(PollAction::Pending) => event is Polled,
        Some(PollAction::Call(RecvCall::UdpTryRecvFrom { peer })) => event is Datagram
            && event->peer == peer,
        Some(PollAction::Call(_)) => event is Received,
        Some(PollAction::Register(_)) => event is Registered,
        Some(PollAction::Ready(_)) => false,
    }
}

/// Whether the exchanges can happen one after the other with a new request to
/// receive on one socket, which is of this kind throughout.
pub open spec fn receives<N: Backend>(
    request: SocketReceiver,
    nonblocking: bool,
    target: Option<SocketTarget>,
    receptions: Seq<Reception<N>>,
) -> bool
    decreases receptions.len(),
{
    receptions.len() > 0 ==> {
        let earlier = receptions.drop_last();
        let last = receptions.last();
        &&& receives(request, nonblocking, target, earlier)
        &&& reception_follows(run(request, nonblocking, heard_exchanges(earlier)).1, last.event)
        &&& last.socket.inner.kind.target() == target
    }
}

/// Dropping the last exchange before or after hearing is the same.
pub proof fn lemma_hear_earlier<N: Backend>(receptions: Seq<Reception<N>>)
    requires
        receptions.len() > 0,
    ensures
        heard_exchanges(receptions).drop_last() == heard_exchanges(receptions.drop_last()),
        heard_exchanges(receptions).last() == (Exchange {
            socket: receptions.last().socket,
            event: receptions.last().event.heard(),
        }),
{
    assert(heard_exchanges(receptions).drop_last() =~= heard_exchanges(receptions.drop_last()));
}

/// What holds of the exchanges with any waiting request holds of those with a
/// request to receive from the peer.
pub proof fn law_receiving_is_waiting<N: Backend>(
    request: SocketReceiver,
    nonblocking: bool,
    target: Option<SocketTarget>,
    receptions: Seq<Reception<N>>,
)
    requires
        receives(request, nonblocking, target, receptions),
    ensures
        orderly(request, nonblocking, target, heard_exchanges(receptions)),
    decreases receptions.len(),
{
    if receptions.len() > 0 {
        lemma_hear_earlier(receptions);
        law_receiving_is_waiting(request, nonblocking, target, receptions.drop_last());
    }
}

/// Whether a datagram leaves a request without anything: there was none, or it
/// came from another sender than the peer.
pub open spec fn heard_nothing(
    peer: SocketAddr,
    reply: Result<(usize, SocketAddr), NetworkError>,
) -> bool {
    match reply {
        Ok((_, sender)) => sender != peer,
        Err(error) => error is WouldBlock,
    }
}

/// On a UDP socket every datagram is held against the peer that the socket had
/// when it was asked for. A receive ends with bytes only if the last datagram
/// was that many bytes of that peer, and until then there was no datagram of
/// the peer.
pub proof fn law_a_receive_hears_the_peer_at_the_time<N: Backend>(
    request: SocketReceiver,
    nonblocking: bool,
    receptions: Seq<Reception<N>>,
)
    requires
        receives(request, nonblocking, Some(SocketTarget::UdpSocket), receptions),
    ensures
        forall|i: int|
            0 <= i < receptions.len() && (#[trigger] receptions[i]).event is Datagram ==> i > 0
                && receptions[i - 1].socket.inner.kind->peer == Some(receptions[i].event->peer),
        forall|i: int|
            0 <= i < receptions.len() - 1 && (#[trigger] receptions[i]).event is Datagram
                ==> heard_nothing(receptions[i].event->peer, receptions[i].event->reply),
        run(request, nonblocking, heard_exchanges(receptions)).1 matches Some(
            PollAction::Ready(Ok(amount)),
        ) ==> {
            &&& receptions.last().event matches RecvEvent::Datagram { peer, reply }
            &&& reply == Ok::<(usize, SocketAddr), NetworkError>((amount, peer))
        },
{
    lemma_receive_hears_the_peer(request, nonblocking, receptions);
}

/// The law above, with what the induction needs besides.
proof fn lemma_receive_hears_the_peer<N: Backend>(
    request: SocketReceiver,
    nonblocking: bool,
    receptions: Seq<Reception<N>>,
)
    requires
        receives(request, nonblocking, Some(SocketTarget::UdpSocket), receptions),
    ensures
        forall|i: int|
            0 <= i < receptions.len() && (#[trigger] receptions[i]).event is Datagram ==> i > 0
                && receptions[i - 1].socket.inner.kind->peer == Some(receptions[i].event->peer),
        forall|i: int|
            0 <= i < receptions.len() - 1 && (#[trigger] receptions[i]).event is Datagram
                ==> heard_nothing(receptions[i].event->peer, receptions[i].event->reply),
        ({
            let asked = run(request, nonblocking, heard_exchanges(receptions)).1;
            &&& asked is None <==> receptions.len() == 0
            &&& (asked matches Some(PollAction::Ready(Ok(amount))) ==> {
                &&& receptions.last().event matches RecvEvent::Datagram { peer, reply }
                &&& reply == Ok::<(usize, SocketAddr), NetworkError>((amount, peer))
            })
            &&& (asked matches Some(PollAction::Call(call)) ==> {
                &&& receptions.last().socket.inner.kind->peer matches Some(peer)
                &&& call == RecvCall::UdpTryRecvFrom { peer }
            })
            &&& receptions.len() > 0 && receptions.last().event is Datagram ==> (asked->0 is Ready
                || heard_nothing(receptions.last().event->peer, receptions.last().event->reply))
        }),
    decreases receptions.len(),
{
    if receptions.len() > 0 {
        let earlier = receptions.drop_last();
        lemma_hear_earlier(receptions);
        lemma_receive_hears_the_peer(request, nonblocking, earlier);
        assert forall|i: int|
            0 <= i < receptions.len() && (#[trigger] receptions[i]).event is Datagram implies i > 0
            && receptions[i - 1].socket.inner.kind->peer == Some(receptions[i].event->peer) by {
            if i < earlier.len() {
                assert(earlier[i] == receptions[i]);
            }
        }
        assert forall|i: int|
            0 <= i < receptions.len() - 1 && (#[trigger] receptions[i]).event is Datagram implies
            heard_nothing(receptions[i].event->peer, receptions[i].event->reply) by {
            assert(earlier[i] == receptions[i]);
        }
    }
}

/// A UDP socket that stays connected to one peer hears only that peer: a receive
/// ends with bytes only if the last datagram was that many bytes of the peer,
/// and until then there was no datagram of the peer. The first datagram of the
/// peer does end it.
pub proof fn law_a_receive_hears_only_the_peer<N: Backend>(
    request: SocketReceiver,
    nonblocking: bool,
    peer: SocketAddr,
    receptions: Seq<Reception<N>>,
)
    requires
        receives(request, nonblocking, Some(SocketTarget::UdpSocket), receptions),
        forall|i: int|
            0 <= i < receptions.len() ==> (#[trigger] receptions[i]).socket.inner.kind->peer
                == Some(peer),
    ensures
        run(request, nonblocking, heard_exchanges(receptions)).1 matches Some(
            PollAction::Ready(Ok(amount)),
        ) ==> receptions.last().event == (RecvEvent::Datagram { peer, reply: Ok((amount, peer)) }),
        receptions.len() > 0 ==> (receptions.last().event matches RecvEvent::Datagram {
            reply: Ok((amount, sender)),
            ..
        } ==> sender == peer ==> run(request, nonblocking, heard_exchanges(receptions)).1 == Some(
            PollAction::<RecvCall, usize>::Ready(Ok(amount)),
        )),
        forall|i: int|
            0 <= i < receptions.len() - 1 && (#[trigger] receptions[i]).event is Datagram ==> {
                &&& receptions[i].event->peer == peer
                &&& heard_nothing(peer, receptions[i].event->reply)
            },
{
    law_a_receive_hears_the_peer_at_the_time(request, nonblocking, receptions);
    assert forall|i: int|
        0 <= i < receptions.len() && (#[trigger] receptions[i]).event is Datagram implies
        receptions[i].event->peer == peer by {
        assert(receptions[i - 1].socket.inner.kind->peer == Some(peer));
    }
    if receptions.len() > 0 {
        lemma_hear_earlier(receptions);
    }
}

/// What each of the five waiting requests tries is a call or the end of the
/// request.
pub proof fn law_tries_are_calls_or_ends<'a, T, N: Backend>(
    socket: InodeSocket<N>,
    data: &'a [u8],
    addr: SocketAddr,
)
    ensures
        socket.accept_attempt::<T>() is Call || socket.accept_attempt::<T>() is Ready,
        socket.send_attempt(data) is Call || socket.send_attempt(data) is Ready,
        socket.send_to_attempt(data, addr) is Call || socket.send_to_attempt(data, addr) is Ready,
        socket.recv_attempt() is Call || socket.recv_attempt() is Ready,
        socket.recv_from_attempt() is Call || socket.recv_from_attempt() is Ready,
{
}

/// A socket counts as writable exactly where sending does not end with an
/// error code of the socket layer at once.
pub proof fn law_writable_sockets_can_send<'a, N: Backend>(
    socket: InodeSocket<N>,
    data: &'a [u8],
)
    ensures
        (socket.inner.kind is TcpStream || socket.inner.kind is UdpSocket || socket.inner.kind
            is Raw) <==> !(socket.send_attempt(data) matches PollAction::Ready(
            Err(SocketError::Errno(_)),
        )),
{
}

/// How often an aggregate handler is installed on the socket in the course of
/// the requests.
pub open spec fn aggregates_installed<N: Backend>(
    socket: InodeSocket<N>,
    changes: Seq<Change>,
) -> nat
    decreases changes.len(),
{
    if changes.len() == 0 {
        0
    } else {
        let earlier = changes.drop_last();
        aggregates_installed(socket, earlier) + match changes.last() {
            Change::AddHandler(_, reply) if installs_aggregate(
                changed_by_all(socket, earlier),
                reply,
            ) => 1nat,
            _ => 0nat,
        }
    }
}

/// However many requests are made and handlers added, a socket gets one
/// aggregate handler at most, and none if it has one. Once it has one it never
/// lacks one again, and it stays the same.
pub proof fn law_one_aggregate_handler<N: Backend>(socket: InodeSocket<N>, changes: Seq<Change>)
    ensures
        aggregates_installed(socket, changes) <= 1,
        changed_by_all(socket, changes).inner.lacks_aggregate() <==> (
        socket.inner.lacks_aggregate() && aggregates_installed(socket, changes) == 0),
        !socket.inner.lacks_aggregate() ==> {
            &&& aggregates_installed(socket, changes) == 0
            &&& changed_by_all(socket, changes).inner.aggregate_handler
                == socket.inner.aggregate_handler
        },
    decreases changes.len(),
{
    if changes.len() > 0 {
        law_one_aggregate_handler(socket, changes.drop_last());
    }
}

/// Different options of the guest are different options of the socket layer.
pub proof fn law_options_stay_apart(left: Sockoption, right: Sockoption)
    ensures
        option_named(left) == option_named(right) ==> left == right,
{
}

/// A socket has the rights to change its flags, to read its state, to read,
/// write and poll, and all rights that are for sockets alone; no other.
pub proof fn law_socket_rights(bit: u64)
    requires
        bit < 64,
    ensures
        (socket_rights_bits() >> bit) & 1 == 1 <==> (bit == 1 || bit == 3 || bit == 6 || bit == 21
            || 27 <= bit <= 38),
{
    assert((socket_rights_bits() >> bit) & 1 == 1 <==> (bit == 1 || bit == 3 || bit == 6 || bit
        == 21 || 27 <= bit <= 38)) by (bit_vector)
        requires
            bit < 64,
    ;
}

} // verus!
