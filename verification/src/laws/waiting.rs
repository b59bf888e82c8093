//! What the requests that wait for the network promise: what each tries on
//! which socket, and what it ends with.
use crate::addr::SocketAddr;
use crate::call::{AcceptCall, RecvCall, RecvFromCall, SendCall};
use crate::error::{Errno, NetworkError, SocketError};
use crate::kind::{Backend, SocketTarget};
use crate::laws::{
    changed_by_all, heard_exchanges, law_peer_lasts, law_receiving_is_waiting,
    law_requests_keep_the_kind, lemma_hear_earlier, orderly, receives, run, Change, Exchange,
    Reception, Waits,
};
use crate::poll::{
    handler_target, PollAction, PollEvent, Polling, RecvEvent, SocketAccepter, SocketReceiver,
    SocketReceiverFrom, SocketSender, SocketSenderTo,
};
use crate::socket::InodeSocket;
use vstd::prelude::*;

verus! {

/// The code that a request ends with on a socket that does not serve it: one that
/// is not open is not connected, any other one does not support the request.
pub open spec fn unserved<N: Backend>(socket: InodeSocket<N>) -> SocketError {
    SocketError::Errno(
        if socket.inner.kind is PreSocket {
            Errno::Notconn
        } else {
            Errno::Notsup
        },
    )
}

/// Polling an accept asks every listener for a connection, whatever else is true
/// of it, and no other socket.
pub proof fn law_accept_asks_every_listener<T, N: Backend>(socket: InodeSocket<N>)
    ensures
        socket.accept_attempt::<T>() matches PollAction::Call(call) ==> call
            == AcceptCall::TcpTryAccept,
        socket.accept_attempt::<T>() is Call <==> socket.inner.kind is TcpListener,
        !(socket.inner.kind is TcpListener) ==> socket.accept_attempt::<T>()
            == PollAction::<AcceptCall, T>::Ready(Err(unserved(socket))),
{
}

/// The bytes that a send call hands to the network.
pub open spec fn handed_over<'a>(call: SendCall<'a>) -> &'a [u8] {
    match call {
        SendCall::RawTrySend { data } => data,
        SendCall::TcpTrySend { data } => data,
        SendCall::UdpTrySendTo { data, .. } => data,
        SendCall::IcmpTrySendTo { data, .. } => data,
    }
}

/// The address that a send call names, if it names one.
pub open spec fn sent_to<'a>(call: SendCall<'a>) -> Option<SocketAddr> {
    match call {
        SendCall::UdpTrySendTo { addr, .. } => Some(addr),
        SendCall::IcmpTrySendTo { addr, .. } => Some(addr),
        _ => None,
    }
}

/// Polling a send hands all of its bytes, however many they are, to every raw
/// socket, every stream and every UDP socket with a peer; to the last it names
/// the peer. A UDP socket without a peer is not connected.
pub proof fn law_send_hands_over_everything<'a, N: Backend>(socket: InodeSocket<N>, data: &'a [u8])
    ensures
        socket.send_attempt(data) matches PollAction::Call(call) ==> {
            &&& handed_over(call) == data
            &&& handed_over(call)@ == data@
            &&& socket.inner.kind is Raw <==> call is RawTrySend
            &&& socket.inner.kind is TcpStream <==> call is TcpTrySend
            &&& socket.inner.kind is UdpSocket <==> call is UdpTrySendTo
            &&& call is UdpTrySendTo ==> sent_to(call) == socket.inner.kind->peer
        },
        socket.send_attempt(data) is Call <==> socket.inner.kind is Raw || socket.inner.kind
            is TcpStream || (socket.inner.kind is UdpSocket && socket.inner.kind->peer is Some),
        socket.inner.kind is UdpSocket && socket.inner.kind->peer is None ==> socket.send_attempt(
            data,
        ) == PollAction::<SendCall, usize>::Ready(
            Err(SocketError::Net(NetworkError::NotConnected)),
        ),
        socket.inner.kind is PreSocket || socket.inner.kind is Icmp || socket.inner.kind
            is TcpListener ==> socket.send_attempt(data) == PollAction::<SendCall, usize>::Ready(
            Err(unserved(socket)),
        ),
{
}

/// Polling a send to an address hands all of its bytes, with that very address,
/// to every ICMP and every UDP socket, connected or not, and to no other socket.
pub proof fn law_send_to_reaches_the_address<'a, N: Backend>(
    socket: InodeSocket<N>,
    data: &'a [u8],
    addr: SocketAddr,
)
    ensures
        socket.send_to_attempt(data, addr) matches PollAction::Call(call) ==> {
            &&& handed_over(call) == data
            &&& handed_over(call)@ == data@
            &&& sent_to(call) == Some(addr)
            &&& socket.inner.kind is Icmp <==> call is IcmpTrySendTo
            &&& socket.inner.kind is UdpSocket <==> call is UdpTrySendTo
        },
        socket.send_to_attempt(data, addr) is Call <==> socket.inner.kind is Icmp
            || socket.inner.kind is UdpSocket,
        !(socket.inner.kind is Icmp) && !(socket.inner.kind is UdpSocket)
            ==> socket.send_to_attempt(data, addr) == PollAction::<SendCall, usize>::Ready(
            Err(unserved(socket)),
        ),
{
}

/// Polling a receive asks every raw socket, every stream and every UDP socket
/// with a peer, and names the peer to the last. A UDP socket without a peer is
/// not connected.
pub proof fn law_receive_asks_the_socket<N: Backend>(socket: InodeSocket<N>)
    ensures
        socket.recv_attempt() matches PollAction::Call(call) ==> {
            &&& socket.inner.kind is Raw <==> call is RawTryRecv
            &&& socket.inner.kind is TcpStream <==> call is TcpTryRecv
            &&& socket.inner.kind is UdpSocket <==> call is UdpTryRecvFrom
            &&& call is UdpTryRecvFrom ==> socket.inner.kind->peer == Some(call->peer)
        },
        socket.recv_attempt() is Call <==> socket.inner.kind is Raw || socket.inner.kind
            is TcpStream || (socket.inner.kind is UdpSocket && socket.inner.kind->peer is Some),
        socket.inner.kind is UdpSocket && socket.inner.kind->peer is None ==> socket.recv_attempt()
            == PollAction::<RecvCall, usize>::Ready(
            Err(SocketError::Net(NetworkError::NotConnected)),
        ),
        socket.inner.kind is PreSocket || socket.inner.kind is Icmp || socket.inner.kind
            is TcpListener ==> socket.recv_attempt() == PollAction::<RecvCall, usize>::Ready(
            Err(unserved(socket)),
        ),
{
}

/// Polling a receive from anyone asks every ICMP and every UDP socket, connected
/// or not, and no other socket.
pub proof fn law_receive_from_asks_the_socket<N: Backend>(socket: InodeSocket<N>)
    ensures
        socket.recv_from_attempt() matches PollAction::Call(call) ==> {
            &&& socket.inner.kind is Icmp <==> call == RecvFromCall::IcmpTryRecvFrom
            &&& socket.inner.kind is UdpSocket <==> call == RecvFromCall::UdpTryRecvFrom
        },
        socket.recv_from_attempt() is Call <==> socket.inner.kind is Icmp || socket.inner.kind
            is UdpSocket,
        !(socket.inner.kind is Icmp) && !(socket.inner.kind is UdpSocket)
            ==> socket.recv_from_attempt() == PollAction::<RecvFromCall, (usize, SocketAddr)>::Ready(
            Err(unserved(socket)),
        ),
{
}

/// Whether two sockets are of the same kind and, if they are UDP sockets, have
/// the same peer.
pub open spec fn alike<N: Backend>(left: InodeSocket<N>, right: InodeSocket<N>) -> bool {
    &&& left.inner.kind is PreSocket <==> right.inner.kind is PreSocket
    &&& left.inner.kind is Icmp <==> right.inner.kind is Icmp
    &&& left.inner.kind is Raw <==> right.inner.kind is Raw
    &&& left.inner.kind is TcpListener <==> right.inner.kind is TcpListener
    &&& left.inner.kind is TcpStream <==> right.inner.kind is TcpStream
    &&& left.inner.kind is UdpSocket ==> left.inner.kind->peer == right.inner.kind->peer
}

/// What a request tries depends on the kind of the socket and on its peer alone:
/// not on a timeout that it remembers, nor on any other setting, nor on what
/// happened to it.
pub proof fn law_tries_follow_the_kind<'a, T, N: Backend>(
    left: InodeSocket<N>,
    right: InodeSocket<N>,
    data: &'a [u8],
    addr: SocketAddr,
)
    requires
        alike(left, right),
    ensures
        left.accept_attempt::<T>() == right.accept_attempt::<T>(),
        left.send_attempt(data) == right.send_attempt(data),
        left.send_to_attempt(data, addr) == right.send_to_attempt(data, addr),
        left.recv_attempt() == right.recv_attempt(),
        left.recv_from_attempt() == right.recv_from_attempt(),
        handler_target(left) == handler_target(right),
{
}

/// Setting options, binding and adding handlers never changes what the waiting
/// requests try: only connecting does.
pub proof fn law_only_connecting_changes_the_tries<'a, T, N: Backend>(
    socket: InodeSocket<N>,
    changes: Seq<Change>,
    data: &'a [u8],
    addr: SocketAddr,
)
    requires
        forall|i: int| 0 <= i < changes.len() ==> !(#[trigger] changes[i] is Connect),
    ensures
        ({
            let after = changed_by_all(socket, changes);
            &&& after.accept_attempt::<T>() == socket.accept_attempt::<T>()
            &&& after.send_attempt(data) == socket.send_attempt(data)
            &&& after.send_to_attempt(data, addr) == socket.send_to_attempt(data, addr)
            &&& after.recv_attempt() == socket.recv_attempt()
            &&& after.recv_from_attempt() == socket.recv_from_attempt()
        }),
{
    law_requests_keep_the_kind(socket, changes);
    if socket.inner.kind is UdpSocket {
        law_peer_lasts(socket, changes);
    }
    law_tries_follow_the_kind::<T, N>(socket, changed_by_all(socket, changes), data, addr);
}

/// What the network replies to a try ends the request, with the very value or the
/// very error of the reply, however the request stands and whatever the socket
/// is; except that a request which would block waits or is to try again.
pub proof fn law_replies_end_the_request<C, T>(
    polling: Polling,
    target: Result<SocketTarget, NetworkError>,
    retry: PollAction<C, T>,
    reply: Result<T, NetworkError>,
)
    ensures
        ({
            let (after, action) = polling.advanced(target, retry, PollEvent::Replied(reply));
            &&& after == polling
            &&& (reply matches Ok(value) ==> action == PollAction::<C, T>::Ready(Ok(value)))
            &&& (reply matches Err(error) ==> {
                &&& error != NetworkError::WouldBlock ==> action == PollAction::<C, T>::Ready(
                    Err(SocketError::Net(error)),
                )
                &&& error == NetworkError::WouldBlock ==> {
                    &&& polling.nonblocking ==> action == PollAction::<C, T>::Ready(
                        Err(SocketError::Errno(Errno::Again)),
                    )
                    &&& !polling.nonblocking && polling.handler_registered ==> action is Pending
                    &&& !polling.nonblocking && !polling.handler_registered ==> match target {
                        Ok(target) => action == PollAction::<C, T>::Register(target),
                        Err(error) => action == PollAction::<C, T>::Ready(
                            Err(SocketError::Net(error)),
                        ),
                    }
                }
            })
        }),
{
}

/// A request that is polled, or whose handler was set, tries; one whose handler
/// cannot be set ends with the error of the network. Whether it may block never
/// changes, and only setting the handler makes it count as set.
pub proof fn law_polls_and_handlers_try<C, T>(
    polling: Polling,
    target: Result<SocketTarget, NetworkError>,
    retry: PollAction<C, T>,
    error: NetworkError,
)
    ensures
        polling.advanced(target, retry, PollEvent::Polled) == (polling, retry),
        ({
            let (after, action) = polling.advanced(target, retry, PollEvent::Registered(Ok(())));
            &&& action == retry
            &&& after.handler_registered
            &&& after.nonblocking == polling.nonblocking
        }),
        polling.advanced(target, retry, PollEvent::Registered(Err(error))) == (
            polling,
            PollAction::<C, T>::Ready(Err(SocketError::Net(error))),
        ),
{
}

/// A handler is set on the open socket itself, and is removed from it again
/// exactly if it was set. A new request has set none and blocks unless it was
/// told not to.
pub proof fn law_handlers_are_set_on_the_socket<N: Backend>(
    socket: InodeSocket<N>,
    polling: Polling,
    nonblocking: bool,
)
    ensures
        handler_target(socket) == if socket.inner.kind is PreSocket {
            Err::<SocketTarget, NetworkError>(NetworkError::NotConnected)
        } else {
            Ok(socket.inner.kind.target()->0)
        },
        socket.inner.kind.target() is None <==> socket.inner.kind is PreSocket,
        socket.inner.kind.target() == Some(SocketTarget::Icmp) <==> socket.inner.kind is Icmp,
        socket.inner.kind.target() == Some(SocketTarget::Raw) <==> socket.inner.kind is Raw,
        socket.inner.kind.target() == Some(SocketTarget::TcpListener) <==> socket.inner.kind
            is TcpListener,
        socket.inner.kind.target() == Some(SocketTarget::TcpStream) <==> socket.inner.kind
            is TcpStream,
        socket.inner.kind.target() == Some(SocketTarget::UdpSocket) <==> socket.inner.kind
            is UdpSocket,
        polling.handler_registered ==> polling.leaves_handler(socket)
            == socket.inner.kind.target(),
        !polling.handler_registered ==> polling.leaves_handler(socket) is None,
        !Polling::fresh(nonblocking).handler_registered,
        Polling::fresh(nonblocking).nonblocking == nonblocking,
{
}

/// A request to receive takes what a raw socket or a stream reports as it is: the
/// amount that was received is the amount that it ends with, and an error is the
/// error. A datagram counts with its own length if it came from the peer, and as
/// if there were none if it did not.
pub proof fn law_receive_reports_what_came<N: Backend>(
    polling: Polling,
    socket: InodeSocket<N>,
    amount: usize,
    peer: SocketAddr,
    sender: SocketAddr,
    error: NetworkError,
)
    ensures
        polling.advanced(
            handler_target(socket),
            socket.recv_attempt(),
            RecvEvent::Received(Ok(amount)).heard(),
        ) == (polling, PollAction::<RecvCall, usize>::Ready(Ok(amount))),
        error != NetworkError::WouldBlock ==> {
            &&& polling.advanced(
                handler_target(socket),
                socket.recv_attempt(),
                RecvEvent::Received(Err(error)).heard(),
            ) == (polling, PollAction::<RecvCall, usize>::Ready(Err(SocketError::Net(error))))
            &&& polling.advanced(
                handler_target(socket),
                socket.recv_attempt(),
                (RecvEvent::Datagram { peer, reply: Err(error) }).heard(),
            ) == (polling, PollAction::<RecvCall, usize>::Ready(Err(SocketError::Net(error))))
        },
        polling.advanced(
            handler_target(socket),
            socket.recv_attempt(),
            (RecvEvent::Datagram { peer, reply: Ok((amount, sender)) }).heard(),
        ) == if sender == peer {
            (polling, PollAction::<RecvCall, usize>::Ready(Ok(amount)))
        } else {
            polling.advanced(
                handler_target(socket),
                socket.recv_attempt(),
                RecvEvent::Received(Err(NetworkError::WouldBlock)).heard(),
            )
        },
        RecvEvent::Received(Err(error)).heard() == PollEvent::<usize>::Replied(Err(error)),
        (RecvEvent::Datagram { peer, reply: Err(error) }).heard() == PollEvent::<usize>::Replied(
            Err(error),
        ),
        RecvEvent::Polled.heard() == PollEvent::<usize>::Polled,
        RecvEvent::Registered(Ok(())).heard() == PollEvent::<usize>::Registered(Ok(())),
        RecvEvent::Registered(Err(error)).heard() == PollEvent::<usize>::Registered(Err(error)),
{
}

/// What a request asked for last, if that is a call, is what it tries on the
/// socket of the last exchange.
proof fn lemma_calls_are_tries<N: Backend, T, R: Waits<N, T>>(
    request: R,
    nonblocking: bool,
    target: Option<SocketTarget>,
    exchanges: Seq<Exchange<N, T>>,
)
    requires
        orderly(request, nonblocking, target, exchanges),
    ensures
        run(request, nonblocking, exchanges).1 matches Some(PollAction::Call(call)) ==> {
            &&& exchanges.len() > 0
            &&& request.attempt(exchanges.last().socket) == PollAction::<R::Call, T>::Call(call)
        },
{
}

/// Over a whole run, a request ends with a value exactly if the last event was
/// the network's reply with that very value, and that was the reply to the call
/// which the request tries on the socket as it was just before.
pub proof fn law_results_are_replies<N: Backend, T, R: Waits<N, T>>(
    request: R,
    nonblocking: bool,
    target: Option<SocketTarget>,
    exchanges: Seq<Exchange<N, T>>,
    value: T,
)
    requires
        exchanges.len() > 0,
        orderly(request, nonblocking, target, exchanges),
    ensures
        run(request, nonblocking, exchanges).1 == Some(PollAction::<R::Call, T>::Ready(Ok(value)))
            <==> exchanges.last().event == PollEvent::<T>::Replied(Ok(value)),
        exchanges.last().event is Replied ==> {
            &&& exchanges.len() > 1
            &&& request.attempt(exchanges[exchanges.len() - 2].socket) is Call
            &&& run(request, nonblocking, exchanges.drop_last()).1 == Some(
                request.attempt(exchanges[exchanges.len() - 2].socket),
            )
        },
{
    let earlier = exchanges.drop_last();
    lemma_calls_are_tries(request, nonblocking, target, earlier);
    request.tries_call_or_end(exchanges.last().socket);
    if exchanges.last().event is Replied {
        assert(run(request, nonblocking, earlier).1 is Some);
        assert(earlier.len() > 0);
        assert(earlier.last() == exchanges[exchanges.len() - 2]);
    }
}

/// A send ends with an amount only if the network replied that amount to a call
/// that carried all of the bytes, on the socket that they were for.
pub proof fn law_a_send_reports_what_was_sent<'a, N: Backend>(
    request: SocketSender<'a>,
    nonblocking: bool,
    target: Option<SocketTarget>,
    exchanges: Seq<Exchange<N, usize>>,
    amount: usize,
)
    requires
        exchanges.len() > 0,
        orderly(request, nonblocking, target, exchanges),
        run(request, nonblocking, exchanges).1 == Some(
            PollAction::<SendCall<'a>, usize>::Ready(Ok(amount)),
        ),
    ensures
        exchanges.last().event == PollEvent::<usize>::Replied(Ok(amount)),
        ({
            let asked = run(request, nonblocking, exchanges.drop_last()).1;
            let socket = exchanges[exchanges.len() - 2].socket;
            &&& exchanges.len() > 1
            &&& asked matches Some(PollAction::Call(call))
            &&& handed_over(call)@ == request.data@
            &&& socket.inner.kind is Raw <==> call is RawTrySend
            &&& socket.inner.kind is TcpStream <==> call is TcpTrySend
            &&& socket.inner.kind is UdpSocket <==> call is UdpTrySendTo
            &&& call is UdpTrySendTo ==> sent_to(call) == socket.inner.kind->peer
        }),
{
    law_results_are_replies(request, nonblocking, target, exchanges, amount);
    law_send_hands_over_everything(exchanges[exchanges.len() - 2].socket, request.data);
}

/// A send to an address ends with an amount only if the network replied that
/// amount to a call that carried all of the bytes and the address.
pub proof fn law_a_send_to_reports_what_was_sent<'a, N: Backend>(
    request: SocketSenderTo<'a>,
    nonblocking: bool,
    target: Option<SocketTarget>,
    exchanges: Seq<Exchange<N, usize>>,
    amount: usize,
)
    requires
        exchanges.len() > 0,
        orderly(request, nonblocking, target, exchanges),
        run(request, nonblocking, exchanges).1 == Some(
            PollAction::<SendCall<'a>, usize>::Ready(Ok(amount)),
        ),
    ensures
        exchanges.last().event == PollEvent::<usize>::Replied(Ok(amount)),
        ({
            let asked = run(request, nonblocking, exchanges.drop_last()).1;
            &&& exchanges.len() > 1
            &&& asked matches Some(PollAction::Call(call))
            &&& handed_over(call)@ == request.data@
            &&& sent_to(call) == Some(request.addr)
        }),
{
    law_results_are_replies(request, nonblocking, target, exchanges, amount);
    law_send_to_reaches_the_address(
        exchanges[exchanges.len() - 2].socket,
        request.data,
        request.addr,
    );
}

/// An accept ends with a connection only if the network gave that connection for
/// the listener, and a receive from anyone only with a datagram that the network
/// gave, with its length and its sender.
pub proof fn law_accepts_and_datagrams_are_the_networks<N: Backend, T>(
    accepter: SocketAccepter,
    receiver: SocketReceiverFrom,
    nonblocking: bool,
    target: Option<SocketTarget>,
    accepts: Seq<Exchange<N, T>>,
    datagrams: Seq<Exchange<N, (usize, SocketAddr)>>,
    connection: T,
    datagram: (usize, SocketAddr),
)
    requires
        accepts.len() > 0,
        orderly(accepter, nonblocking, target, accepts),
        datagrams.len() > 0,
        orderly(receiver, nonblocking, target, datagrams),
    ensures
        run(accepter, nonblocking, accepts).1 == Some(
            PollAction::<AcceptCall, T>::Ready(Ok(connection)),
        ) ==> {
            &&& accepts.last().event == PollEvent::<T>::Replied(Ok(connection))
            &&& accepts.len() > 1
            &&& accepts[accepts.len() - 2].socket.inner.kind is TcpListener
        },
        run(receiver, nonblocking, datagrams).1 == Some(
            PollAction::<RecvFromCall, (usize, SocketAddr)>::Ready(Ok(datagram)),
        ) ==> {
            &&& datagrams.last().event == PollEvent::<(usize, SocketAddr)>::Replied(Ok(datagram))
            &&& datagrams.len() > 1
            &&& datagrams[datagrams.len() - 2].socket.inner.kind is Icmp
                || datagrams[datagrams.len() - 2].socket.inner.kind is UdpSocket
        },
{
    law_results_are_replies(accepter, nonblocking, target, accepts, connection);
    law_results_are_replies(receiver, nonblocking, target, datagrams, datagram);
    law_accept_asks_every_listener::<T, N>(accepts[accepts.len() - 2].socket);
    law_receive_from_asks_the_socket(datagrams[datagrams.len() - 2].socket);
}

/// Over a whole run on a raw socket or a stream, a receive ends with an amount
/// exactly if the last event was that very amount received from the socket.
pub proof fn law_a_receive_reports_what_came<N: Backend>(
    request: SocketReceiver,
    nonblocking: bool,
    target: SocketTarget,
    receptions: Seq<Reception<N>>,
    amount: usize,
)
    requires
        target is Raw || target is TcpStream,
        receptions.len() > 0,
        receives(request, nonblocking, Some(target), receptions),
    ensures
        run(request, nonblocking, heard_exchanges(receptions)).1 == Some(
            PollAction::<RecvCall, usize>::Ready(Ok(amount)),
        ) <==> receptions.last().event == RecvEvent::Received(Ok(amount)),
{
    let exchanges = heard_exchanges(receptions);
    lemma_hear_earlier(receptions);
    law_receiving_is_waiting(request, nonblocking, Some(target), receptions);
    law_results_are_replies(request, nonblocking, Some(target), exchanges, amount);
    lemma_calls_are_tries(request, nonblocking, Some(target), exchanges.drop_last());
    law_receiving_is_waiting(request, nonblocking, Some(target), receptions.drop_last());
    let earlier = receptions.drop_last();
    if earlier.len() > 0 {
        lemma_hear_earlier(earlier);
        assert(earlier.last().socket.inner.kind.target() == Some(target));
    }
}

} // verus!
