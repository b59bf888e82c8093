//! The options of a socket.
use crate::addr::{Ipv4Addr, Ipv6Addr, Shutdown};
use crate::call::{refused, FlagCall, LingerCall, SettingCall, SizeCall, Step, TtlCall};
use crate::error::Errno;
use crate::kind::{Backend, InodeSocketKind, PreSocketView};
use crate::socket::InodeSocket;
use crate::types::{TimeType, WasiSocketOption};
use std::time::Duration;
use vstd::prelude::*;

verus! {

impl<N: Backend> InodeSocketKind<N> {
    /// A request that only a TCP stream serves, with the code for a socket
    /// that is not open.
    pub open spec fn on_stream<C, T>(self, call: C, unopened: Errno) -> Step<C, T> {
        if self is TcpStream {
            Step::Call(call)
        } else if self is PreSocket {
            refused(unopened)
        } else {
            refused(Errno::Notsup)
        }
    }

    /// A request that only a UDP socket serves.
    pub open spec fn on_udp<C, T>(self, call: C) -> Step<C, T> {
        if self is UdpSocket {
            Step::Call(call)
        } else if self is PreSocket {
            refused(Errno::Io)
        } else {
            refused(Errno::Notsup)
        }
    }

    /// A request that a TCP stream and a UDP socket serve.
    pub open spec fn on_stream_or_udp<C, T>(self, stream: C, udp: C) -> Step<C, T> {
        if self is TcpStream {
            Step::Call(stream)
        } else {
            self.on_udp(udp)
        }
    }
}

/// The call that changes a flag of an open socket of this kind, if it has the
/// flag.
pub open spec fn set_flag_call<N: Backend>(
    kind: InodeSocketKind<N>,
    option: WasiSocketOption,
    val: bool,
) -> Option<SettingCall> {
    match (kind, option) {
        (InodeSocketKind::Raw(_), WasiSocketOption::Promiscuous) => Some(
            SettingCall::RawSetPromiscuous(val),
        ),
        (InodeSocketKind::TcpStream { .. }, WasiSocketOption::NoDelay) => Some(
            SettingCall::TcpSetNoDelay(val),
        ),
        (InodeSocketKind::UdpSocket { .. }, WasiSocketOption::Broadcast) => Some(
            SettingCall::UdpSetBroadcast(val),
        ),
        (InodeSocketKind::UdpSocket { .. }, WasiSocketOption::MulticastLoopV4) => Some(
            SettingCall::UdpSetMulticastLoopV4(val),
        ),
        (InodeSocketKind::UdpSocket { .. }, WasiSocketOption::MulticastLoopV6) => Some(
            SettingCall::UdpSetMulticastLoopV6(val),
        ),
        _ => None,
    }
}

/// The call that reads a flag of an open socket of this kind, if it has the
/// flag.
pub open spec fn get_flag_call<N: Backend>(
    kind: InodeSocketKind<N>,
    option: WasiSocketOption,
) -> Option<FlagCall> {
    match (kind, option) {
        (InodeSocketKind::Raw(_), WasiSocketOption::Promiscuous) => Some(FlagCall::RawPromiscuous),
        (InodeSocketKind::TcpStream { .. }, WasiSocketOption::NoDelay) => Some(
            FlagCall::TcpNoDelay,
        ),
        (InodeSocketKind::UdpSocket { .. }, WasiSocketOption::Broadcast) => Some(
            FlagCall::UdpBroadcast,
        ),
        (InodeSocketKind::UdpSocket { .. }, WasiSocketOption::MulticastLoopV4) => Some(
            FlagCall::UdpMulticastLoopV4,
        ),
        (InodeSocketKind::UdpSocket { .. }, WasiSocketOption::MulticastLoopV6) => Some(
            FlagCall::UdpMulticastLoopV6,
        ),
        _ => None,
    }
}

/// The code that a flag which the socket does not have is refused with:
/// listeners and ICMP sockets have no flags at all.
pub open spec fn flag_refusal<N: Backend>(kind: InodeSocketKind<N>) -> Errno {
    if kind is TcpListener || kind is Icmp {
        Errno::Notsup
    } else {
        Errno::Inval
    }
}

impl<N: Backend> InodeSocket<N> {
    /// What setting a flag does: the socket after it, and the step.
    pub open spec fn set_opt_flag_outcome(self, option: WasiSocketOption, val: bool) -> (
        Self,
        Step<SettingCall, ()>,
    ) {
        let kind = self.inner.kind;
        if kind is PreSocket {
            match kind.pre().with_flag(option, val) {
                Some(settings) => (self.with_settings(settings), Step::Done(Ok(()))),
                None => (self, refused(flag_refusal(kind))),
            }
        } else {
            match set_flag_call(kind, option, val) {
                Some(call) => (self, Step::Call(call)),
                None => (self, refused(flag_refusal(kind))),
            }
        }
    }

    /// Sets a flag: one that the socket remembers until it is opened, or one
    /// of the open socket.
    pub fn set_opt_flag(&mut self, option: WasiSocketOption, val: bool) -> (step: Step<
        SettingCall,
        (),
    >)
        ensures
            (*final(self), step) == old(self).set_opt_flag_outcome(option, val),
            step matches Step::Call(call) ==> old(self).inner.kind.target() == Some(call.target()),
            old(self).inner.well_formed() ==> final(self).inner.well_formed(),
    {
        match &mut self.inner.kind {
            InodeSocketKind::PreSocket { only_v6, reuse_port, reuse_addr, .. } => {
                match option {
                    WasiSocketOption::OnlyV6 => *only_v6 = val,
                    WasiSocketOption::ReusePort => *reuse_port = val,
                    WasiSocketOption::ReuseAddr => *reuse_addr = val,
                    _ => return Step::Done(Err(Errno::Inval)),
                }
                Step::Done(Ok(()))
            },
            InodeSocketKind::Raw(_) => match option {
                WasiSocketOption::Promiscuous => Step::Call(SettingCall::RawSetPromiscuous(val)),
                _ => Step::Done(Err(Errno::Inval)),
            },
            InodeSocketKind::TcpStream { .. } => match option {
                WasiSocketOption::NoDelay => Step::Call(SettingCall::TcpSetNoDelay(val)),
                _ => Step::Done(Err(Errno::Inval)),
            },
            InodeSocketKind::UdpSocket { .. } => match option {
                WasiSocketOption::Broadcast => Step::Call(SettingCall::UdpSetBroadcast(val)),
                WasiSocketOption::MulticastLoopV4 => Step::Call(
                    SettingCall::UdpSetMulticastLoopV4(val),
                ),
                WasiSocketOption::MulticastLoopV6 => Step::Call(
                    SettingCall::UdpSetMulticastLoopV6(val),
                ),
                _ => Step::Done(Err(Errno::Inval)),
            },
            _ => Step::Done(Err(Errno::Notsup)),
        }
    }

    /// What reading a flag leads to.
    pub open spec fn get_opt_flag_outcome(self, option: WasiSocketOption) -> Step<FlagCall, bool> {
        let kind = self.inner.kind;
        if kind is PreSocket {
            match kind.pre().flag(option) {
                Some(val) => Step::Done(Ok(val)),
                None => refused(flag_refusal(kind)),
            }
        } else {
            match get_flag_call(kind, option) {
                Some(call) => Step::Call(call),
                None => refused(flag_refusal(kind)),
            }
        }
    }

    /// Reads a flag: one that the socket remembers until it is opened, or one
    /// of the open socket.
    pub fn get_opt_flag(&self, option: WasiSocketOption) -> (step: Step<FlagCall, bool>)
        ensures
            step == self.get_opt_flag_outcome(option),
            step matches Step::Call(call) ==> self.inner.kind.target() == Some(call.target()),
    {
        match &self.inner.kind {
            InodeSocketKind::PreSocket { only_v6, reuse_port, reuse_addr, .. } => match option {
                WasiSocketOption::OnlyV6 => Step::Done(Ok(*only_v6)),
                WasiSocketOption::ReusePort => Step::Done(Ok(*reuse_port)),
                WasiSocketOption::ReuseAddr => Step::Done(Ok(*reuse_addr)),
                _ => Step::Done(Err(Errno::Inval)),
            },
            InodeSocketKind::Raw(_) => match option {
                WasiSocketOption::Promiscuous => Step::Call(FlagCall::RawPromiscuous),
                _ => Step::Done(Err(Errno::Inval)),
            },
            InodeSocketKind::TcpStream { .. } => match option {
                WasiSocketOption::NoDelay => Step::Call(FlagCall::TcpNoDelay),
                _ => Step::Done(Err(Errno::Inval)),
            },
            InodeSocketKind::UdpSocket { .. } => match option {
                WasiSocketOption::Broadcast => Step::Call(FlagCall::UdpBroadcast),
                WasiSocketOption::MulticastLoopV4 => Step::Call(FlagCall::UdpMulticastLoopV4),
                WasiSocketOption::MulticastLoopV6 => Step::Call(FlagCall::UdpMulticastLoopV6),
                _ => Step::Done(Err(Errno::Inval)),
            },
            _ => Step::Done(Err(Errno::Notsup)),
        }
    }

    /// What setting the size of the send buffer does: the socket after it, and
    /// the step.
    pub open spec fn set_send_buf_size_outcome(self, size: usize) -> (Self, Step<SettingCall, ()>) {
        match self.inner.kind {
            InodeSocketKind::PreSocket { .. } => (
                self.with_settings(
                    PreSocketView { send_buf_size: Some(size), ..self.inner.kind.pre() },
                ),
                Step::Done(Ok(())),
            ),
            InodeSocketKind::TcpStream { .. } => (
                self,
                Step::Call(SettingCall::TcpSetSendBufSize(size)),
            ),
            _ => (self, refused(Errno::Notsup)),
        }
    }

    /// Sets the size of the send buffer.
    pub fn set_send_buf_size(&mut self, size: usize) -> (step: Step<SettingCall, ()>)
        ensures
            (*final(self), step) == old(self).set_send_buf_size_outcome(size),
            step matches Step::Call(call) ==> old(self).inner.kind.target() == Some(call.target()),
            old(self).inner.well_formed() ==> final(self).inner.well_formed(),
    {
        match &mut self.inner.kind {
            InodeSocketKind::PreSocket { send_buf_size, .. } => {
                *send_buf_size = Some(size);
                Step::Done(Ok(()))
            },
            InodeSocketKind::TcpStream { .. } => Step::Call(
                SettingCall::TcpSetSendBufSize(size),
            ),
            _ => Step::Done(Err(Errno::Notsup)),
        }
    }

    /// What reading the size of the send buffer leads to.
    pub open spec fn send_buf_size_outcome(self) -> Step<SizeCall, usize> {
        match self.inner.kind {
            InodeSocketKind::PreSocket { .. } => Step::Done(
                Ok(
                    match self.inner.kind.pre().send_buf_size {
                        Some(size) => size,
                        None => 0,
                    },
                ),
            ),
            InodeSocketKind::TcpStream { .. } => Step::Call(SizeCall::TcpSendBufSize),
            _ => refused(Errno::Notsup),
        }
    }

    /// Reads the size of the send buffer; it is zero as long as the socket is
    /// not open and no size was set.
    pub fn send_buf_size(&self) -> (step: Step<SizeCall, usize>)
        ensures
            step == self.send_buf_size_outcome(),
            step matches Step::Call(call) ==> self.inner.kind.target() == Some(call.target()),
    {
        match &self.inner.kind {
            InodeSocketKind::PreSocket { send_buf_size, .. } => Step::Done(
                Ok((*send_buf_size).unwrap_or(0)),
            ),
            InodeSocketKind::TcpStream { .. } => Step::Call(SizeCall::TcpSendBufSize),
            _ => Step::Done(Err(Errno::Notsup)),
        }
    }

    /// What setting the size of the receive buffer does: the socket after it, and
    /// the step.
    pub open spec fn set_recv_buf_size_outcome(self, size: usize) -> (Self, Step<SettingCall, ()>) {
        match self.inner.kind {
            InodeSocketKind::PreSocket { .. } => (
                self.with_settings(
                    PreSocketView { recv_buf_size: Some(size), ..self.inner.kind.pre() },
                ),
                Step::Done(Ok(())),
            ),
            InodeSocketKind::TcpStream { .. } => (
                self,
                Step::Call(SettingCall::TcpSetRecvBufSize(size)),
            ),
            _ => (self, refused(Errno::Notsup)),
        }
    }

    /// Sets the size of the receive buffer.
    pub fn set_recv_buf_size(&mut self, size: usize) -> (step: Step<SettingCall, ()>)
        ensures
            (*final(self), step) == old(self).set_recv_buf_size_outcome(size),
            step matches Step::Call(call) ==> old(self).inner.kind.target() == Some(call.target()),
            old(self).inner.well_formed() ==> final(self).inner.well_formed(),
    {
        match &mut self.inner.kind {
            InodeSocketKind::PreSocket { recv_buf_size, .. } => {
                *recv_buf_size = Some(size);
                Step::Done(Ok(()))
            },
            InodeSocketKind::TcpStream { .. } => Step::Call(
                SettingCall::TcpSetRecvBufSize(size),
            ),
            _ => Step::Done(Err(Errno::Notsup)),
        }
    }

    /// What reading the size of the receive buffer leads to.
    pub open spec fn recv_buf_size_outcome(self) -> Step<SizeCall, usize> {
        match self.inner.kind {
            InodeSocketKind::PreSocket { .. } => Step::Done(
                Ok(
                    match self.inner.kind.pre().recv_buf_size {
                        Some(size) => size,
                        None => 0,
                    },
                ),
            ),
            InodeSocketKind::TcpStream { .. } => Step::Call(SizeCall::TcpRecvBufSize),
            _ => refused(Errno::Notsup),
        }
    }

    /// Reads the size of the receive buffer; it is zero as long as the socket is
    /// not open and no size was set.
    pub fn recv_buf_size(&self) -> (step: Step<SizeCall, usize>)
        ensures
            step == self.recv_buf_size_outcome(),
            step matches Step::Call(call) ==> self.inner.kind.target() == Some(call.target()),
    {
        match &self.inner.kind {
            InodeSocketKind::PreSocket { recv_buf_size, .. } => Step::Done(
                Ok((*recv_buf_size).unwrap_or(0)),
            ),
            InodeSocketKind::TcpStream { .. } => Step::Call(SizeCall::TcpRecvBufSize),
            _ => Step::Done(Err(Errno::Notsup)),
        }
    }

    /// Sets how long a TCP stream lingers.
    pub fn set_linger(&self, linger: Option<Duration>) -> (step: Step<SettingCall, ()>)
        ensures
            step == self.inner.kind.on_stream::<SettingCall, ()>(
                SettingCall::TcpSetLinger(linger),
                Errno::Io,
            ),
            step matches Step::Call(call) ==> self.inner.kind.target() == Some(call.target()),
    {
        match &self.inner.kind {
            InodeSocketKind::TcpStream { .. } => Step::Call(SettingCall::TcpSetLinger(linger)),
            InodeSocketKind::PreSocket { .. } => Step::Done(Err(Errno::Io)),
            _ => Step::Done(Err(Errno::Notsup)),
        }
    }

    /// Reads how long a TCP stream lingers.
    pub fn linger(&self) -> (step: Step<LingerCall, Option<Duration>>)
        ensures
            step == self.inner.kind.on_stream::<LingerCall, Option<Duration>>(
                LingerCall::TcpLinger,
                Errno::Io,
            ),
            step matches Step::Call(call) ==> self.inner.kind.target() == Some(call.target()),
    {
        match &self.inner.kind {
            InodeSocketKind::TcpStream { .. } => Step::Call(LingerCall::TcpLinger),
            InodeSocketKind::PreSocket { .. } => Step::Done(Err(Errno::Io)),
            _ => Step::Done(Err(Errno::Notsup)),
        }
    }

    /// What setting a timeout does: the socket after it, and the answer.
    pub open spec fn set_opt_time_outcome(self, ty: TimeType, timeout: Option<Duration>) -> (
        Self,
        Result<(), Errno>,
    ) {
        match self.inner.kind.with_timeout(ty, timeout) {
            Some(kind) => (self.with_kind(kind), Ok(())),
            None => (
                self,
                Err(
                    match self.inner.kind {
                        InodeSocketKind::PreSocket { .. } => Errno::Io,
                        InodeSocketKind::TcpStream { .. }
                        | InodeSocketKind::TcpListener { .. } => Errno::Inval,
                        _ => Errno::Notsup,
                    },
                ),
            ),
        }
    }

    /// Sets a timeout that the socket remembers.
    pub fn set_opt_time(&mut self, ty: TimeType, timeout: Option<Duration>) -> (answer: Result<
        (),
        Errno,
    >)
        ensures
            (*final(self), answer) == old(self).set_opt_time_outcome(ty, timeout),
            old(self).inner.well_formed() ==> final(self).inner.well_formed(),
    {
        match &mut self.inner.kind {
            InodeSocketKind::TcpStream { write_timeout, read_timeout, .. } => {
                match ty {
                    TimeType::WriteTimeout => *write_timeout = timeout,
                    TimeType::ReadTimeout => *read_timeout = timeout,
                    _ => return Err(Errno::Inval),
                }
                Ok(())
            },
            InodeSocketKind::TcpListener { accept_timeout, .. } => {
                match ty {
                    TimeType::AcceptTimeout => *accept_timeout = timeout,
                    _ => return Err(Errno::Inval),
                }
                Ok(())
            },
            InodeSocketKind::PreSocket {
                read_timeout,
                write_timeout,
                connect_timeout,
                accept_timeout,
                ..
            } => {
                match ty {
                    TimeType::ConnectTimeout => *connect_timeout = timeout,
                    TimeType::AcceptTimeout => *accept_timeout = timeout,
                    TimeType::ReadTimeout => *read_timeout = timeout,
                    TimeType::WriteTimeout => *write_timeout = timeout,
                    _ => return Err(Errno::Io),
                }
                Ok(())
            },
            _ => Err(Errno::Notsup),
        }
    }

    /// What reading a timeout answers.
    pub open spec fn opt_time_outcome(self, ty: TimeType) -> Result<Option<Duration>, Errno> {
        match self.inner.kind.timeout(ty) {
            Some(timeout) => Ok(timeout),
            None => Err(
                match self.inner.kind {
                    InodeSocketKind::PreSocket { .. }
                    | InodeSocketKind::TcpStream { .. }
                    | InodeSocketKind::TcpListener { .. } => Errno::Inval,
                    _ => Errno::Notsup,
                },
            ),
        }
    }

    /// The timeout that the socket remembers for a time type.
    pub fn opt_time(&self, ty: TimeType) -> (timeout: Result<Option<Duration>, Errno>)
        ensures
            timeout == self.opt_time_outcome(ty),
    {
        match &self.inner.kind {
            InodeSocketKind::TcpStream { read_timeout, write_timeout, .. } => match ty {
                TimeType::ReadTimeout => Ok(*read_timeout),
                TimeType::WriteTimeout => Ok(*write_timeout),
                _ => Err(Errno::Inval),
            },
            InodeSocketKind::TcpListener { accept_timeout, .. } => match ty {
                TimeType::AcceptTimeout => Ok(*accept_timeout),
                _ => Err(Errno::Inval),
            },
            InodeSocketKind::PreSocket {
                read_timeout,
                write_timeout,
                connect_timeout,
                accept_timeout,
                ..
            } => match ty {
                TimeType::ConnectTimeout => Ok(*connect_timeout),
                TimeType::AcceptTimeout => Ok(*accept_timeout),
                TimeType::ReadTimeout => Ok(*read_timeout),
                TimeType::WriteTimeout => Ok(*write_timeout),
                _ => Err(Errno::Inval),
            },
            _ => Err(Errno::Notsup),
        }
    }

    /// Sets the time to live of what the socket sends.
    pub fn set_ttl(&self, ttl: u32) -> (step: Step<SettingCall, ()>)
        ensures
            step == self.inner.kind.on_stream_or_udp::<SettingCall, ()>(
                SettingCall::TcpSetTtl(ttl),
                SettingCall::UdpSetTtl(ttl),
            ),
            step matches Step::Call(call) ==> self.inner.kind.target() == Some(call.target()),
    {
        match &self.inner.kind {
            InodeSocketKind::TcpStream { .. } => Step::Call(SettingCall::TcpSetTtl(ttl)),
            InodeSocketKind::UdpSocket { .. } => Step::Call(SettingCall::UdpSetTtl(ttl)),
            InodeSocketKind::PreSocket { .. } => Step::Done(Err(Errno::Io)),
            _ => Step::Done(Err(Errno::Notsup)),
        }
    }

    /// Reads the time to live of what the socket sends.
    pub fn ttl(&self) -> (step: Step<TtlCall, u32>)
        ensures
            step == self.inner.kind.on_stream_or_udp::<TtlCall, u32>(
                TtlCall::TcpTtl,
                TtlCall::UdpTtl,
            ),
            step matches Step::Call(call) ==> self.inner.kind.target() == Some(call.target()),
    {
        match &self.inner.kind {
            InodeSocketKind::TcpStream { .. } => Step::Call(TtlCall::TcpTtl),
            InodeSocketKind::UdpSocket { .. } => Step::Call(TtlCall::UdpTtl),
            InodeSocketKind::PreSocket { .. } => Step::Done(Err(Errno::Io)),
            _ => Step::Done(Err(Errno::Notsup)),
        }
    }

    /// Sets the time to live of IPv4 multicast datagrams.
    pub fn set_multicast_ttl_v4(&self, ttl: u32) -> (step: Step<SettingCall, ()>)
        ensures
            step == self.inner.kind.on_udp::<SettingCall, ()>(
                SettingCall::UdpSetMulticastTtlV4(ttl),
            ),
            step matches Step::Call(call) ==> self.inner.kind.target() == Some(call.target()),
    {
        match &self.inner.kind {
            InodeSocketKind::UdpSocket { .. } => Step::Call(SettingCall::UdpSetMulticastTtlV4(ttl)),
            InodeSocketKind::PreSocket { .. } => Step::Done(Err(Errno::Io)),
            _ => Step::Done(Err(Errno::Notsup)),
        }
    }

    /// Reads the time to live of IPv4 multicast datagrams.
    pub fn multicast_ttl_v4(&self) -> (step: Step<TtlCall, u32>)
        ensures
            step == self.inner.kind.on_udp::<TtlCall, u32>(TtlCall::UdpMulticastTtlV4),
            step matches Step::Call(call) ==> self.inner.kind.target() == Some(call.target()),
    {
        match &self.inner.kind {
            InodeSocketKind::UdpSocket { .. } => Step::Call(TtlCall::UdpMulticastTtlV4),
            InodeSocketKind::PreSocket { .. } => Step::Done(Err(Errno::Io)),
            _ => Step::Done(Err(Errno::Notsup)),
        }
    }

    /// Joins an IPv4 multicast group at an interface.
    pub fn join_multicast_v4(&self, multiaddr: Ipv4Addr, iface: Ipv4Addr) -> (step: Step<
        SettingCall,
        (),
    >)
        ensures
            step == self.inner.kind.on_udp::<SettingCall, ()>(
                SettingCall::UdpJoinMulticastV4 { multiaddr, iface },
            ),
            step matches Step::Call(call) ==> self.inner.kind.target() == Some(call.target()),
    {
        match &self.inner.kind {
            InodeSocketKind::UdpSocket { .. } => Step::Call(
                SettingCall::UdpJoinMulticastV4 { multiaddr, iface },
            ),
            InodeSocketKind::PreSocket { .. } => Step::Done(Err(Errno::Io)),
            _ => Step::Done(Err(Errno::Notsup)),
        }
    }

    /// Leaves an IPv4 multicast group at an interface.
    pub fn leave_multicast_v4(&self, multiaddr: Ipv4Addr, iface: Ipv4Addr) -> (step: Step<
        SettingCall,
        (),
    >)
        ensures
            step == self.inner.kind.on_udp::<SettingCall, ()>(
                SettingCall::UdpLeaveMulticastV4 { multiaddr, iface },
            ),
            step matches Step::Call(call) ==> self.inner.kind.target() == Some(call.target()),
    {
        match &self.inner.kind {
            InodeSocketKind::UdpSocket { .. } => Step::Call(
                SettingCall::UdpLeaveMulticastV4 { multiaddr, iface },
            ),
            InodeSocketKind::PreSocket { .. } => Step::Done(Err(Errno::Io)),
            _ => Step::Done(Err(Errno::Notsup)),
        }
    }

    /// Joins an IPv6 multicast group at an interface.
    pub fn join_multicast_v6(&self, multiaddr: Ipv6Addr, iface: u32) -> (step: Step<
        SettingCall,
        (),
    >)
        ensures
            step == self.inner.kind.on_udp::<SettingCall, ()>(
                SettingCall::UdpJoinMulticastV6 { multiaddr, iface },
            ),
            step matches Step::Call(call) ==> self.inner.kind.target() == Some(call.target()),
    {
        match &self.inner.kind {
            InodeSocketKind::UdpSocket { .. } => Step::Call(
                SettingCall::UdpJoinMulticastV6 { multiaddr, iface },
            ),
            InodeSocketKind::PreSocket { .. } => Step::Done(Err(Errno::Io)),
            _ => Step::Done(Err(Errno::Notsup)),
        }
    }

    /// Leaves an IPv6 multicast group at an interface.
    pub fn leave_multicast_v6(&self, multiaddr: Ipv6Addr, iface: u32) -> (step: Step<
        SettingCall,
        (),
    >)
        ensures
            step == self.inner.kind.on_udp::<SettingCall, ()>(
                SettingCall::UdpLeaveMulticastV6 { multiaddr, iface },
            ),
            step matches Step::Call(call) ==> self.inner.kind.target() == Some(call.target()),
    {
        match &self.inner.kind {
            InodeSocketKind::UdpSocket { .. } => Step::Call(
                SettingCall::UdpLeaveMulticastV6 { multiaddr, iface },
            ),
            InodeSocketKind::PreSocket { .. } => Step::Done(Err(Errno::Io)),
            _ => Step::Done(Err(Errno::Notsup)),
        }
    }

    /// What shutting down leads to.
    pub open spec fn shutdown_outcome(self, how: Shutdown) -> Step<SettingCall, ()> {
        self.inner.kind.on_stream(SettingCall::TcpShutdown(how), Errno::Notconn)
    }

    /// Shuts down one or both halves of a TCP stream.
    pub fn shutdown(&self, how: Shutdown) -> (step: Step<SettingCall, ()>)
        ensures
            step == self.shutdown_outcome(how),
            step matches Step::Call(call) ==> self.inner.kind.target() == Some(call.target()),
    {
        match &self.inner.kind {
            InodeSocketKind::TcpStream { .. } => Step::Call(SettingCall::TcpShutdown(how)),
            InodeSocketKind::PreSocket { .. } => Step::Done(Err(Errno::Notconn)),
            _ => Step::Done(Err(Errno::Notsup)),
        }
    }
}

} // verus!
