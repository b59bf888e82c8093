//! The settings that a socket itself remembers.
use crate::kind::{Backend, InodeSocketKind, PreSocketView};
use crate::types::{TimeType, WasiSocketOption};
use std::time::Duration;
use vstd::prelude::*;

verus! {

impl PreSocketView {
    /// The flag that is remembered for an option, if one is.
    pub open spec fn flag(self, option: WasiSocketOption) -> Option<bool> {
        match option {
            WasiSocketOption::OnlyV6 => Some(self.only_v6),
            WasiSocketOption::ReusePort => Some(self.reuse_port),
            WasiSocketOption::ReuseAddr => Some(self.reuse_addr),
            _ => None,
        }
    }

    /// The settings with one flag changed, if one is remembered for the option.
    pub open spec fn with_flag(self, option: WasiSocketOption, val: bool) -> Option<PreSocketView> {
        match option {
            WasiSocketOption::OnlyV6 => Some(PreSocketView { only_v6: val, ..self }),
            WasiSocketOption::ReusePort => Some(PreSocketView { reuse_port: val, ..self }),
            WasiSocketOption::ReuseAddr => Some(PreSocketView { reuse_addr: val, ..self }),
            _ => None,
        }
    }

    /// The timeout setting that is remembered for a time type, if one is.
    pub open spec fn timeout(self, ty: TimeType) -> Option<Option<Duration>> {
        match ty {
            TimeType::ReadTimeout => Some(self.read_timeout),
            TimeType::WriteTimeout => Some(self.write_timeout),
            TimeType::AcceptTimeout => Some(self.accept_timeout),
            TimeType::ConnectTimeout => Some(self.connect_timeout),
            _ => None,
        }
    }

    /// The settings with one timeout changed, if one is remembered for the
    /// time type.
    pub open spec fn with_timeout(self, ty: TimeType, timeout: Option<Duration>) -> Option<
        PreSocketView,
    > {
        match ty {
            TimeType::ReadTimeout => Some(PreSocketView { read_timeout: timeout, ..self }),
            TimeType::WriteTimeout => Some(PreSocketView { write_timeout: timeout, ..self }),
            TimeType::AcceptTimeout => Some(PreSocketView { accept_timeout: timeout, ..self }),
            TimeType::ConnectTimeout => Some(PreSocketView { connect_timeout: timeout, ..self }),
            _ => None,
        }
    }
}

impl<N: Backend> InodeSocketKind<N> {
    /// The timeout setting that the socket remembers for a time type, if it
    /// remembers one.
    pub open spec fn timeout(self, ty: TimeType) -> Option<Option<Duration>> {
        match (self, ty) {
            (InodeSocketKind::PreSocket { .. }, _) => self.pre().timeout(ty),
            (InodeSocketKind::TcpStream { read_timeout, .. }, TimeType::ReadTimeout) => Some(
                read_timeout,
            ),
            (InodeSocketKind::TcpStream { write_timeout, .. }, TimeType::WriteTimeout) => Some(
                write_timeout,
            ),
            (InodeSocketKind::TcpListener { accept_timeout, .. }, TimeType::AcceptTimeout) => Some(
                accept_timeout,
            ),
            _ => None,
        }
    }

    /// The socket with one timeout changed, if it remembers one for the time
    /// type.
    pub open spec fn with_timeout(self, ty: TimeType, timeout: Option<Duration>) -> Option<Self> {
        match (self, ty) {
            (InodeSocketKind::PreSocket { .. }, _) => match self.pre().with_timeout(ty, timeout) {
                Some(settings) => Some(Self::with_settings(settings)),
                None => None,
            },
            (
                InodeSocketKind::TcpStream { socket, write_timeout, read_timeout },
                TimeType::ReadTimeout,
            ) => Some(
                InodeSocketKind::TcpStream { socket, write_timeout, read_timeout: timeout },
            ),
            (
                InodeSocketKind::TcpStream { socket, write_timeout, read_timeout },
                TimeType::WriteTimeout,
            ) => Some(
                InodeSocketKind::TcpStream { socket, write_timeout: timeout, read_timeout },
            ),
            (InodeSocketKind::TcpListener { socket, .. }, TimeType::AcceptTimeout) => Some(
                InodeSocketKind::TcpListener { socket, accept_timeout: timeout },
            ),
            _ => None,
        }
    }
}

} // verus!
