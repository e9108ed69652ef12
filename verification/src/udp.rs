//! Setting up the UDP socket of a context.
use crate::opts::UtpOpts;
use vstd::prelude::*;

verus! {

/// The operations that set up a UDP socket, and how it has ended. Every
/// operation either succeeds or fails; which one comes next depends on that.
#[derive(Clone, Copy, Debug, PartialEq, Eq, Structural)]
pub enum UdpSetup {
    /// Bind the socket to its address.
    Bind,
    /// Take the socket out of the runtime.
    IntoStd { size: usize },
    /// Set the size of the receive buffer.
    SetRecvBuffer { size: usize },
    /// Hand the socket back to the runtime.
    FromStd,
    /// The socket is set up.
    Done,
    /// The socket could not be set up.
    Failed(UdpFailure),
}

/// The operation for whose failure a UDP socket could not be set up.
#[derive(Clone, Copy, Debug, PartialEq, Eq, Structural)]
pub enum UdpFailure {
    Bind,
    IntoStd,
    FromStd,
}

impl UdpSetup {
    /// What comes after an operation. The receive buffer is touched only if a
    /// size was asked for, and it does not matter whether it could be set.
    pub open spec fn next(self, udp_rcvbuf: Option<usize>, ok: bool) -> UdpSetup {
        match (self, ok) {
            (UdpSetup::Bind, true) => match udp_rcvbuf {
                Some(size) => UdpSetup::IntoStd { size },
                None => UdpSetup::Done,
            },
            (UdpSetup::Bind, false) => UdpSetup::Failed(UdpFailure::Bind),
            (UdpSetup::IntoStd { size }, true) => UdpSetup::SetRecvBuffer { size },
            (UdpSetup::IntoStd { .. }, false) => UdpSetup::Failed(UdpFailure::IntoStd),
            (UdpSetup::SetRecvBuffer { .. }, _) => UdpSetup::FromStd,
            (UdpSetup::FromStd, true) => UdpSetup::Done,
            (UdpSetup::FromStd, false) => UdpSetup::Failed(UdpFailure::FromStd),
            (UdpSetup::Done, _) => self,
            (UdpSetup::Failed(_), _) => self,
        }
    }

    /// What comes after an operation that has succeeded or failed.
    pub fn step(self, opts: &UtpOpts, ok: bool) -> (next: UdpSetup)
        ensures
            next == self.next(opts.udp_rcvbuf, ok),
            next matches UdpSetup::IntoStd { size } ==> self is Bind && opts.udp_rcvbuf == Some(
                size,
            ),
            next matches UdpSetup::SetRecvBuffer { size } ==> self == (UdpSetup::IntoStd { size })
                && ok,
            next is FromStd <==> self is SetRecvBuffer,
            next is Done <==> self is Done || (ok && (self is FromStd || (self is Bind
                && opts.udp_rcvbuf is None))),
            next == UdpSetup::Failed(UdpFailure::Bind) <==> self == UdpSetup::Failed(
                UdpFailure::Bind,
            ) || (self is Bind && !ok),
            next == UdpSetup::Failed(UdpFailure::IntoStd) <==> self == UdpSetup::Failed(
                UdpFailure::IntoStd,
            ) || (self is IntoStd && !ok),
            next == UdpSetup::Failed(UdpFailure::FromStd) <==> self == UdpSetup::Failed(
                UdpFailure::FromStd,
            ) || (self is FromStd && !ok),
            next !is Bind,
    {
        match self {
            UdpSetup::Bind => {
                if !ok {
                    return UdpSetup::Failed(UdpFailure::Bind);
                }
                match opts.udp_rcvbuf {
                    Some(size) => UdpSetup::IntoStd { size },
                    None => UdpSetup::Done,
                }
            },
            UdpSetup::IntoStd { size } => if ok {
                UdpSetup::SetRecvBuffer { size }
            } else {
                UdpSetup::Failed(UdpFailure::IntoStd)
            },
            UdpSetup::SetRecvBuffer { .. } => UdpSetup::FromStd,
            UdpSetup::FromStd => if ok {
                UdpSetup::Done
            } else {
                UdpSetup::Failed(UdpFailure::FromStd)
            },
            UdpSetup::Done => self,
            UdpSetup::Failed(_) => self,
        }
    }
}

} // verus!
