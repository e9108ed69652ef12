//! The loop that feeds libutp with datagrams and time.
use crate::progress::Progress;
use vstd::prelude::*;

verus! {

/// The size in bytes of the buffer that datagrams are received into.
pub const RECV_BUFFER_SIZE: usize = 16384;

/// How often, in milliseconds, libutp gets to look for timeouts.
pub const TIMEOUT_INTERVAL_MILLIS: u64 = 500;

/// What follows when the transport was asked for a datagram.
#[derive(Debug, PartialEq, Eq)]
pub enum RecvStep<R> {
    /// The answer is passed on.
    Deliver(R),
    /// Nothing is left to receive for now: libutp is to send the
    /// acknowledgements that it has held back, and then the loop waits.
    IssueDeferredAcks,
}

/// What the loop goes by: what it has waited for, whichever came first, and what
/// libutp made of a datagram.
#[derive(Debug, PartialEq, Eq)]
pub enum LoopEvent<A, E> {
    /// The transport has received a datagram of this length from this address,
    /// or has failed.
    Received(Result<(usize, A), E>),
    /// `utp_process_udp` has returned this number for the datagram it was handed.
    Processed { res: i32 },
    /// The interval for timeouts is over.
    Tick,
}

/// What the loop does next.
#[derive(Debug, PartialEq, Eq)]
pub enum LoopAction<A> {
    /// Hand libutp the datagram.
    ProcessUdp { len: usize, addr: A },
    /// Let libutp look for timeouts.
    CheckTimeouts,
    /// Wait for a datagram or a tick. Where libutp could not use the last
    /// datagram, what it returned is worth a line in the log.
    Wait { errored: Option<i32> },
}

/// Held-back acknowledgements are sent exactly when nothing is left to receive.
pub fn recv_from<R>(polled: Progress<R>) -> (step: RecvStep<R>)
    ensures
        match polled {
            Progress::Ready(answer) => step == RecvStep::Deliver(answer),
            Progress::Pending => step == RecvStep::<R>::IssueDeferredAcks,
        },
{
    match polled {
        Progress::Ready(answer) => RecvStep::Deliver(answer),
        Progress::Pending => RecvStep::IssueDeferredAcks,
    }
}

/// What the loop does on an event, if it goes on at all: a received datagram is
/// handed to libutp as it came, a tick lets libutp look for timeouts, and a
/// failure to receive ends the loop. A datagram that libutp could not use,
/// for which it returns a negative number, does not.
pub open spec fn loop_action<A, E>(event: LoopEvent<A, E>) -> Option<LoopAction<A>> {
    match event {
        LoopEvent::Received(Ok((len, addr))) => Some(LoopAction::ProcessUdp { len, addr }),
        LoopEvent::Received(Err(_)) => None,
        LoopEvent::Processed { res } => Some(
            LoopAction::Wait {
                errored: if res < 0 {
                    Some(res)
                } else {
                    None
                },
            },
        ),
        LoopEvent::Tick => Some(LoopAction::CheckTimeouts),
    }
}

/// What the loop does on an event. It does not go on once the transport has
/// failed to receive.
pub fn next_action<A, E>(event: LoopEvent<A, E>) -> (action: LoopAction<A>)
    requires
        event matches LoopEvent::Received(received) ==> received is Ok,
    ensures
        loop_action(event) == Some(action),
        action is ProcessUdp <==> event is Received,
        action is CheckTimeouts <==> event is Tick,
        action matches LoopAction::ProcessUdp { len, addr } ==> event == LoopEvent::<
            A,
            E,
        >::Received(Ok((len, addr))),
        event matches LoopEvent::Processed { res } ==> (action matches LoopAction::Wait { errored }
            && (errored is Some <==> res < 0) && (errored matches Some(number) ==> number == res)),
{
    match event {
        LoopEvent::Received(Ok((len, addr))) => LoopAction::ProcessUdp { len, addr },
        LoopEvent::Received(Err(_)) => vstd::pervasive::unreached(),
        LoopEvent::Processed { res } => {
            if res < 0 {
                return LoopAction::Wait { errored: Some(res) };
            }
            LoopAction::Wait { errored: None }
        },
        LoopEvent::Tick => LoopAction::CheckTimeouts,
    }
}

} // verus!
