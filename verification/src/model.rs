//! The mathematical model of a stream.
use crate::codes::{
    MAGIC, RX_BUF_CAPACITY, SHUT_RDWR, UTP_STATE_CONNECT, UTP_STATE_DESTROYING, UTP_STATE_EOF,
    UTP_STATE_WRITABLE,
};
use crate::error::UtpError;
use crate::progress::Progress;
use crate::ring::min_len;
use vstd::prelude::*;

verus! {

/// What follows from an event on a stream, beyond the change to the stream
/// itself: the parts that are set are performed in the order of the fields.
#[derive(Clone, Copy, Debug, PartialEq, Eq, Structural)]
pub struct Effects {
    /// Tell libutp that the received bytes were taken.
    pub read_drained: bool,
    /// Wake the task that waits to read.
    pub wake_reader: bool,
    /// Wake the task that waits to write.
    pub wake_writer: bool,
}

/// What a state number of libutp means.
#[derive(Clone, Copy, Debug, PartialEq, Eq, Structural)]
pub enum SocketState {
    Connect,
    Writable,
    Eof,
    Destroying,
    /// A number that libutp does not document.
    Unknown(u32),
}

/// The meaning of a state number. One without a meaning is kept as the unsigned
/// number with the same bits.
pub open spec fn socket_state(code: i32) -> SocketState {
    if code == UTP_STATE_EOF {
        SocketState::Eof
    } else if code == UTP_STATE_CONNECT {
        SocketState::Connect
    } else if code == UTP_STATE_WRITABLE {
        SocketState::Writable
    } else if code == UTP_STATE_DESTROYING {
        SocketState::Destroying
    } else if code >= 0 {
        SocketState::Unknown(code as u32)
    } else {
        SocketState::Unknown((code + 0x1_0000_0000) as u32)
    }
}

/// The state in which no more bytes will arrive.
pub open spec fn ends_reading(state: SocketState) -> bool {
    state == SocketState::Eof || state == SocketState::Destroying
}

/// The effects of an established connection.
pub open spec fn connect_effects() -> Effects {
    Effects { read_drained: false, wake_reader: false, wake_writer: true }
}

/// The effects of received bytes.
pub open spec fn receive_effects() -> Effects {
    Effects { read_drained: true, wake_reader: true, wake_writer: false }
}

/// The effects of a change of state: readers are woken when the stream ends,
/// writers when it connects, takes bytes again or is destroyed.
pub open spec fn state_effects(state: SocketState) -> Effects {
    Effects {
        read_drained: false,
        wake_reader: ends_reading(state),
        wake_writer: state == SocketState::Connect || state == SocketState::Writable || state
            == SocketState::Destroying,
    }
}

/// The part of a stream that libutp's callbacks reach.
#[verifier::ext_equal]
pub struct InnerModel<S> {
    /// The received bytes that were not read yet, oldest first.
    pub buffered: Seq<u8>,
    /// No more bytes will arrive.
    pub eof: bool,
    /// The mark that callbacks check.
    pub magic: u64,
    /// The socket of libutp.
    pub socket: Option<S>,
}

impl<S> InnerModel<S> {
    /// A stream on which nothing has happened yet.
    pub open spec fn fresh(socket: Option<S>) -> Self {
        InnerModel { buffered: Seq::empty(), eof: false, magic: MAGIC, socket }
    }

    /// What holds of every stream.
    pub open spec fn valid(self) -> bool {
        &&& self.buffered.len() <= RX_BUF_CAPACITY
        &&& self.magic == MAGIC
    }

    /// The leading part of `bytes` that there is room for.
    pub open spec fn accepted(self, bytes: Seq<u8>) -> Seq<u8> {
        bytes.take(min_len(bytes.len() as int, RX_BUF_CAPACITY - self.buffered.len()))
    }

    /// The stream after `bytes` were received.
    pub open spec fn receive(self, bytes: Seq<u8>) -> Self {
        InnerModel { buffered: self.buffered + self.accepted(bytes), ..self }
    }

    /// The stream after a change of state.
    pub open spec fn change_state(self, state: SocketState) -> Self {
        InnerModel { eof: self.eof || ends_reading(state), ..self }
    }

    /// How many bytes a read into `room` places yields.
    pub open spec fn read_len(self, room: nat) -> int {
        min_len(room as int, self.buffered.len() as int)
    }

    /// The bytes that a read into `room` places yields.
    pub open spec fn delivered(self, room: nat) -> Seq<u8> {
        self.buffered.take(self.read_len(room))
    }

    /// The stream after a read into `room` places.
    pub open spec fn read(self, room: nat) -> Self {
        InnerModel { buffered: self.buffered.skip(self.read_len(room)), ..self }
    }

    /// A read into `room` places has to wait.
    pub open spec fn blocks(self, room: nat) -> bool {
        self.read_len(room) == 0 && !self.eof
    }

    /// What a read into `room` places reports.
    pub open spec fn read_progress(self, room: nat) -> Progress<usize> {
        if self.blocks(room) {
            Progress::Pending
        } else {
            Progress::Ready(self.read_len(room) as usize)
        }
    }
}

/// What a shutdown has come to.
#[derive(Clone, Copy, Debug, PartialEq, Eq, Structural)]
pub enum ShutdownAction {
    /// The request is refused with this error.
    Refuse(UtpError),
    /// `utp_shutdown` is to be called with this mode, and the request is granted.
    Force { how: i32 },
}

/// A stream as its user holds it.
#[verifier::ext_equal]
pub struct StreamModel<S> {
    pub inner: InnerModel<S>,
    /// A shutdown was asked for before.
    pub shutdown_called: bool,
}

impl<S> StreamModel<S> {
    /// A stream on which nothing has happened yet.
    pub open spec fn fresh(socket: Option<S>) -> Self {
        StreamModel { inner: InnerModel::fresh(socket), shutdown_called: false }
    }

    /// The stream with its inner part replaced.
    pub open spec fn with_inner(self, inner: InnerModel<S>) -> Self {
        StreamModel { inner, ..self }
    }

    /// What a request to shut down is answered: the first one is refused, and
    /// every later one is granted.
    pub open spec fn shutdown_action(self) -> ShutdownAction {
        if self.shutdown_called {
            ShutdownAction::Force { how: SHUT_RDWR }
        } else {
            ShutdownAction::Refuse(UtpError::ShutdownNotImplemented)
        }
    }

    /// The stream after a shutdown was asked for.
    pub open spec fn ask_shutdown(self) -> Self {
        StreamModel { shutdown_called: true, ..self }
    }
}

} // verus!
