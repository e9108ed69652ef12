//! Streams: what callbacks do to them and what their users are answered.
use crate::codes::{
    MAGIC, RX_BUF_CAPACITY, SHUT_RDWR, UTP_STATE_CONNECT, UTP_STATE_DESTROYING, UTP_STATE_EOF,
    UTP_STATE_WRITABLE,
};
use crate::error::UtpError;
use crate::model::{Effects, ShutdownAction, SocketState};
use crate::progress::Progress;
use crate::ring::ByteRing;
use vstd::prelude::*;

verus! {

impl SocketState {
    /// The meaning of a state number.
    pub fn from_code(code: i32) -> (state: SocketState)
        ensures
            state == crate::model::socket_state(code),
            state == SocketState::Connect <==> code == UTP_STATE_CONNECT,
            state == SocketState::Writable <==> code == UTP_STATE_WRITABLE,
            state == SocketState::Eof <==> code == UTP_STATE_EOF,
            state == SocketState::Destroying <==> code == UTP_STATE_DESTROYING,
            state matches SocketState::Unknown(number) ==> number - code == 0 || number - code
                == 0x1_0000_0000,
    {
        let unsigned: u32 = code as u32;
        proof {
            assert(code < 0 ==> unsigned == code + 0x1_0000_0000) by (bit_vector)
                requires
                    unsigned == code as u32,
            ;
        }
        match unsigned {
            UTP_STATE_EOF => SocketState::Eof,
            UTP_STATE_CONNECT => SocketState::Connect,
            UTP_STATE_WRITABLE => SocketState::Writable,
            UTP_STATE_DESTROYING => SocketState::Destroying,
            other => SocketState::Unknown(other),
        }
    }
}

/// The part of a stream that libutp's callbacks reach.
pub struct UtpStreamInner<S> {
    buffer: ByteRing,
    magic: u64,
    is_eof: bool,
    utp_socket: Option<S>,
}

impl<S> View for UtpStreamInner<S> {
    type V = crate::model::InnerModel<S>;

    closed spec fn view(&self) -> crate::model::InnerModel<S> {
        crate::model::InnerModel {
            buffered: crate::ring::ring_contents(self.buffer),
            eof: self.is_eof,
            magic: self.magic,
            socket: self.utp_socket,
        }
    }
}

impl<S> UtpStreamInner<S> {
    /// The invariant: the model is valid, and the buffer has the capacity that
    /// libutp is told of.
    pub closed spec fn wf(&self) -> bool {
        &&& self@.valid()
        &&& crate::ring::ring_capacity(self.buffer) == RX_BUF_CAPACITY
    }
}

impl<S> Default for UtpStreamInner<S> {
    /// An empty stream without a socket.
    fn default() -> (inner: Self)
        ensures
            inner.wf(),
            inner@ == crate::model::InnerModel::<S>::fresh(None),
            inner@.buffered.len() == 0,
            !inner@.eof,
            inner@.magic == MAGIC,
            inner@.socket is None,
    {
        UtpStreamInner {
            buffer: ByteRing::new(RX_BUF_CAPACITY),
            magic: MAGIC,
            is_eof: false,
            utp_socket: None,
        }
    }
}

/// A stream as its user holds it.
pub struct UtpStream<S> {
    inner: UtpStreamInner<S>,
    shutdown_called: bool,
}

impl<S> View for UtpStream<S> {
    type V = crate::model::StreamModel<S>;

    closed spec fn view(&self) -> crate::model::StreamModel<S> {
        crate::model::StreamModel { inner: self.inner@, shutdown_called: self.shutdown_called }
    }
}

/// What a write has come to.
#[derive(Debug, PartialEq, Eq)]
pub enum WriteProgress<E> {
    /// The write is over: so many bytes were taken, or the transport failed.
    Ready(Result<usize, E>),
    /// The transport cannot send yet. It wakes the writer itself.
    TransportBusy,
    /// libutp took nothing. The writer is to be woken when the socket takes
    /// bytes again.
    SocketFull,
}

/// What a write amounts to for each number that `utp_write` may return. A
/// negative one counts as the unsigned number with the same bits.
pub open spec fn write_outcome<E>(len: isize) -> WriteProgress<E> {
    if len == 0 {
        WriteProgress::SocketFull
    } else if len > 0 {
        WriteProgress::Ready(Ok(len as usize))
    } else {
        WriteProgress::Ready(Ok((len + usize::MAX + 1) as usize))
    }
}

impl<S> UtpStream<S> {
    /// The invariant that every stream keeps.
    pub closed spec fn wf(&self) -> bool {
        self.inner.wf()
    }

    /// Every stream has a valid model: it holds no more than the capacity that
    /// libutp is told of, and it carries the mark that callbacks look for.
    pub proof fn law_streams_are_valid(&self)
        requires
            self.wf(),
        ensures
            self@.inner.valid(),
            self@.inner.buffered.len() <= RX_BUF_CAPACITY,
            self@.inner.magic == MAGIC,
    {
    }

    /// The stream of the socket that libutp gave. There has to be one.
    pub fn new(sock: Option<S>) -> (stream: Self)
        requires
            sock is Some,
        ensures
            stream.wf(),
            stream@ == crate::model::StreamModel::fresh(sock),
            stream@.inner.buffered.len() == 0,
            !stream@.inner.eof,
            stream@.inner.magic == MAGIC,
            stream@.inner.socket == sock,
            !stream@.shutdown_called,
    {
        let mut inner: UtpStreamInner<S> = UtpStreamInner::default();
        inner.utp_socket = sock;
        UtpStream { inner, shutdown_called: false }
    }

    /// The mark that callbacks check before they use the stream.
    pub fn magic(&self) -> (magic: u64)
        ensures
            magic == self@.inner.magic,
            self.wf() ==> magic == MAGIC,
    {
        self.inner.magic
    }

    /// The socket of libutp.
    pub fn utp_socket(&self) -> (socket: &Option<S>)
        ensures
            *socket == self@.inner.socket,
    {
        &self.inner.utp_socket
    }

    /// The connection is established: whoever waits to write may try.
    pub fn utp_on_connect(&self) -> (effects: Effects)
        ensures
            effects == crate::model::connect_effects(),
            effects.wake_writer,
            !effects.wake_reader,
            !effects.read_drained,
    {
        Effects { read_drained: false, wake_reader: false, wake_writer: true }
    }

    /// Bytes have arrived: as many as there is room for are kept.
    pub fn utp_on_read(&mut self, bytes: &[u8]) -> (effects: Effects)
        requires
            old(self).wf(),
        ensures
            final(self).wf(),
            final(self)@ == old(self)@.with_inner(old(self)@.inner.receive(bytes@)),
            effects == crate::model::receive_effects(),
            final(self)@.inner.buffered.is_prefix_of(old(self)@.inner.buffered + bytes@),
            old(self)@.inner.buffered.len() + bytes@.len() <= RX_BUF_CAPACITY
                ==> final(self)@.inner.buffered == old(self)@.inner.buffered + bytes@,
            old(self)@.inner.buffered.len() + bytes@.len() > RX_BUF_CAPACITY
                ==> final(self)@.inner.buffered.len() == RX_BUF_CAPACITY,
            final(self)@.inner.eof == old(self)@.inner.eof,
            final(self)@.inner.magic == old(self)@.inner.magic,
            final(self)@.inner.socket == old(self)@.inner.socket,
            final(self)@.shutdown_called == old(self)@.shutdown_called,
            effects.read_drained,
            effects.wake_reader,
            !effects.wake_writer,
    {
        self.inner.buffer.push_slice(bytes);
        Effects { read_drained: true, wake_reader: true, wake_writer: false }
    }

    /// How many received bytes are waiting to be read.
    pub fn utp_get_read_buffer_size(&self) -> (size: u64)
        requires
            self.wf(),
        ensures
            size == self@.inner.buffered.len(),
            size <= RX_BUF_CAPACITY,
    {
        self.inner.buffer.occupied_len() as u64
    }

    /// The socket has changed its state.
    pub fn utp_on_state_change(&mut self, code: i32) -> (effects: Effects)
        requires
            old(self).wf(),
        ensures
            final(self).wf(),
            final(self)@ == old(self)@.with_inner(
                old(self)@.inner.change_state(crate::model::socket_state(code)),
            ),
            effects == crate::model::state_effects(crate::model::socket_state(code)),
            final(self)@.inner.eof <==> old(self)@.inner.eof || code == UTP_STATE_EOF || code
                == UTP_STATE_DESTROYING,
            final(self)@.inner.buffered == old(self)@.inner.buffered,
            final(self)@.inner.magic == old(self)@.inner.magic,
            final(self)@.inner.socket == old(self)@.inner.socket,
            final(self)@.shutdown_called == old(self)@.shutdown_called,
            effects.wake_reader <==> code == UTP_STATE_EOF || code == UTP_STATE_DESTROYING,
            effects.wake_writer <==> code == UTP_STATE_CONNECT || code == UTP_STATE_WRITABLE
                || code == UTP_STATE_DESTROYING,
            !effects.read_drained,
    {
        match SocketState::from_code(code) {
            SocketState::Eof => {
                self.inner.is_eof = true;
                Effects { read_drained: false, wake_reader: true, wake_writer: false }
            },
            SocketState::Connect => {
                Effects { read_drained: false, wake_reader: false, wake_writer: true }
            },
            SocketState::Writable => {
                Effects { read_drained: false, wake_reader: false, wake_writer: true }
            },
            SocketState::Destroying => {
                self.inner.is_eof = true;
                Effects { read_drained: false, wake_reader: true, wake_writer: true }
            },
            SocketState::Unknown(_) => {
                Effects { read_drained: false, wake_reader: false, wake_writer: false }
            },
        }
    }

    /// Reads into `out`. The oldest bytes go to its front; a stream that has
    /// ended and is empty reads as no bytes. Where the read is pending, the
    /// reader is to be woken by the next event that asks for it.
    pub fn poll_read(&mut self, out: &mut [u8]) -> (progress: Progress<usize>)
        requires
            old(self).wf(),
        ensures
            final(self).wf(),
            final(self)@ == old(self)@.with_inner(old(self)@.inner.read(old(out)@.len())),
            final(out)@ == old(self)@.inner.delivered(old(out)@.len()) + old(out)@.skip(
                old(self)@.inner.read_len(old(out)@.len()),
            ),
            progress == old(self)@.inner.read_progress(old(out)@.len()),
            ({
                let waited = old(self)@.inner.buffered;
                let waits = final(self)@.inner.buffered;
                let count = waited.len() - waits.len();
                &&& 0 <= count <= final(out)@.len() == old(out)@.len()
                &&& final(out)@.take(count) + waits == waited
                &&& final(out)@.skip(count) == old(out)@.skip(count)
                &&& waits.len() == 0 || count == old(out)@.len()
                &&& progress is Pending <==> count == 0 && !old(self)@.inner.eof
                &&& progress matches Progress::Ready(n) ==> n == count
            }),
            final(self)@.inner.eof == old(self)@.inner.eof,
            final(self)@.inner.magic == old(self)@.inner.magic,
            final(self)@.inner.socket == old(self)@.inner.socket,
            final(self)@.shutdown_called == old(self)@.shutdown_called,
    {
        let len: usize = self.inner.buffer.pop_slice(out);
        if len > 0 {
            return Progress::Ready(len);
        }
        if self.inner.is_eof {
            return Progress::Ready(len);
        }
        Progress::Pending
    }

    /// Writes, by a call of `write`, which gives what `utp_write` returned,
    /// where the transport said that it can send. libutp does not handle errors
    /// of sending, so nothing is written unless the transport is ready: only then
    /// may `write` be called at all.
    pub fn poll_write<E, W: FnOnce() -> isize>(
        ready: Progress<Result<(), E>>,
        write: W,
    ) -> (progress: WriteProgress<E>)
        requires
            ready matches Progress::Ready(Ok(_)) ==> call_requires(write, ()),
        ensures
            match ready {
                Progress::Ready(Ok(_)) => exists|len: isize|
                    #[trigger] call_ensures(write, (), len) && progress == write_outcome::<E>(len)
                        && (len == 0 <==> progress is SocketFull) && (len != 0 ==> (progress
                        matches WriteProgress::Ready(Ok(n)) && (n == len || n == len + usize::MAX
                        + 1))),
                Progress::Ready(Err(e)) => progress == WriteProgress::<E>::Ready(Err(e)),
                Progress::Pending => progress == WriteProgress::<E>::TransportBusy,
            },
    {
        match ready {
            Progress::Ready(Ok(())) => {
                let len: isize = write();
                Self::write_result(len)
            },
            Progress::Ready(Err(e)) => WriteProgress::Ready(Err(e)),
            Progress::Pending => WriteProgress::TransportBusy,
        }
    }

    /// What a write amounts to, given what `utp_write` returned.
    pub fn write_result<E>(len: isize) -> (progress: WriteProgress<E>)
        ensures
            progress == write_outcome::<E>(len),
            progress is SocketFull <==> len == 0,
            len > 0 ==> (progress matches WriteProgress::Ready(Ok(n)) && n == len),
            len < 0 ==> (progress matches WriteProgress::Ready(Ok(n)) && n == len + usize::MAX + 1),
    {
        if len == 0 {
            return WriteProgress::SocketFull;
        }
        let count: usize = len as usize;
        proof {
            assert(len < 0 && usize::BITS == 64 ==> count == len + 0x1_0000_0000_0000_0000) by (
            bit_vector)
                requires
                    count == len as usize,
            ;
            assert(len < 0 && usize::BITS == 32 ==> count == len + 0x1_0000_0000) by (bit_vector)
                requires
                    count == len as usize,
            ;
        }
        WriteProgress::Ready(Ok(count))
    }

    /// Flushing is refused: libutp has no flush.
    pub fn poll_flush(&self) -> (result: Result<(), UtpError>)
        ensures
            result == Err::<(), UtpError>(UtpError::FlushNotImplemented),
    {
        Err(UtpError::FlushNotImplemented)
    }

    /// The first request to shut down is refused; whoever asks again gets both
    /// directions shut down without waiting for anything.
    pub fn poll_shutdown(&mut self) -> (action: ShutdownAction)
        requires
            old(self).wf(),
        ensures
            final(self).wf(),
            final(self)@ == old(self)@.ask_shutdown(),
            action == old(self)@.shutdown_action(),
            final(self)@.shutdown_called,
            final(self)@.inner == old(self)@.inner,
            old(self)@.shutdown_called ==> action == (ShutdownAction::Force { how: SHUT_RDWR }),
            !old(self)@.shutdown_called ==> action == ShutdownAction::Refuse(
                UtpError::ShutdownNotImplemented,
            ),
    {
        if self.shutdown_called {
            return ShutdownAction::Force { how: SHUT_RDWR };
        }
        self.shutdown_called = true;
        ShutdownAction::Refuse(UtpError::ShutdownNotImplemented)
    }
}

} // verus!
