//! What holds of the library as a whole.
use crate::codes::{
    MAGIC, RX_BUF_CAPACITY, SHUT_RDWR, UTP_GET_READ_BUFFER_SIZE, UTP_INIT_VERSION, UTP_LOG,
    UTP_LOG_DEBUG, UTP_LOG_NORMAL, UTP_ON_ACCEPT, UTP_ON_CONNECT, UTP_ON_ERROR, UTP_ON_READ, UTP_ON_STATE_CHANGE,
    UTP_RCVBUF, UTP_SENDTO, UTP_STATE_CONNECT, UTP_STATE_DESTROYING, UTP_STATE_EOF,
    UTP_STATE_WRITABLE,
};
use crate::context::{AcceptAction, ContextModel, SetupStep};
use crate::driver::{LoopAction, LoopEvent};
use crate::error::UtpError;
use crate::guard::{CallbackFault, Handle, Lookup};
use crate::model::{InnerModel, ShutdownAction, SocketState, StreamModel};
use crate::opts::UtpLogLevel;
use crate::progress::Progress;
use crate::stream::WriteProgress;
use crate::udp::{UdpFailure, UdpSetup};
use vstd::prelude::*;

verus! {

/// The smaller of two lengths is one of them and exceeds neither.
pub proof fn law_smaller_length(a: int, b: int)
    ensures
        crate::ring::min_len(a, b) <= a,
        crate::ring::min_len(a, b) <= b,
        crate::ring::min_len(a, b) == a || crate::ring::min_len(a, b) == b,
{
}

/// A write reports exactly the bytes that libutp took: for a positive count that
/// count, and nothing at all for zero. A negative count is told apart from every
/// other one.
pub proof fn law_write_reports_what_was_taken<E>(len: isize, other: isize)
    ensures
        len > 0 ==> (crate::stream::write_outcome::<E>(len) matches WriteProgress::Ready(Ok(n)) && n
            == len),
        len < 0 ==> (crate::stream::write_outcome::<E>(len) matches WriteProgress::Ready(Ok(n)) && n
            - usize::MAX - 1 == len),
        crate::stream::write_outcome::<E>(len) is SocketFull <==> len == 0,
        crate::stream::write_outcome::<E>(len) == crate::stream::write_outcome::<E>(other) <==> len
            == other,
{
}

/// The number that a read reports is the number of bytes that it hands out, and
/// the number by which the waiting bytes shrink. What it hands out, followed by
/// what then waits, is what waited before. It stops only where the room or the
/// bytes end, and it waits exactly where it has nothing to hand out and the
/// stream has not ended. Nothing else changes.
pub proof fn law_read_reports_what_it_hands_out<S>(stream: InnerModel<S>, room: nat)
    requires
        stream.buffered.len() <= RX_BUF_CAPACITY,
    ensures
        stream.read_progress(room) matches Progress::Ready(n) ==> {
            &&& n == stream.delivered(room).len()
            &&& n == stream.buffered.len() - stream.read(room).buffered.len()
        },
        stream.read_progress(room) is Pending <==> stream.delivered(room).len() == 0 && !stream.eof,
        stream.delivered(room) + stream.read(room).buffered == stream.buffered,
        stream.delivered(room).len() <= room,
        stream.delivered(room).len() == room || stream.read(room).buffered.len() == 0,
        stream.read_len(room) == stream.delivered(room).len(),
        stream.blocks(room) <==> stream.read_progress(room) is Pending,
        stream.read(room).eof == stream.eof,
        stream.read(room).magic == stream.magic,
        stream.read(room).socket == stream.socket,
{
    assert(stream.delivered(room) + stream.read(room).buffered =~= stream.buffered);
}

/// Two reads hand out what one read into as much room hands out.
pub proof fn law_two_reads_are_one<S>(stream: InnerModel<S>, first: nat, second: nat)
    requires
        stream.buffered.len() <= RX_BUF_CAPACITY,
    ensures
        stream.delivered(first) + stream.read(first).delivered(second) == stream.delivered(
            first + second,
        ),
        stream.read(first).read(second) == stream.read(first + second),
{
    assert(stream.delivered(first) + stream.read(first).delivered(second) =~= stream.delivered(
        first + second,
    ));
    assert(stream.read(first).read(second).buffered =~= stream.read(first + second).buffered);
}

/// What waits after bytes were received is what waited before, followed by the
/// bytes: all of them where they fit, and otherwise as many as fill the buffer.
/// Nothing else changes.
pub proof fn law_receive_appends<S>(stream: InnerModel<S>, bytes: Seq<u8>)
    requires
        stream.buffered.len() <= RX_BUF_CAPACITY,
    ensures
        stream.receive(bytes).buffered.is_prefix_of(stream.buffered + bytes),
        stream.buffered.is_prefix_of(stream.receive(bytes).buffered),
        stream.buffered.len() + bytes.len() <= RX_BUF_CAPACITY ==> stream.receive(bytes).buffered
            == stream.buffered + bytes,
        stream.buffered.len() + bytes.len() > RX_BUF_CAPACITY ==> stream.receive(
            bytes,
        ).buffered.len() == RX_BUF_CAPACITY,
        stream.buffered + stream.accepted(bytes) == stream.receive(bytes).buffered,
        stream.accepted(bytes).is_prefix_of(bytes),
        stream.receive(bytes).eof == stream.eof,
        stream.receive(bytes).magic == stream.magic,
        stream.receive(bytes).socket == stream.socket,
{
    if stream.buffered.len() + bytes.len() <= RX_BUF_CAPACITY {
        assert(stream.accepted(bytes) =~= bytes);
    }
    assert(stream.buffered + stream.accepted(bytes) =~= (stream.buffered + bytes).take(
        stream.receive(bytes).buffered.len() as int,
    ));
}

/// Bytes received in two parts wait as they would if they had come in one.
pub proof fn law_two_receives_are_one<S>(stream: InnerModel<S>, first: Seq<u8>, second: Seq<u8>)
    requires
        stream.buffered.len() <= RX_BUF_CAPACITY,
    ensures
        stream.receive(first).receive(second) == stream.receive(first + second),
{
    assert(stream.receive(first).receive(second).buffered =~= stream.receive(
        first + second,
    ).buffered);
}

/// Every report of the end or of destroying ends the stream, whatever waits in
/// it, and no other report does. What waits, the mark and the socket stay.
pub proof fn law_end_is_recorded<S>(stream: InnerModel<S>, code: i32)
    ensures
        stream.change_state(crate::model::socket_state(code)).eof <==> stream.eof || code
            == UTP_STATE_EOF || code == UTP_STATE_DESTROYING,
        stream.change_state(crate::model::socket_state(code)).buffered == stream.buffered,
        stream.change_state(crate::model::socket_state(code)).magic == stream.magic,
        stream.change_state(crate::model::socket_state(code)).socket == stream.socket,
{
}

/// The end that a stream reports after its last byte: once libutp has reported
/// the end, a read that takes all that waits is followed by a read of no bytes.
pub proof fn law_end_follows_the_last_byte<S>(
    stream: InnerModel<S>,
    state: SocketState,
    room: nat,
    then: nat,
)
    requires
        stream.buffered.len() <= RX_BUF_CAPACITY,
        state == SocketState::Eof || state == SocketState::Destroying,
        room >= stream.buffered.len(),
    ensures
        stream.change_state(state).read_progress(room) == Progress::Ready(
            stream.buffered.len() as usize,
        ),
        stream.change_state(state).read(room).read_progress(then) == Progress::Ready(0usize),
{
}

/// A state number means one of the four documented states if and only if it is
/// that state's number. Every other number is kept, as the unsigned number with
/// the same bits.
pub proof fn law_state_numbers(code: i32)
    ensures
        crate::model::socket_state(code) == SocketState::Connect <==> code == 1,
        crate::model::socket_state(code) == SocketState::Writable <==> code == 2,
        crate::model::socket_state(code) == SocketState::Eof <==> code == 3,
        crate::model::socket_state(code) == SocketState::Destroying <==> code == 4,
        crate::model::socket_state(code) matches SocketState::Unknown(number) ==> number - code
            == if code < 0 {
            0x1_0000_0000
        } else {
            0int
        },
{
}

/// Who is woken: readers by received bytes and by the two states that end a
/// stream, writers by a connection and by the three states in which they may go
/// on or will never go on. libutp is told of taken bytes when bytes came, and
/// only then.
pub proof fn law_who_is_woken(code: i32)
    ensures
        crate::model::receive_effects().wake_reader,
        !crate::model::receive_effects().wake_writer,
        crate::model::receive_effects().read_drained,
        crate::model::connect_effects().wake_writer,
        !crate::model::connect_effects().wake_reader,
        !crate::model::connect_effects().read_drained,
        crate::model::state_effects(crate::model::socket_state(code)).wake_reader <==> code
            == UTP_STATE_EOF || code == UTP_STATE_DESTROYING,
        crate::model::state_effects(crate::model::socket_state(code)).wake_writer <==> code
            == UTP_STATE_CONNECT || code == UTP_STATE_WRITABLE || code == UTP_STATE_DESTROYING,
        !crate::model::state_effects(crate::model::socket_state(code)).read_drained,
{
}

/// An event on a stream takes effect, whole, on the stream that its user holds,
/// and leaves the requests to shut down alone; a request leaves the rest alone.
pub proof fn law_event_reaches_the_user<S>(stream: StreamModel<S>, inner: InnerModel<S>)
    ensures
        stream.with_inner(inner).inner == inner,
        stream.with_inner(inner).shutdown_called == stream.shutdown_called,
        stream.ask_shutdown().inner == stream.inner,
        stream.ask_shutdown().shutdown_called,
        stream.shutdown_action() is Force <==> stream.shutdown_called,
{
}

/// A new stream is empty, has not ended, carries the mark and the socket that it
/// was given, and was not asked to shut down.
pub proof fn law_new_stream<S>(socket: Option<S>)
    ensures
        StreamModel::fresh(socket).inner == InnerModel::fresh(socket),
        InnerModel::fresh(socket).buffered.len() == 0,
        !InnerModel::fresh(socket).eof,
        InnerModel::fresh(socket).magic == MAGIC,
        InnerModel::fresh(socket).socket == socket,
        !StreamModel::fresh(socket).shutdown_called,
        InnerModel::fresh(socket).valid(),
{
}

/// Something that happens to a stream.
pub enum StreamOp {
    /// libutp hands over received bytes.
    Receive(Seq<u8>),
    /// libutp reports a state.
    ChangeState(SocketState),
    /// The user reads into so many places.
    Read(nat),
}

/// The stream after one operation.
pub open spec fn stream_step<S>(stream: InnerModel<S>, op: StreamOp) -> InnerModel<S> {
    match op {
        StreamOp::Receive(bytes) => stream.receive(bytes),
        StreamOp::ChangeState(state) => stream.change_state(state),
        StreamOp::Read(room) => stream.read(room),
    }
}

/// The bytes that one operation takes in.
pub open spec fn taken_in<S>(stream: InnerModel<S>, op: StreamOp) -> Seq<u8> {
    match op {
        StreamOp::Receive(bytes) => stream.accepted(bytes),
        _ => Seq::empty(),
    }
}

/// The bytes that one operation hands to the user.
pub open spec fn handed_out<S>(stream: InnerModel<S>, op: StreamOp) -> Seq<u8> {
    match op {
        StreamOp::Read(room) => stream.delivered(room),
        _ => Seq::empty(),
    }
}

/// The bytes that one operation brings from the peer.
pub open spec fn brought(op: StreamOp) -> Seq<u8> {
    match op {
        StreamOp::Receive(bytes) => bytes,
        _ => Seq::empty(),
    }
}

/// One operation wakes the reader.
pub open spec fn wakes_reader(op: StreamOp) -> bool {
    match op {
        StreamOp::Receive(_) => crate::model::receive_effects().wake_reader,
        StreamOp::ChangeState(state) => crate::model::state_effects(state).wake_reader,
        StreamOp::Read(_) => false,
    }
}

/// The peer keeps to the room that was left when it sent.
pub open spec fn keeps_window<S>(stream: InnerModel<S>, op: StreamOp) -> bool {
    brought(op).len() <= RX_BUF_CAPACITY - stream.buffered.len()
}

/// The stream after a history of operations.
pub open spec fn stream_run<S>(stream: InnerModel<S>, ops: Seq<StreamOp>) -> InnerModel<S>
    decreases ops.len(),
{
    if ops.len() == 0 {
        stream
    } else {
        stream_step(stream_run(stream, ops.drop_last()), ops.last())
    }
}

/// All bytes that a history takes in.
pub open spec fn all_taken_in<S>(stream: InnerModel<S>, ops: Seq<StreamOp>) -> Seq<u8>
    decreases ops.len(),
{
    if ops.len() == 0 {
        Seq::empty()
    } else {
        all_taken_in(stream, ops.drop_last()) + taken_in(
            stream_run(stream, ops.drop_last()),
            ops.last(),
        )
    }
}

/// All bytes that a history hands to the user.
pub open spec fn all_handed_out<S>(stream: InnerModel<S>, ops: Seq<StreamOp>) -> Seq<u8>
    decreases ops.len(),
{
    if ops.len() == 0 {
        Seq::empty()
    } else {
        all_handed_out(stream, ops.drop_last()) + handed_out(
            stream_run(stream, ops.drop_last()),
            ops.last(),
        )
    }
}

/// All bytes that a history brings from the peer.
pub open spec fn all_brought(ops: Seq<StreamOp>) -> Seq<u8>
    decreases ops.len(),
{
    if ops.len() == 0 {
        Seq::empty()
    } else {
        all_brought(ops.drop_last()) + brought(ops.last())
    }
}

/// The peer keeps to the room that is left throughout a history.
pub open spec fn always_keeps_window<S>(stream: InnerModel<S>, ops: Seq<StreamOp>) -> bool
    decreases ops.len(),
{
    ops.len() == 0 || (always_keeps_window(stream, ops.drop_last()) && keeps_window(
        stream_run(stream, ops.drop_last()),
        ops.last(),
    ))
}

/// A stream stays valid whatever happens to it: it never holds more than its
/// buffer has room for, and it keeps its mark and its socket.
pub proof fn law_stream_stays_valid<S>(stream: InnerModel<S>, ops: Seq<StreamOp>)
    requires
        stream.valid(),
    ensures
        stream_run(stream, ops).valid(),
        stream_run(stream, ops).socket == stream.socket,
    decreases ops.len(),
{
    if ops.len() > 0 {
        law_stream_stays_valid(stream, ops.drop_last());
    }
}

/// Bytes are read in the order in which they were taken in, none is lost in
/// between, none is read twice and none is made up: what was handed out,
/// followed by what still waits, is what waited at first, followed by what was
/// taken in.
pub proof fn law_bytes_come_out_in_order<S>(stream: InnerModel<S>, ops: Seq<StreamOp>)
    requires
        stream.valid(),
    ensures
        all_handed_out(stream, ops) + stream_run(stream, ops).buffered == stream.buffered
            + all_taken_in(stream, ops),
    decreases ops.len(),
{
    if ops.len() == 0 {
        assert(Seq::<u8>::empty() + stream.buffered =~= stream.buffered + Seq::<u8>::empty());
    } else {
        let before = ops.drop_last();
        let at = stream_run(stream, before);
        law_bytes_come_out_in_order(stream, before);
        law_stream_stays_valid(stream, before);
        match ops.last() {
            StreamOp::Receive(bytes) => {
                assert(all_handed_out(stream, ops) + stream_run(stream, ops).buffered =~= (
                all_handed_out(stream, before) + at.buffered) + at.accepted(bytes));
                assert(stream.buffered + all_taken_in(stream, ops) =~= (stream.buffered
                    + all_taken_in(stream, before)) + at.accepted(bytes));
            },
            StreamOp::ChangeState(_) => {
                assert(all_handed_out(stream, ops) =~= all_handed_out(stream, before));
                assert(all_taken_in(stream, ops) =~= all_taken_in(stream, before));
            },
            StreamOp::Read(room) => {
                assert(at.delivered(room) + at.read(room).buffered =~= at.buffered);
                assert(all_handed_out(stream, ops) + stream_run(stream, ops).buffered =~=
                    all_handed_out(stream, before) + (at.delivered(room) + at.read(
                    room,
                ).buffered));
                assert(all_taken_in(stream, ops) =~= all_taken_in(stream, before));
            },
        }
    }
}

/// Bytes that fit into the room that is left, which is the capacity less the
/// number that libutp is told when it asks, are taken in whole.
pub proof fn law_reported_room_is_honoured<S>(stream: InnerModel<S>, bytes: Seq<u8>)
    requires
        stream.valid(),
        bytes.len() <= RX_BUF_CAPACITY - stream.buffered.len(),
    ensures
        stream.accepted(bytes) == bytes,
        stream.receive(bytes).buffered == stream.buffered + bytes,
{
    assert(bytes.take(bytes.len() as int) =~= bytes);
}

/// With a peer that keeps to the room that is left, a new stream hands out
/// exactly the bytes that the peer sent, in order, up to those that still wait.
pub proof fn law_reads_give_back_what_was_sent<S>(socket: Option<S>, ops: Seq<StreamOp>)
    requires
        always_keeps_window(InnerModel::fresh(socket), ops),
    ensures
        all_handed_out(InnerModel::fresh(socket), ops) + stream_run(
            InnerModel::fresh(socket),
            ops,
        ).buffered == all_brought(ops),
{
    let stream = InnerModel::fresh(socket);
    law_bytes_come_out_in_order(stream, ops);
    lemma_window_loses_nothing(stream, ops);
    assert(stream.buffered + all_taken_in(stream, ops) =~= all_taken_in(stream, ops));
}

/// With a peer that keeps to the room that is left, everything is taken in.
proof fn lemma_window_loses_nothing<S>(stream: InnerModel<S>, ops: Seq<StreamOp>)
    requires
        stream.valid(),
        always_keeps_window(stream, ops),
    ensures
        all_taken_in(stream, ops) == all_brought(ops),
    decreases ops.len(),
{
    if ops.len() > 0 {
        let before = ops.drop_last();
        lemma_window_loses_nothing(stream, before);
        law_stream_stays_valid(stream, before);
        match ops.last() {
            StreamOp::Receive(bytes) => {
                law_reported_room_is_honoured(stream_run(stream, before), bytes);
            },
            _ => {},
        }
    }
}

/// What is received and then read into enough room comes back as it was, behind
/// what waited before, and nothing waits any more.
pub proof fn law_receive_then_read<S>(stream: InnerModel<S>, bytes: Seq<u8>, room: nat)
    requires
        stream.valid(),
        bytes.len() <= RX_BUF_CAPACITY - stream.buffered.len(),
        stream.buffered.len() + bytes.len() <= room,
    ensures
        stream.receive(bytes).delivered(room) == stream.buffered + bytes,
        stream.receive(bytes).read(room).buffered == Seq::<u8>::empty(),
{
    law_reported_room_is_honoured(stream, bytes);
    assert((stream.buffered + bytes).take((stream.buffered + bytes).len() as int) =~=
        stream.buffered + bytes);
}

/// A stream that has ended stays ended.
pub proof fn law_end_is_final<S>(stream: InnerModel<S>, ops: Seq<StreamOp>)
    requires
        stream.eof,
    ensures
        stream_run(stream, ops).eof,
    decreases ops.len(),
{
    if ops.len() > 0 {
        law_end_is_final(stream, ops.drop_last());
    }
}

/// A read never waits on a stream that has ended, and it reports the end, as a
/// read of no bytes into some room, only when everything was read.
pub proof fn law_end_comes_after_all_bytes<S>(stream: InnerModel<S>, room: nat)
    requires
        stream.valid(),
        stream.eof,
        room > 0,
    ensures
        stream.read_progress(room) is Ready,
        stream.read_progress(room) == Progress::Ready(0usize) <==> stream.buffered.len() == 0,
{
}

/// A stream that has not ended never reports the end.
pub proof fn law_no_end_before_it_comes<S>(stream: InnerModel<S>, room: nat)
    requires
        stream.valid(),
        !stream.eof,
    ensures
        stream.read_progress(room) != Progress::Ready(0usize),
        stream.read_progress(room) is Pending <==> room == 0 || stream.buffered.len() == 0,
{
}

/// No reader sleeps through its chance: whatever lets a read that had to wait
/// go on also wakes the reader.
pub proof fn law_no_lost_wakeup<S>(stream: InnerModel<S>, op: StreamOp, room: nat)
    requires
        stream.valid(),
        stream.blocks(room),
        !stream_step(stream, op).blocks(room),
    ensures
        wakes_reader(op),
{
    match op {
        StreamOp::Receive(_) => {},
        StreamOp::ChangeState(_) => {},
        StreamOp::Read(other) => {
            assert(stream.read(other).buffered.len() <= stream.buffered.len());
        },
    }
}

/// The states that libutp documents are the only ones with any effect on a
/// stream or its tasks.
pub proof fn law_unknown_state_does_nothing<S>(stream: InnerModel<S>, code: i32)
    requires
        code < UTP_STATE_CONNECT || code > UTP_STATE_DESTROYING,
    ensures
        stream.change_state(crate::model::socket_state(code)) == stream,
        !crate::model::state_effects(crate::model::socket_state(code)).wake_reader,
        !crate::model::state_effects(crate::model::socket_state(code)).wake_writer,
{
}

/// A new stream refuses the first request to shut down and grants every later
/// one, whatever happens to the stream in between. A request changes nothing
/// else.
pub proof fn law_shutdown_takes_two_requests<S>(
    socket: Option<S>,
    stream: StreamModel<S>,
    inner: InnerModel<S>,
)
    ensures
        StreamModel::fresh(socket).with_inner(inner).shutdown_action() == ShutdownAction::Refuse(
            UtpError::ShutdownNotImplemented,
        ),
        stream.ask_shutdown().with_inner(inner).shutdown_action() == (ShutdownAction::Force {
            how: SHUT_RDWR,
        }),
        stream.ask_shutdown().inner == stream.inner,
{
}

/// Something that happens to a context.
pub enum AcceptOp<A> {
    /// An acceptor comes.
    Accept(A),
    /// A connection comes in.
    Incoming,
}

/// The context after one operation.
pub open spec fn accept_step<C, A>(
    context: ContextModel<C, A>,
    op: AcceptOp<A>,
) -> ContextModel<C, A> {
    match op {
        AcceptOp::Accept(acceptor) => context.accept(acceptor),
        AcceptOp::Incoming => context.incoming(),
    }
}

/// The context after a history of operations.
pub open spec fn accept_run<C, A>(
    context: ContextModel<C, A>,
    ops: Seq<AcceptOp<A>>,
) -> ContextModel<C, A>
    decreases ops.len(),
{
    if ops.len() == 0 {
        context
    } else {
        accept_step(accept_run(context, ops.drop_last()), ops.last())
    }
}

/// The acceptors that come in a history.
pub open spec fn all_acceptors<A>(ops: Seq<AcceptOp<A>>) -> Seq<A>
    decreases ops.len(),
{
    if ops.len() == 0 {
        Seq::empty()
    } else {
        match ops.last() {
            AcceptOp::Accept(acceptor) => all_acceptors(ops.drop_last()).push(acceptor),
            AcceptOp::Incoming => all_acceptors(ops.drop_last()),
        }
    }
}

/// The acceptors that get a connection in a history, in the order in which the
/// connections come in.
pub open spec fn all_served<C, A>(context: ContextModel<C, A>, ops: Seq<AcceptOp<A>>) -> Seq<A>
    decreases ops.len(),
{
    if ops.len() == 0 {
        Seq::empty()
    } else {
        let served = all_served(context, ops.drop_last());
        match ops.last() {
            AcceptOp::Accept(_) => served,
            AcceptOp::Incoming => match accept_run(context, ops.drop_last()).incoming_action() {
                AcceptAction::Deliver(acceptor) => served.push(acceptor),
                AcceptAction::Close => served,
            },
        }
    }
}

/// Acceptors are served in the order in which they came, each at most once: those
/// that were served, followed by those that still wait, are those that waited at
/// first, followed by those that came. The context keeps its mark and its handle.
pub proof fn law_acceptors_are_served_in_order<C, A>(
    context: ContextModel<C, A>,
    ops: Seq<AcceptOp<A>>,
)
    ensures
        all_served(context, ops) + accept_run(context, ops).waiting == context.waiting
            + all_acceptors(ops),
        accept_run(context, ops).magic == context.magic,
        accept_run(context, ops).ctx == context.ctx,
    decreases ops.len(),
{
    if ops.len() == 0 {
        assert(Seq::<A>::empty() + context.waiting =~= context.waiting + Seq::<A>::empty());
    } else {
        let before = ops.drop_last();
        let at = accept_run(context, before);
        let served = all_served(context, before);
        law_acceptors_are_served_in_order(context, before);
        match ops.last() {
            AcceptOp::Accept(acceptor) => {
                assert(served + at.waiting.push(acceptor) =~= (served + at.waiting).push(acceptor));
                assert(context.waiting + all_acceptors(before).push(acceptor) =~= (context.waiting
                    + all_acceptors(before)).push(acceptor));
            },
            AcceptOp::Incoming => {
                if at.waiting.len() > 0 {
                    assert(served.push(at.waiting[0]) + at.waiting.drop_first() =~= served
                        + at.waiting);
                }
            },
        }
    }
}

/// A connection is turned away if and only if nobody waits for one.
pub proof fn law_closed_only_without_acceptors<C, A>(context: ContextModel<C, A>)
    ensures
        context.incoming_action() is Close <==> context.waiting.len() == 0,
        context.incoming_action() is Close ==> context.incoming() == context,
{
}

/// A new acceptor waits behind all others; an incoming connection takes the one
/// at the front, and only that one. The mark and the handle stay.
pub proof fn law_queue_of_acceptors<C, A>(context: ContextModel<C, A>, acceptor: A)
    ensures
        context.accept(acceptor).waiting == context.waiting + seq![acceptor],
        context.accept(acceptor).ctx == context.ctx,
        context.accept(acceptor).magic == context.magic,
        match context.incoming_action() {
            AcceptAction::Deliver(served) => context.waiting == seq![served]
                + context.incoming().waiting,
            AcceptAction::Close => context.waiting.len() == 0 && context.incoming().waiting.len()
                == 0,
        },
        context.incoming().ctx == context.ctx,
        context.incoming().magic == context.magic,
{
    assert(context.waiting.push(acceptor) =~= context.waiting + seq![acceptor]);
    if context.waiting.len() > 0 {
        assert(context.waiting =~= seq![context.waiting[0]] + context.waiting.drop_first());
    }
}

/// A new context has the handle that it was given, carries the mark, and nobody
/// waits.
pub proof fn law_new_context<C, A>(ctx: C)
    ensures
        ContextModel::<C, A>::fresh(ctx).ctx == ctx,
        ContextModel::<C, A>::fresh(ctx).magic == MAGIC,
        ContextModel::<C, A>::fresh(ctx).waiting.len() == 0,
        ContextModel::<C, A>::fresh(ctx).valid(),
{
}

/// A callback names exactly what it finds wrong, and of which kind of object.
pub proof fn law_faults_name_what_is_wrong(handle: Handle, lookup: Lookup)
    ensures
        crate::guard::fault(handle, lookup) == Some(CallbackFault::ArgsNull) <==> lookup is NoArgs,
        crate::guard::fault(handle, lookup) == Some(CallbackFault::HandleNull(handle)) <==> lookup
            is NoHandle,
        crate::guard::fault(handle, lookup) == Some(CallbackFault::UserdataNull(handle))
            <==> lookup is NoUserdata,
        crate::guard::fault(handle, lookup) == Some(CallbackFault::MagicMismatch(handle)) <==> (
        lookup matches Lookup::Userdata { magic } && magic != MAGIC),
{
}

/// Callbacks accept every valid stream and every valid context, and they refuse
/// whatever carries another mark or has no user data.
pub proof fn law_callbacks_accept_what_is_marked<S, C, A>(
    stream: InnerModel<S>,
    context: ContextModel<C, A>,
    handle: Handle,
    lookup: Lookup,
)
    requires
        stream.valid(),
        context.valid(),
    ensures
        crate::guard::fault(Handle::Socket, Lookup::Userdata { magic: stream.magic }) is None,
        crate::guard::fault(Handle::Context, Lookup::Userdata { magic: context.magic }) is None,
        crate::guard::fault(handle, lookup) is None <==> lookup == (Lookup::Userdata {
            magic: MAGIC,
        }),
{
}

/// The window that libutp is told of is the room that a new stream has: it is
/// set exactly once, and to the capacity of the buffer.
pub proof fn law_window_is_the_buffer<S>(level: UtpLogLevel, socket: Option<S>, value: i32)
    ensures
        crate::context::setup_steps(level).contains(
            (SetupStep::SetOption { option: UTP_RCVBUF, value }),
        ) <==> value == RX_BUF_CAPACITY - InnerModel::fresh(socket).buffered.len(),
        crate::context::setup_steps(level).no_duplicates(),
{
    let steps = crate::context::setup_steps(level);
    let logs = crate::context::log_steps(level).len() as int;
    assert(steps[logs] == (SetupStep::SetOption {
        option: UTP_RCVBUF,
        value: RX_BUF_CAPACITY as i32,
    }));
    assert forall|i: int| 0 <= i < steps.len() && i != logs implies (#[trigger] steps[i]
        matches SetupStep::SetOption { option, .. } ==> option != UTP_RCVBUF) by {};
}

/// A context is known to its callbacks only when all options are set and all
/// callbacks registered, and its loop starts last. The level of logging changes
/// nothing but what is set for logging, which comes first.
pub proof fn law_setup_order(level: UtpLogLevel)
    ensures
        crate::context::setup_steps(level) == crate::context::log_steps(level)
            + crate::context::setup_steps(UtpLogLevel::Off),
        crate::context::setup_steps(level).last() == SetupStep::Spawn,
        forall|i: int|
            0 <= i < crate::context::setup_steps(level).len() - 2 ==> {
                let step = #[trigger] crate::context::setup_steps(level)[i];
                step is SetOption || step is SetCallback
            },
        crate::context::setup_steps(level)[crate::context::setup_steps(level).len() - 2]
            == SetupStep::SetUserdata,
{
}

/// Which callbacks are registered and which options are set: all eight callbacks,
/// the size of the window, and those of logging that the level asks for.
pub proof fn law_what_is_set_up(level: UtpLogLevel, number: i32, value: i32)
    ensures
        crate::context::setup_steps(level).contains(SetupStep::SetCallback { callback: number })
            <==> number == UTP_ON_CONNECT || number == UTP_LOG || number == UTP_ON_STATE_CHANGE
            || number == UTP_ON_READ || number == UTP_SENDTO || number == UTP_ON_ERROR || number
            == UTP_ON_ACCEPT || number == UTP_GET_READ_BUFFER_SIZE,
        crate::context::setup_steps(level).contains(
            (SetupStep::SetOption { option: number, value }),
        ) <==> (number == UTP_RCVBUF && value == RX_BUF_CAPACITY) || (number == UTP_LOG_NORMAL
            && value == 1 && level != UtpLogLevel::Off) || (number == UTP_LOG_DEBUG && value == 1
            && level == UtpLogLevel::Debug),
{
    let steps = crate::context::setup_steps(level);
    let n = crate::context::log_steps(level).len() as int;
    assert(n <= 2 && steps.len() == n + 11);
    assert(n > 0 ==> steps[0] == (SetupStep::SetOption { option: UTP_LOG_NORMAL, value: 1 }));
    assert(n > 1 ==> steps[1] == (SetupStep::SetOption { option: UTP_LOG_DEBUG, value: 1 }));
    assert(steps[n] == (SetupStep::SetOption {
        option: UTP_RCVBUF,
        value: RX_BUF_CAPACITY as i32,
    }));
    assert(steps[n + 1] == (SetupStep::SetCallback { callback: UTP_ON_CONNECT }));
    assert(steps[n + 2] == (SetupStep::SetCallback { callback: UTP_LOG }));
    assert(steps[n + 3] == (SetupStep::SetCallback { callback: UTP_ON_STATE_CHANGE }));
    assert(steps[n + 4] == (SetupStep::SetCallback { callback: UTP_ON_READ }));
    assert(steps[n + 5] == (SetupStep::SetCallback { callback: UTP_SENDTO }));
    assert(steps[n + 6] == (SetupStep::SetCallback { callback: UTP_ON_ERROR }));
    assert(steps[n + 7] == (SetupStep::SetCallback { callback: UTP_ON_ACCEPT }));
    assert(steps[n + 8] == (SetupStep::SetCallback { callback: UTP_GET_READ_BUFFER_SIZE }));
    assert(steps[n + 9] == SetupStep::SetUserdata);
    assert(steps[n + 10] == SetupStep::Spawn);
}

/// The numbers by which libutp knows its callbacks, its options, its version and
/// the mode of a full shutdown.
pub proof fn law_numbers_of_libutp()
    ensures
        UTP_INIT_VERSION == 2,
        UTP_ON_ACCEPT == 1,
        UTP_ON_CONNECT == 2,
        UTP_ON_ERROR == 3,
        UTP_ON_READ == 4,
        UTP_ON_STATE_CHANGE == 6,
        UTP_GET_READ_BUFFER_SIZE == 7,
        UTP_LOG == 14,
        UTP_SENDTO == 15,
        UTP_LOG_NORMAL == 16,
        UTP_LOG_DEBUG == 18,
        UTP_RCVBUF == 20,
        SHUT_RDWR == 2,
{
}

/// A datagram reaches libutp with the length and the address that it came with,
/// and a number that libutp returned is passed on for the log if and only if it
/// is negative.
pub proof fn law_loop_passes_on_what_came<A, E>(len: usize, addr: A, res: i32)
    ensures
        crate::driver::loop_action(LoopEvent::<A, E>::Received(Ok((len, addr)))) == Some(
            LoopAction::ProcessUdp { len, addr },
        ),
        crate::driver::loop_action(LoopEvent::<A, E>::Processed { res }) matches Some(
            LoopAction::Wait { errored },
        ) && (errored is Some <==> res < 0) && (errored matches Some(number) ==> number == res),
{
}

/// Everything that the loop does over a history of events, in order. It stops at
/// the first event that it cannot go on from.
pub open spec fn loop_actions<A, E>(events: Seq<LoopEvent<A, E>>) -> Seq<LoopAction<A>>
    decreases events.len(),
{
    if events.len() == 0 {
        Seq::empty()
    } else {
        let before = loop_actions(events.drop_last());
        match crate::driver::loop_action(events.last()) {
            Some(action) if before.len() == events.len() - 1 => before.push(action),
            _ => before,
        }
    }
}

/// No event of a history is a failure to receive.
pub open spec fn never_fails<A, E>(events: Seq<LoopEvent<A, E>>) -> bool {
    forall|i: int|
        0 <= i < events.len() ==> !(#[trigger] events[i] matches LoopEvent::Received(Err(_)))
}

/// The datagrams that come in a history of events, in order of receipt.
pub open spec fn datagrams<A, E>(events: Seq<LoopEvent<A, E>>) -> Seq<(usize, A)>
    decreases events.len(),
{
    if events.len() == 0 {
        Seq::empty()
    } else {
        match events.last() {
            LoopEvent::Received(Ok(datagram)) => datagrams(events.drop_last()).push(datagram),
            _ => datagrams(events.drop_last()),
        }
    }
}

/// How many ticks there are in a history of events.
pub open spec fn ticks<A, E>(events: Seq<LoopEvent<A, E>>) -> nat
    decreases events.len(),
{
    if events.len() == 0 {
        0
    } else if events.last() is Tick {
        ticks(events.drop_last()) + 1
    } else {
        ticks(events.drop_last())
    }
}

/// The datagrams that are handed to libutp, in order.
pub open spec fn processed<A>(actions: Seq<LoopAction<A>>) -> Seq<(usize, A)>
    decreases actions.len(),
{
    if actions.len() == 0 {
        Seq::empty()
    } else {
        match actions.last() {
            LoopAction::ProcessUdp { len, addr } => processed(actions.drop_last()).push((len, addr)),
            _ => processed(actions.drop_last()),
        }
    }
}

/// How often libutp gets to look for timeouts.
pub open spec fn timeout_checks<A>(actions: Seq<LoopAction<A>>) -> nat
    decreases actions.len(),
{
    if actions.len() == 0 {
        0
    } else if actions.last() is CheckTimeouts {
        timeout_checks(actions.drop_last()) + 1
    } else {
        timeout_checks(actions.drop_last())
    }
}

/// As long as no receive fails, the loop does one thing for each event, in the
/// order of the events, and what it does depends on that event alone.
pub proof fn law_loop_is_one_for_one<A, E>(events: Seq<LoopEvent<A, E>>)
    requires
        never_fails(events),
    ensures
        loop_actions(events).len() == events.len(),
        forall|i: int|
            0 <= i < events.len() ==> crate::driver::loop_action(#[trigger] events[i]) == Some(
                loop_actions(events)[i],
            ),
    decreases events.len(),
{
    if events.len() > 0 {
        let before = events.drop_last();
        assert forall|i: int| 0 <= i < before.len() implies !(#[trigger] before[i]
            matches LoopEvent::Received(Err(_))) by {
            assert(before[i] == events[i]);
        };
        law_loop_is_one_for_one(before);
        assert(!(events[events.len() - 1] matches LoopEvent::Received(Err(_))));
        assert forall|i: int| 0 <= i < events.len() implies crate::driver::loop_action(
            #[trigger] events[i],
        ) == Some(loop_actions(events)[i]) by {
            if i < before.len() {
                assert(before[i] == events[i]);
            }
        };
    }
}

/// As long as no receive fails, every received datagram is handed to libutp
/// exactly once, with its length and its address, in order of receipt. None is
/// lost to a tick, nor to an earlier datagram that libutp could not use.
pub proof fn law_datagrams_are_processed_in_order<A, E>(events: Seq<LoopEvent<A, E>>)
    requires
        never_fails(events),
    ensures
        processed(loop_actions(events)) == datagrams(events),
    decreases events.len(),
{
    if events.len() > 0 {
        lemma_loop_last(events);
        law_datagrams_are_processed_in_order(events.drop_last());
    }
}

/// As long as no receive fails, libutp gets to look for timeouts exactly once for
/// every tick, whether or not datagrams arrive.
pub proof fn law_every_tick_checks_timeouts<A, E>(events: Seq<LoopEvent<A, E>>)
    requires
        never_fails(events),
    ensures
        timeout_checks(loop_actions(events)) == ticks(events),
    decreases events.len(),
{
    if events.len() > 0 {
        lemma_loop_last(events);
        law_every_tick_checks_timeouts(events.drop_last());
    }
}

/// A failure to receive ends the loop: whatever comes after it, the loop has done
/// only what came before.
pub proof fn law_failed_receive_ends_the_loop<A, E>(
    before: Seq<LoopEvent<A, E>>,
    error: E,
    after: Seq<LoopEvent<A, E>>,
)
    ensures
        loop_actions(before.push(LoopEvent::Received(Err(error))) + after) == loop_actions(before),
    decreases after.len(),
{
    let failed = before.push(LoopEvent::Received(Err(error)));
    lemma_loop_length(before);
    if after.len() == 0 {
        assert(failed + after =~= failed);
        assert(failed.drop_last() =~= before);
    } else {
        law_failed_receive_ends_the_loop(before, error, after.drop_last());
        assert((failed + after).drop_last() =~= failed + after.drop_last());
    }
}

/// The loop never does more than one thing for an event.
proof fn lemma_loop_length<A, E>(events: Seq<LoopEvent<A, E>>)
    ensures
        loop_actions(events).len() <= events.len(),
    decreases events.len(),
{
    if events.len() > 0 {
        lemma_loop_length(events.drop_last());
    }
}

/// The last event of a history without failures adds its action to those of the
/// events before it.
proof fn lemma_loop_last<A, E>(events: Seq<LoopEvent<A, E>>)
    requires
        never_fails(events),
        events.len() > 0,
    ensures
        never_fails(events.drop_last()),
        crate::driver::loop_action(events.last()) == Some(loop_actions(events).last()),
        loop_actions(events).len() == events.len(),
        loop_actions(events).drop_last() == loop_actions(events.drop_last()),
{
    let before = events.drop_last();
    assert forall|i: int| 0 <= i < before.len() implies !(#[trigger] before[i]
        matches LoopEvent::Received(Err(_))) by {
        assert(before[i] == events[i]);
    };
    law_loop_is_one_for_one(before);
    assert(!(events[events.len() - 1] matches LoopEvent::Received(Err(_))));
    let action = crate::driver::loop_action(events.last())->0;
    assert(loop_actions(before).push(action).drop_last() =~= loop_actions(before));
}

/// The setup of a UDP socket after a history of outcomes.
pub open spec fn udp_run(state: UdpSetup, udp_rcvbuf: Option<usize>, oks: Seq<bool>) -> UdpSetup
    decreases oks.len(),
{
    if oks.len() == 0 {
        state
    } else {
        udp_run(state.next(udp_rcvbuf, oks[0]), udp_rcvbuf, oks.drop_first())
    }
}

/// A setup that has ended stays as it has ended.
proof fn lemma_udp_end_is_final(state: UdpSetup, udp_rcvbuf: Option<usize>, oks: Seq<bool>)
    requires
        state is Done || state is Failed,
    ensures
        udp_run(state, udp_rcvbuf, oks) == state,
    decreases oks.len(),
{
    if oks.len() > 0 {
        lemma_udp_end_is_final(state, udp_rcvbuf, oks.drop_first());
    }
}

/// Setting up a UDP socket ends after at most four operations. Without a size to
/// set, it succeeds if and only if the socket could be bound. With one, whether
/// the size could be set does not matter.
pub proof fn law_udp_setup_ends(udp_rcvbuf: Option<usize>, oks: Seq<bool>)
    requires
        oks.len() >= 4,
    ensures
        udp_run(UdpSetup::Bind, udp_rcvbuf, oks) == match udp_rcvbuf {
            _ if !oks[0] => UdpSetup::Failed(UdpFailure::Bind),
            None => UdpSetup::Done,
            Some(_) if !oks[1] => UdpSetup::Failed(UdpFailure::IntoStd),
            Some(_) if !oks[3] => UdpSetup::Failed(UdpFailure::FromStd),
            Some(_) => UdpSetup::Done,
        },
{
    let s1 = UdpSetup::Bind.next(udp_rcvbuf, oks[0]);
    let r1 = oks.drop_first();
    let s2 = s1.next(udp_rcvbuf, r1[0]);
    let r2 = r1.drop_first();
    let s3 = s2.next(udp_rcvbuf, r2[0]);
    let r3 = r2.drop_first();
    let s4 = s3.next(udp_rcvbuf, r3[0]);
    let r4 = r3.drop_first();
    assert(udp_run(UdpSetup::Bind, udp_rcvbuf, oks) == udp_run(s1, udp_rcvbuf, r1));
    assert(udp_run(s1, udp_rcvbuf, r1) == udp_run(s2, udp_rcvbuf, r2));
    assert(udp_run(s2, udp_rcvbuf, r2) == udp_run(s3, udp_rcvbuf, r3));
    assert(udp_run(s3, udp_rcvbuf, r3) == udp_run(s4, udp_rcvbuf, r4));
    lemma_udp_end_is_final(s4, udp_rcvbuf, r4);
}

/// The size that was asked for is the size that is set, whatever it is: once the
/// socket is bound and taken out of the runtime, exactly that size is to be set,
/// and then the socket is handed back whether or not that succeeded.
pub proof fn law_udp_size_is_the_one_asked_for(size: usize, set: bool)
    ensures
        udp_run(UdpSetup::Bind, Some(size), seq![true, true]) == (UdpSetup::SetRecvBuffer {
            size,
        }),
        udp_run(UdpSetup::Bind, Some(size), seq![true, true, set]) == UdpSetup::FromStd,
{
    let bound = UdpSetup::Bind.next(Some(size), true);
    let taken = bound.next(Some(size), true);
    let handed = taken.next(Some(size), set);
    assert(seq![true, true].drop_first() =~= seq![true]);
    assert(seq![true].drop_first() =~= Seq::<bool>::empty());
    assert(udp_run(taken, Some(size), Seq::empty()) == taken);
    assert(udp_run(bound, Some(size), seq![true]) == taken);
    assert(seq![true, true, set].drop_first() =~= seq![true, set]);
    assert(seq![true, set].drop_first() =~= seq![set]);
    assert(seq![set].drop_first() =~= Seq::<bool>::empty());
    assert(udp_run(handed, Some(size), Seq::empty()) == handed);
    assert(udp_run(taken, Some(size), seq![set]) == handed);
    assert(udp_run(bound, Some(size), seq![true, set]) == handed);
}

} // verus!
