//! Contexts: how they are set up and whom they give incoming connections.
use crate::codes::{
    MAGIC, RX_BUF_CAPACITY, UTP_GET_READ_BUFFER_SIZE, UTP_LOG, UTP_LOG_DEBUG, UTP_LOG_NORMAL,
    UTP_ON_ACCEPT, UTP_ON_CONNECT, UTP_ON_ERROR, UTP_ON_READ, UTP_ON_STATE_CHANGE, UTP_RCVBUF,
    UTP_SENDTO,
};
use crate::error::UtpError;
use crate::opts::{UtpLogLevel, UtpOpts};
use crate::stream::UtpStream;
use std::collections::VecDeque;
use vstd::prelude::*;

verus! {

/// A step of setting a context of libutp up.
#[derive(Clone, Copy, Debug, PartialEq, Eq, Structural)]
pub enum SetupStep {
    /// Set an option of the context.
    SetOption { option: i32, value: i32 },
    /// Register the callback of this number.
    SetCallback { callback: i32 },
    /// Make the context known to its callbacks.
    SetUserdata,
    /// Start the loop that feeds the context.
    Spawn,
}

/// What becomes of an incoming connection.
#[derive(Debug, PartialEq, Eq)]
pub enum AcceptAction<A> {
    /// It goes to this acceptor.
    Deliver(A),
    /// Nobody waits for it: its socket is closed.
    Close,
}

/// The steps that switch logging on.
pub open spec fn log_steps(level: UtpLogLevel) -> Seq<SetupStep> {
    match level {
        UtpLogLevel::Off => seq![],
        UtpLogLevel::Normal => seq![SetupStep::SetOption { option: UTP_LOG_NORMAL, value: 1 }],
        UtpLogLevel::Debug => seq![
            SetupStep::SetOption { option: UTP_LOG_NORMAL, value: 1 },
            SetupStep::SetOption { option: UTP_LOG_DEBUG, value: 1 },
        ],
    }
}

/// The steps that register the callbacks.
pub open spec fn callback_steps() -> Seq<SetupStep> {
    seq![
        SetupStep::SetCallback { callback: UTP_ON_CONNECT },
        SetupStep::SetCallback { callback: UTP_LOG },
        SetupStep::SetCallback { callback: UTP_ON_STATE_CHANGE },
        SetupStep::SetCallback { callback: UTP_ON_READ },
        SetupStep::SetCallback { callback: UTP_SENDTO },
        SetupStep::SetCallback { callback: UTP_ON_ERROR },
        SetupStep::SetCallback { callback: UTP_ON_ACCEPT },
        SetupStep::SetCallback { callback: UTP_GET_READ_BUFFER_SIZE },
    ]
}

/// The steps of setting a context up: options, then callbacks, and only then do
/// the callbacks get to know the context and does the loop start.
pub open spec fn setup_steps(level: UtpLogLevel) -> Seq<SetupStep> {
    log_steps(level) + seq![
        SetupStep::SetOption { option: UTP_RCVBUF, value: RX_BUF_CAPACITY as i32 },
    ] + callback_steps() + seq![SetupStep::SetUserdata, SetupStep::Spawn]
}

/// A context: the handle `C` of libutp's context and the acceptors `A` that wait
/// for a connection.
pub struct UtpContext<C, A> {
    ctx: C,
    magic: u64,
    accept_queue: VecDeque<A>,
}

/// The model of a context.
#[verifier::ext_equal]
pub struct ContextModel<C, A> {
    /// The handle of libutp's context.
    pub ctx: C,
    /// The mark that callbacks check.
    pub magic: u64,
    /// Who waits for a connection, in the order in which they came.
    pub waiting: Seq<A>,
}

impl<C, A> ContextModel<C, A> {
    /// A context for which nobody waits.
    pub open spec fn fresh(ctx: C) -> Self {
        ContextModel { ctx, magic: MAGIC, waiting: Seq::empty() }
    }

    /// What holds of every context.
    pub open spec fn valid(self) -> bool {
        self.magic == MAGIC
    }

    /// The context after an acceptor has come.
    pub open spec fn accept(self, acceptor: A) -> Self {
        ContextModel { waiting: self.waiting.push(acceptor), ..self }
    }

    /// What becomes of an incoming connection.
    pub open spec fn incoming_action(self) -> AcceptAction<A> {
        if self.waiting.len() > 0 {
            AcceptAction::Deliver(self.waiting[0])
        } else {
            AcceptAction::Close
        }
    }

    /// The context after an incoming connection.
    pub open spec fn incoming(self) -> Self {
        if self.waiting.len() > 0 {
            ContextModel { waiting: self.waiting.drop_first(), ..self }
        } else {
            self
        }
    }
}

impl<C, A> View for UtpContext<C, A> {
    type V = ContextModel<C, A>;

    closed spec fn view(&self) -> ContextModel<C, A> {
        ContextModel { ctx: self.ctx, magic: self.magic, waiting: self.accept_queue@ }
    }
}

/// The steps that set a context up.
fn setup(level: UtpLogLevel) -> (steps: Vec<SetupStep>)
    ensures
        steps@ == setup_steps(level),
{
    let mut steps: Vec<SetupStep> = Vec::new();
    match level {
        UtpLogLevel::Off => {},
        UtpLogLevel::Normal => {
            steps.push(SetupStep::SetOption { option: UTP_LOG_NORMAL, value: 1 });
        },
        UtpLogLevel::Debug => {
            steps.push(SetupStep::SetOption { option: UTP_LOG_NORMAL, value: 1 });
            steps.push(SetupStep::SetOption { option: UTP_LOG_DEBUG, value: 1 });
        },
    }
    steps.push(SetupStep::SetOption { option: UTP_RCVBUF, value: RX_BUF_CAPACITY as i32 });
    steps.push(SetupStep::SetCallback { callback: UTP_ON_CONNECT });
    steps.push(SetupStep::SetCallback { callback: UTP_LOG });
    steps.push(SetupStep::SetCallback { callback: UTP_ON_STATE_CHANGE });
    steps.push(SetupStep::SetCallback { callback: UTP_ON_READ });
    steps.push(SetupStep::SetCallback { callback: UTP_SENDTO });
    steps.push(SetupStep::SetCallback { callback: UTP_ON_ERROR });
    steps.push(SetupStep::SetCallback { callback: UTP_ON_ACCEPT });
    steps.push(SetupStep::SetCallback { callback: UTP_GET_READ_BUFFER_SIZE });
    steps.push(SetupStep::SetUserdata);
    steps.push(SetupStep::Spawn);
    steps
}

impl<C, A> UtpContext<C, A> {
    /// The context for what `utp_init` gave, and the steps that set it up. There
    /// is one if and only if `utp_init` gave one.
    pub fn new(ctx: Option<C>, opts: &UtpOpts) -> (result: Result<(Self, Vec<SetupStep>), UtpError>)
        ensures
            result is Ok <==> ctx is Some,
            result matches Err(e) ==> e == UtpError::InitReturnedNull,
            result matches Ok((context, steps)) ==> {
                &&& context@ == ContextModel::<C, A>::fresh(ctx->0)
                &&& steps@ == setup_steps(opts.log_level)
                &&& context@.ctx == ctx->0
                &&& context@.magic == MAGIC
                &&& context@.waiting.len() == 0
            },
    {
        match ctx {
            None => Err(UtpError::InitReturnedNull),
            Some(ctx) => {
                let context: Self = UtpContext { ctx, magic: MAGIC, accept_queue: VecDeque::new() };
                Ok((context, setup(opts.log_level)))
            },
        }
    }

    /// The mark that callbacks check before they use the context.
    pub fn magic(&self) -> (magic: u64)
        ensures
            magic == self@.magic,
    {
        self.magic
    }

    /// The handle of libutp's context.
    pub fn ctx(&self) -> (ctx: &C)
        ensures
            *ctx == self@.ctx,
    {
        &self.ctx
    }

    /// An acceptor has come: it waits behind those that wait already.
    pub fn accept(&mut self, acceptor: A)
        ensures
            final(self)@ == old(self)@.accept(acceptor),
            final(self)@.waiting == old(self)@.waiting + seq![acceptor],
            final(self)@.ctx == old(self)@.ctx,
            final(self)@.magic == old(self)@.magic,
    {
        self.accept_queue.push_back(acceptor);
    }

    /// What an acceptor is answered, given what it received: the stream that was
    /// delivered to it, or nothing where it was dropped undelivered.
    pub fn accept_result<S>(received: Option<S>) -> (result: Result<S, UtpError>)
        ensures
            result == match received {
                Some(stream) => Ok::<S, UtpError>(stream),
                None => Err::<S, UtpError>(UtpError::ServerDead),
            },
    {
        match received {
            Some(stream) => Ok(stream),
            None => Err(UtpError::ServerDead),
        }
    }

    /// A connection has come in: it goes to the acceptor that has waited
    /// longest, who then waits no more.
    pub fn utp_on_accept(&mut self) -> (action: AcceptAction<A>)
        ensures
            final(self)@ == old(self)@.incoming(),
            action == old(self)@.incoming_action(),
            match action {
                AcceptAction::Deliver(acceptor) => old(self)@.waiting == seq![acceptor]
                    + final(self)@.waiting,
                AcceptAction::Close => old(self)@.waiting.len() == 0 && final(self)@.waiting.len()
                    == 0,
            },
            final(self)@.ctx == old(self)@.ctx,
            final(self)@.magic == old(self)@.magic,
    {
        match self.accept_queue.pop_front() {
            Some(acceptor) => AcceptAction::Deliver(acceptor),
            None => AcceptAction::Close,
        }
    }

    /// The stream of an outgoing connection, given what `utp_create_socket` gave.
    pub fn connect<S>(&self, sock: Option<S>) -> (result: Result<UtpStream<S>, UtpError>)
        ensures
            result is Ok <==> sock is Some,
            result matches Err(e) ==> e == UtpError::CreateSocketReturnedNull,
            result matches Ok(stream) ==> {
                &&& stream.wf()
                &&& stream@ == crate::model::StreamModel::fresh(sock)
                &&& stream@.inner.socket == sock
                &&& stream@.inner.buffered.len() == 0
                &&& !stream@.inner.eof
                &&& !stream@.shutdown_called
            },
    {
        if sock.is_none() {
            return Err(UtpError::CreateSocketReturnedNull);
        }
        Ok(UtpStream::new(sock))
    }

    /// Whether an outgoing connection is under way, given what `utp_connect`
    /// returned.
    pub fn connect_result(ret: i32) -> (result: Result<(), UtpError>)
        ensures
            result == if ret < 0 {
                Err::<(), UtpError>(UtpError::ConnectFailed)
            } else {
                Ok::<(), UtpError>(())
            },
    {
        if ret < 0 {
            return Err(UtpError::ConnectFailed);
        }
        Ok(())
    }
}

} // verus!
