use libutp_rs2::codes::{
    MAGIC, UTP_GET_READ_BUFFER_SIZE, UTP_LOG, UTP_LOG_DEBUG, UTP_LOG_NORMAL, UTP_ON_ACCEPT,
    UTP_ON_CONNECT, UTP_ON_ERROR, UTP_ON_READ, UTP_ON_STATE_CHANGE, UTP_RCVBUF, UTP_SENDTO,
};
use libutp_rs2::context::{AcceptAction, SetupStep};
use libutp_rs2::driver::{
    next_action, recv_from, LoopAction, LoopEvent, RecvStep, RECV_BUFFER_SIZE,
    TIMEOUT_INTERVAL_MILLIS,
};
use libutp_rs2::error::{bind_error_message, UtpError};
use libutp_rs2::guard::{
    check_callback, utp_on_sendto, CallbackFault, Handle, Lookup, SendFault,
};
use libutp_rs2::names::get_name;
use libutp_rs2::progress::Progress;
use libutp_rs2::udp::{UdpFailure, UdpSetup};
use libutp_rs2::{with_global_lock, UtpContext, UtpLogLevel, UtpOpts};
use parking_lot::ReentrantMutex;

fn opts(log_level: UtpLogLevel) -> UtpOpts {
    UtpOpts { log_level, udp_rcvbuf: None }
}

fn context() -> UtpContext<u8, &'static str> {
    match UtpContext::new(Some(1), &UtpOpts::default()) {
        Ok((context, _)) => context,
        Err(e) => panic!("{}", e.message()),
    }
}

fn steps(level: UtpLogLevel) -> Vec<SetupStep> {
    match UtpContext::<u8, ()>::new(Some(1), &opts(level)) {
        Ok((_, steps)) => steps,
        Err(e) => panic!("{}", e.message()),
    }
}

#[test]
fn default_options() {
    let opts = UtpOpts::default();
    assert_eq!(opts.log_level, UtpLogLevel::Off);
    assert_eq!(opts.udp_rcvbuf, None);
    assert_eq!(UtpLogLevel::default(), UtpLogLevel::Off);
}

#[test]
fn no_context_without_init() {
    match UtpContext::<u8, ()>::new(None, &UtpOpts::default()) {
        Ok(_) => panic!("a context out of nothing"),
        Err(e) => assert_eq!(e, UtpError::InitReturnedNull),
    }
}

#[test]
fn new_context_is_marked() {
    let context = context();
    assert_eq!(context.magic(), MAGIC);
    assert_eq!(MAGIC, 0x4242424242424242);
    assert_eq!(*context.ctx(), 1);
}

#[test]
fn setup_without_logging() {
    let expected = vec![
        SetupStep::SetOption { option: UTP_RCVBUF, value: 1048576 },
        SetupStep::SetCallback { callback: UTP_ON_CONNECT },
        SetupStep::SetCallback { callback: UTP_LOG },
        SetupStep::SetCallback { callback: UTP_ON_STATE_CHANGE },
        SetupStep::SetCallback { callback: UTP_ON_READ },
        SetupStep::SetCallback { callback: UTP_SENDTO },
        SetupStep::SetCallback { callback: UTP_ON_ERROR },
        SetupStep::SetCallback { callback: UTP_ON_ACCEPT },
        SetupStep::SetCallback { callback: UTP_GET_READ_BUFFER_SIZE },
        SetupStep::SetUserdata,
        SetupStep::Spawn,
    ];
    assert_eq!(steps(UtpLogLevel::Off), expected);
}

#[test]
fn logging_is_set_first() {
    let normal = SetupStep::SetOption { option: UTP_LOG_NORMAL, value: 1 };
    let debug = SetupStep::SetOption { option: UTP_LOG_DEBUG, value: 1 };
    let mut expected = vec![normal];
    expected.extend(steps(UtpLogLevel::Off));
    assert_eq!(steps(UtpLogLevel::Normal), expected);
    let mut expected = vec![normal, debug];
    expected.extend(steps(UtpLogLevel::Off));
    assert_eq!(steps(UtpLogLevel::Debug), expected);
}

#[test]
fn acceptors_are_served_in_order() {
    let mut context = context();
    assert_eq!(context.utp_on_accept(), AcceptAction::Close);
    context.accept("first");
    context.accept("second");
    assert_eq!(context.utp_on_accept(), AcceptAction::Deliver("first"));
    context.accept("third");
    assert_eq!(context.utp_on_accept(), AcceptAction::Deliver("second"));
    assert_eq!(context.utp_on_accept(), AcceptAction::Deliver("third"));
    assert_eq!(context.utp_on_accept(), AcceptAction::Close);
}

#[test]
fn connecting() {
    let context = context();
    match context.connect::<u32>(None) {
        Ok(_) => panic!("a stream without a socket"),
        Err(e) => assert_eq!(e, UtpError::CreateSocketReturnedNull),
    }
    match context.connect::<u32>(Some(5)) {
        Ok(stream) => assert_eq!(*stream.utp_socket(), Some(5)),
        Err(e) => panic!("{}", e.message()),
    }
    let result = UtpContext::<u8, ()>::connect_result;
    assert_eq!(result(-1), Err(UtpError::ConnectFailed));
    assert_eq!(result(0), Ok(()));
    assert_eq!(result(1), Ok(()));
}

#[test]
fn acceptors_get_their_stream_or_learn_that_none_will_come() {
    let accepted: Result<&str, UtpError> = UtpContext::<u8, ()>::accept_result(Some("stream"));
    assert_eq!(accepted, Ok("stream"));
    let accepted: Result<&str, UtpError> = UtpContext::<u8, ()>::accept_result(None);
    assert_eq!(accepted, Err(UtpError::ServerDead));
}

#[test]
fn callbacks_check_what_they_are_given() {
    for handle in [Handle::Socket, Handle::Context] {
        assert_eq!(
            check_callback(handle, Lookup::NoArgs),
            Err(CallbackFault::ArgsNull)
        );
        assert_eq!(
            check_callback(handle, Lookup::NoHandle),
            Err(CallbackFault::HandleNull(handle))
        );
        assert_eq!(
            check_callback(handle, Lookup::NoUserdata),
            Err(CallbackFault::UserdataNull(handle))
        );
        assert_eq!(
            check_callback(handle, Lookup::Userdata { magic: MAGIC + 1 }),
            Err(CallbackFault::MagicMismatch(handle))
        );
        assert_eq!(check_callback(handle, Lookup::Userdata { magic: MAGIC }), Ok(()));
    }
    assert_eq!(
        check_callback(Handle::Context, Lookup::Userdata { magic: context().magic() }),
        Ok(())
    );
}

#[test]
fn sending_looks_at_the_address_before_the_context() {
    let good = Lookup::Userdata { magic: MAGIC };
    assert_eq!(utp_on_sendto(Some(9), good), Ok(9));
    assert_eq!(utp_on_sendto::<u8>(None, good), Err(SendFault::BadAddress));
    assert_eq!(
        utp_on_sendto::<u8>(None, Lookup::NoHandle),
        Err(SendFault::BadAddress)
    );
    assert_eq!(
        utp_on_sendto::<u8>(None, Lookup::NoArgs),
        Err(SendFault::Callback(CallbackFault::ArgsNull))
    );
    assert_eq!(
        utp_on_sendto(Some(9), Lookup::NoHandle),
        Err(SendFault::Callback(CallbackFault::HandleNull(Handle::Context)))
    );
    assert_eq!(
        utp_on_sendto(Some(9), Lookup::NoUserdata),
        Err(SendFault::Callback(CallbackFault::UserdataNull(Handle::Context)))
    );
    assert_eq!(
        utp_on_sendto(Some(9), Lookup::Userdata { magic: 0 }),
        Err(SendFault::Callback(CallbackFault::MagicMismatch(Handle::Context)))
    );
}

#[test]
fn names_are_utf8_or_replaced() {
    assert_eq!(get_name(b"UTP_ECONNRESET"), "UTP_ECONNRESET");
    assert_eq!(get_name(b""), "");
    assert_eq!(get_name("\u{e9}t\u{e9}".as_bytes()), "\u{e9}t\u{e9}");
    assert_eq!(get_name(&[0x55, 0xff]), "<INVALID UTF-8>");
    assert_eq!(get_name(&[0xc3]), "<INVALID UTF-8>");
}

#[test]
fn acknowledgements_are_sent_when_nothing_is_left() {
    assert_eq!(recv_from(Progress::Ready(4)), RecvStep::Deliver(4));
    assert_eq!(recv_from::<u8>(Progress::Pending), RecvStep::IssueDeferredAcks);
}

#[test]
fn the_loop_feeds_libutp() {
    let event: LoopEvent<&str, ()> = LoopEvent::Received(Ok((20, "peer")));
    assert_eq!(next_action(event), LoopAction::ProcessUdp { len: 20, addr: "peer" });
    for (res, errored) in [(-1, Some(-1)), (0, None), (1, None)] {
        let event: LoopEvent<&str, ()> = LoopEvent::Processed { res };
        assert_eq!(next_action(event), LoopAction::Wait { errored });
    }
    let event: LoopEvent<&str, ()> = LoopEvent::Tick;
    assert_eq!(next_action(event), LoopAction::CheckTimeouts);
}

#[test]
fn the_loop_answers_every_event_in_order() {
    let events: Vec<LoopEvent<char, ()>> = vec![
        LoopEvent::Tick,
        LoopEvent::Received(Ok((3, 'a'))),
        LoopEvent::Processed { res: -1 },
        LoopEvent::Tick,
        LoopEvent::Tick,
        LoopEvent::Received(Ok((0, 'b'))),
        LoopEvent::Received(Ok((3, 'a'))),
    ];
    let actions: Vec<LoopAction<char>> = events.into_iter().map(next_action).collect();
    let expected = vec![
        LoopAction::CheckTimeouts,
        LoopAction::ProcessUdp { len: 3, addr: 'a' },
        LoopAction::Wait { errored: Some(-1) },
        LoopAction::CheckTimeouts,
        LoopAction::CheckTimeouts,
        LoopAction::ProcessUdp { len: 0, addr: 'b' },
        LoopAction::ProcessUdp { len: 3, addr: 'a' },
    ];
    assert_eq!(actions, expected);
    assert_eq!(TIMEOUT_INTERVAL_MILLIS, 500);
    assert_eq!(RECV_BUFFER_SIZE, 16384);
}

fn run(opts: &UtpOpts, oks: &[bool]) -> UdpSetup {
    oks.iter().fold(UdpSetup::Bind, |state, ok| state.step(opts, *ok))
}

#[test]
fn udp_setup_without_a_size() {
    let opts = UtpOpts::default();
    assert_eq!(run(&opts, &[true]), UdpSetup::Done);
    assert_eq!(run(&opts, &[true, false]), UdpSetup::Done);
    assert_eq!(run(&opts, &[false]), UdpSetup::Failed(UdpFailure::Bind));
}

#[test]
fn udp_setup_with_a_size() {
    let opts = UtpOpts { udp_rcvbuf: Some(4096), ..UtpOpts::default() };
    assert_eq!(run(&opts, &[true]), UdpSetup::IntoStd { size: 4096 });
    assert_eq!(run(&opts, &[true, true]), UdpSetup::SetRecvBuffer { size: 4096 });
    for set in [true, false] {
        assert_eq!(run(&opts, &[true, true, set]), UdpSetup::FromStd);
        assert_eq!(run(&opts, &[true, true, set, true]), UdpSetup::Done);
        assert_eq!(
            run(&opts, &[true, true, set, false]),
            UdpSetup::Failed(UdpFailure::FromStd)
        );
    }
    assert_eq!(run(&opts, &[false, true]), UdpSetup::Failed(UdpFailure::Bind));
    assert_eq!(run(&opts, &[true, false]), UdpSetup::Failed(UdpFailure::IntoStd));
}

#[test]
fn the_lock_is_held_while_the_function_runs() {
    let lock = ReentrantMutex::new(());
    let result = with_global_lock(&lock, || {
        assert!(lock.is_owned_by_current_thread());
        with_global_lock(&lock, || {
            assert!(lock.is_owned_by_current_thread());
            20
        }) + 1
    });
    assert_eq!(result, 21);
    assert!(!lock.is_locked());
}

#[test]
fn error_texts() {
    assert_eq!(UtpError::InitReturnedNull.message(), "utp_init returned NULL");
    assert_eq!(
        UtpError::CreateSocketReturnedNull.message(),
        "utp_create_socket returned null"
    );
    assert_eq!(UtpError::ConnectFailed.message(), "utp_connect returned an error");
    assert_eq!(UtpError::ServerDead.message(), "server dead");
    assert_eq!(UtpError::FlushNotImplemented.message(), "poll_flush not implemented");
    assert_eq!(
        UtpError::ShutdownNotImplemented.message(),
        "poll_shutdown not implemented. If you want to force call utp_shutdown, call it again"
    );
    assert_eq!(bind_error_message("127.0.0.1:80"), "error binding to 127.0.0.1:80");
}
