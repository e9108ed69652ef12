use libutp_rs2::codes::{
    MAGIC, RX_BUF_CAPACITY, SHUT_RDWR, UTP_STATE_CONNECT, UTP_STATE_DESTROYING, UTP_STATE_EOF,
    UTP_STATE_WRITABLE,
};
use libutp_rs2::error::UtpError;
use libutp_rs2::model::{Effects, ShutdownAction, SocketState};
use libutp_rs2::progress::Progress;
use libutp_rs2::stream::WriteProgress;
use libutp_rs2::UtpStream;
use std::cell::Cell;

const NOTHING: Effects = Effects {
    read_drained: false,
    wake_reader: false,
    wake_writer: false,
};

fn stream() -> UtpStream<u32> {
    UtpStream::new(Some(7))
}

fn bytes(from: usize, len: usize) -> Vec<u8> {
    (from..from + len).map(|i| (i % 251) as u8).collect()
}

#[test]
fn new_stream_is_empty_and_marked() {
    let mut s = stream();
    assert_eq!(s.magic(), MAGIC);
    assert_eq!(*s.utp_socket(), Some(7));
    assert_eq!(s.utp_get_read_buffer_size(), 0);
    let mut out = [9u8; 4];
    assert_eq!(s.poll_read(&mut out), Progress::Pending);
    assert_eq!(out, [9u8; 4]);
}

#[test]
fn received_bytes_are_read_back() {
    let mut s = stream();
    let effects = s.utp_on_read(b"hello");
    assert_eq!(
        effects,
        Effects { read_drained: true, wake_reader: true, wake_writer: false }
    );
    assert_eq!(s.utp_get_read_buffer_size(), 5);
    let mut out = [0u8; 8];
    assert_eq!(s.poll_read(&mut out), Progress::Ready(5));
    assert_eq!(&out, b"hello\0\0\0");
    assert_eq!(s.utp_get_read_buffer_size(), 0);
    assert_eq!(s.poll_read(&mut out), Progress::Pending);
}

#[test]
fn short_reads_take_the_oldest_bytes() {
    let mut s = stream();
    s.utp_on_read(b"abc");
    s.utp_on_read(b"");
    s.utp_on_read(b"def");
    let mut out = [0u8; 4];
    assert_eq!(s.poll_read(&mut out), Progress::Ready(4));
    assert_eq!(&out, b"abcd");
    let mut out = [b'x'; 4];
    assert_eq!(s.poll_read(&mut out), Progress::Ready(2));
    assert_eq!(&out, b"efxx");
}

#[test]
fn an_empty_read_buffer_waits_even_with_bytes_there() {
    let mut s = stream();
    s.utp_on_read(b"abc");
    let mut out: [u8; 0] = [];
    assert_eq!(s.poll_read(&mut out), Progress::Pending);
    assert_eq!(s.utp_get_read_buffer_size(), 3);
}

#[test]
fn bytes_beyond_the_capacity_are_left_out() {
    let mut s = stream();
    let all = bytes(0, RX_BUF_CAPACITY + 100);
    s.utp_on_read(&all);
    assert_eq!(s.utp_get_read_buffer_size(), 1048576);
    s.utp_on_read(b"more");
    assert_eq!(s.utp_get_read_buffer_size(), 1048576);
    let mut out = vec![0u8; RX_BUF_CAPACITY + 100];
    assert_eq!(s.poll_read(&mut out), Progress::Ready(RX_BUF_CAPACITY));
    assert_eq!(out[..RX_BUF_CAPACITY], all[..RX_BUF_CAPACITY]);
    assert!(out[RX_BUF_CAPACITY..].iter().all(|b| *b == 0));
}

#[test]
fn order_is_kept_when_the_buffer_wraps() {
    let mut s = stream();
    let chunk = 300_000;
    let mut sent = 0;
    let mut seen = 0;
    for _ in 0..10 {
        for _ in 0..3 {
            s.utp_on_read(&bytes(sent, chunk));
            sent += chunk;
        }
        for _ in 0..2 {
            let mut out = vec![0u8; 450_000];
            assert_eq!(s.poll_read(&mut out), Progress::Ready(450_000));
            assert_eq!(out, bytes(seen, 450_000));
            seen += 450_000;
        }
    }
    assert_eq!(seen, sent);
    assert_eq!(s.utp_get_read_buffer_size(), 0);
}

#[test]
fn a_full_window_comes_back_whole() {
    let mut s = stream();
    s.utp_on_read(&bytes(0, 1000));
    let room = RX_BUF_CAPACITY - s.utp_get_read_buffer_size() as usize;
    s.utp_on_read(&bytes(1000, room));
    let mut out = vec![0u8; RX_BUF_CAPACITY];
    assert_eq!(s.poll_read(&mut out), Progress::Ready(RX_BUF_CAPACITY));
    assert_eq!(out, bytes(0, RX_BUF_CAPACITY));
}

#[test]
fn the_end_comes_after_all_bytes_and_stays() {
    let mut s = stream();
    s.utp_on_read(b"xy");
    let effects = s.utp_on_state_change(UTP_STATE_EOF as i32);
    assert_eq!(effects, Effects { wake_reader: true, ..NOTHING });
    let mut out = [0u8; 2];
    assert_eq!(s.poll_read(&mut out), Progress::Ready(2));
    assert_eq!(&out, b"xy");
    assert_eq!(s.poll_read(&mut out), Progress::Ready(0));
    s.utp_on_state_change(UTP_STATE_WRITABLE as i32);
    assert_eq!(s.poll_read(&mut out), Progress::Ready(0));
    s.utp_on_read(b"z");
    assert_eq!(s.poll_read(&mut out), Progress::Ready(1));
    assert_eq!(s.poll_read(&mut out), Progress::Ready(0));
}

#[test]
fn destroying_ends_reading_and_wakes_both() {
    let mut s = stream();
    let effects = s.utp_on_state_change(UTP_STATE_DESTROYING as i32);
    assert_eq!(
        effects,
        Effects { read_drained: false, wake_reader: true, wake_writer: true }
    );
    assert_eq!(s.poll_read(&mut [0u8; 2]), Progress::Ready(0));
}

#[test]
fn connecting_wakes_the_writer_only() {
    let mut s = stream();
    let writer = Effects { wake_writer: true, ..NOTHING };
    assert_eq!(s.utp_on_connect(), writer);
    assert_eq!(s.utp_on_state_change(UTP_STATE_CONNECT as i32), writer);
    assert_eq!(s.utp_on_state_change(UTP_STATE_WRITABLE as i32), writer);
    assert_eq!(s.poll_read(&mut [0u8; 2]), Progress::Pending);
}

#[test]
fn unknown_states_do_nothing() {
    let mut s = stream();
    for code in [0, 5, 100, -1, -2147483648] {
        assert_eq!(s.utp_on_state_change(code), NOTHING);
    }
    assert_eq!(s.poll_read(&mut [0u8; 2]), Progress::Pending);
}

#[test]
fn state_numbers_have_their_meaning() {
    assert_eq!(SocketState::from_code(1), SocketState::Connect);
    assert_eq!(SocketState::from_code(2), SocketState::Writable);
    assert_eq!(SocketState::from_code(3), SocketState::Eof);
    assert_eq!(SocketState::from_code(4), SocketState::Destroying);
    assert_eq!(SocketState::from_code(0), SocketState::Unknown(0));
    assert_eq!(SocketState::from_code(5), SocketState::Unknown(5));
    assert_eq!(SocketState::from_code(-1), SocketState::Unknown(4294967295));
    assert_eq!(
        SocketState::from_code(-2147483648),
        SocketState::Unknown(2147483648)
    );
}

#[test]
fn a_wakeup_comes_with_every_chance_to_read() {
    let events: [fn(&mut UtpStream<u32>) -> Effects; 3] = [
        |s| s.utp_on_read(b"a"),
        |s| s.utp_on_state_change(3),
        |s| s.utp_on_state_change(4),
    ];
    for event in events {
        let mut s = stream();
        assert_eq!(s.poll_read(&mut [0u8; 2]), Progress::Pending);
        assert!(event(&mut s).wake_reader);
        assert!(s.poll_read(&mut [0u8; 2]) != Progress::Pending);
    }
}

#[test]
fn write_numbers_are_reported() {
    let result = |len: isize| -> WriteProgress<()> { UtpStream::<u32>::write_result(len) };
    assert_eq!(result(0), WriteProgress::SocketFull);
    assert_eq!(result(1), WriteProgress::Ready(Ok(1)));
    assert_eq!(result(1400), WriteProgress::Ready(Ok(1400)));
    assert_eq!(result(-1), WriteProgress::Ready(Ok(usize::MAX)));
    assert_eq!(result(-2), WriteProgress::Ready(Ok(usize::MAX - 1)));
}

#[test]
fn nothing_is_written_unless_the_transport_is_ready() {
    let calls = Cell::new(0);
    let write = |len: isize| {
        let calls = &calls;
        move || {
            calls.set(calls.get() + 1);
            len
        }
    };
    let poll = |ready: Progress<Result<(), &'static str>>, len: isize| {
        UtpStream::<u32>::poll_write(ready, write(len))
    };
    assert_eq!(poll(Progress::Pending, 3), WriteProgress::TransportBusy);
    assert_eq!(
        poll(Progress::Ready(Err("broken")), 3),
        WriteProgress::Ready(Err("broken"))
    );
    assert_eq!(calls.get(), 0);
    assert_eq!(poll(Progress::Ready(Ok(())), 3), WriteProgress::Ready(Ok(3)));
    assert_eq!(poll(Progress::Ready(Ok(())), 0), WriteProgress::SocketFull);
    assert_eq!(calls.get(), 2);
}

#[test]
fn flushing_is_refused() {
    assert_eq!(stream().poll_flush(), Err(UtpError::FlushNotImplemented));
}

#[test]
fn shutdown_takes_two_requests() {
    let mut s = stream();
    assert_eq!(
        s.poll_shutdown(),
        ShutdownAction::Refuse(UtpError::ShutdownNotImplemented)
    );
    s.utp_on_read(b"a");
    for _ in 0..3 {
        assert_eq!(s.poll_shutdown(), ShutdownAction::Force { how: SHUT_RDWR });
    }
    assert_eq!(SHUT_RDWR, 2);
    assert_eq!(s.utp_get_read_buffer_size(), 1);
}
