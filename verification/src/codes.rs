//! The numbers of libutp's C interface.
use vstd::prelude::*;

verus! {

/// The interface version that `utp_init` is asked for.
pub const UTP_INIT_VERSION: i32 = 2;

/// Callback: a peer has opened a connection.
pub const UTP_ON_ACCEPT: i32 = 1;

/// Callback: an outgoing connection is established.
pub const UTP_ON_CONNECT: i32 = 2;

/// Callback: a socket has failed.
pub const UTP_ON_ERROR: i32 = 3;

/// Callback: bytes have arrived on a socket.
pub const UTP_ON_READ: i32 = 4;

/// Callback: a socket has changed its state.
pub const UTP_ON_STATE_CHANGE: i32 = 6;

/// Callback: how many received bytes are waiting to be read.
pub const UTP_GET_READ_BUFFER_SIZE: i32 = 7;

/// Callback: a line for the log.
pub const UTP_LOG: i32 = 14;

/// Callback: a datagram is to be sent.
pub const UTP_SENDTO: i32 = 15;

/// Option: log at the normal level.
pub const UTP_LOG_NORMAL: i32 = 16;

/// Option: log at the debug level.
pub const UTP_LOG_DEBUG: i32 = 18;

/// Option: the size of the receive buffer in bytes.
pub const UTP_RCVBUF: i32 = 20;

/// State: the connection is established.
pub const UTP_STATE_CONNECT: u32 = 1;

/// State: the socket takes bytes again.
pub const UTP_STATE_WRITABLE: u32 = 2;

/// State: the peer has closed the connection.
pub const UTP_STATE_EOF: u32 = 3;

/// State: the socket is being destroyed.
pub const UTP_STATE_DESTROYING: u32 = 4;

/// Shutdown mode: both directions.
pub const SHUT_RDWR: i32 = 2;

/// The capacity in bytes of a stream's receive buffer, and the size of the
/// receive window that libutp is told of.
pub const RX_BUF_CAPACITY: usize = 1024 * 1024;

/// Marks the objects that libutp hands back as user data.
pub const MAGIC: u64 = 0x42424242_42424242;

} // verus!
