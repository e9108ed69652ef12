//! The decision core of an asynchronous uTP (uTorrent transport protocol)
//! library on top of libutp.
//!
//! Nothing here performs I/O. Every function takes plain values, among them
//! what a call into libutp or the transport returned, and says what is to be
//! done next. The program around the library performs it.
pub mod codes;
pub mod context;
pub mod driver;
pub mod error;
pub mod guard;
pub mod laws;
pub mod lock;
pub mod model;
pub mod names;
pub mod opts;
pub mod progress;
pub mod ring;
pub mod stream;
pub mod udp;

pub use context::UtpContext;
pub use lock::with_global_lock;
pub use opts::{UtpLogLevel, UtpOpts};
pub use stream::UtpStream;
