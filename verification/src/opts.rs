//! The options that a context is created with.
use vstd::prelude::*;

verus! {

/// How much libutp logs.
#[derive(Clone, Copy, Debug, PartialEq, Eq, Structural)]
pub enum UtpLogLevel {
    /// Nothing.
    Off,
    Normal,
    Debug,
}

impl Default for UtpLogLevel {
    /// libutp does not log unless it is asked to.
    fn default() -> (level: Self)
        ensures
            level == UtpLogLevel::Off,
    {
        UtpLogLevel::Off
    }
}

/// The options that a context is created with.
#[derive(Clone, Copy, Debug, PartialEq, Eq, Structural)]
pub struct UtpOpts {
    pub log_level: UtpLogLevel,
    /// If set will try to set the SO_RCVBUF option on the socket (if UDP).
    pub udp_rcvbuf: Option<usize>,
}

impl Default for UtpOpts {
    /// No logging, and the receive buffer of the UDP socket as the system has it.
    fn default() -> (opts: Self)
        ensures
            opts.log_level == UtpLogLevel::Off,
            opts.udp_rcvbuf is None,
    {
        UtpOpts { log_level: UtpLogLevel::default(), udp_rcvbuf: None }
    }
}

} // verus!
