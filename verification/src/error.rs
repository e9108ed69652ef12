//! The errors of this library and their texts.
use vstd::prelude::*;
use vstd::string::*;

verus! {

/// What can go wrong between the program and libutp.
#[derive(Clone, Copy, Debug, PartialEq, Eq, Structural)]
pub enum UtpError {
    /// `utp_init` gave no context.
    InitReturnedNull,
    /// `utp_create_socket` gave no socket.
    CreateSocketReturnedNull,
    /// `utp_connect` gave a negative number.
    ConnectFailed,
    /// The context was dropped before a connection came in.
    ServerDead,
    /// libutp has no flush.
    FlushNotImplemented,
    /// The first request to shut a stream down is refused.
    ShutdownNotImplemented,
}

impl UtpError {
    /// The text of the error.
    pub open spec fn text(self) -> Seq<char> {
        match self {
            UtpError::InitReturnedNull => "utp_init returned NULL"@,
            UtpError::CreateSocketReturnedNull => "utp_create_socket returned null"@,
            UtpError::ConnectFailed => "utp_connect returned an error"@,
            UtpError::ServerDead => "server dead"@,
            UtpError::FlushNotImplemented => "poll_flush not implemented"@,
            UtpError::ShutdownNotImplemented =>
                "poll_shutdown not implemented. If you want to force call utp_shutdown, call it again"@,
        }
    }

    /// The text of the error.
    pub fn message(&self) -> (text: &'static str)
        ensures
            text@ == self.text(),
    {
        match self {
            UtpError::InitReturnedNull => "utp_init returned NULL",
            UtpError::CreateSocketReturnedNull => "utp_create_socket returned null",
            UtpError::ConnectFailed => "utp_connect returned an error",
            UtpError::ServerDead => "server dead",
            UtpError::FlushNotImplemented => "poll_flush not implemented",
            UtpError::ShutdownNotImplemented =>
                "poll_shutdown not implemented. If you want to force call utp_shutdown, call it again",
        }
    }
}

/// The text of the error for a UDP socket that could not be bound to the
/// address written as `address`.
pub fn bind_error_message(address: &str) -> (text: String)
    ensures
        text@ == "error binding to "@ + address@,
{
    let mut text: String = String::from_str("error binding to ");
    text.append(address);
    text
}

} // verus!
