//! The checks that a callback makes before it uses what libutp handed it.
use crate::codes::MAGIC;
use vstd::prelude::*;

verus! {

/// The kind of object that a callback is about.
#[derive(Clone, Copy, Debug, PartialEq, Eq, Structural)]
pub enum Handle {
    Socket,
    Context,
}

/// How far a callback comes when it follows the pointers that libutp handed it.
#[derive(Clone, Copy, Debug, PartialEq, Eq, Structural)]
pub enum Lookup {
    /// There are no arguments.
    NoArgs,
    /// The arguments hold no socket, or no context.
    NoHandle,
    /// The socket, or the context, has no user data.
    NoUserdata,
    /// There is user data with this mark.
    Userdata { magic: u64 },
}

/// Why a callback does nothing.
#[derive(Clone, Copy, Debug, PartialEq, Eq, Structural)]
pub enum CallbackFault {
    /// The arguments are null.
    ArgsNull,
    /// The socket, or the context, is null.
    HandleNull(Handle),
    /// The user data of the socket, or of the context, is null.
    UserdataNull(Handle),
    /// The user data does not carry the mark.
    MagicMismatch(Handle),
}

/// Why a datagram is not sent.
#[derive(Clone, Copy, Debug, PartialEq, Eq, Structural)]
pub enum SendFault {
    /// The address is not one of the internet.
    BadAddress,
    /// The context cannot be used.
    Callback(CallbackFault),
}

/// What a callback finds wrong, in the order in which it looks.
pub open spec fn fault(handle: Handle, lookup: Lookup) -> Option<CallbackFault> {
    match lookup {
        Lookup::NoArgs => Some(CallbackFault::ArgsNull),
        Lookup::NoHandle => Some(CallbackFault::HandleNull(handle)),
        Lookup::NoUserdata => Some(CallbackFault::UserdataNull(handle)),
        Lookup::Userdata { magic } => if magic == MAGIC {
            None
        } else {
            Some(CallbackFault::MagicMismatch(handle))
        },
    }
}

/// Whether a callback may use the user data. It may if and only if there is user
/// data and it carries the mark.
pub fn check_callback(handle: Handle, lookup: Lookup) -> (result: Result<(), CallbackFault>)
    ensures
        match fault(handle, lookup) {
            None => result == Ok::<(), CallbackFault>(()),
            Some(f) => result == Err::<(), CallbackFault>(f),
        },
        result is Ok <==> lookup == (Lookup::Userdata { magic: MAGIC }),
        result == Err::<(), CallbackFault>(CallbackFault::ArgsNull) <==> lookup is NoArgs,
        result == Err::<(), CallbackFault>(CallbackFault::HandleNull(handle)) <==> lookup
            is NoHandle,
        result == Err::<(), CallbackFault>(CallbackFault::UserdataNull(handle)) <==> lookup
            is NoUserdata,
        result == Err::<(), CallbackFault>(CallbackFault::MagicMismatch(handle)) <==> (lookup
            matches Lookup::Userdata { magic } && magic != MAGIC),
{
    match lookup {
        Lookup::NoArgs => Err(CallbackFault::ArgsNull),
        Lookup::NoHandle => Err(CallbackFault::HandleNull(handle)),
        Lookup::NoUserdata => Err(CallbackFault::UserdataNull(handle)),
        Lookup::Userdata { magic } => {
            if magic != MAGIC {
                return Err(CallbackFault::MagicMismatch(handle));
            }
            Ok(())
        },
    }
}

/// Where a datagram is to be sent, given the address as far as it could be
/// understood and what the callback found of its context. The arguments are
/// looked at first, then the address, then the context.
pub fn utp_on_sendto<A>(address: Option<A>, lookup: Lookup) -> (result: Result<A, SendFault>)
    ensures
        match (lookup, address, fault(Handle::Context, lookup)) {
            (Lookup::NoArgs, _, _) => result == Err::<A, SendFault>(
                SendFault::Callback(CallbackFault::ArgsNull),
            ),
            (_, None, _) => result == Err::<A, SendFault>(SendFault::BadAddress),
            (_, Some(_), Some(f)) => result == Err::<A, SendFault>(SendFault::Callback(f)),
            (_, Some(a), None) => result == Ok::<A, SendFault>(a),
        },
        result is Ok <==> address is Some && lookup == (Lookup::Userdata { magic: MAGIC }),
        result matches Ok(a) ==> address == Some(a),
        result == Err::<A, SendFault>(SendFault::Callback(CallbackFault::ArgsNull)) <==> lookup
            is NoArgs,
        result == Err::<A, SendFault>(SendFault::BadAddress) <==> !(lookup is NoArgs)
            && address is None,
        result == Err::<A, SendFault>(
            SendFault::Callback(CallbackFault::HandleNull(Handle::Context)),
        ) <==> address is Some && lookup is NoHandle,
        result == Err::<A, SendFault>(
            SendFault::Callback(CallbackFault::UserdataNull(Handle::Context)),
        ) <==> address is Some && lookup is NoUserdata,
        result == Err::<A, SendFault>(
            SendFault::Callback(CallbackFault::MagicMismatch(Handle::Context)),
        ) <==> address is Some && (lookup matches Lookup::Userdata { magic } && magic != MAGIC),
{
    if let Lookup::NoArgs = lookup {
        return Err(SendFault::Callback(CallbackFault::ArgsNull));
    }
    match address {
        None => Err(SendFault::BadAddress),
        Some(a) => match check_callback(Handle::Context, lookup) {
            Err(f) => Err(SendFault::Callback(f)),
            Ok(()) => Ok(a),
        },
    }
}

} // verus!
