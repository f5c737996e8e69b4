use vstd::prelude::*;
use vstd::std_specs::convert::FromSpecImpl;

verus! {

/// Why a record, or a field of one, could not be decoded.
#[derive(Clone, Copy, Debug, PartialEq, Eq, Hash, Structural)]
pub enum DecodeError {
    /// The buffer ends before the layout does.
    Truncated,
    /// A string field has no terminator inside its bounds, or the bytes before
    /// the terminator are not UTF-8.
    MalformedString,
    /// A number that should select a variant of a closed enumeration selects
    /// none.
    UnknownDiscriminant,
}

/// Everything the client can report to its caller.
#[derive(Clone, Copy, Debug, PartialEq, Eq, Hash, Structural)]
pub enum SimConnectError {
    /// The connection could not be opened.
    ConnectionFailed,
    /// A host call returned this non-zero status.
    HostCallFailed(u32),
    /// A record from the host could not be decoded.
    DecodeFailed(DecodeError),
    /// The structure was never registered with this connection.
    NotRegistered,
    /// The dispatch worker is gone while a caller waits for it.
    ChannelClosed,
}

impl From<DecodeError> for SimConnectError {
    /// A record that cannot be decoded fails the call that needed it.
    fn from(e: DecodeError) -> (error: SimConnectError) {
        SimConnectError::DecodeFailed(e)
    }
}

impl FromSpecImpl<DecodeError> for SimConnectError {
    open spec fn obeys_from_spec() -> bool {
        true
    }

    open spec fn from_spec(e: DecodeError) -> SimConnectError {
        SimConnectError::DecodeFailed(e)
    }
}

/// A result seen through the view of its success value.
pub open spec fn viewed<T: View, E>(r: Result<T, E>) -> Result<T::V, E> {
    match r {
        Ok(v) => Ok(v@),
        Err(e) => Err(e),
    }
}

/// The status as the host wrote it: the same 32 bits, read without a sign.
pub open spec fn status_bits(hr: i32) -> int {
    if hr >= 0 {
        hr as int
    } else {
        hr + 0x1_0000_0000
    }
}

/// What a host call's status means: zero is success, anything else fails with
/// the raw status.
pub open spec fn status_outcome(hr: i32) -> Result<(), SimConnectError> {
    if hr == 0 {
        Ok(())
    } else {
        Err(SimConnectError::HostCallFailed(status_bits(hr) as u32))
    }
}

/// Turns the status of a host call into a result.
pub fn check_hr(hr: i32) -> (r: Result<(), SimConnectError>)
    ensures
        r == status_outcome(hr),
{
    if hr == 0 {
        Ok(())
    } else if hr > 0 {
        Err(SimConnectError::HostCallFailed(hr as u32))
    } else {
        let low: u32 = (hr + 0x7fff_ffff + 1) as u32;
        Err(SimConnectError::HostCallFailed(low + 0x8000_0000))
    }
}

} // verus!
