//! Status codes, hangup causes and the crate's error type.

use vstd::prelude::*;

verus! {

/// The integer type of a FreeSWITCH status code.
pub type RawStatus = u32;

/// The integer type of a FreeSWITCH hangup cause.
pub type RawCause = u32;

/// The integer type of a FreeSWITCH boolean.
pub type SwitchBool = u32;

/// FreeSWITCH's `false`.
pub const SWITCH_FALSE: SwitchBool = 0;

/// FreeSWITCH's `true`.
pub const SWITCH_TRUE: SwitchBool = 1;

/// The call succeeded.
pub const SUCCESS: RawStatus = 0;

/// The call had nothing to deliver, or its answer is "no".
pub const FALSE: RawStatus = 1;

/// The general error.
pub const GENERR: RawStatus = 9;

/// A status code as FreeSWITCH returned it.
#[derive(Debug, Copy, Clone, PartialEq, Eq, Hash, Structural)]
pub struct Status(pub RawStatus);

impl Status {
    /// Wraps a raw status code.
    pub fn from_raw(raw: RawStatus) -> (r: Status)
        ensures
            r == Status(raw),
    {
        Status(raw)
    }

    /// The raw status code.
    pub fn raw(self) -> (r: RawStatus)
        ensures
            r == self.0,
    {
        self.0
    }
}

/// A hangup cause.
#[derive(Debug, Copy, Clone, PartialEq, Eq, Hash, Structural)]
pub struct Cause(pub RawCause);

/// The cause that says that an outgoing leg was made.
pub const CAUSE_SUCCESS: RawCause = 142;

/// The cause with which an outgoing leg is refused.
pub const CAUSE_REQUESTED_CHAN_UNAVAIL: RawCause = 44;

impl Cause {
    /// Wraps a raw cause.
    pub fn from_raw(raw: RawCause) -> (r: Cause)
        ensures
            r == Cause(raw),
    {
        Cause(raw)
    }

    /// The raw cause.
    pub fn raw(self) -> (r: RawCause)
        ensures
            r == self.0,
    {
        self.0
    }
}

/// A set of flags for an originate.
#[derive(Debug, Copy, Clone, PartialEq, Eq, Structural)]
pub struct OriginateFlag(pub u32);

/// The direction of a call.
#[derive(Debug, Copy, Clone, PartialEq, Eq, Structural)]
pub struct CallDirection(pub u32);

/// The error of every fallible operation: the status that FreeSWITCH reported.
#[derive(Debug, Copy, Clone, PartialEq, Eq, Hash, Structural)]
pub struct SwitchError(pub Status);

/// The crate's result type.
pub type Result<T> = core::result::Result<T, SwitchError>;

/// The general error as an error value.
pub open spec fn generic_error() -> SwitchError {
    SwitchError(Status(GENERR))
}

impl SwitchError {
    /// The error that stands for every failure without a status of its own.
    pub fn generic() -> (r: SwitchError)
        ensures
            r == generic_error(),
    {
        SwitchError(Status(GENERR))
    }
}

/// What a raw status means: success, or the error that carries it.
pub open spec fn status_outcome(raw: RawStatus) -> Result<()> {
    if raw == SUCCESS {
        Ok(())
    } else {
        Err(SwitchError(Status(raw)))
    }
}

/// Turns a raw status into a result. The error keeps the status as it came.
pub fn status_to_result(raw: RawStatus) -> (r: Result<()>)
    ensures
        r == status_outcome(raw),
{
    if raw == SUCCESS {
        Ok(())
    } else {
        Err(SwitchError(Status::from_raw(raw)))
    }
}

/// What a boolean is on FreeSWITCH's side.
pub open spec fn switch_bool_of(b: bool) -> SwitchBool {
    if b {
        SWITCH_TRUE
    } else {
        SWITCH_FALSE
    }
}

/// Hands a boolean to FreeSWITCH.
pub fn switch_bool(b: bool) -> (r: SwitchBool)
    ensures
        r == switch_bool_of(b),
{
    if b {
        SWITCH_TRUE
    } else {
        SWITCH_FALSE
    }
}

/// Reads a FreeSWITCH boolean: everything but `SWITCH_FALSE` is true.
pub fn from_switch_bool(raw: SwitchBool) -> (r: bool)
    ensures
        r == (raw != SWITCH_FALSE),
{
    raw != SWITCH_FALSE
}

/// A status is a success where it is zero, and otherwise the error that carries it. The general error is
/// status nine, and a flag is one where it is set and zero where it is not.
pub proof fn statuses_are_carried(raw: RawStatus, b: bool)
    ensures
        status_outcome(raw) is Ok <==> raw == 0,
        status_outcome(raw) matches Err(e) ==> e.0.0 == raw,
        generic_error().0.0 == 9,
        switch_bool_of(b) == 1 <==> b,
        switch_bool_of(b) == 0 <==> !b,
{
}

} // verus!
