//! Sessions: the handle that call control works on.

use vstd::prelude::*;
use crate::handle::{maybe_at, Address, At, Handle, NULL};

verus! {

/// A session of the core. The handle is a plain address: copying it keeps nothing alive.
#[derive(Debug, Copy, Clone)]
pub struct Session {
    raw: Handle,
}

impl At for Session {
    closed spec fn addr(&self) -> Address {
        self.raw.addr()
    }
}

impl Session {
    /// Wraps an address; `None` for the null pointer.
    pub fn from_raw(raw: Address) -> (r: Option<Session>)
        ensures
            maybe_at(r, raw),
    {
        match Handle::new(raw) {
            Some(raw) => Some(Session { raw }),
            None => None,
        }
    }

    /// The address, which is never null.
    pub fn as_ptr(&self) -> (r: Address)
        ensures
            r == self.addr(),
            r != NULL,
    {
        self.raw.as_ptr()
    }
}

/// The address of an optional session; the null pointer where there is none.
pub open spec fn optional_addr(session: Option<&Session>) -> Address {
    match session {
        Some(s) => s.addr(),
        None => NULL,
    }
}

/// The address of an optional session, as the core takes it.
pub fn optional_ptr(session: Option<&Session>) -> (r: Address)
    ensures
        r == optional_addr(session),
        r == NULL <==> session is None,
{
    match session {
        Some(s) => s.as_ptr(),
        None => NULL,
    }
}

/// A session that is given is handed over by its address, and one that is not as null.
pub proof fn sessions_are_handed_over(session: Option<&Session>)
    ensures
        session matches Some(s) ==> optional_addr(session) == s.addr(),
        session is None ==> optional_addr(session) == 0,
{
}

} // verus!
