//! Addresses of objects that the FreeSWITCH core owns.

use vstd::prelude::*;
use crate::status::{generic_error, status_outcome, status_to_result, RawStatus, Result, SwitchError};

verus! {

/// The address of an object or a function in the FreeSWITCH process; zero is the null pointer.
pub type Address = usize;

/// The null pointer.
pub const NULL: Address = 0;

/// An address that is known not to be null.
#[derive(Debug, Copy, Clone, PartialEq, Eq, Hash)]
pub struct Handle {
    addr: Address,
}

impl Handle {
    #[verifier::type_invariant]
    closed spec fn non_null(&self) -> bool {
        self.addr != NULL
    }

    /// The address that the handle holds.
    pub closed spec fn addr(&self) -> Address {
        self.addr
    }

    /// Wraps `raw` unless it is null.
    pub fn new(raw: Address) -> (r: Option<Handle>)
        ensures
            r is Some <==> raw != NULL,
            r matches Some(h) ==> h.addr() == raw,
    {
        if raw == NULL {
            None
        } else {
            Some(Handle { addr: raw })
        }
    }

    /// The address, which is never null.
    pub fn as_ptr(&self) -> (r: Address)
        ensures
            r == self.addr(),
            r != NULL,
    {
        proof {
            use_type_invariant(self);
        }
        self.addr
    }
}

/// A value that stands for an object at an address of the core.
pub trait At {
    /// The object's address.
    spec fn addr(&self) -> Address;
}

/// Whether `r` is the object at `raw`, absent exactly where `raw` is null.
pub open spec fn maybe_at<T: At>(r: Option<T>, raw: Address) -> bool {
    match r {
        Some(x) => raw != NULL && x.addr() == raw,
        None => raw == NULL,
    }
}

/// An address as an option: `None` for the null pointer.
pub open spec fn non_null(raw: Address) -> Option<Address> {
    if raw == NULL {
        None
    } else {
        Some(raw)
    }
}

/// An address as an option: `None` for the null pointer.
pub fn to_option(raw: Address) -> (r: Option<Address>)
    ensures
        r == non_null(raw),
{
    if raw == NULL {
        None
    } else {
        Some(raw)
    }
}

/// What the core answers when it makes an object: a status, and the object's address, which is
/// null where none was made.
#[derive(Debug, Copy, Clone, PartialEq, Eq)]
pub struct Created {
    pub status: RawStatus,
    pub raw: Address,
}

/// The address of the object that was made, or the error: the status where it is not success, the
/// general error where the address is null all the same.
pub open spec fn created_outcome(reply: Created) -> Result<Address> {
    match status_outcome(reply.status) {
        Err(e) => Err(e),
        Ok(_) => if reply.raw == NULL {
            Err(generic_error())
        } else {
            Ok(reply.raw)
        },
    }
}

/// Whether `r` is the object that was made, or the error with which that failed.
pub open spec fn made_at<T: At>(r: Result<T>, reply: Created) -> bool {
    match created_outcome(reply) {
        Ok(raw) => r matches Ok(x) && x.addr() == raw,
        Err(e) => r == Err::<T, SwitchError>(e),
    }
}

/// Takes over an object that the core has made.
pub fn created(reply: Created) -> (r: Result<Handle>)
    ensures
        match created_outcome(reply) {
            Ok(raw) => r matches Ok(h) && h.addr() == raw,
            Err(e) => r == Err::<Handle, SwitchError>(e),
        },
{
    status_to_result(reply.status)?;
    allocated(reply.raw)
}

/// Takes over an object of which the core returns only the address. The null pointer is the
/// general error.
pub fn allocated(raw: Address) -> (r: Result<Handle>)
    ensures
        raw == NULL ==> r == Err::<Handle, SwitchError>(generic_error()),
        raw != NULL ==> (r matches Ok(h) && h.addr() == raw),
{
    match Handle::new(raw) {
        Some(h) => Ok(h),
        None => Err(SwitchError::generic()),
    }
}

/// Whether `r` is the object at `raw`, or the general error where `raw` is null.
pub open spec fn allocated_at<T: At>(r: Result<T>, raw: Address) -> bool {
    if raw == NULL {
        r == Err::<T, SwitchError>(generic_error())
    } else {
        r matches Ok(x) && x.addr() == raw
    }
}

/// A value is found exactly where its address is not null, and it is at that address.
pub proof fn found_where_it_is<T: At>(r: Option<T>, raw: Address)
    ensures
        maybe_at(r, raw) ==> (r is Some <==> raw != 0),
        maybe_at(r, raw) && r is Some ==> r->0.addr() == raw,
        r is None && raw == 0 ==> maybe_at(r, raw),
        r is Some && raw != 0 && r->0.addr() == raw ==> maybe_at(r, raw),
        raw == 0 ==> non_null(raw) is None,
        raw != 0 ==> non_null(raw) == Some(raw),
{
}

/// What was to be made is there exactly where the call succeeded and gave an address, and it is at that
/// address. A call that failed gives its own status as the error, and one that succeeded without an
/// address the general error.
pub proof fn made_where_it_succeeded<T: At>(r: Result<T>, reply: Created)
    requires
        made_at(r, reply),
    ensures
        r is Ok <==> reply.status == 0 && reply.raw != 0,
        r matches Ok(x) ==> x.addr() == reply.raw,
        reply.status != 0 ==> (r matches Err(e) && e.0.0 == reply.status),
        reply.status == 0 && reply.raw == 0 ==> (r matches Err(e) && e.0.0 == 9),
        created_outcome(reply) is Ok <==> reply.status == 0 && reply.raw != 0,
        created_outcome(reply) matches Ok(raw) ==> raw == reply.raw,
        reply.status != 0 ==> (created_outcome(reply) matches Err(e) && e.0.0 == reply.status),
        reply.status == 0 && reply.raw == 0 ==> (created_outcome(reply) matches Err(e) && e.0.0 == 9),
{
}

/// What was to be allocated is there exactly where there is an address, and it is at that address;
/// otherwise the error is the general one.
pub proof fn allocated_where_there_was_room<T: At>(r: Result<T>, raw: Address)
    requires
        allocated_at(r, raw),
    ensures
        r is Ok <==> raw != 0,
        r matches Ok(x) ==> x.addr() == raw,
        r matches Err(e) ==> e.0.0 == 9,
{
}

} // verus!
