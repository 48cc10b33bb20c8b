//! Memory pools of the core.
//!
//! What is allocated from a [`Pool`] lives as long as the pool.

use vstd::prelude::*;
use crate::command::{c_safe, cstring, first_zero, CText};
use crate::handle::{created, made_at, maybe_at, Address, At, Created, Handle, NULL};
use crate::status::{generic_error, Result, SwitchError};

verus! {

/// A memory pool of the core.
#[derive(Debug)]
pub struct Pool {
    raw: Handle,
}

impl At for Pool {
    closed spec fn addr(&self) -> Address {
        self.raw.addr()
    }
}

impl Pool {
    /// Wraps an address; `None` for the null pointer.
    pub fn from_raw(raw: Address) -> (r: Option<Pool>)
        ensures
            maybe_at(r, raw),
    {
        match Handle::new(raw) {
            Some(raw) => Some(Pool { raw }),
            None => None,
        }
    }

    /// The address, which is never null.
    pub fn as_ptr(&self) -> (r: Address)
        ensures
            r == self.addr(),
            r != NULL,
    {
        self.raw.as_ptr()
    }
}

impl Pool {
    /// Makes a pool.
    pub fn new<F>(call: F) -> (r: Result<Pool>)
        where
            F: FnOnce() -> Created,
        requires
            call.requires(()),
        ensures
            exists|reply: Created| {
                &&& #[trigger] call.ensures((), reply)
                &&& made_at(r, reply)
            },
    {
        let reply = call();
        let raw = created(reply)?;
        Ok(Pool { raw })
    }

    /// Copies `text` into the pool. `call` returns the copy as it stands in the pool, or nothing
    /// where the pool had no room; that is an error.
    pub fn strdup<F>(&self, text: &str, call: F) -> (r: Result<CText>)
        where
            F: FnOnce(Address, &CText) -> Option<Vec<u8>>,
        requires
            c_safe(text@) ==> forall|text_c: &CText|
                #![trigger call.requires((self.addr(), text_c))]
                text_c.spells(text@) ==> call.requires((self.addr(), text_c)),
        ensures
            !c_safe(text@) ==> r == Err::<CText, SwitchError>(generic_error()),
            c_safe(text@) ==> exists|text_c: &CText, reply: Option<Vec<u8>>|
                text_c.spells(text@) && #[trigger] call.ensures((self.addr(), text_c), reply)
                    && match reply {
                    Some(bytes) => r matches Ok(c) && c@ == bytes@.take(first_zero(bytes@)),
                    None => r == Err::<CText, SwitchError>(generic_error()),
                },
    {
        let todup = cstring(text)?;
        match call(self.as_ptr(), &todup) {
            Some(bytes) => Ok(CText::from_memory(bytes.as_slice())),
            None => Err(SwitchError::generic()),
        }
    }

    /// Allocates `size` zeroed bytes from the pool. The null pointer is an error.
    pub fn allocate<F>(&self, size: usize, call: F) -> (r: Result<Address>)
        where
            F: FnOnce(Address, usize) -> Address,
        requires
            call.requires((self.addr(), size)),
        ensures
            exists|reply: Address| #[trigger]
                call.ensures((self.addr(), size), reply) && r == if reply == NULL {
                    Err::<Address, SwitchError>(generic_error())
                } else {
                    Ok(reply)
                },
    {
        let mem: Address = call(self.as_ptr(), size);
        if mem == NULL {
            return Err(SwitchError::generic());
        }
        Ok(mem)
    }
}

} // verus!
