//! Concealment of lost packets.

use vstd::prelude::*;
use crate::buffer::overwrite_head;
use crate::handle::{allocated, allocated_at, maybe_at, Address, At, Handle, NULL};
use crate::status::Result;

verus! {

/// A concealment of lost packets.
#[derive(Debug)]
pub struct Plc {
    raw: Handle,
}

impl At for Plc {
    closed spec fn addr(&self) -> Address {
        self.raw.addr()
    }
}

impl Plc {
    /// Wraps an address; `None` for the null pointer.
    pub fn from_raw(raw: Address) -> (r: Option<Plc>)
        ensures
            maybe_at(r, raw),
    {
        match Handle::new(raw) {
            Some(raw) => Some(Plc { raw }),
            None => None,
        }
    }

    /// The address, which is never null.
    pub fn as_ptr(&self) -> (r: Address)
        ensures
            r == self.addr(),
            r != NULL,
    {
        self.raw.as_ptr()
    }
}

/// What the core answers: a number of samples, and the samples as they now are, from the head on.
#[derive(Debug)]
pub struct Concealed {
    pub count: i32,
    pub samples: Vec<i16>,
}

/// The low 32 bits of a length, as a signed number.
pub open spec fn c_int_of(len: nat) -> i32 {
    let low = len % 0x1_0000_0000;
    if low < 0x8000_0000 {
        low as i32
    } else {
        (low - 0x1_0000_0000) as i32
    }
}

/// The low 32 bits of a length, as a signed number.
fn c_int(len: usize) -> (r: i32)
    ensures
        r == c_int_of(len as nat),
{
    let low: u64 = (len as u64) % 0x1_0000_0000;
    if low < 0x8000_0000 {
        low as i32
    } else {
        (low as i64 - 0x1_0000_0000) as i32
    }
}

impl Plc {
    /// Makes a concealment. No memory is an error.
    pub fn new<F>(call: F) -> (r: Result<Plc>)
        where
            F: FnOnce() -> Address,
        requires
            call.requires(()),
        ensures
            exists|raw: Address| #[trigger] call.ensures((), raw) && allocated_at(r, raw),
    {
        let raw = allocated(call())?;
        Ok(Plc { raw })
    }

    /// Gives the concealment up. A number other than zero says that the core did not free it in order;
    /// it is logged.
    pub fn release<D, L>(self, free: D, log: L)
        where
            D: FnOnce(Address) -> i32,
            L: FnOnce(i32),
        requires
            free.requires((self.addr(),)),
            forall|code: i32| #[trigger]
                free.ensures((self.addr(),), code) && code != 0 ==> log.requires((code,)),
        ensures
            exists|code: i32| #[trigger]
                free.ensures((self.addr(),), code) && (code != 0 ==> log.ensures((code,), ())),
    {
        let code: i32 = free(self.as_ptr());
        if code != 0 {
            log(code);
        }
    }

    /// Takes a frame that was received, and may change it. Returns the number that the core reports.
    /// Nothing is done for an empty frame.
    pub fn rx<F>(&self, samples: &mut [i16], call: F) -> (r: i32)
        where
            F: FnOnce(Address, &[i16], i32) -> Concealed,
        requires
            forall|s: &[i16]|
                s@ == old(samples)@ && s@.len() > 0 ==> #[trigger] call.requires(
                    (self.addr(), s, c_int_of(old(samples)@.len())),
                ),
            forall|a: Address, s: &[i16], n: i32, v: Concealed| #[trigger]
                call.ensures((a, s, n), v) ==> v.samples@.len() <= s@.len(),
        ensures
            final(samples)@.len() == old(samples)@.len(),
            old(samples)@.len() == 0 ==> r == 0,
            old(samples)@.len() > 0 ==> exists|s: &[i16], reply: Concealed|
                s@ == old(samples)@ && #[trigger] call.ensures(
                    (self.addr(), s, c_int_of(old(samples)@.len())),
                    reply,
                ) && r == reply.count && final(samples)@ == reply.samples@ + old(samples)@.skip(
                    reply.samples@.len() as int,
                ),
    {
        if samples.len() == 0 {
            return 0;
        }
        let n: i32 = c_int(samples.len());
        let reply = call(self.as_ptr(), &*samples, n);
        overwrite_head(samples, &reply.samples);
        reply.count
    }

    /// Fills a frame that was lost. Returns the number that the core reports. Nothing is done for an
    /// empty frame.
    pub fn fillin<F>(&self, samples: &mut [i16], call: F) -> (r: i32)
        where
            F: FnOnce(Address, &[i16], i32) -> Concealed,
        requires
            forall|s: &[i16]|
                s@ == old(samples)@ && s@.len() > 0 ==> #[trigger] call.requires(
                    (self.addr(), s, c_int_of(old(samples)@.len())),
                ),
            forall|a: Address, s: &[i16], n: i32, v: Concealed| #[trigger]
                call.ensures((a, s, n), v) ==> v.samples@.len() <= s@.len(),
        ensures
            final(samples)@.len() == old(samples)@.len(),
            old(samples)@.len() == 0 ==> r == 0,
            old(samples)@.len() > 0 ==> exists|s: &[i16], reply: Concealed|
                s@ == old(samples)@ && #[trigger] call.ensures(
                    (self.addr(), s, c_int_of(old(samples)@.len())),
                    reply,
                ) && r == reply.count && final(samples)@ == reply.samples@ + old(samples)@.skip(
                    reply.samples@.len() as int,
                ),
    {
        self.rx(samples, call)
    }
}

/// A count is handed over as it is where it fits in a C integer, and otherwise by its low 32 bits.
pub proof fn counts_keep_their_low_bits(len: nat)
    ensures
        len < 0x8000_0000 ==> c_int_of(len) == len,
        (len - c_int_of(len)) % 0x1_0000_0000 == 0,
{
}

} // verus!
