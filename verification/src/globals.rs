//! Global variables, names and counters of the core.

use vstd::prelude::*;
use crate::command::{
    CText, borrowed_cstr_to_string, c_safe, cstring, optional_cstring, optional_safe,
    optional_spells, owned_text, reply_text, strdup_to_string, text_is,
};
use crate::handle::{Address, NULL};
use crate::status::{generic_error, switch_bool, switch_bool_of, Result, SwitchBool, SwitchError};

verus! {

/// The value of a global variable; `None` where it is not set. The copy that the core hands out is
/// freed.
pub fn get_variable<F, D>(name: &str, call: F, free: D) -> (r: Result<Option<String>>)
    where
        F: FnOnce(&CText) -> (Address, Vec<u8>),
        D: FnOnce(Address),
    requires
        c_safe(name@) ==> forall|name_c: &CText|
            #![trigger call.requires((name_c,))]
            name_c.spells(name@) ==> call.requires((name_c,)),
        forall|name_c: &CText, at: Address, bytes: Vec<u8>|
            #![trigger call.ensures((name_c,), (at, bytes))]
            name_c.spells(name@) && call.ensures((name_c,), (at, bytes)) && at != NULL ==>
                free.requires((at,)),
    ensures
        !c_safe(name@) ==> r == Err::<Option<String>, SwitchError>(generic_error()),
        c_safe(name@) ==> exists|name_c: &CText, at: Address, bytes: Vec<u8>| {
            &&& name_c.spells(name@)
            &&& #[trigger] call.ensures((name_c,), (at, bytes))
            &&& r matches Ok(v) && text_is(v, owned_text(at, bytes))
            &&& at != NULL ==> free.ensures((at,), ())
        },
{
    let name = cstring(name)?;
    let (at, bytes) = call(&name);
    Ok(strdup_to_string(at, bytes, free))
}

/// Sets a global variable; without a value it is deleted.
pub fn set_variable<F>(name: &str, value: Option<&str>, call: F) -> (r: Result<()>)
    where
        F: FnOnce(&CText, Option<&CText>),
    requires
        c_safe(name@) && optional_safe(value) ==> forall|name_c: &CText, value_c: Option<&CText>|
            #![trigger call.requires((name_c, value_c))]
            name_c.spells(name@) && optional_spells(value_c, value) ==> call.requires((name_c,
                value_c)),
    ensures
        !(c_safe(name@) && optional_safe(value)) ==> r == Err::<(), SwitchError>(generic_error()),
        c_safe(name@) && optional_safe(value) ==> r == Ok::<(), SwitchError>(()),
        c_safe(name@) && optional_safe(value) ==> exists|name_c: &CText, value_c: Option<&CText>| {
            &&& name_c.spells(name@)
            &&& optional_spells(value_c, value)
            &&& #[trigger] call.ensures((name_c, value_c), ())
        },
{
    let name = cstring(name)?;
    let value = optional_cstring(value)?;
    call(&name, value.as_ref());
    Ok(())
}

/// The UUID of the core.
pub fn get_uuid<F>(call: F) -> (r: Option<String>)
    where
        F: FnOnce() -> Option<Vec<u8>>,
    requires
        call.requires(()),
    ensures
        exists|reply: Option<Vec<u8>>| {
            &&& #[trigger] call.ensures((), reply)
            &&& text_is(r, reply_text(reply))
        },
{
    borrowed_cstr_to_string(call())
}

/// The default domain; `None` where it is not set. With `dup` the core hands out a copy, which is
/// freed by `free` once it is read. `call` returns the address of the text and its bytes.
pub fn get_domain<F, G>(dup: bool, call: F, free: G) -> (r: Result<Option<String>>)
    where
        F: FnOnce(SwitchBool) -> (Address, Vec<u8>),
        G: FnOnce(Address),
    requires
        call.requires((switch_bool_of(dup),)),
        forall|ptr: Address, bytes: Vec<u8>| #[trigger]
            call.ensures((switch_bool_of(dup),), (ptr, bytes)) && dup && ptr != NULL ==>
                free.requires(
                (ptr,),
            ),
    ensures
        exists|ptr: Address, bytes: Vec<u8>| #[trigger]
            call.ensures((switch_bool_of(dup),), (ptr, bytes)) && (r matches Ok(v) && if ptr
                == NULL {
                v is None
            } else {
                text_is(v, reply_text(Some(bytes))) && (dup ==> free.ensures((ptr,), ()))
            }),
{
    let (ptr, bytes) = call(switch_bool(dup));
    if ptr == NULL {
        return Ok(None);
    }
    if dup {
        Ok(strdup_to_string(ptr, bytes, free))
    } else {
        Ok(borrowed_cstr_to_string(Some(bytes)))
    }
}

/// The host name.
pub fn get_hostname<F>(call: F) -> (r: Option<String>)
    where
        F: FnOnce() -> Option<Vec<u8>>,
    requires
        call.requires(()),
    ensures
        exists|reply: Option<Vec<u8>>| {
            &&& #[trigger] call.ensures((), reply)
            &&& text_is(r, reply_text(reply))
        },
{
    borrowed_cstr_to_string(call())
}

/// The name of the switch.
pub fn get_switchname<F>(call: F) -> (r: Option<String>)
    where
        F: FnOnce() -> Option<Vec<u8>>,
    requires
        call.requires(()),
    ensures
        exists|reply: Option<Vec<u8>>| {
            &&& #[trigger] call.ensures((), reply)
            &&& text_is(r, reply_text(reply))
        },
{
    borrowed_cstr_to_string(call())
}

/// The number of sessions.
pub fn session_count<F>(call: F) -> (r: u32)
    where
        F: FnOnce() -> u32,
    requires
        call.requires(()),
    ensures
        call.ensures((), r),
{
    call()
}

/// How long the core has been running.
pub fn uptime<F>(call: F) -> (r: i64)
    where
        F: FnOnce() -> i64,
    requires
        call.requires(()),
    ensures
        call.ensures((), r),
{
    call()
}

/// Sets the limit of sessions per second, unless `limit` is zero. Returns what the core reports.
pub fn sessions_per_second<F>(limit: u32, call: F) -> (r: u32)
    where
        F: FnOnce(u32) -> u32,
    requires
        call.requires((limit,)),
    ensures
        call.ensures((limit,), r),
{
    call(limit)
}

} // verus!
