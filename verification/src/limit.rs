//! Limits on calls: counters and rates of a resource, kept by a backend of the core.
//!
//! A resource is named by a realm and a resource name; the backend is addressed by its own name.

use vstd::prelude::*;
use crate::command::{CText, c_safe, cstring, owned_text, strdup_to_string, text_is};
use crate::handle::{Address, NULL};
use crate::session::{optional_addr, optional_ptr, Session};
use crate::status::{
    generic_error, status_outcome, status_to_result, RawStatus, Result, SwitchError,
};

verus! {

/// The names of the backends that come with FreeSWITCH.
pub const BACKEND_HASH: &'static str = "hash";
pub const BACKEND_DB: &'static str = "db";
pub const BACKEND_REDIS: &'static str = "redis";
pub const BACKEND_ARRAY: &'static str = "array";

/// How much of a resource is used, and its rate in the current interval.
#[derive(Debug, Clone, Copy, PartialEq, Eq, Structural)]
pub struct Usage {
    pub count: i32,
    pub rate: u32,
}

impl Default for Usage {
    fn default() -> (r: Usage)
        ensures
            r == (Usage { count: 0, rate: 0 }),
    {
        Usage { count: 0, rate: 0 }
    }
}

/// Takes one unit of a resource. An error says that the limit is reached. With a session the unit
/// is given back when the session ends.
pub fn incr<F>(
    backend: &str,
    realm: &str,
    resource: &str,
    max: i32,
    interval: i32,
    session: Option<&Session>,
    call: F,
) -> (r: Result<()>)
    where
        F: FnOnce(&CText, Address, &CText, &CText, i32, i32) -> RawStatus,
    requires
        c_safe(backend@)
            && c_safe(realm@)
            && c_safe(resource@) ==> forall|backend_c: &CText, realm_c: &CText, resource_c: &CText|
            #![trigger call.requires(
                (backend_c, optional_addr(session), realm_c, resource_c, max, interval),
            )]
            backend_c.spells(backend@)
                && realm_c.spells(realm@)
                && resource_c.spells(resource@) ==> call.requires(
                (backend_c, optional_addr(session), realm_c, resource_c, max, interval),
            ),
    ensures
        !(c_safe(backend@)
            && c_safe(realm@)
            && c_safe(resource@)
        ) ==> r == Err::<(), SwitchError>(generic_error()),
        c_safe(backend@)
            && c_safe(realm@)
            && c_safe(resource@) ==>
                exists|backend_c: &CText, realm_c: &CText, resource_c: &CText, reply: RawStatus| {
            &&& backend_c.spells(backend@)
            &&& realm_c.spells(realm@)
            &&& resource_c.spells(resource@)
            &&& #[trigger] call.ensures(
                    (backend_c, optional_addr(session), realm_c, resource_c, max, interval),
                    reply,
                )
            &&& r == status_outcome(reply)
        },
{
    let backend = cstring(backend)?;
    let realm = cstring(realm)?;
    let resource = cstring(resource)?;
    status_to_result(
        call(
            &backend,
            optional_ptr(session),
            &realm,
            &resource,
            max,
            interval,
        ),
    )
}

/// Gives back one unit of a resource.
pub fn release<F>(
    backend: &str,
    realm: &str,
    resource: &str,
    session: Option<&Session>,
    call: F,
) -> (r: Result<()>)
    where
        F: FnOnce(&CText, Address, &CText, &CText) -> RawStatus,
    requires
        c_safe(backend@)
            && c_safe(realm@)
            && c_safe(resource@) ==> forall|backend_c: &CText, realm_c: &CText, resource_c: &CText|
            #![trigger call.requires((backend_c, optional_addr(session), realm_c, resource_c))]
            backend_c.spells(backend@)
                && realm_c.spells(realm@)
                && resource_c.spells(resource@) ==> call.requires((backend_c,
                    optional_addr(session), realm_c, resource_c)),
    ensures
        !(c_safe(backend@)
            && c_safe(realm@)
            && c_safe(resource@)
        ) ==> r == Err::<(), SwitchError>(generic_error()),
        c_safe(backend@)
            && c_safe(realm@)
            && c_safe(resource@) ==>
                exists|backend_c: &CText, realm_c: &CText, resource_c: &CText, reply: RawStatus| {
            &&& backend_c.spells(backend@)
            &&& realm_c.spells(realm@)
            &&& resource_c.spells(resource@)
            &&& #[trigger] call.ensures(
                    (backend_c, optional_addr(session), realm_c, resource_c),
                    reply,
                )
            &&& r == status_outcome(reply)
        },
{
    let backend = cstring(backend)?;
    let realm = cstring(realm)?;
    let resource = cstring(resource)?;
    status_to_result(call(&backend, optional_ptr(session), &realm, &resource))
}

/// The usage of a resource. A name that holds a NUL character is not used at all.
pub fn usage<F>(backend: &str, realm: &str, resource: &str, call: F) -> (r: Usage)
    where
        F: FnOnce(&CText, &CText, &CText) -> Usage,
    requires
        c_safe(backend@) && c_safe(realm@) && c_safe(resource@) ==> forall|a: &CText, b: &CText, c:
            &CText|
            #![trigger call.requires((a, b, c))]
            a.spells(backend@) && b.spells(realm@) && c.spells(resource@) ==> call.requires((a, b,
                c)),
    ensures
        !(c_safe(backend@) && c_safe(realm@) && c_safe(resource@)) ==> r == (Usage {
            count: 0,
            rate: 0,
        }),
        c_safe(backend@) && c_safe(realm@) && c_safe(resource@) ==> exists|
            a: &CText,
            b: &CText,
            c: &CText,
        |
            a.spells(backend@) && b.spells(realm@) && c.spells(resource@)
                && #[trigger] call.ensures((a, b, c), r),
{
    match (cstring(backend), cstring(realm), cstring(resource)) {
        (Ok(backend), Ok(realm), Ok(resource)) => call(&backend, &realm, &resource),
        _ => Usage::default(),
    }
}

/// Resets the rate of a resource and leaves its count alone.
pub fn interval_reset<F>(backend: &str, realm: &str, resource: &str, call: F) -> (r: Result<()>)
    where
        F: FnOnce(&CText, &CText, &CText) -> RawStatus,
    requires
        c_safe(backend@)
            && c_safe(realm@)
            && c_safe(resource@) ==> forall|backend_c: &CText, realm_c: &CText, resource_c: &CText|
            #![trigger call.requires((backend_c, realm_c, resource_c))]
            backend_c.spells(backend@)
                && realm_c.spells(realm@)
                && resource_c.spells(resource@) ==> call.requires((backend_c, realm_c, resource_c)),
    ensures
        !(c_safe(backend@)
            && c_safe(realm@)
            && c_safe(resource@)
        ) ==> r == Err::<(), SwitchError>(generic_error()),
        c_safe(backend@)
            && c_safe(realm@)
            && c_safe(resource@) ==>
                exists|backend_c: &CText, realm_c: &CText, resource_c: &CText, reply: RawStatus| {
            &&& backend_c.spells(backend@)
            &&& realm_c.spells(realm@)
            &&& resource_c.spells(resource@)
            &&& #[trigger] call.ensures((backend_c, realm_c, resource_c), reply)
            &&& r == status_outcome(reply)
        },
{
    let backend = cstring(backend)?;
    let realm = cstring(realm)?;
    let resource = cstring(resource)?;
    status_to_result(call(&backend, &realm, &resource))
}

/// Resets every count of a backend.
pub fn reset<F>(backend: &str, call: F) -> (r: Result<()>)
    where
        F: FnOnce(&CText) -> RawStatus,
    requires
        c_safe(backend@) ==> forall|backend_c: &CText|
            #![trigger call.requires((backend_c,))]
            backend_c.spells(backend@) ==> call.requires((backend_c,)),
    ensures
        !c_safe(backend@) ==> r == Err::<(), SwitchError>(generic_error()),
        c_safe(backend@) ==> exists|backend_c: &CText, reply: RawStatus| {
            &&& backend_c.spells(backend@)
            &&& #[trigger] call.ensures((backend_c,), reply)
            &&& r == status_outcome(reply)
        },
{
    let backend = cstring(backend)?;
    status_to_result(call(&backend))
}

/// Fires an event with the numbers of a resource. No count is changed.
pub fn fire_event<F>(
    backend: &str,
    realm: &str,
    resource: &str,
    usage: u32,
    rate: u32,
    max: u32,
    ratemax: u32,
    call: F,
) -> (r: Result<()>)
    where
        F: FnOnce(&CText, &CText, &CText, u32, u32, u32, u32),
    requires
        c_safe(backend@)
            && c_safe(realm@)
            && c_safe(resource@) ==> forall|backend_c: &CText, realm_c: &CText, resource_c: &CText|
            #![trigger call.requires(
                (backend_c, realm_c, resource_c, usage, rate, max, ratemax),
            )]
            backend_c.spells(backend@)
                && realm_c.spells(realm@)
                && resource_c.spells(resource@) ==> call.requires(
                (backend_c, realm_c, resource_c, usage, rate, max, ratemax),
            ),
    ensures
        !(c_safe(backend@)
            && c_safe(realm@)
            && c_safe(resource@)
        ) ==> r == Err::<(), SwitchError>(generic_error()),
        c_safe(backend@)
            && c_safe(realm@)
            && c_safe(resource@) ==> r == Ok::<(), SwitchError>(()),
        c_safe(backend@)
            && c_safe(realm@)
            && c_safe(resource@) ==> exists|backend_c: &CText, realm_c: &CText, resource_c: &CText| {
            &&& backend_c.spells(backend@)
            &&& realm_c.spells(realm@)
            &&& resource_c.spells(resource@)
            &&& #[trigger] call.ensures(
                    (backend_c, realm_c, resource_c, usage, rate, max, ratemax),
                    (),
                )
        },
{
    let backend = cstring(backend)?;
    let realm = cstring(realm)?;
    let resource = cstring(resource)?;
    call(&backend, &realm, &resource, usage, rate, max, ratemax);
    Ok(())
}

/// What a backend says of its state. The text that the core hands out is freed.
pub fn status<F, D>(backend: &str, call: F, free: D) -> (r: Result<Option<String>>)
    where
        F: FnOnce(&CText) -> (Address, Vec<u8>),
        D: FnOnce(Address),
    requires
        c_safe(backend@) ==> forall|backend_c: &CText|
            #![trigger call.requires((backend_c,))]
            backend_c.spells(backend@) ==> call.requires((backend_c,)),
        forall|backend_c: &CText, at: Address, bytes: Vec<u8>|
            #![trigger call.ensures((backend_c,), (at, bytes))]
            backend_c.spells(backend@) && call.ensures((backend_c,), (at, bytes)) && at != NULL ==>
                free.requires((at,)),
    ensures
        !c_safe(backend@) ==> r == Err::<Option<String>, SwitchError>(generic_error()),
        c_safe(backend@) ==> exists|backend_c: &CText, at: Address, bytes: Vec<u8>| {
            &&& backend_c.spells(backend@)
            &&& #[trigger] call.ensures((backend_c,), (at, bytes))
            &&& r matches Ok(v) && text_is(v, owned_text(at, bytes))
            &&& at != NULL ==> free.ensures((at,), ())
        },
{
    let backend = cstring(backend)?;
    let (at, bytes) = call(&backend);
    Ok(strdup_to_string(at, bytes, free))
}

/// Sets up the limits in a pool.
pub fn init<F>(pool: Address, call: F)
    where
        F: FnOnce(Address),
    requires
        call.requires((pool,)),
    ensures
        call.ensures((pool,), ()),
{
    call(pool)
}

} // verus!
