//! Caller profiles and caller extensions.

use vstd::prelude::*;
use vstd::utf8::{decode_utf8, valid_utf8};
use crate::command::{
    borrowed_cstr_to_string, c_safe, cstring, reply_text, text_is, texts_agree, CText,
};
use crate::handle::{maybe_at, Address, At, Created, Handle, NULL};
use crate::pool::Pool;
use crate::session::Session;
use crate::status::{
    generic_error, status_outcome, status_to_result, RawStatus, Result, SwitchError,
};

verus! {

/// The identity of a caller as a channel holds it.
#[derive(Debug, Copy, Clone)]
pub struct CallerProfile {
    raw: Handle,
}

impl At for CallerProfile {
    closed spec fn addr(&self) -> Address {
        self.raw.addr()
    }
}

impl CallerProfile {
    /// Wraps an address; `None` for the null pointer.
    pub fn from_raw(raw: Address) -> (r: Option<CallerProfile>)
        ensures
            maybe_at(r, raw),
    {
        match Handle::new(raw) {
            Some(raw) => Some(CallerProfile { raw }),
            None => None,
        }
    }

    /// The address, which is never null.
    pub fn as_ptr(&self) -> (r: Address)
        ensures
            r == self.addr(),
            r != NULL,
    {
        self.raw.as_ptr()
    }
}

impl CallerProfile {
    /// The field that is called `name`; `None` where it is not set.
    pub fn field<F>(self, name: &str, call: F) -> (r: Result<Option<String>>)
        where
            F: FnOnce(Address, &CText) -> Option<Vec<u8>>,
        requires
            c_safe(name@) ==> forall|name_c: &CText|
                #![trigger call.requires((self.addr(), name_c))]
                name_c.spells(name@) ==> call.requires((self.addr(), name_c)),
        ensures
            !c_safe(name@) ==> r == Err::<Option<String>, SwitchError>(generic_error()),
            c_safe(name@) ==> exists|name_c: &CText, reply: Option<Vec<u8>>| {
                &&& name_c.spells(name@)
                &&& #[trigger] call.ensures((self.addr(), name_c), reply)
                &&& r matches Ok(v) && text_is(v, reply_text(reply))
            },
    {
        let name = cstring(name)?;
        Ok(borrowed_cstr_to_string(call(self.as_ptr(), &name)))
    }
}

/// The list of dialplan applications that a channel has to run.
#[derive(Debug, Copy, Clone)]
pub struct CallerExtension {
    raw: Handle,
}

impl At for CallerExtension {
    closed spec fn addr(&self) -> Address {
        self.raw.addr()
    }
}

impl CallerExtension {
    /// Wraps an address; `None` for the null pointer.
    pub fn from_raw(raw: Address) -> (r: Option<CallerExtension>)
        ensures
            maybe_at(r, raw),
    {
        match Handle::new(raw) {
            Some(raw) => Some(CallerExtension { raw }),
            None => None,
        }
    }

    /// The address, which is never null.
    pub fn as_ptr(&self) -> (r: Address)
        ensures
            r == self.addr(),
            r != NULL,
    {
        self.raw.as_ptr()
    }
}

impl CallerExtension {
    /// The name of the extension.
    pub fn name<F>(self, call: F) -> (r: Option<String>)
        where
            F: FnOnce(Address) -> Option<Vec<u8>>,
        requires
            call.requires((self.addr(),)),
        ensures
            exists|reply: Option<Vec<u8>>| {
                &&& #[trigger] call.ensures((self.addr(),), reply)
                &&& text_is(r, reply_text(reply))
            },
    {
        borrowed_cstr_to_string(call(self.as_ptr()))
    }

    /// The number of the extension.
    pub fn number<F>(self, call: F) -> (r: Option<String>)
        where
            F: FnOnce(Address) -> Option<Vec<u8>>,
        requires
            call.requires((self.addr(),)),
        ensures
            exists|reply: Option<Vec<u8>>| {
                &&& #[trigger] call.ensures((self.addr(),), reply)
                &&& text_is(r, reply_text(reply))
            },
    {
        borrowed_cstr_to_string(call(self.as_ptr()))
    }

    /// The name of the application that is running; `None` where none is. `current` reports the
    /// address of that application, `text` its name.
    pub fn current_application_name<C, T>(self, current: C, text: T) -> (r: Option<String>)
        where
            C: FnOnce(Address) -> Address,
            T: FnOnce(Address) -> Option<Vec<u8>>,
        requires
            current.requires((self.addr(),)),
            forall|app: Address| #[trigger]
                current.ensures((self.addr(),), app) && app != NULL ==> text.requires((app,)),
        ensures
            exists|app: Address| #[trigger]
                current.ensures((self.addr(),), app) && application_text(text, app, r),
    {
        let app: Address = current(self.as_ptr());
        if app == NULL {
            return None;
        }
        borrowed_cstr_to_string(text(app))
    }

    /// The argument of the application that is running; `None` where none is. `current` reports the
    /// address of that application, `text` its argument.
    pub fn current_application_data<C, T>(self, current: C, text: T) -> (r: Option<String>)
        where
            C: FnOnce(Address) -> Address,
            T: FnOnce(Address) -> Option<Vec<u8>>,
        requires
            current.requires((self.addr(),)),
            forall|app: Address| #[trigger]
                current.ensures((self.addr(),), app) && app != NULL ==> text.requires((app,)),
        ensures
            exists|app: Address| #[trigger]
                current.ensures((self.addr(),), app) && application_text(text, app, r),
    {
        let app: Address = current(self.as_ptr());
        if app == NULL {
            return None;
        }
        borrowed_cstr_to_string(text(app))
    }
}

/// Whether `r` is what `text` reports of the application at `app`; nothing where that is null.
pub open spec fn application_text<T>(text: T, app: Address, r: Option<String>) -> bool
    where
        T: FnOnce(Address) -> Option<Vec<u8>>,
{
    if app == NULL {
        r is None
    } else {
        exists|reply: Option<Vec<u8>>| #[trigger]
            text.ensures((app,), reply) && text_is(r, reply_text(reply))
    }
}

/// Copies the extension at `orig` into `pool` and stores the copy's address in `new_ext`.
pub fn caller_extension_clone<F>(
    new_ext: &mut Address,
    orig: Address,
    pool: &Pool,
    call: F,
) -> (r: Result<()>)
    where
        F: FnOnce(Address, Address, Address) -> Created,
    requires
        call.requires((*old(new_ext), orig, pool.addr())),
    ensures
        exists|reply: Created| #[trigger]
            call.ensures((*old(new_ext), orig, pool.addr()), reply) && *final(new_ext) == reply.raw
                && r == status_outcome(reply.status),
{
    let reply = call(*new_ext, orig, pool.as_ptr());
    *new_ext = reply.raw;
    status_to_result(reply.status)
}

/// Appends an application with its argument to the extension.
pub fn caller_extension_add_application<F>(
    session: Session,
    ext: Address,
    application_name: &str,
    extra_data: &str,
    call: F,
) -> (r: Result<()>)
    where
        F: FnOnce(Address, Address, &CText, &CText) -> RawStatus,
    requires
        c_safe(application_name@) && c_safe(extra_data@) ==> forall|application_name_c: &CText,
            extra_data_c: &CText|
            #![trigger call.requires((session.addr(), ext, application_name_c, extra_data_c))]
            application_name_c.spells(application_name@) && extra_data_c.spells(extra_data@) ==>
                call.requires((session.addr(), ext, application_name_c, extra_data_c)),
    ensures
        !(c_safe(application_name@) && c_safe(extra_data@)) ==>
            r == Err::<(), SwitchError>(generic_error()),
        c_safe(application_name@) && c_safe(extra_data@) ==>
            exists|application_name_c: &CText, extra_data_c: &CText, reply: RawStatus| {
            &&& application_name_c.spells(application_name@)
            &&& extra_data_c.spells(extra_data@)
            &&& #[trigger] call.ensures(
                    (session.addr(), ext, application_name_c, extra_data_c),
                    reply,
                )
            &&& r == status_outcome(reply)
        },
{
    let application_name = cstring(application_name)?;
    let extra_data = cstring(extra_data)?;
    status_to_result(call(session.as_ptr(), ext, &application_name, &extra_data))
}

/// Copies the profile at `tocopy` into `pool`.
pub fn caller_profile_dup<F>(pool: &Pool, tocopy: Address, call: F) -> (r: Address)
    where
        F: FnOnce(Address, Address) -> Address,
    requires
        call.requires((pool.addr(), tocopy)),
    ensures
        call.ensures((pool.addr(), tocopy), r),
{
    call(pool.as_ptr(), tocopy)
}

/// Copies the profile at `tocopy` for a session.
pub fn caller_profile_clone<F>(session: Session, tocopy: Address, call: F) -> (r: Address)
    where
        F: FnOnce(Address, Address) -> Address,
    requires
        call.requires((session.addr(), tocopy)),
    ensures
        call.ensures((session.addr(), tocopy), r),
{
    call(session.as_ptr(), tocopy)
}

/// Writes the profile into an event, each name behind `prefix`. A prefix that holds a NUL character
/// leaves the event as it is.
pub fn caller_profile_event_set_data<F>(profile: Address, prefix: &str, event: Address, call: F)
    where
        F: FnOnce(Address, &CText, Address),
    requires
        c_safe(prefix@) ==> forall|prefix_c: &CText|
            #![trigger call.requires((profile, prefix_c, event))]
            prefix_c.spells(prefix@) ==> call.requires((profile, prefix_c, event)),
    ensures
        c_safe(prefix@) ==> exists|prefix_c: &CText|
            prefix_c.spells(prefix@) && #[trigger] call.ensures((profile, prefix_c, event), ()),
{
    match cstring(prefix) {
        Ok(prefix) => call(profile, &prefix, event),
        Err(_) => {},
    }
}

/// Without an application there is no text of it. With one, its text is asked for and read whole.
pub proof fn application_texts_are_read_whole<T>(text: T, app: Address, r: Option<String>) where
    T: FnOnce(Address) -> Option<Vec<u8>>,

    requires
        application_text(text, app, r),
    ensures
        app == 0 ==> r is None,
        app != 0 ==> exists|reply: Option<Vec<u8>>|
            #[trigger] text.ensures((app,), reply) && (r is Some <==> reply is Some && valid_utf8(
                reply->0@,
            )) && (r is Some ==> r->0@ == decode_utf8(reply->0@)),
{
    if app != 0 {
        let reply = choose|reply: Option<Vec<u8>>| #[trigger]
            text.ensures((app,), reply) && text_is(r, reply_text(reply));
        assert(text.ensures((app,), reply));
        texts_agree(r, reply_text(reply));
    }
}

} // verus!
