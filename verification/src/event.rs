//! Events: making and firing them, reading them in a callback, and subscribing to them.

use vstd::prelude::*;
use crate::command::{
    borrowed_cstr_to_string, c_safe, cstring, optional_cstring, optional_safe, optional_spells,
    reply_text, text_is, CText,
};
use crate::handle::{Address, At, Created, Handle, NULL};
use crate::status::{
    generic_error, status_outcome, status_to_result, RawStatus, Result, Status, SwitchError,
    SUCCESS,
};

verus! {

/// The type of an event that has a subclass.
pub const EVENT_CUSTOM: u32 = 0;

/// Headers are added below those that are there.
pub const STACK_BOTTOM: u32 = 1;

/// An event that the module owns. It may have no counterpart in the core; operations on it then do
/// nothing.
#[derive(Debug)]
pub struct Event {
    raw: Option<Handle>,
}

/// The address of an optional object; the null pointer where there is none.
spec fn addr_of(raw: Option<Handle>) -> Address {
    match raw {
        Some(h) => h.addr(),
        None => NULL,
    }
}

/// The address of an optional object; the null pointer where there is none.
fn ptr_of(raw: Option<Handle>) -> (r: Address)
    ensures
        r == addr_of(raw),
        r == NULL <==> raw is None,
{
    match raw {
        Some(h) => h.as_ptr(),
        None => NULL,
    }
}

impl At for Event {
    closed spec fn addr(&self) -> Address {
        addr_of(self.raw)
    }
}

/// Whether `r` is the event that the core has made, or the status with which that failed. Success
/// without an event gives an event without a counterpart.
pub open spec fn event_made(r: Result<Event>, reply: Created) -> bool {
    match status_outcome(reply.status) {
        Ok(_) => r matches Ok(e) && e.addr() == reply.raw,
        Err(e) => r == Err::<Event, SwitchError>(e),
    }
}

impl Event {
    /// Makes a custom event of a subclass.
    pub fn custom<F>(subclass: &str, call: F) -> (r: Result<Event>)
        where
            F: FnOnce(u32, Option<&CText>) -> Created,
        requires
            c_safe(subclass@) ==> forall|c: &CText|
                #![trigger call.requires((EVENT_CUSTOM, Some(c)))]
                c.spells(subclass@) ==> call.requires((EVENT_CUSTOM, Some(c))),
        ensures
            !c_safe(subclass@) ==> r == Err::<Event, SwitchError>(generic_error()),
            c_safe(subclass@) ==> exists|c: &CText, reply: Created|
                c.spells(subclass@) && #[trigger] call.ensures((EVENT_CUSTOM, Some(c)), reply)
                    && event_made(r, reply),
    {
        let subclass = cstring(subclass)?;
        let reply = call(EVENT_CUSTOM, Some(&subclass));
        status_to_result(reply.status)?;
        Ok(Event { raw: Handle::new(reply.raw) })
    }

    /// Makes an event of a type without a subclass.
    pub fn new<F>(event: u32, call: F) -> (r: Result<Event>)
        where
            F: FnOnce(u32, Option<&CText>) -> Created,
        requires
            call.requires((event, None::<&CText>)),
        ensures
            exists|reply: Created| #[trigger]
                call.ensures((event, None::<&CText>), reply) && event_made(r, reply),
    {
        let reply = call(event, None);
        status_to_result(reply.status)?;
        Ok(Event { raw: Handle::new(reply.raw) })
    }

    /// The event's address; the null pointer where it has no counterpart.
    pub fn as_ptr(&self) -> (r: Address)
        ensures
            r == self.addr(),
    {
        ptr_of(self.raw)
    }

    /// Adds a header below those that are there.
    pub fn add_header<F>(&mut self, name: &str, value: &str, call: F) -> (r: Result<()>)
        where
            F: FnOnce(Address, u32, &CText, &CText) -> RawStatus,
        requires
            old(self).addr() != NULL && c_safe(name@) && c_safe(value@) ==> forall|n: &CText, v:
                &CText|
                #![trigger call.requires((old(self).addr(), STACK_BOTTOM, n, v))]
                n.spells(name@) && v.spells(value@) ==> call.requires((old(self).addr(),
                    STACK_BOTTOM, n, v)),
        ensures
            *final(self) == *old(self),
            old(self).addr() == NULL ==> r == Ok::<(), SwitchError>(()),
            old(self).addr() != NULL && !(c_safe(name@) && c_safe(value@)) ==> r == Err::<
                (),
                SwitchError,
            >(generic_error()),
            old(self).addr() != NULL && c_safe(name@) && c_safe(value@) ==> exists|
                n: &CText,
                v: &CText,
                reply: RawStatus,
            |
                n.spells(name@) && v.spells(value@) && #[trigger] call.ensures(
                    (old(self).addr(), STACK_BOTTOM, n, v),
                    reply,
                ) && r == status_outcome(reply),
    {
        let raw: Address = ptr_of(self.raw);
        if raw == NULL {
            return Ok(());
        }
        let name = cstring(name)?;
        let value = cstring(value)?;
        proof {
            assert(raw == old(self).addr());
        }
        status_to_result(call(raw, STACK_BOTTOM, &name, &value))
    }

    /// Adds a header, as [`Event::add_header`] does.
    pub fn add_header_name<F>(&mut self, name: &str, value: &str, call: F) -> (r: Result<()>)
        where
            F: FnOnce(Address, u32, &CText, &CText) -> RawStatus,
        requires
            old(self).addr() != NULL && c_safe(name@) && c_safe(value@) ==> forall|n: &CText, v:
                &CText|
                #![trigger call.requires((old(self).addr(), STACK_BOTTOM, n, v))]
                n.spells(name@) && v.spells(value@) ==> call.requires((old(self).addr(),
                    STACK_BOTTOM, n, v)),
        ensures
            *final(self) == *old(self),
            old(self).addr() == NULL ==> r == Ok::<(), SwitchError>(()),
            old(self).addr() != NULL && !(c_safe(name@) && c_safe(value@)) ==> r == Err::<
                (),
                SwitchError,
            >(generic_error()),
            old(self).addr() != NULL && c_safe(name@) && c_safe(value@) ==> exists|
                n: &CText,
                v: &CText,
                reply: RawStatus,
            |
                n.spells(name@) && v.spells(value@) && #[trigger] call.ensures(
                    (old(self).addr(), STACK_BOTTOM, n, v),
                    reply,
                ) && r == status_outcome(reply),
    {
        self.add_header(name, value, call)
    }

    /// Appends a body.
    pub fn add_body<F>(&mut self, body: &str, call: F) -> (r: Result<()>)
        where
            F: FnOnce(Address, &CText) -> RawStatus,
        requires
            old(self).addr() != NULL && c_safe(body@) ==> forall|b: &CText|
                #![trigger call.requires((old(self).addr(), b))]
                b.spells(body@) ==> call.requires((old(self).addr(), b)),
        ensures
            *final(self) == *old(self),
            old(self).addr() == NULL ==> r == Ok::<(), SwitchError>(()),
            old(self).addr() != NULL && !c_safe(body@) ==> r == Err::<(), SwitchError>(
                generic_error(),
            ),
            old(self).addr() != NULL && c_safe(body@) ==> exists|b: &CText, reply: RawStatus|
                b.spells(body@) && #[trigger] call.ensures((old(self).addr(), b), reply) && r
                    == status_outcome(reply),
    {
        let raw: Address = ptr_of(self.raw);
        if raw == NULL {
            return Ok(());
        }
        let body = cstring(body)?;
        proof {
            assert(raw == old(self).addr());
        }
        status_to_result(call(raw, &body))
    }

    /// Deletes every header that is called `name`.
    pub fn del_header<F>(&mut self, name: &str, call: F) -> (r: Result<()>)
        where
            F: FnOnce(Address, &CText) -> RawStatus,
        requires
            old(self).addr() != NULL && c_safe(name@) ==> forall|n: &CText|
                #![trigger call.requires((old(self).addr(), n))]
                n.spells(name@) ==> call.requires((old(self).addr(), n)),
        ensures
            *final(self) == *old(self),
            old(self).addr() == NULL ==> r == Ok::<(), SwitchError>(()),
            old(self).addr() != NULL && !c_safe(name@) ==> r == Err::<(), SwitchError>(
                generic_error(),
            ),
            old(self).addr() != NULL && c_safe(name@) ==> exists|n: &CText, reply: RawStatus|
                n.spells(name@) && #[trigger] call.ensures((old(self).addr(), n), reply) && r
                    == status_outcome(reply),
    {
        let raw: Address = ptr_of(self.raw);
        if raw == NULL {
            return Ok(());
        }
        let name = cstring(name)?;
        proof {
            assert(raw == old(self).addr());
        }
        status_to_result(call(raw, &name))
    }

    /// The body, where there is one.
    pub fn body<F>(&self, call: F) -> (r: Option<String>)
        where
            F: FnOnce(Address) -> Option<Vec<u8>>,
        requires
            self.addr() != NULL ==> call.requires((self.addr(),)),
        ensures
            self.addr() == NULL ==> r is None,
            self.addr() != NULL ==> exists|reply: Option<Vec<u8>>| #[trigger]
                call.ensures((self.addr(),), reply) && text_is(r, reply_text(reply)),
    {
        let raw: Address = ptr_of(self.raw);
        if raw == NULL {
            return None;
        }
        borrowed_cstr_to_string(call(raw))
    }

    /// Fires the event. On success the core owns it. Where firing fails, what the call left of the
    /// event is destroyed and its status is the error. `call` returns the status and what is left.
    pub fn fire<F, D>(self, call: F, destroy: D) -> (r: Result<()>)
        where
            F: FnOnce(Address) -> Created,
            D: FnOnce(Address),
        requires
            self.addr() != NULL ==> call.requires((self.addr(),)),
            forall|reply: Created| #[trigger]
                call.ensures((self.addr(),), reply) && self.addr() != NULL && reply.status != SUCCESS
                    && reply.raw != NULL ==> destroy.requires((reply.raw,)),
        ensures
            self.addr() == NULL ==> r == Ok::<(), SwitchError>(()),
            self.addr() != NULL ==> exists|reply: Created| #[trigger]
                call.ensures((self.addr(),), reply) && r == status_outcome(reply.status) && (r is Err
                    && reply.raw != NULL ==> destroy.ensures((reply.raw,), ())),
    {
        let mut owner = self;
        let raw: Address = ptr_of(owner.raw);
        if raw == NULL {
            return Ok(());
        }
        owner.raw = None;
        let reply = call(raw);
        if reply.status == SUCCESS {
            return Ok(());
        }
        owner.raw = Handle::new(reply.raw);
        owner.release(destroy);
        Err(SwitchError(Status::from_raw(reply.status)))
    }

    /// Gives the event up: what the module still owns is destroyed, and nothing is owned after.
    pub fn release<D>(&mut self, destroy: D)
        where
            D: FnOnce(Address),
        requires
            old(self).addr() != NULL ==> destroy.requires((old(self).addr(),)),
        ensures
            final(self).addr() == NULL,
            old(self).addr() != NULL ==> destroy.ensures((old(self).addr(),), ()),
    {
        let raw: Address = ptr_of(self.raw);
        self.raw = None;
        if raw != NULL {
            destroy(raw);
        }
    }
}

/// An event that a callback may read. It may be missing.
#[derive(Debug, Copy, Clone)]
pub struct EventRef {
    raw: Option<Handle>,
}

impl At for EventRef {
    closed spec fn addr(&self) -> Address {
        addr_of(self.raw)
    }
}

impl EventRef {
    /// Wraps the event of a callback, which may be null.
    pub fn from_raw(raw: Address) -> (r: EventRef)
        ensures
            r.addr() == raw,
    {
        EventRef { raw: Handle::new(raw) }
    }

    /// The event's address; the null pointer where it is missing.
    pub fn as_ptr(self) -> (r: Address)
        ensures
            r == self.addr(),
    {
        ptr_of(self.raw)
    }

    /// The value of a header. `None` where the event is missing, where the name holds a NUL
    /// character, and where there is no such header or its value is not UTF-8.
    pub fn header<F>(self, name: &str, call: F) -> (r: Option<String>)
        where
            F: FnOnce(Address, &CText) -> Option<Vec<u8>>,
        requires
            self.addr() != NULL && c_safe(name@) ==> forall|n: &CText|
                #![trigger call.requires((self.addr(), n))]
                n.spells(name@) ==> call.requires((self.addr(), n)),
        ensures
            self.addr() == NULL || !c_safe(name@) ==> r is None,
            self.addr() != NULL && c_safe(name@) ==> exists|n: &CText, reply: Option<Vec<u8>>|
                n.spells(name@) && #[trigger] call.ensures((self.addr(), n), reply) && text_is(
                    r,
                    reply_text(reply),
                ),
    {
        let raw: Address = ptr_of(self.raw);
        if raw == NULL {
            return None;
        }
        proof {
            assert(raw == self.addr());
        }
        match cstring(name) {
            Ok(name) => borrowed_cstr_to_string(call(raw, &name)),
            Err(_) => None,
        }
    }
}

/// A subscription to events. It has to be given up once.
#[derive(Debug)]
pub struct EventBinder {
    node: Option<Handle>,
}

impl At for EventBinder {
    closed spec fn addr(&self) -> Address {
        addr_of(self.node)
    }
}

impl EventBinder {
    /// Subscribes to events of a type, and of a subclass where one is given, under the name `id`.
    /// `callback` is the address of the function that the core calls.
    pub fn bind<F>(
        id: &str,
        event: u32,
        subclass: Option<&str>,
        callback: Address,
        user_data: Address,
        call: F,
    ) -> (r: Result<EventBinder>)
        where
            F: FnOnce(&CText, u32, Option<&CText>, Address, Address) -> Created,
        requires
            c_safe(id@) && optional_safe(subclass) ==> forall|id_c: &CText, subclass_c:
                Option<&CText>|
                #![trigger call.requires((id_c, event, subclass_c, callback, user_data))]
                id_c.spells(id@) && optional_spells(subclass_c, subclass) ==> call.requires((id_c,
                    event, subclass_c, callback, user_data)),
        ensures
            !(c_safe(id@) && optional_safe(subclass)) ==> r == Err::<EventBinder, SwitchError>(
                generic_error(),
            ),
            c_safe(id@) && optional_safe(subclass) ==> exists|
                id_c: &CText,
                subclass_c: Option<&CText>,
                reply: Created,
            |
                id_c.spells(id@) && optional_spells(subclass_c, subclass) && #[trigger] call.ensures(
                    (id_c, event, subclass_c, callback, user_data),
                    reply,
                ) && match status_outcome(reply.status) {
                    Ok(_) => r matches Ok(b) && b.addr() == reply.raw,
                    Err(e) => r == Err::<EventBinder, SwitchError>(e),
                },
    {
        let id = cstring(id)?;
        let subclass = optional_cstring(subclass)?;
        let reply = call(&id, event, subclass.as_ref(), callback, user_data);
        status_to_result(reply.status)?;
        Ok(EventBinder { node: Handle::new(reply.raw) })
    }

    /// The address of the registration; the null pointer where there is none.
    pub fn as_ptr(&self) -> (r: Address)
        ensures
            r == self.addr(),
    {
        ptr_of(self.node)
    }

    /// Gives the subscription up. It is ended once: nothing is registered after.
    pub fn release<D>(&mut self, unbind: D)
        where
            D: FnOnce(Address),
        requires
            old(self).addr() != NULL ==> unbind.requires((old(self).addr(),)),
        ensures
            final(self).addr() == NULL,
            old(self).addr() != NULL ==> unbind.ensures((old(self).addr(),), ()),
    {
        let node: Address = ptr_of(self.node);
        self.node = None;
        if node != NULL {
            unbind(node);
        }
    }
}

/// An event was made exactly where the call succeeded, and it is at the address that came back; the
/// status of one that failed is the error.
pub proof fn events_are_made_where_it_succeeded(r: Result<Event>, reply: Created)
    requires
        event_made(r, reply),
    ensures
        r is Ok <==> reply.status == 0,
        r matches Ok(e) ==> e.addr() == reply.raw,
        r matches Err(e) ==> e.0.0 == reply.status,
{
}

} // verus!
