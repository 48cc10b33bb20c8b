//! Channels: call state, variables, flags and private data of one call leg.

use vstd::prelude::*;
use crate::buffer::overwrite_head;
use crate::caller::CallerProfile;
use vstd::utf8::{
    decode_utf8, decode_utf8_encode_utf8, encode_utf8, encode_utf8_decode_utf8,
    encode_utf8_valid_utf8, valid_utf8,
};
use crate::command::{
    CText, borrowed_cstr_to_string, c_safe, cstring, first_zero, nul_position, optional_cstring,
    optional_safe, optional_spells, owned_text, reply_text, strdup_to_string, text_is,
};
use crate::endpoint::{Dtmf, DtmfFields};
use crate::event::Event;
use crate::handle::{maybe_at, non_null, to_option, Address, At, Created, Handle, NULL};
use crate::status::{
    generic_error, status_outcome, status_to_result, switch_bool, switch_bool_of, Cause,
    RawStatus, Result, Status, SwitchBool, SwitchError, SUCCESS, SWITCH_TRUE,
};

verus! {

/// The channel of a session: the state machine, the variables and the caller of one call leg.
#[derive(Debug, Copy, Clone)]
pub struct Channel {
    raw: Handle,
}

impl At for Channel {
    closed spec fn addr(&self) -> Address {
        self.raw.addr()
    }
}

impl Channel {
    /// Wraps an address; `None` for the null pointer.
    pub fn from_raw(raw: Address) -> (r: Option<Channel>)
        ensures
            maybe_at(r, raw),
    {
        match Handle::new(raw) {
            Some(raw) => Some(Channel { raw }),
            None => None,
        }
    }

    /// The address, which is never null.
    pub fn as_ptr(&self) -> (r: Address)
        ensures
            r == self.addr(),
            r != NULL,
    {
        self.raw.as_ptr()
    }
}

/// The address of an optional profile; the null pointer where there is none.
pub open spec fn profile_addr(profile: Option<&CallerProfile>) -> Address {
    match profile {
        Some(p) => p.addr(),
        None => NULL,
    }
}

/// What the core answers to a call that fills a buffer: a status, and what it has put at the head
/// of the buffer.
#[derive(Debug)]
pub struct Filled {
    pub status: RawStatus,
    pub bytes: Vec<u8>,
}

/// One header of an event, as the core stores it; a null pointer is absent.
#[derive(Debug)]
pub struct HeaderNode {
    pub name: Option<Vec<u8>>,
    pub value: Option<Vec<u8>>,
}

/// An event that the core has filled with variables: the status of the call, the event's address
/// and its headers in order.
#[derive(Debug)]
pub struct VariableSnapshot {
    pub status: RawStatus,
    pub event: Address,
    pub headers: Vec<HeaderNode>,
}

/// Whether a C string is there and is UTF-8.
pub open spec fn is_text(bytes: Option<Vec<u8>>) -> bool {
    bytes matches Some(b) && valid_utf8(b@)
}

/// The variable that a header stands for. A header whose name is missing or is not UTF-8 stands
/// for none; a value that is missing or is not UTF-8 is read as the empty text.
pub open spec fn variable_of(node: HeaderNode) -> Option<(Seq<char>, Seq<char>)> {
    match reply_text(node.name) {
        Some(name) => Some(
            (
                name,
                match reply_text(node.value) {
                    Some(value) => value,
                    None => Seq::empty(),
                },
            ),
        ),
        None => None,
    }
}

/// The variables of a list of headers, in its order.
pub open spec fn variables_of(nodes: Seq<HeaderNode>) -> Seq<(Seq<char>, Seq<char>)>
    decreases nodes.len(),
{
    if nodes.len() == 0 {
        Seq::empty()
    } else {
        let before = variables_of(nodes.drop_last());
        match variable_of(nodes.last()) {
            Some(pair) => before.push(pair),
            None => before,
        }
    }
}

/// The text of a list of name and value pairs.
pub open spec fn pairs_text(pairs: Seq<(String, String)>) -> Seq<(Seq<char>, Seq<char>)> {
    pairs.map_values(|p: (String, String)| (p.0@, p.1@))
}

/// Whether `r` is what a snapshot amounts to: the variables where the call succeeded and made an
/// event, else its status as an error.
pub open spec fn snapshot_read(r: Result<Vec<(String, String)>>, snapshot: VariableSnapshot) -> bool {
    if snapshot.status == SUCCESS && snapshot.event != NULL {
        r matches Ok(pairs) && pairs_text(pairs@) == variables_of(snapshot.headers@)
    } else {
        r == Err::<Vec<(String, String)>, SwitchError>(SwitchError(Status(snapshot.status)))
    }
}

/// A snapshot never has more variables than the event has headers, and names that are all readable
/// are all kept.
pub proof fn variables_are_headers(nodes: Seq<HeaderNode>)
    ensures
        variables_of(nodes).len() <= nodes.len(),
        (forall|i: int| 0 <= i < nodes.len() ==> reply_text(#[trigger] nodes[i].name) is Some) ==> {
            &&& variables_of(nodes).len() == nodes.len()
            &&& forall|i: int|
                0 <= i < nodes.len() ==> Some(#[trigger] variables_of(nodes)[i]) == variable_of(
                    nodes[i],
                )
        },
    decreases nodes.len(),
{
    if nodes.len() > 0 {
        let rest = nodes.drop_last();
        variables_are_headers(rest);
        if forall|i: int| 0 <= i < nodes.len() ==> reply_text(#[trigger] nodes[i].name) is Some {
            assert forall|i: int| 0 <= i < rest.len() implies reply_text(
                #[trigger] rest[i].name,
            ) is Some by {
                assert(rest[i] == nodes[i]);
            }
            let last = nodes[nodes.len() - 1];
            assert(reply_text(last.name) is Some);
            assert forall|i: int| 0 <= i < nodes.len() implies Some(
                #[trigger] variables_of(nodes)[i],
            ) == variable_of(nodes[i]) by {
                if i < rest.len() {
                    assert(rest[i] == nodes[i]);
                    assert(variables_of(nodes)[i] == variables_of(rest)[i]);
                }
            }
        }
    }
}

/// Reads the variables out of a snapshot event. The event is destroyed whatever the status is,
/// unless none was made.
pub fn collect_channel_variables<D>(snapshot: VariableSnapshot, destroy: D) -> (r: Result<
    Vec<(String, String)>,
>)
    where
        D: FnOnce(Address),
    requires
        snapshot.event != NULL ==> destroy.requires((snapshot.event,)),
    ensures
        snapshot_read(r, snapshot),
        snapshot.event != NULL ==> destroy.ensures((snapshot.event,), ()),
        r is Ok <==> snapshot.status == 0 && snapshot.event != 0,
        r matches Ok(pairs) ==> ((forall|i: int|
            0 <= i < snapshot.headers@.len() ==> is_text((#[trigger] snapshot.headers@[i]).name)
                && is_text(snapshot.headers@[i].value)) ==> {
            &&& pairs@.len() == snapshot.headers@.len()
            &&& forall|i: int|
                0 <= i < pairs@.len() ==> (#[trigger] pairs@[i]).0@ == decode_utf8(
                    snapshot.headers@[i].name->0@,
                ) && pairs@[i].1@ == decode_utf8(snapshot.headers@[i].value->0@)
        }),
{
    let ghost given = snapshot;
    let status: RawStatus = snapshot.status;
    let event: Address = snapshot.event;
    let result = if status == SUCCESS && event != NULL {
        let mut pairs: Vec<(String, String)> = Vec::new();
        for node in nodes: snapshot.headers
            invariant
                nodes.seq() == given.headers@,
                pairs_text(pairs@) == variables_of(given.headers@.take(nodes.index())),
        {
            let ghost before = pairs@;
            let ghost seen = given.headers@.take(nodes.index());
            let ghost with_node = given.headers@.take(nodes.index() + 1);
            proof {
                assert(with_node.drop_last() =~= seen);
                assert(with_node.last() == node);
            }
            let name = borrowed_cstr_to_string(node.name);
            let value = borrowed_cstr_to_string(node.value);
            if let Some(name) = name {
                let value = match value {
                    Some(value) => value,
                    None => String::new(),
                };
                pairs.push((name, value));
                proof {
                    assert(pairs_text(pairs@) =~= pairs_text(before).push((name@, value@)));
                }
            }
        }
        proof {
            assert(given.headers@.take(given.headers@.len() as int) =~= given.headers@);
        }
        Ok(pairs)
    } else {
        Err(SwitchError(Status::from_raw(status)))
    };
    if event != NULL {
        destroy(event);
    }
    proof {
        snapshots_give_pairs(result, given);
        let nodes = given.headers@;
        if status == SUCCESS && event != NULL && forall|i: int|
            0 <= i < nodes.len() ==> is_text((#[trigger] nodes[i]).name) && is_text(
                nodes[i].value,
            ) {
            readable_headers_are_decoded(result, given);
        }
    }
    result
}

impl Channel {
    /// The value of a variable; `None` where it is not set. The copy that the core hands out is
    /// freed.
    pub fn variable<F, D>(self, name: &str, call: F, free: D) -> (r: Result<Option<String>>)
        where
            F: FnOnce(Address, &CText) -> (Address, Vec<u8>),
            D: FnOnce(Address),
        requires
            c_safe(name@) ==> forall|name_c: &CText|
                #![trigger call.requires((self.addr(), name_c))]
                name_c.spells(name@) ==> call.requires((self.addr(), name_c)),
            forall|name_c: &CText, at: Address, bytes: Vec<u8>|
                #![trigger call.ensures((self.addr(), name_c), (at, bytes))]
                name_c.spells(name@) && call.ensures((self.addr(), name_c), (at, bytes)) && at !=
                    NULL ==> free.requires((at,)),
        ensures
            !c_safe(name@) ==> r == Err::<Option<String>, SwitchError>(generic_error()),
            c_safe(name@) ==> exists|name_c: &CText, at: Address, bytes: Vec<u8>| {
                &&& name_c.spells(name@)
                &&& #[trigger] call.ensures((self.addr(), name_c), (at, bytes))
                &&& r matches Ok(v) && text_is(v, owned_text(at, bytes))
                &&& at != NULL ==> free.ensures((at,), ())
            },
    {
        let name = cstring(name)?;
        let (at, bytes) = call(self.as_ptr(), &name);
        Ok(strdup_to_string(at, bytes, free))
    }

    /// Sets a variable, with the check for variable references on.
    pub fn set_variable<F>(self, name: &str, value: &str, call: F) -> (r: Result<()>)
        where
            F: FnOnce(Address, &CText, &CText, SwitchBool) -> RawStatus,
        requires
            c_safe(name@) && c_safe(value@) ==> forall|name_c: &CText, value_c: &CText|
                #![trigger call.requires((self.addr(), name_c, value_c, SWITCH_TRUE))]
                name_c.spells(name@) && value_c.spells(value@) ==> call.requires((self.addr(),
                    name_c, value_c, SWITCH_TRUE)),
        ensures
            !(c_safe(name@) && c_safe(value@)) ==> r == Err::<(), SwitchError>(generic_error()),
            c_safe(name@) && c_safe(value@) ==>
                exists|name_c: &CText, value_c: &CText, reply: RawStatus| {
                &&& name_c.spells(name@)
                &&& value_c.spells(value@)
                &&& #[trigger] call.ensures((self.addr(), name_c, value_c, SWITCH_TRUE), reply)
                &&& r == status_outcome(reply)
            },
    {
        let name = cstring(name)?;
        let value = cstring(value)?;
        status_to_result(call(self.as_ptr(), &name, &value, SWITCH_TRUE))
    }

    /// The display name of the channel.
    pub fn name<F>(self, call: F) -> (r: Option<String>)
        where
            F: FnOnce(Address) -> Option<Vec<u8>>,
        requires
            call.requires((self.addr(),)),
        ensures
            exists|reply: Option<Vec<u8>>| {
                &&& #[trigger] call.ensures((self.addr(),), reply)
                &&& text_is(r, reply_text(reply))
            },
    {
        borrowed_cstr_to_string(call(self.as_ptr()))
    }

    /// The UUID of the channel.
    pub fn uuid<F>(self, call: F) -> (r: Option<String>)
        where
            F: FnOnce(Address) -> Option<Vec<u8>>,
        requires
            call.requires((self.addr(),)),
        ensures
            exists|reply: Option<Vec<u8>>| {
                &&& #[trigger] call.ensures((self.addr(),), reply)
                &&& text_is(r, reply_text(reply))
            },
    {
        borrowed_cstr_to_string(call(self.as_ptr()))
    }

    /// The state of the channel.
    pub fn state<F>(self, call: F) -> (r: u32)
        where
            F: FnOnce(Address) -> u32,
        requires
            call.requires((self.addr(),)),
        ensures
            call.ensures((self.addr(),), r),
    {
        call(self.as_ptr())
    }

    /// The hangup cause of the channel.
    pub fn cause<F>(self, call: F) -> (r: Cause)
        where
            F: FnOnce(Address) -> u32,
        requires
            call.requires((self.addr(),)),
        ensures
            exists|reply: u32| {
                &&& #[trigger] call.ensures((self.addr(),), reply)
                &&& r == Cause(reply)
            },
    {
        Cause(call(self.as_ptr()))
    }

    /// The caller profile of the channel.
    pub fn caller_profile<F>(self, call: F) -> (r: Option<CallerProfile>)
        where
            F: FnOnce(Address) -> Address,
        requires
            call.requires((self.addr(),)),
        ensures
            exists|reply: Address| {
                &&& #[trigger] call.ensures((self.addr(),), reply)
                &&& maybe_at(r, reply)
            },
    {
        CallerProfile::from_raw(call(self.as_ptr()))
    }

    /// Whether `flag` is set.
    pub fn test_flag<F>(self, flag: u32, call: F) -> (r: bool)
        where
            F: FnOnce(Address, u32) -> u32,
        requires
            call.requires((self.addr(), flag)),
        ensures
            exists|reply: u32| {
                &&& #[trigger] call.ensures((self.addr(), flag), reply)
                &&& r == (reply != 0)
            },
    {
        let reply: u32 = call(self.as_ptr(), flag);
        reply != 0
    }

    /// Waits until the channel is in the state `want`. No second channel is waited for.
    pub fn wait_for_state<F>(self, want: u32, call: F)
        where
            F: FnOnce(Address, u32),
        requires
            call.requires((self.addr(), want)),
        ensures
            call.ensures((self.addr(), want), ()),
    {
        call(self.as_ptr(), want)
    }

    /// Asks for a state. Returns the state that the channel is then in.
    pub fn set_state<F>(self, state: u32, call: F) -> (r: u32)
        where
            F: FnOnce(Address, u32) -> u32,
        requires
            call.requires((self.addr(), state)),
        ensures
            call.ensures((self.addr(), state), r),
    {
        call(self.as_ptr(), state)
    }

    /// Hangs up. Returns the state that the channel is then in.
    pub fn hangup<F>(self, cause: Cause, call: F) -> (r: u32)
        where
            F: FnOnce(Address, u32) -> u32,
        requires
            call.requires((self.addr(), cause.0)),
        ensures
            call.ensures((self.addr(), cause.0), r),
    {
        call(self.as_ptr(), cause.0)
    }

    /// The state that the state machine is working on.
    pub fn running_state<F>(self, call: F) -> (r: u32)
        where
            F: FnOnce(Address) -> u32,
        requires
            call.requires((self.addr(),)),
        ensures
            call.ensures((self.addr(),), r),
    {
        call(self.as_ptr())
    }

    /// The call state of the channel.
    pub fn callstate<F>(self, call: F) -> (r: u32)
        where
            F: FnOnce(Address) -> u32,
        requires
            call.requires((self.addr(),)),
        ensures
            call.ensures((self.addr(),), r),
    {
        call(self.as_ptr())
    }

    /// Sets a flag that takes effect with the next state.
    pub fn set_state_flag<F>(self, flag: u32, call: F)
        where
            F: FnOnce(Address, u32),
        requires
            call.requires((self.addr(), flag)),
        ensures
            call.ensures((self.addr(), flag), ()),
    {
        call(self.as_ptr(), flag)
    }

    /// Adds a table of state handlers. Returns the number of tables.
    pub fn add_state_handler<F>(self, table: Address, call: F) -> (r: i32)
        where
            F: FnOnce(Address, Address) -> i32,
        requires
            call.requires((self.addr(), table)),
        ensures
            call.ensures((self.addr(), table), r),
    {
        call(self.as_ptr(), table)
    }

    /// Removes a table of state handlers.
    pub fn clear_state_handler<F>(self, table: Address, call: F)
        where
            F: FnOnce(Address, Address),
        requires
            call.requires((self.addr(), table)),
        ensures
            call.ensures((self.addr(), table), ()),
    {
        call(self.as_ptr(), table)
    }

    /// Makes the channel look for pending signals. A reply other than zero says that there was one.
    pub fn check_signal<F>(self, in_thread_only: bool, call: F) -> (r: i32)
        where
            F: FnOnce(Address, SwitchBool) -> i32,
        requires
            call.requires((self.addr(), switch_bool_of(in_thread_only))),
        ensures
            call.ensures((self.addr(), switch_bool_of(in_thread_only)), r),
    {
        call(self.as_ptr(), switch_bool(in_thread_only))
    }

    /// The address of the timetable of the channel.
    pub fn timetable<F>(self, call: F) -> (r: Option<Address>)
        where
            F: FnOnce(Address) -> Address,
        requires
            call.requires((self.addr(),)),
        ensures
            exists|reply: Address| {
                &&& #[trigger] call.ensures((self.addr(),), reply)
                &&& r == non_null(reply)
            },
    {
        to_option(call(self.as_ptr()))
    }

    /// The direction of the call.
    pub fn direction<F>(self, call: F) -> (r: u32)
        where
            F: FnOnce(Address) -> u32,
        requires
            call.requires((self.addr(),)),
        ensures
            call.ensures((self.addr(),), r),
    {
        call(self.as_ptr())
    }

    /// Sets the direction of the call.
    pub fn set_direction<F>(self, direction: u32, call: F)
        where
            F: FnOnce(Address, u32),
        requires
            call.requires((self.addr(), direction)),
        ensures
            call.ensures((self.addr(), direction), ()),
    {
        call(self.as_ptr(), direction)
    }

    /// Notes the time of the bridge. This cannot fail.
    pub fn set_bridge_time<F>(self, call: F) -> (r: Result<()>)
        where
            F: FnOnce(Address),
        requires
            call.requires((self.addr(),)),
        ensures
            r == Ok::<(), SwitchError>(()),
            call.ensures((self.addr(),), ()),
    {
        call(self.as_ptr());
        Ok(())
    }

    /// Notes the time of the hangup.
    pub fn set_hangup_time<F>(self, call: F)
        where
            F: FnOnce(Address),
        requires
            call.requires((self.addr(),)),
        ensures
            call.ensures((self.addr(),), ()),
    {
        call(self.as_ptr())
    }

    /// Writes the times of the call into the timetable.
    pub fn set_timestamps<F>(self, call: F) -> (r: Result<()>)
        where
            F: FnOnce(Address) -> RawStatus,
        requires
            call.requires((self.addr(),)),
        ensures
            exists|reply: RawStatus| {
                &&& #[trigger] call.ensures((self.addr(),), reply)
                &&& r == status_outcome(reply)
            },
    {
        status_to_result(call(self.as_ptr()))
    }

    /// The address of the device record of the channel.
    pub fn device_record<F>(self, call: F) -> (r: Option<Address>)
        where
            F: FnOnce(Address) -> Address,
        requires
            call.requires((self.addr(),)),
        ensures
            exists|reply: Address| {
                &&& #[trigger] call.ensures((self.addr(),), reply)
                &&& r == non_null(reply)
            },
    {
        to_option(call(self.as_ptr()))
    }

    /// Gives up the device record of the channel.
    pub fn clear_device_record<F>(self, call: F)
        where
            F: FnOnce(Address),
        requires
            call.requires((self.addr(),)),
        ensures
            call.ensures((self.addr(),), ()),
    {
        call(self.as_ptr())
    }

    /// Drops all queued DTMF.
    pub fn flush_dtmf<F>(self, call: F)
        where
            F: FnOnce(Address),
        requires
            call.requires((self.addr(),)),
        ensures
            call.ensures((self.addr(),), ()),
    {
        call(self.as_ptr())
    }

    /// Locks the DTMF queue.
    pub fn dtmf_lock<F>(self, call: F) -> (r: Result<()>)
        where
            F: FnOnce(Address) -> RawStatus,
        requires
            call.requires((self.addr(),)),
        ensures
            exists|reply: RawStatus| {
                &&& #[trigger] call.ensures((self.addr(),), reply)
                &&& r == status_outcome(reply)
            },
    {
        status_to_result(call(self.as_ptr()))
    }

    /// Unlocks the DTMF queue.
    pub fn dtmf_unlock<F>(self, call: F) -> (r: Result<()>)
        where
            F: FnOnce(Address) -> RawStatus,
        requires
            call.requires((self.addr(),)),
        ensures
            exists|reply: RawStatus| {
                &&& #[trigger] call.ensures((self.addr(),), reply)
                &&& r == status_outcome(reply)
            },
    {
        status_to_result(call(self.as_ptr()))
    }

    /// Writes the basic data of the channel into an event.
    pub fn event_set_basic_data<F>(self, event: &Event, call: F)
        where
            F: FnOnce(Address, Address),
        requires
            call.requires((self.addr(), event.addr())),
        ensures
            call.ensures((self.addr(), event.addr()), ()),
    {
        call(self.as_ptr(), event.as_ptr())
    }

    /// Writes the variables and the profile of the channel into an event.
    pub fn event_set_data<F>(self, event: &Event, call: F)
        where
            F: FnOnce(Address, Address),
        requires
            call.requires((self.addr(), event.addr())),
        ensures
            call.ensures((self.addr(), event.addr()), ()),
    {
        call(self.as_ptr(), event.as_ptr())
    }

    /// Writes the extended data of the channel into an event.
    pub fn event_set_extended_data<F>(self, event: &Event, call: F)
        where
            F: FnOnce(Address, Address),
        requires
            call.requires((self.addr(), event.addr())),
        ensures
            call.ensures((self.addr(), event.addr()), ()),
    {
        call(self.as_ptr(), event.as_ptr())
    }

    /// Attaches a caller profile.
    pub fn set_caller_profile<F>(self, profile: &CallerProfile, call: F)
        where
            F: FnOnce(Address, Address),
        requires
            call.requires((self.addr(), profile.addr())),
        ensures
            call.ensures((self.addr(), profile.addr()), ()),
    {
        call(self.as_ptr(), profile.as_ptr())
    }

    /// Steps to a fresh copy of the caller profile.
    pub fn step_caller_profile<F>(self, call: F)
        where
            F: FnOnce(Address),
        requires
            call.requires((self.addr(),)),
        ensures
            call.ensures((self.addr(),), ()),
    {
        call(self.as_ptr())
    }

    /// Attaches the profile of the leg that originated the call.
    pub fn set_origination_caller_profile<F>(self, profile: &CallerProfile, call: F)
        where
            F: FnOnce(Address, Address),
        requires
            call.requires((self.addr(), profile.addr())),
        ensures
            call.ensures((self.addr(), profile.addr()), ()),
    {
        call(self.as_ptr(), profile.as_ptr())
    }

    /// The profile of the leg that originated the call.
    pub fn origination_caller_profile<F>(self, call: F) -> (r: Option<CallerProfile>)
        where
            F: FnOnce(Address) -> Address,
        requires
            call.requires((self.addr(),)),
        ensures
            exists|reply: Address| {
                &&& #[trigger] call.ensures((self.addr(),), reply)
                &&& maybe_at(r, reply)
            },
    {
        CallerProfile::from_raw(call(self.as_ptr()))
    }

    /// Attaches the profile of the calling leg.
    pub fn set_originator_caller_profile<F>(self, profile: &CallerProfile, call: F)
        where
            F: FnOnce(Address, Address),
        requires
            call.requires((self.addr(), profile.addr())),
        ensures
            call.ensures((self.addr(), profile.addr()), ()),
    {
        call(self.as_ptr(), profile.as_ptr())
    }

    /// The profile of the calling leg.
    pub fn originator_caller_profile<F>(self, call: F) -> (r: Option<CallerProfile>)
        where
            F: FnOnce(Address) -> Address,
        requires
            call.requires((self.addr(),)),
        ensures
            exists|reply: Address| {
                &&& #[trigger] call.ensures((self.addr(),), reply)
                &&& maybe_at(r, reply)
            },
    {
        CallerProfile::from_raw(call(self.as_ptr()))
    }

    /// Attaches the profile of the called leg.
    pub fn set_originatee_caller_profile<F>(self, profile: &CallerProfile, call: F)
        where
            F: FnOnce(Address, Address),
        requires
            call.requires((self.addr(), profile.addr())),
        ensures
            call.ensures((self.addr(), profile.addr()), ()),
    {
        call(self.as_ptr(), profile.as_ptr())
    }

    /// The profile of the called leg.
    pub fn originatee_caller_profile<F>(self, call: F) -> (r: Option<CallerProfile>)
        where
            F: FnOnce(Address) -> Address,
        requires
            call.requires((self.addr(),)),
        ensures
            exists|reply: Address| {
                &&& #[trigger] call.ensures((self.addr(),), reply)
                &&& maybe_at(r, reply)
            },
    {
        CallerProfile::from_raw(call(self.as_ptr()))
    }

    /// Attaches the extension that the channel runs.
    pub fn set_caller_extension<F>(self, extension: Address, call: F)
        where
            F: FnOnce(Address, Address),
        requires
            call.requires((self.addr(), extension)),
        ensures
            call.ensures((self.addr(), extension), ()),
    {
        call(self.as_ptr(), extension)
    }

    /// The address of the extension that the channel runs.
    pub fn caller_extension<F>(self, call: F) -> (r: Option<Address>)
        where
            F: FnOnce(Address) -> Address,
        requires
            call.requires((self.addr(),)),
        ensures
            exists|reply: Address| {
                &&& #[trigger] call.ensures((self.addr(),), reply)
                &&& r == non_null(reply)
            },
    {
        to_option(call(self.as_ptr()))
    }

    /// The address of the extension that the channel runs next.
    pub fn queued_extension<F>(self, call: F) -> (r: Option<Address>)
        where
            F: FnOnce(Address) -> Address,
        requires
            call.requires((self.addr(),)),
        ensures
            exists|reply: Address| {
                &&& #[trigger] call.ensures((self.addr(),), reply)
                &&& r == non_null(reply)
            },
    {
        to_option(call(self.as_ptr()))
    }

    /// Swaps the name and the number of the caller.
    pub fn flip_cid<F>(self, call: F)
        where
            F: FnOnce(Address),
        requires
            call.requires((self.addr(),)),
        ensures
            call.ensures((self.addr(),), ()),
    {
        call(self.as_ptr())
    }

    /// The hold music of the channel.
    pub fn hold_music<F>(self, call: F) -> (r: Option<String>)
        where
            F: FnOnce(Address) -> Option<Vec<u8>>,
        requires
            call.requires((self.addr(),)),
        ensures
            exists|reply: Option<Vec<u8>>| {
                &&& #[trigger] call.ensures((self.addr(),), reply)
                &&& text_is(r, reply_text(reply))
            },
    {
        borrowed_cstr_to_string(call(self.as_ptr()))
    }

    /// The hold music of the bridged channel.
    pub fn hold_music_partner<F>(self, call: F) -> (r: Option<String>)
        where
            F: FnOnce(Address) -> Option<Vec<u8>>,
        requires
            call.requires((self.addr(),)),
        ensures
            exists|reply: Option<Vec<u8>>| {
                &&& #[trigger] call.ensures((self.addr(),), reply)
                &&& text_is(r, reply_text(reply))
            },
    {
        borrowed_cstr_to_string(call(self.as_ptr()))
    }

    /// The address of the first hold record.
    pub fn hold_record<F>(self, call: F) -> (r: Option<Address>)
        where
            F: FnOnce(Address) -> Address,
        requires
            call.requires((self.addr(),)),
        ensures
            exists|reply: Address| {
                &&& #[trigger] call.ensures((self.addr(),), reply)
                &&& r == non_null(reply)
            },
    {
        to_option(call(self.as_ptr()))
    }

    /// Sets the presence data from a list of columns.
    pub fn set_presence_data_vals<F>(self, cols: &str, call: F) -> (r: Result<()>)
        where
            F: FnOnce(Address, &CText),
        requires
            c_safe(cols@) ==> forall|cols_c: &CText|
                #![trigger call.requires((self.addr(), cols_c))]
                cols_c.spells(cols@) ==> call.requires((self.addr(), cols_c)),
        ensures
            !c_safe(cols@) ==> r == Err::<(), SwitchError>(generic_error()),
            c_safe(cols@) ==> r == Ok::<(), SwitchError>(()),
            c_safe(cols@) ==> exists|cols_c: &CText| {
                &&& cols_c.spells(cols@)
                &&& #[trigger] call.ensures((self.addr(), cols_c), ())
            },
    {
        let cols = cstring(cols)?;
        call(self.as_ptr(), &cols);
        Ok(())
    }

    /// The UUID of the bridged channel; `None` where there is none.
    pub fn partner_uuid<F>(self, call: F) -> (r: Option<String>)
        where
            F: FnOnce(Address) -> Option<Vec<u8>>,
        requires
            call.requires((self.addr(),)),
        ensures
            exists|reply: Option<Vec<u8>>| {
                &&& #[trigger] call.ensures((self.addr(),), reply)
                &&& text_is(r, reply_text(reply))
            },
    {
        borrowed_cstr_to_string(call(self.as_ptr()))
    }

    /// Clears flags of the application `app`.
    pub fn clear_app_flag_key<F>(self, app: &str, flags: u32, call: F) -> (r: Result<()>)
        where
            F: FnOnce(&CText, Address, u32),
        requires
            c_safe(app@) ==> forall|app_c: &CText|
                #![trigger call.requires((app_c, self.addr(), flags))]
                app_c.spells(app@) ==> call.requires((app_c, self.addr(), flags)),
        ensures
            !c_safe(app@) ==> r == Err::<(), SwitchError>(generic_error()),
            c_safe(app@) ==> r == Ok::<(), SwitchError>(()),
            c_safe(app@) ==> exists|app_c: &CText| {
                &&& app_c.spells(app@)
                &&& #[trigger] call.ensures((app_c, self.addr(), flags), ())
            },
    {
        let app = cstring(app)?;
        call(&app, self.as_ptr(), flags);
        Ok(())
    }

    /// The value of a variable, which the core copies into the pool of the channel where `dup` is
    /// set.
    pub fn variable_dup<F>(self, name: &str, dup: bool, call: F) -> (r: Result<Option<String>>)
        where
            F: FnOnce(Address, &CText, SwitchBool, i32) -> Option<Vec<u8>>,
        requires
            c_safe(name@) ==> forall|name_c: &CText|
                #![trigger call.requires((self.addr(), name_c, switch_bool_of(dup), 0))]
                name_c.spells(name@) ==> call.requires((self.addr(), name_c, switch_bool_of(dup), 0)),
        ensures
            !c_safe(name@) ==> r == Err::<Option<String>, SwitchError>(generic_error()),
            c_safe(name@) ==> exists|name_c: &CText, reply: Option<Vec<u8>>| {
                &&& name_c.spells(name@)
                &&& #[trigger] call.ensures(
                        (self.addr(), name_c, switch_bool_of(dup), 0),
                        reply,
                    )
                &&& r matches Ok(v) && text_is(v, reply_text(reply))
            },
    {
        let name = cstring(name)?;
        Ok(borrowed_cstr_to_string(call(self.as_ptr(), &name, switch_bool(dup), 0)))
    }

    /// The value of a variable of the bridged channel.
    pub fn variable_partner<F>(self, name: &str, call: F) -> (r: Result<Option<String>>)
        where
            F: FnOnce(Address, &CText) -> Option<Vec<u8>>,
        requires
            c_safe(name@) ==> forall|name_c: &CText|
                #![trigger call.requires((self.addr(), name_c))]
                name_c.spells(name@) ==> call.requires((self.addr(), name_c)),
        ensures
            !c_safe(name@) ==> r == Err::<Option<String>, SwitchError>(generic_error()),
            c_safe(name@) ==> exists|name_c: &CText, reply: Option<Vec<u8>>| {
                &&& name_c.spells(name@)
                &&& #[trigger] call.ensures((self.addr(), name_c), reply)
                &&& r matches Ok(v) && text_is(v, reply_text(reply))
            },
    {
        let name = cstring(name)?;
        Ok(borrowed_cstr_to_string(call(self.as_ptr(), &name)))
    }

    /// Adds a value to a variable, at the end that `stack` selects, with the check for variable
    /// references on.
    pub fn add_variable<F>(self, name: &str, value: &str, stack: u32, call: F) -> (r: Result<()>)
        where
            F: FnOnce(Address, &CText, &CText, SwitchBool, u32) -> RawStatus,
        requires
            c_safe(name@) && c_safe(value@) ==> forall|name_c: &CText, value_c: &CText|
                #![trigger call.requires((self.addr(), name_c, value_c, SWITCH_TRUE, stack))]
                name_c.spells(name@) && value_c.spells(value@) ==> call.requires((self.addr(),
                    name_c, value_c, SWITCH_TRUE, stack)),
        ensures
            !(c_safe(name@) && c_safe(value@)) ==> r == Err::<(), SwitchError>(generic_error()),
            c_safe(name@) && c_safe(value@) ==>
                exists|name_c: &CText, value_c: &CText, reply: RawStatus| {
                &&& name_c.spells(name@)
                &&& value_c.spells(value@)
                &&& #[trigger] call.ensures(
                        (self.addr(), name_c, value_c, SWITCH_TRUE, stack),
                        reply,
                    )
                &&& r == status_outcome(reply)
            },
    {
        let name = cstring(name)?;
        let value = cstring(value)?;
        status_to_result(call(self.as_ptr(), &name, &value, SWITCH_TRUE, stack))
    }

    /// Removes the variables whose names start with `prefix`. Returns their number.
    pub fn del_variable_prefix<F>(self, prefix: &str, call: F) -> (r: Result<u32>)
        where
            F: FnOnce(Address, &CText) -> u32,
        requires
            c_safe(prefix@) ==> forall|prefix_c: &CText|
                #![trigger call.requires((self.addr(), prefix_c))]
                prefix_c.spells(prefix@) ==> call.requires((self.addr(), prefix_c)),
        ensures
            !c_safe(prefix@) ==> r == Err::<u32, SwitchError>(generic_error()),
            c_safe(prefix@) ==> exists|prefix_c: &CText, reply: u32| {
                &&& prefix_c.spells(prefix@)
                &&& #[trigger] call.ensures((self.addr(), prefix_c), reply)
                &&& r matches Ok(v) && v == reply
            },
    {
        let prefix = cstring(prefix)?;
        let reply: u32 = call(self.as_ptr(), &prefix);
        Ok(reply)
    }

    /// Exports a variable to the bridged channel, under `export_varname`, or under its own name
    /// where that is not given.
    pub fn export_variable<F>(
        self,
        varname: &str,
        value: &str,
        export_varname: Option<&str>,
        call: F,
    ) -> (r: Result<()>)
        where
            F: FnOnce(Address, &CText, &CText, Option<&CText>, SwitchBool) -> RawStatus,
        requires
            c_safe(varname@)
                && c_safe(value@)
                && optional_safe(export_varname) ==> forall|varname_c: &CText, value_c: &CText,
                    export_varname_c: Option<&CText>|
                #![trigger call.requires(
                    (self.addr(), varname_c, value_c, export_varname_c, SWITCH_TRUE),
                )]
                varname_c.spells(varname@)
                    && value_c.spells(value@)
                    && optional_spells(export_varname_c, export_varname) ==> call.requires(
                    (self.addr(), varname_c, value_c, export_varname_c, SWITCH_TRUE),
                ),
        ensures
            !(c_safe(varname@)
                && c_safe(value@)
                && optional_safe(export_varname)
            ) ==> r == Err::<(), SwitchError>(generic_error()),
            c_safe(varname@)
                && c_safe(value@)
                && optional_safe(export_varname) ==> exists|
                varname_c: &CText,
                value_c: &CText,
                export_varname_c: Option<&CText>,
                reply: RawStatus,
            | {
                &&& varname_c.spells(varname@)
                &&& value_c.spells(value@)
                &&& optional_spells(export_varname_c, export_varname)
                &&& #[trigger] call.ensures(
                        (self.addr(), varname_c, value_c, export_varname_c, SWITCH_TRUE),
                        reply,
                    )
                &&& r == status_outcome(reply)
            },
    {
        let varname = cstring(varname)?;
        let value = cstring(value)?;
        let export_varname = optional_cstring(export_varname)?;
        status_to_result(
            call(
                self.as_ptr(),
                &varname,
                &value,
                export_varname.as_ref(),
                SWITCH_TRUE,
            ),
        )
    }

    /// Sets a variable of the bridged channel.
    pub fn set_variable_partner<F>(self, name: &str, value: &str, call: F) -> (r: Result<()>)
        where
            F: FnOnce(Address, &CText, &CText, SwitchBool) -> RawStatus,
        requires
            c_safe(name@) && c_safe(value@) ==> forall|name_c: &CText, value_c: &CText|
                #![trigger call.requires((self.addr(), name_c, value_c, SWITCH_TRUE))]
                name_c.spells(name@) && value_c.spells(value@) ==> call.requires((self.addr(),
                    name_c, value_c, SWITCH_TRUE)),
        ensures
            !(c_safe(name@) && c_safe(value@)) ==> r == Err::<(), SwitchError>(generic_error()),
            c_safe(name@) && c_safe(value@) ==>
                exists|name_c: &CText, value_c: &CText, reply: RawStatus| {
                &&& name_c.spells(name@)
                &&& value_c.spells(value@)
                &&& #[trigger] call.ensures((self.addr(), name_c, value_c, SWITCH_TRUE), reply)
                &&& r == status_outcome(reply)
            },
    {
        let name = cstring(name)?;
        let value = cstring(value)?;
        status_to_result(call(self.as_ptr(), &name, &value, SWITCH_TRUE))
    }

    /// Sets a variable, without the quotes round the value.
    pub fn set_variable_strip_quotes<F>(self, name: &str, value: &str, call: F) -> (r: Result<()>)
        where
            F: FnOnce(Address, &CText, &CText, SwitchBool) -> RawStatus,
        requires
            c_safe(name@) && c_safe(value@) ==> forall|name_c: &CText, value_c: &CText|
                #![trigger call.requires((self.addr(), name_c, value_c, SWITCH_TRUE))]
                name_c.spells(name@) && value_c.spells(value@) ==> call.requires((self.addr(),
                    name_c, value_c, SWITCH_TRUE)),
        ensures
            !(c_safe(name@) && c_safe(value@)) ==> r == Err::<(), SwitchError>(generic_error()),
            c_safe(name@) && c_safe(value@) ==>
                exists|name_c: &CText, value_c: &CText, reply: RawStatus| {
                &&& name_c.spells(name@)
                &&& value_c.spells(value@)
                &&& #[trigger] call.ensures((self.addr(), name_c, value_c, SWITCH_TRUE), reply)
                &&& r == status_outcome(reply)
            },
    {
        let name = cstring(name)?;
        let value = cstring(value)?;
        status_to_result(call(self.as_ptr(), &name, &value, SWITCH_TRUE))
    }

    /// Replaces the variable references in `input`, at the outermost level of recursion. The text
    /// that the core hands out is freed.
    pub fn expand_variables<F, D>(
        self,
        input: &str,
        call: F,
        free: D,
    ) -> (r: Result<Option<String>>)
        where
            F: FnOnce(Address, &CText, u32) -> (Address, Vec<u8>),
            D: FnOnce(Address),
        requires
            c_safe(input@) ==> forall|input_c: &CText|
                #![trigger call.requires((self.addr(), input_c, 0))]
                input_c.spells(input@) ==> call.requires((self.addr(), input_c, 0)),
            forall|input_c: &CText, at: Address, bytes: Vec<u8>|
                #![trigger call.ensures((self.addr(), input_c, 0), (at, bytes))]
                input_c.spells(input@) && call.ensures((self.addr(), input_c, 0), (at, bytes)) && at
                    != NULL ==> free.requires((at,)),
        ensures
            !c_safe(input@) ==> r == Err::<Option<String>, SwitchError>(generic_error()),
            c_safe(input@) ==> exists|input_c: &CText, at: Address, bytes: Vec<u8>| {
                &&& input_c.spells(input@)
                &&& #[trigger] call.ensures((self.addr(), input_c, 0), (at, bytes))
                &&& r matches Ok(v) && text_is(v, owned_text(at, bytes))
                &&& at != NULL ==> free.ensures((at,), ())
            },
    {
        let input = cstring(input)?;
        let (at, bytes) = call(self.as_ptr(), &input, 0);
        Ok(strdup_to_string(at, bytes, free))
    }

    /// Runs the applications that are configured under this prefix.
    pub fn execute_on<F>(self, variable_prefix: &str, call: F) -> (r: Result<()>)
        where
            F: FnOnce(Address, &CText) -> RawStatus,
        requires
            c_safe(variable_prefix@) ==> forall|variable_prefix_c: &CText|
                #![trigger call.requires((self.addr(), variable_prefix_c))]
                variable_prefix_c.spells(variable_prefix@) ==> call.requires((self.addr(),
                    variable_prefix_c)),
        ensures
            !c_safe(variable_prefix@) ==> r == Err::<(), SwitchError>(generic_error()),
            c_safe(variable_prefix@) ==> exists|variable_prefix_c: &CText, reply: RawStatus| {
                &&& variable_prefix_c.spells(variable_prefix@)
                &&& #[trigger] call.ensures((self.addr(), variable_prefix_c), reply)
                &&& r == status_outcome(reply)
            },
    {
        let variable_prefix = cstring(variable_prefix)?;
        status_to_result(call(self.as_ptr(), &variable_prefix))
    }

    /// Runs the applications that this value names.
    pub fn execute_on_value<F>(self, variable_value: &str, call: F) -> (r: Result<()>)
        where
            F: FnOnce(Address, &CText) -> RawStatus,
        requires
            c_safe(variable_value@) ==> forall|variable_value_c: &CText|
                #![trigger call.requires((self.addr(), variable_value_c))]
                variable_value_c.spells(variable_value@) ==> call.requires((self.addr(),
                    variable_value_c)),
        ensures
            !c_safe(variable_value@) ==> r == Err::<(), SwitchError>(generic_error()),
            c_safe(variable_value@) ==> exists|variable_value_c: &CText, reply: RawStatus| {
                &&& variable_value_c.spells(variable_value@)
                &&& #[trigger] call.ensures((self.addr(), variable_value_c), reply)
                &&& r == status_outcome(reply)
            },
    {
        let variable_value = cstring(variable_value)?;
        status_to_result(call(self.as_ptr(), &variable_value))
    }

    /// Runs the API commands that are configured under this prefix.
    pub fn api_on<F>(self, variable_prefix: &str, call: F) -> (r: Result<()>)
        where
            F: FnOnce(Address, &CText) -> RawStatus,
        requires
            c_safe(variable_prefix@) ==> forall|variable_prefix_c: &CText|
                #![trigger call.requires((self.addr(), variable_prefix_c))]
                variable_prefix_c.spells(variable_prefix@) ==> call.requires((self.addr(),
                    variable_prefix_c)),
        ensures
            !c_safe(variable_prefix@) ==> r == Err::<(), SwitchError>(generic_error()),
            c_safe(variable_prefix@) ==> exists|variable_prefix_c: &CText, reply: RawStatus| {
                &&& variable_prefix_c.spells(variable_prefix@)
                &&& #[trigger] call.ensures((self.addr(), variable_prefix_c), reply)
                &&& r == status_outcome(reply)
            },
    {
        let variable_prefix = cstring(variable_prefix)?;
        status_to_result(call(self.as_ptr(), &variable_prefix))
    }

    /// Sets a flag to a value.
    pub fn set_flag_value<F>(self, flag: u32, value: u32, call: F)
        where
            F: FnOnce(Address, u32, u32),
        requires
            call.requires((self.addr(), flag, value)),
        ensures
            call.ensures((self.addr(), flag, value), ()),
    {
        call(self.as_ptr(), flag, value)
    }

    /// Sets a flag on this channel and on the bridged one.
    pub fn set_flag_recursive<F>(self, flag: u32, call: F)
        where
            F: FnOnce(Address, u32),
        requires
            call.requires((self.addr(), flag)),
        ensures
            call.ensures((self.addr(), flag), ()),
    {
        call(self.as_ptr(), flag)
    }

    /// Sets a flag of the bridged channel. Returns whether that was done.
    pub fn set_flag_partner<F>(self, flag: u32, call: F) -> (r: bool)
        where
            F: FnOnce(Address, u32) -> u32,
        requires
            call.requires((self.addr(), flag)),
        ensures
            exists|reply: u32| {
                &&& #[trigger] call.ensures((self.addr(), flag), reply)
                &&& r == (reply != 0)
            },
    {
        let reply: u32 = call(self.as_ptr(), flag);
        reply != 0
    }

    /// Clears a flag.
    pub fn clear_flag<F>(self, flag: u32, call: F)
        where
            F: FnOnce(Address, u32),
        requires
            call.requires((self.addr(), flag)),
        ensures
            call.ensures((self.addr(), flag), ()),
    {
        call(self.as_ptr(), flag)
    }

    /// Clears a flag of this channel and of the bridged one.
    pub fn clear_flag_recursive<F>(self, flag: u32, call: F)
        where
            F: FnOnce(Address, u32),
        requires
            call.requires((self.addr(), flag)),
        ensures
            call.ensures((self.addr(), flag), ()),
    {
        call(self.as_ptr(), flag)
    }

    /// Clears a flag of the bridged channel. Returns whether that was done.
    pub fn clear_flag_partner<F>(self, flag: u32, call: F) -> (r: bool)
        where
            F: FnOnce(Address, u32) -> u32,
        requires
            call.requires((self.addr(), flag)),
        ensures
            exists|reply: u32| {
                &&& #[trigger] call.ensures((self.addr(), flag), reply)
                &&& r == (reply != 0)
            },
    {
        let reply: u32 = call(self.as_ptr(), flag);
        reply != 0
    }

    /// Clears a flag that was to take effect with the next state.
    pub fn clear_state_flag<F>(self, flag: u32, call: F)
        where
            F: FnOnce(Address, u32),
        requires
            call.requires((self.addr(), flag)),
        ensures
            call.ensures((self.addr(), flag), ()),
    {
        call(self.as_ptr(), flag)
    }

    /// Whether `flag` is set on the bridged channel.
    pub fn test_flag_partner<F>(self, flag: u32, call: F) -> (r: bool)
        where
            F: FnOnce(Address, u32) -> u32,
        requires
            call.requires((self.addr(), flag)),
        ensures
            exists|reply: u32| {
                &&& #[trigger] call.ensures((self.addr(), flag), reply)
                &&& r == (reply != 0)
            },
    {
        let reply: u32 = call(self.as_ptr(), flag);
        reply != 0
    }

    /// Sets flags of the application `app`.
    pub fn set_app_flag<F>(self, app: &str, flags: u32, call: F) -> (r: Result<()>)
        where
            F: FnOnce(&CText, Address, u32),
        requires
            c_safe(app@) ==> forall|app_c: &CText|
                #![trigger call.requires((app_c, self.addr(), flags))]
                app_c.spells(app@) ==> call.requires((app_c, self.addr(), flags)),
        ensures
            !c_safe(app@) ==> r == Err::<(), SwitchError>(generic_error()),
            c_safe(app@) ==> r == Ok::<(), SwitchError>(()),
            c_safe(app@) ==> exists|app_c: &CText| {
                &&& app_c.spells(app@)
                &&& #[trigger] call.ensures((app_c, self.addr(), flags), ())
            },
    {
        let app = cstring(app)?;
        call(&app, self.as_ptr(), flags);
        Ok(())
    }

    /// Whether flags of the application `app` are set.
    pub fn test_app_flag<F>(self, app: &str, flags: u32, call: F) -> (r: Result<bool>)
        where
            F: FnOnce(&CText, Address, u32) -> u32,
        requires
            c_safe(app@) ==> forall|app_c: &CText|
                #![trigger call.requires((app_c, self.addr(), flags))]
                app_c.spells(app@) ==> call.requires((app_c, self.addr(), flags)),
        ensures
            !c_safe(app@) ==> r == Err::<bool, SwitchError>(generic_error()),
            c_safe(app@) ==> exists|app_c: &CText, reply: u32| {
                &&& app_c.spells(app@)
                &&& #[trigger] call.ensures((app_c, self.addr(), flags), reply)
                &&& r matches Ok(v) && v == (reply != 0)
            },
    {
        let app = cstring(app)?;
        let reply: u32 = call(&app, self.as_ptr(), flags);
        Ok(reply != 0)
    }

    /// Sets private flags.
    pub fn set_private_flag<F>(self, flags: u32, call: F)
        where
            F: FnOnce(Address, u32),
        requires
            call.requires((self.addr(), flags)),
        ensures
            call.ensures((self.addr(), flags), ()),
    {
        call(self.as_ptr(), flags)
    }

    /// Clears private flags.
    pub fn clear_private_flag<F>(self, flags: u32, call: F)
        where
            F: FnOnce(Address, u32),
        requires
            call.requires((self.addr(), flags)),
        ensures
            call.ensures((self.addr(), flags), ()),
    {
        call(self.as_ptr(), flags)
    }

    /// Whether private flags are set.
    pub fn test_private_flag<F>(self, flags: u32, call: F) -> (r: bool)
        where
            F: FnOnce(Address, u32) -> u32,
        requires
            call.requires((self.addr(), flags)),
        ensures
            exists|reply: u32| {
                &&& #[trigger] call.ensures((self.addr(), flags), reply)
                &&& r == (reply != 0)
            },
    {
        let reply: u32 = call(self.as_ptr(), flags);
        reply != 0
    }

    /// The flags of the channel as text.
    pub fn flag_string<F>(self, call: F) -> (r: Option<String>)
        where
            F: FnOnce(Address) -> Option<Vec<u8>>,
        requires
            call.requires((self.addr(),)),
        ensures
            exists|reply: Option<Vec<u8>>| {
                &&& #[trigger] call.ensures((self.addr(),), reply)
                &&& text_is(r, reply_text(reply))
            },
    {
        borrowed_cstr_to_string(call(self.as_ptr()))
    }

    /// Sets a capability to a value.
    pub fn set_cap_value<F>(self, cap: u32, value: u32, call: F)
        where
            F: FnOnce(Address, u32, u32),
        requires
            call.requires((self.addr(), cap, value)),
        ensures
            call.ensures((self.addr(), cap, value), ()),
    {
        call(self.as_ptr(), cap, value)
    }

    /// Clears a capability.
    pub fn clear_cap<F>(self, cap: u32, call: F)
        where
            F: FnOnce(Address, u32),
        requires
            call.requires((self.addr(), cap)),
        ensures
            call.ensures((self.addr(), cap), ()),
    {
        call(self.as_ptr(), cap)
    }

    /// Whether the channel has a capability.
    pub fn test_cap<F>(self, cap: u32, call: F) -> (r: bool)
        where
            F: FnOnce(Address, u32) -> u32,
        requires
            call.requires((self.addr(), cap)),
        ensures
            exists|reply: u32| {
                &&& #[trigger] call.ensures((self.addr(), cap), reply)
                &&& r == (reply != 0)
            },
    {
        let reply: u32 = call(self.as_ptr(), cap);
        reply != 0
    }

    /// Whether the bridged channel has a capability.
    pub fn test_cap_partner<F>(self, cap: u32, call: F) -> (r: bool)
        where
            F: FnOnce(Address, u32) -> u32,
        requires
            call.requires((self.addr(), cap)),
        ensures
            exists|reply: u32| {
                &&& #[trigger] call.ensures((self.addr(), cap), reply)
                &&& r == (reply != 0)
            },
    {
        let reply: u32 = call(self.as_ptr(), cap);
        reply != 0
    }

    /// The capabilities of the channel as text.
    pub fn cap_string<F>(self, call: F) -> (r: Option<String>)
        where
            F: FnOnce(Address) -> Option<Vec<u8>>,
        requires
            call.requires((self.addr(),)),
        ensures
            exists|reply: Option<Vec<u8>>| {
                &&& #[trigger] call.ensures((self.addr(),), reply)
                &&& text_is(r, reply_text(reply))
            },
    {
        borrowed_cstr_to_string(call(self.as_ptr()))
    }

    /// Stores a pointer under `key`.
    pub fn set_private<F>(self, key: &str, info: Address, call: F) -> (r: Result<()>)
        where
            F: FnOnce(Address, &CText, Address) -> RawStatus,
        requires
            c_safe(key@) ==> forall|key_c: &CText|
                #![trigger call.requires((self.addr(), key_c, info))]
                key_c.spells(key@) ==> call.requires((self.addr(), key_c, info)),
        ensures
            !c_safe(key@) ==> r == Err::<(), SwitchError>(generic_error()),
            c_safe(key@) ==> exists|key_c: &CText, reply: RawStatus| {
                &&& key_c.spells(key@)
                &&& #[trigger] call.ensures((self.addr(), key_c, info), reply)
                &&& r == status_outcome(reply)
            },
    {
        let key = cstring(key)?;
        status_to_result(call(self.as_ptr(), &key, info))
    }

    /// The pointer that is stored under `key`.
    pub fn get_private<F>(self, key: &str, call: F) -> (r: Result<Option<Address>>)
        where
            F: FnOnce(Address, &CText) -> Address,
        requires
            c_safe(key@) ==> forall|key_c: &CText|
                #![trigger call.requires((self.addr(), key_c))]
                key_c.spells(key@) ==> call.requires((self.addr(), key_c)),
        ensures
            !c_safe(key@) ==> r == Err::<Option<Address>, SwitchError>(generic_error()),
            c_safe(key@) ==> exists|key_c: &CText, reply: Address| {
                &&& key_c.spells(key@)
                &&& #[trigger] call.ensures((self.addr(), key_c), reply)
                &&& r matches Ok(v) && v == non_null(reply)
            },
    {
        let key = cstring(key)?;
        Ok(to_option(call(self.as_ptr(), &key)))
    }

    /// The pointer that is stored under `key` on the bridged channel.
    pub fn get_private_partner<F>(self, key: &str, call: F) -> (r: Result<Option<Address>>)
        where
            F: FnOnce(Address, &CText) -> Address,
        requires
            c_safe(key@) ==> forall|key_c: &CText|
                #![trigger call.requires((self.addr(), key_c))]
                key_c.spells(key@) ==> call.requires((self.addr(), key_c)),
        ensures
            !c_safe(key@) ==> r == Err::<Option<Address>, SwitchError>(generic_error()),
            c_safe(key@) ==> exists|key_c: &CText, reply: Address| {
                &&& key_c.spells(key@)
                &&& #[trigger] call.ensures((self.addr(), key_c), reply)
                &&& r matches Ok(v) && v == non_null(reply)
            },
    {
        let key = cstring(key)?;
        Ok(to_option(call(self.as_ptr(), &key)))
    }

    /// Takes one DTMF event off the queue and stores it in `dtmf`. An empty queue is an error;
    /// `dtmf` then holds what the call left there.
    pub fn dequeue_dtmf<F>(self, dtmf: &mut Dtmf, call: F) -> (r: Result<()>)
        where
            F: FnOnce(Address, DtmfFields) -> (RawStatus, DtmfFields),
        requires
            call.requires((self.addr(), old(dtmf).0)),
        ensures
            exists|status: RawStatus, fields: DtmfFields| #[trigger]
                call.ensures((self.addr(), old(dtmf).0), (status, fields)) && *final(dtmf) == Dtmf(
                    fields,
                ) && r == status_outcome(status),
    {
        let (status, fields) = call(self.as_ptr(), dtmf.0);
        *dtmf = Dtmf(fields);
        status_to_result(status)
    }

    /// Takes all queued DTMF off the queue and writes it into `buf` as text. Returns the number of
    /// bytes that the core reports. `call` is handed the room in the buffer and returns that number
    /// and the bytes that it has written there, terminator and all.
    pub fn dequeue_dtmf_string<F>(self, buf: &mut [u8], call: F) -> (r: usize)
        where
            F: FnOnce(Address, usize) -> (usize, Vec<u8>),
        requires
            call.requires((self.addr(), old(buf)@.len() as usize)),
            forall|a: Address, b: usize, n: usize, v: Vec<u8>| #[trigger]
                call.ensures((a, b), (n, v)) ==> v@.len() <= b,
        ensures
            final(buf)@.len() == old(buf)@.len(),
            exists|n: usize, v: Vec<u8>| #[trigger]
                call.ensures((self.addr(), old(buf)@.len() as usize), (n, v)) && r == n
                    && final(buf)@ == v@ + old(buf)@.skip(v@.len() as int),
    {
        let (written, bytes) = call(self.as_ptr(), buf.len());
        overwrite_head(buf, &bytes);
        written
    }

    /// A string of parameters made of a caller profile, each name behind `prefix`. Without a
    /// profile the channel's own is used.
    pub fn build_param_string<F>(
        self,
        caller_profile: Option<&CallerProfile>,
        prefix: &str,
        call: F,
    ) -> (r: Result<Option<String>>)
        where
            F: FnOnce(Address, Address, &CText) -> Option<Vec<u8>>,
        requires
            c_safe(prefix@) ==> forall|prefix_c: &CText|
                #![trigger call.requires((self.addr(), profile_addr(caller_profile), prefix_c))]
                prefix_c.spells(prefix@) ==> call.requires((self.addr(),
                    profile_addr(caller_profile), prefix_c)),
        ensures
            !c_safe(prefix@) ==> r == Err::<Option<String>, SwitchError>(generic_error()),
            c_safe(prefix@) ==> exists|prefix_c: &CText, reply: Option<Vec<u8>>|
                prefix_c.spells(prefix@) && #[trigger] call.ensures(
                    (self.addr(), profile_addr(caller_profile), prefix_c),
                    reply,
                ) && (r matches Ok(v) && text_is(v, reply_text(reply))),
    {
        let prefix = cstring(prefix)?;
        let profile: Address = match caller_profile {
            Some(p) => p.as_ptr(),
            None => NULL,
        };
        proof {
            assert(profile == profile_addr(caller_profile));
        }
        Ok(borrowed_cstr_to_string(call(self.as_ptr(), profile, &prefix)))
    }

    /// Moves the applications of the extension of `orig` to `new`, starting at `offset`.
    pub fn caller_extension_masquerade<F>(orig: Channel, new: Channel, offset: u32, call: F) -> (r:
        Result<()>)
        where
            F: FnOnce(Address, Address, u32) -> RawStatus,
        requires
            call.requires((orig.addr(), new.addr(), offset)),
        ensures
            exists|reply: RawStatus| #[trigger]
                call.ensures((orig.addr(), new.addr(), offset), reply) && r == status_outcome(
                    reply,
                ),
    {
        status_to_result(call(orig.as_ptr(), new.as_ptr(), offset))
    }

    /// The address of the event that holds the log tags; `None` where the call fails and where it
    /// makes none.
    pub fn log_tags<F>(self, call: F) -> (r: Option<Address>)
        where
            F: FnOnce(Address) -> Created,
        requires
            call.requires((self.addr(),)),
        ensures
            exists|reply: Created| #[trigger]
                call.ensures((self.addr(),), reply) && r == if reply.status == SUCCESS {
                    non_null(reply.raw)
                } else {
                    None
                },
    {
        let reply = call(self.as_ptr());
        if status_to_result(reply.status).is_ok() {
            to_option(reply.raw)
        } else {
            None
        }
    }

    /// Copies the UUID of the bridged channel into `buf` and returns its length. `None` where the
    /// channel is not bridged or the buffer is too small, which `call` reports by returning nothing;
    /// else it returns the bytes that it has written, terminator and all.
    pub fn partner_uuid_copy<F>(self, buf: &mut [u8], call: F) -> (r: Option<usize>)
        where
            F: FnOnce(Address, usize) -> Option<Vec<u8>>,
        requires
            call.requires((self.addr(), old(buf)@.len() as usize)),
            forall|a: Address, b: usize, v: Option<Vec<u8>>| #[trigger]
                call.ensures((a, b), v) ==> (v matches Some(bytes) ==> bytes@.len() <= b),
        ensures
            final(buf)@.len() == old(buf)@.len(),
            exists|reply: Option<Vec<u8>>| #[trigger]
                call.ensures((self.addr(), old(buf)@.len() as usize), reply) && match reply {
                    Some(bytes) => r == Some(first_zero(bytes@) as usize) && final(buf)@ == bytes@
                        + old(buf)@.skip(bytes@.len() as int),
                    None => r is None && final(buf)@ == old(buf)@,
                },
    {
        match call(self.as_ptr(), buf.len()) {
            Some(bytes) => {
                overwrite_head(buf, &bytes);
                let n: usize = nul_position(bytes.as_slice());
                Some(n)
            },
            None => None,
        }
    }

    /// Reads a variable into `buf` and returns its length. `call` is handed the room in the buffer
    /// and returns what it has put there; any status but success is an error.
    pub fn variable_buf<F>(self, name: &str, buf: &mut [u8], call: F) -> (r: Result<usize>)
        where
            F: FnOnce(Address, &CText, usize) -> Filled,
        requires
            c_safe(name@) ==> forall|name_c: &CText|
                #![trigger call.requires((self.addr(), name_c, old(buf)@.len() as usize))]
                name_c.spells(name@) ==> call.requires((self.addr(), name_c, old(buf)@.len() as
                    usize)),
            forall|a: Address, b: &CText, c: usize, d: Filled| #[trigger]
                call.ensures((a, b, c), d) ==> d.bytes@.len() <= c,
        ensures
            final(buf)@.len() == old(buf)@.len(),
            !c_safe(name@) ==> r == Err::<usize, SwitchError>(generic_error()) && final(buf)@
                == old(buf)@,
            c_safe(name@) ==> exists|name_c: &CText, reply: Filled|
                name_c.spells(name@) && #[trigger] call.ensures(
                    (self.addr(), name_c, old(buf)@.len() as usize),
                    reply,
                ) && final(buf)@ == reply.bytes@ + old(buf)@.skip(reply.bytes@.len() as int)
                    && match status_outcome(reply.status) {
                    Ok(_) => r == Ok::<usize, SwitchError>(first_zero(final(buf)@) as usize),
                    Err(e) => r == Err::<usize, SwitchError>(e),
                },
    {
        let name = cstring(name)?;
        let room: usize = buf.len();
        proof {
            assert(room == old(buf)@.len() as usize);
        }
        let reply = call(self.as_ptr(), &name, room);
        overwrite_head(buf, &reply.bytes);
        status_to_result(reply.status)?;
        let n: usize = nul_position(&*buf);
        Ok(n)
    }

    /// All variables of the channel, with their values.
    pub fn variables<F, D>(self, populate: F, destroy: D) -> (r: Result<Vec<(String, String)>>)
        where
            F: FnOnce(Address) -> VariableSnapshot,
            D: FnOnce(Address),
        requires
            populate.requires((self.addr(),)),
            forall|s: VariableSnapshot| #[trigger]
                populate.ensures((self.addr(),), s) && s.event != NULL ==>
                    destroy.requires((s.event,)),
        ensures
            exists|s: VariableSnapshot| #[trigger]
                populate.ensures((self.addr(),), s) && snapshot_read(r, s) && (s.event != NULL
                    ==> destroy.ensures((s.event,), ())),
    {
        collect_channel_variables(populate(self.as_ptr()), destroy)
    }

    /// The variables of the channel whose names start with `prefix`, with their values.
    pub fn variables_prefix<F, D>(self, prefix: &str, populate: F, destroy: D) -> (r: Result<
        Vec<(String, String)>,
    >)
        where
            F: FnOnce(Address, &CText) -> VariableSnapshot,
            D: FnOnce(Address),
        requires
            c_safe(prefix@) ==> forall|prefix_c: &CText|
                #![trigger populate.requires((self.addr(), prefix_c))]
                prefix_c.spells(prefix@) ==> populate.requires((self.addr(), prefix_c)),
            forall|prefix_c: &CText, s: VariableSnapshot| #[trigger]
                populate.ensures((self.addr(), prefix_c), s) && prefix_c.spells(prefix@) && s.event
                    != NULL ==> destroy.requires((s.event,)),
        ensures
            !c_safe(prefix@) ==> r == Err::<Vec<(String, String)>, SwitchError>(generic_error()),
            c_safe(prefix@) ==> exists|prefix_c: &CText, s: VariableSnapshot|
                prefix_c.spells(prefix@) && #[trigger] populate.ensures((self.addr(), prefix_c), s)
                    && snapshot_read(r, s) && (s.event != NULL ==> destroy.ensures(
                    (s.event,),
                    (),
                )),
    {
        let prefix = cstring(prefix)?;
        collect_channel_variables(populate(self.as_ptr(), &prefix), destroy)
    }

    /// The variables of the channel's scopes, with their values.
    pub fn scope_variables<F, D>(self, populate: F, destroy: D) -> (r: Result<Vec<(String, String)>>)
        where
            F: FnOnce(Address) -> VariableSnapshot,
            D: FnOnce(Address),
        requires
            populate.requires((self.addr(),)),
            forall|s: VariableSnapshot| #[trigger]
                populate.ensures((self.addr(),), s) && s.event != NULL ==>
                    destroy.requires((s.event,)),
        ensures
            exists|s: VariableSnapshot| #[trigger]
                populate.ensures((self.addr(),), s) && snapshot_read(r, s) && (s.event != NULL
                    ==> destroy.ensures((s.event,), ())),
    {
        collect_channel_variables(populate(self.as_ptr()), destroy)
    }
}

/// The cause that is called `name`.
pub fn str_to_cause<F>(name: &str, call: F) -> (r: Result<Cause>)
    where
        F: FnOnce(&CText) -> u32,
    requires
        c_safe(name@) ==> forall|name_c: &CText|
            #![trigger call.requires((name_c,))]
            name_c.spells(name@) ==> call.requires((name_c,)),
    ensures
        !c_safe(name@) ==> r == Err::<Cause, SwitchError>(generic_error()),
        c_safe(name@) ==> exists|name_c: &CText, reply: u32| {
            &&& name_c.spells(name@)
            &&& #[trigger] call.ensures((name_c,), reply)
            &&& r matches Ok(v) && v == Cause(reply)
        },
{
    let name = cstring(name)?;
    Ok(Cause(call(&name)))
}

/// The name of a cause.
pub fn cause_to_str<F>(cause: Cause, call: F) -> (r: Option<String>)
    where
        F: FnOnce(u32) -> Option<Vec<u8>>,
    requires
        call.requires((cause.0,)),
    ensures
        exists|reply: Option<Vec<u8>>| {
            &&& #[trigger] call.ensures((cause.0,), reply)
            &&& text_is(r, reply_text(reply))
        },
{
    borrowed_cstr_to_string(call(cause.0))
}

/// Registers a callback for device states, for all channels.
pub fn bind_device_state_handler<F>(
    function: Address,
    user_data: Address,
    call: F,
) -> (r: Result<()>)
    where
        F: FnOnce(Address, Address) -> RawStatus,
    requires
        call.requires((function, user_data)),
    ensures
        exists|reply: RawStatus| {
            &&& #[trigger] call.ensures((function, user_data), reply)
            &&& r == status_outcome(reply)
        },
{
    status_to_result(call(function, user_data))
}

/// Removes a callback for device states.
pub fn unbind_device_state_handler<F>(function: Address, call: F) -> (r: Result<()>)
    where
        F: FnOnce(Address) -> RawStatus,
    requires
        call.requires((function,)),
    ensures
        exists|reply: RawStatus| {
            &&& #[trigger] call.ensures((function,), reply)
            &&& r == status_outcome(reply)
        },
{
    status_to_result(call(function))
}

/// A header is read whole: where its name and its value are UTF-8, the variable is the name and the value
/// that they spell, of whatever length. A value that is missing or cannot be read is empty, and a header
/// without a readable name is no variable.
pub proof fn headers_are_read_whole(node: HeaderNode, name: Seq<char>, value: Seq<char>)
    ensures
        node.name matches Some(n) && n@ == encode_utf8(name) && (node.value matches Some(v) && v@
            == encode_utf8(value)) ==> variable_of(node) == Some((name, value)),
        node.name matches Some(n) && n@ == encode_utf8(name) && (node.value is None
            || !valid_utf8(node.value->0@)) ==> variable_of(node) == Some((name, Seq::<char>::empty())),
        node.name is None || !valid_utf8(node.name->0@) ==> variable_of(node) is None,
        node.name matches Some(n) && valid_utf8(n@) && (node.value matches Some(v) && valid_utf8(v@))
            ==> variable_of(node) == Some(
            (decode_utf8(node.name->0@), decode_utf8(node.value->0@)),
        ),
{
    encode_utf8_valid_utf8(name);
    encode_utf8_decode_utf8(name);
    encode_utf8_valid_utf8(value);
    encode_utf8_decode_utf8(value);
}

/// The variables of headers stand in the order of the headers: those of two lists, one behind the other,
/// are those of the first and then those of the second, and one header gives its own variable or none.
pub proof fn variables_keep_their_order(first: Seq<HeaderNode>, second: Seq<HeaderNode>, node: HeaderNode)
    ensures
        variables_of(first + second) == variables_of(first) + variables_of(second),
        variables_of(seq![node]) == match variable_of(node) {
            Some(pair) => seq![pair],
            None => Seq::<(Seq<char>, Seq<char>)>::empty(),
        },
        variables_of(Seq::empty()).len() == 0,
    decreases second.len(),
{
    assert(seq![node].drop_last() =~= Seq::<HeaderNode>::empty());
    assert(variables_of(seq![node].drop_last()).len() == 0);
    match variable_of(node) {
        Some(pair) => {
            assert(variables_of(seq![node]) =~= seq![pair]);
        },
        None => {
            assert(variables_of(seq![node]) =~= Seq::<(Seq<char>, Seq<char>)>::empty());
        },
    }
    if second.len() == 0 {
        assert(first + second =~= first);
        assert(variables_of(first) + variables_of(second) =~= variables_of(first));
    } else {
        variables_keep_their_order(first, second.drop_last(), node);
        assert((first + second).drop_last() =~= first + second.drop_last());
        assert(variables_of(first + second) =~= variables_of(first) + variables_of(second));
    }
}

/// A snapshot that succeeded and has an event is read as the pairs of its variables, name first; any
/// other gives its status as the error.
pub proof fn snapshots_give_pairs(r: Result<Vec<(String, String)>>, snapshot: VariableSnapshot)
    requires
        snapshot_read(r, snapshot),
    ensures
        r is Ok <==> snapshot.status == 0 && snapshot.event != 0,
        r matches Err(e) ==> e.0.0 == snapshot.status,
        r matches Ok(pairs) ==> {
            &&& pairs@.len() == variables_of(snapshot.headers@).len()
            &&& forall|i: int|
                0 <= i < pairs@.len() ==> (#[trigger] pairs@[i]).0@ == variables_of(
                    snapshot.headers@,
                )[i].0 && pairs@[i].1@ == variables_of(snapshot.headers@)[i].1
        },
{
    if let Ok(pairs) = r {
        assert forall|i: int| 0 <= i < pairs@.len() implies (#[trigger] pairs@[i]).0@
            == variables_of(snapshot.headers@)[i].0 && pairs@[i].1@ == variables_of(
            snapshot.headers@,
        )[i].1 by {
            assert(pairs_text(pairs@)[i] == (pairs@[i].0@, pairs@[i].1@));
        }
    }
}

/// A channel whose headers are all readable gives every one of them, each name with its own value.
pub proof fn readable_headers_are_all_given(
    r: Result<Vec<(String, String)>>,
    snapshot: VariableSnapshot,
    names: Seq<Seq<char>>,
    values: Seq<Seq<char>>,
)
    requires
        snapshot_read(r, snapshot),
        snapshot.status == 0,
        snapshot.event != 0,
        names.len() == snapshot.headers@.len(),
        values.len() == snapshot.headers@.len(),
        forall|i: int|
            0 <= i < names.len() ==> {
                let node = #[trigger] snapshot.headers@[i];
                &&& node.name matches Some(n) && n@ == encode_utf8(names[i])
                &&& node.value matches Some(v) && v@ == encode_utf8(values[i])
            },
    ensures
        r matches Ok(pairs) && {
            &&& pairs@.len() == names.len()
            &&& forall|i: int|
                0 <= i < names.len() ==> (#[trigger] pairs@[i]).0@ == names[i] && pairs@[i].1@
                    == values[i]
        },
{
    let nodes = snapshot.headers@;
    assert forall|i: int| 0 <= i < nodes.len() implies reply_text(#[trigger] nodes[i].name) is Some
        && variable_of(nodes[i]) == Some((names[i], values[i])) by {
        assert(nodes[i] == snapshot.headers@[i]);
        headers_are_read_whole(nodes[i], names[i], values[i]);
        encode_utf8_valid_utf8(names[i]);
    }
    variables_are_headers(nodes);
    snapshots_give_pairs(r, snapshot);
    let pairs = r->Ok_0;
    assert forall|i: int| 0 <= i < names.len() implies (#[trigger] pairs@[i]).0@ == names[i]
        && pairs@[i].1@ == values[i] by {
        assert(Some(variables_of(nodes)[i]) == variable_of(nodes[i]));
        assert(reply_text(nodes[i].name) is Some);
    }
}

/// A channel whose headers are all readable gives every one of them as its bytes decode, of whatever
/// length they are.
pub proof fn readable_headers_are_decoded(
    r: Result<Vec<(String, String)>>,
    snapshot: VariableSnapshot,
)
    requires
        snapshot_read(r, snapshot),
        snapshot.status == 0,
        snapshot.event != 0,
        forall|i: int|
            0 <= i < snapshot.headers@.len() ==> {
                let node = #[trigger] snapshot.headers@[i];
                &&& node.name matches Some(n) && valid_utf8(n@)
                &&& node.value matches Some(v) && valid_utf8(v@)
            },
    ensures
        r matches Ok(pairs) && {
            &&& pairs@.len() == snapshot.headers@.len()
            &&& forall|i: int|
                0 <= i < pairs@.len() ==> (#[trigger] pairs@[i]).0@ == decode_utf8(
                    snapshot.headers@[i].name->0@,
                ) && pairs@[i].1@ == decode_utf8(snapshot.headers@[i].value->0@)
        },
{
    let nodes = snapshot.headers@;
    let names = Seq::new(nodes.len(), |i: int| decode_utf8(nodes[i].name->0@));
    let values = Seq::new(nodes.len(), |i: int| decode_utf8(nodes[i].value->0@));
    assert forall|i: int| 0 <= i < names.len() implies {
        let node = #[trigger] snapshot.headers@[i];
        &&& node.name matches Some(n) && n@ == encode_utf8(names[i])
        &&& node.value matches Some(v) && v@ == encode_utf8(values[i])
    } by {
        decode_utf8_encode_utf8(nodes[i].name->0@);
        decode_utf8_encode_utf8(nodes[i].value->0@);
    }
    readable_headers_are_all_given(r, snapshot, names, values);
}

/// A profile that is given is handed over by its address, and one that is not as null.
pub proof fn profiles_are_handed_over(profile: Option<&CallerProfile>)
    ensures
        profile matches Some(p) ==> profile_addr(profile) == p.addr(),
        profile is None ==> profile_addr(profile) == 0,
{
}

} // verus!
