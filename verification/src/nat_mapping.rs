//! Port mappings of a NAT gateway.

use vstd::prelude::*;
use crate::command::{lossy, lossy_text};
use crate::handle::{Address, At};
use crate::pool::Pool;
use crate::status::{
    from_switch_bool, status_outcome, status_to_result, switch_bool, switch_bool_of, RawStatus,
    Result, SwitchBool, SwitchError, SWITCH_FALSE,
};

verus! {

/// The protocol of a mapping.
#[derive(Debug, Copy, Clone, PartialEq, Eq, Hash, Structural)]
pub enum NatIpProto {
    Udp,
    Tcp,
}

/// The number of a protocol on the core's side.
pub open spec fn raw_proto(proto: NatIpProto) -> u32 {
    match proto {
        NatIpProto::Udp => 0,
        NatIpProto::Tcp => 1,
    }
}

impl NatIpProto {
    /// The number of the protocol on the core's side.
    pub fn raw(self) -> (r: u32)
        ensures
            r == raw_proto(self),
    {
        match self {
            NatIpProto::Udp => 0,
            NatIpProto::Tcp => 1,
        }
    }
}

/// Sets up the mappings in a pool.
pub fn init<F>(pool: &Pool, enable_mapping: bool, call: F)
    where
        F: FnOnce(Address, SwitchBool),
    requires
        call.requires((pool.addr(), switch_bool_of(enable_mapping))),
    ensures
        call.ensures((pool.addr(), switch_bool_of(enable_mapping)), ()),
{
    call(pool.as_ptr(), switch_bool(enable_mapping))
}

/// Completes the setup once other modules are loaded.
pub fn late_init<F>(call: F)
    where
        F: FnOnce(),
    requires
        call.requires(()),
    ensures
        call.ensures((), ()),
{
    call()
}

/// Whether mappings can be made.
pub fn is_initialized<F>(call: F) -> (r: bool)
    where
        F: FnOnce() -> SwitchBool,
    requires
        call.requires(()),
    ensures
        exists|reply: SwitchBool| {
            &&& #[trigger] call.ensures((), reply)
            &&& r == (reply != SWITCH_FALSE)
        },
{
    from_switch_bool(call())
}

/// Maps a port. `request_external` is the external port that is asked for; the port that was given
/// is then returned, and may be another one. Without a request the gateway chooses, and the choice
/// is not reported.
///
/// `call` is handed the port slot, or none, and returns the status and what then stands in it.
pub fn add_mapping<F>(
    port: u16,
    proto: NatIpProto,
    request_external: Option<u16>,
    sticky: bool,
    call: F,
) -> (r: Result<Option<u16>>)
    where
        F: FnOnce(u16, u32, Option<u16>, SwitchBool) -> (RawStatus, u16),
    requires
        call.requires((port, raw_proto(proto), request_external, switch_bool_of(sticky))),
    ensures
        exists|status: RawStatus, external: u16| #[trigger]
            call.ensures(
                (port, raw_proto(proto), request_external, switch_bool_of(sticky)),
                (status, external),
            ) && r == match status_outcome(status) {
                Ok(_) => Ok::<Option<u16>, SwitchError>(
                    if request_external is Some {
                        Some(external)
                    } else {
                        None
                    },
                ),
                Err(e) => Err(e),
            },
{
    let (status, external) = call(port, proto.raw(), request_external, switch_bool(sticky));
    status_to_result(status)?;
    if request_external.is_some() {
        Ok(Some(external))
    } else {
        Ok(None)
    }
}

/// Removes a mapping.
pub fn del_mapping<F>(port: u16, proto: NatIpProto, call: F) -> (r: Result<()>)
    where
        F: FnOnce(u16, u32) -> RawStatus,
    requires
        call.requires((port, raw_proto(proto))),
    ensures
        exists|reply: RawStatus| #[trigger]
            call.ensures((port, raw_proto(proto)), reply) && r == status_outcome(reply),
{
    status_to_result(call(port, proto.raw()))
}

/// How the gateway is talked to, as text; `None` where the core does not say. Bytes that are not
/// UTF-8 are replaced.
pub fn type_str<F>(call: F) -> (r: Option<String>)
    where
        F: FnOnce() -> Option<Vec<u8>>,
    requires
        call.requires(()),
    ensures
        exists|reply: Option<Vec<u8>>| #[trigger]
            call.ensures((), reply) && match reply {
                Some(bytes) => r matches Some(s) && s@ == lossy_text(bytes@),
                None => r is None,
            },
{
    match call() {
        Some(bytes) => Some(lossy(bytes)),
        None => None,
    }
}

/// Makes all mappings once more.
pub fn republish<F>(call: F)
    where
        F: FnOnce(),
    requires
        call.requires(()),
    ensures
        call.ensures((), ()),
{
    call()
}

/// Sets everything up anew.
pub fn reinit<F>(call: F)
    where
        F: FnOnce(),
    requires
        call.requires(()),
    ensures
        call.ensures((), ()),
{
    call()
}

/// Ends the mappings.
pub fn shutdown<F>(call: F)
    where
        F: FnOnce(),
    requires
        call.requires(()),
    ensures
        call.ensures((), ()),
{
    call()
}

/// Turns automatic mappings on or off.
pub fn set_mapping<F>(enable: bool, call: F)
    where
        F: FnOnce(SwitchBool),
    requires
        call.requires((switch_bool_of(enable),)),
    ensures
        call.ensures((switch_bool_of(enable),), ()),
{
    call(switch_bool(enable))
}

/// The protocols of a mapping have their numbers.
pub proof fn protocols_have_their_numbers(proto: NatIpProto)
    ensures
        proto is Udp <==> raw_proto(proto) == 0,
        proto is Tcp <==> raw_proto(proto) == 1,
{
}

} // verus!
