//! Network lists: which addresses are let in.

use vstd::prelude::*;
use crate::command::{
    c_safe, cstring, first_zero, optional_cstring, optional_safe, optional_spells, CText,
};
use crate::handle::{created, made_at, Address, At, Created, Handle, NULL};
use crate::pool::Pool;
use crate::status::{
    from_switch_bool, generic_error, status_outcome, status_to_result, switch_bool, switch_bool_of,
    RawStatus, Result, SwitchBool, SwitchError, SWITCH_FALSE,
};

verus! {

/// What a list says of an address: whether it is let in, and the token of the rule that decided.
#[derive(Debug, Clone, PartialEq, Eq)]
pub struct AclVerdict {
    allowed: bool,
    token: Option<CText>,
}

impl AclVerdict {
    /// Whether the address is let in.
    pub closed spec fn lets_in(&self) -> bool {
        self.allowed
    }

    /// The token of the rule that decided.
    pub closed spec fn decided_by(&self) -> Option<CText> {
        self.token
    }

    /// Whether the address is let in.
    pub fn allowed(&self) -> (r: bool)
        ensures
            r == self.lets_in(),
    {
        self.allowed
    }

    /// The token of the rule that decided, where it has one.
    pub fn token(&self) -> (r: Option<&CText>)
        ensures
            r is Some <==> self.decided_by() is Some,
            r matches Some(t) ==> *t == self.decided_by()->0,
    {
        self.token.as_ref()
    }
}

/// The four bytes of an address as one number, the first byte on top.
pub open spec fn address_number(octets: [u8; 4]) -> u32 {
    (octets@[0] * 0x100_0000 + octets@[1] * 0x1_0000 + octets@[2] * 0x100 + octets@[3]) as u32
}

/// Different addresses have different numbers.
pub proof fn address_number_is_injective(a: [u8; 4], b: [u8; 4])
    requires
        address_number(a) == address_number(b),
    ensures
        a@ == b@,
{
    assert(a@ =~= b@);
}

/// A network list in a memory pool. It lives as long as the pool.
#[derive(Debug)]
pub struct NetworkList<'pool> {
    raw: Handle,
    pool: &'pool Pool,
}

impl<'pool> At for NetworkList<'pool> {
    closed spec fn addr(&self) -> Address {
        self.raw.addr()
    }
}

impl<'pool> NetworkList<'pool> {
    /// Makes a list. `default_allow` says what becomes of addresses that no rule matches.
    pub fn new<F>(name: &str, default_allow: bool, pool: &'pool Pool, call: F) -> (r: Result<
        NetworkList<'pool>,
    >)
        where
            F: FnOnce(&CText, SwitchBool, Address) -> Created,
        requires
            c_safe(name@) ==> forall|n: &CText|
                #![trigger call.requires((n, switch_bool_of(default_allow), pool.addr()))]
                n.spells(name@) ==> call.requires((n, switch_bool_of(default_allow), pool.addr())),
        ensures
            !c_safe(name@) ==> r == Err::<NetworkList<'pool>, SwitchError>(generic_error()),
            c_safe(name@) ==> exists|n: &CText, reply: Created|
                n.spells(name@) && #[trigger] call.ensures(
                    (n, switch_bool_of(default_allow), pool.addr()),
                    reply,
                ) && made_at(r, reply),
    {
        let name = cstring(name)?;
        let reply = call(&name, switch_bool(default_allow), pool.as_ptr());
        let raw = created(reply)?;
        Ok(NetworkList { raw, pool })
    }

    /// The list's address, which is never null.
    pub fn as_ptr(&self) -> (r: Address)
        ensures
            r == self.addr(),
            r != NULL,
    {
        self.raw.as_ptr()
    }

    /// Adds a rule for a network, with a token where one is given.
    pub fn add_cidr<F>(
        &self,
        cidr: &str,
        allow: bool,
        token: Option<&str>,
        call: F,
    ) -> (r: Result<()>)
        where
            F: FnOnce(Address, &CText, SwitchBool, Option<&CText>) -> RawStatus,
        requires
            c_safe(cidr@) && optional_safe(token) ==> forall|cidr_c: &CText, token_c: Option<&CText>|
                #![trigger call.requires((self.addr(), cidr_c, switch_bool_of(allow), token_c))]
                cidr_c.spells(cidr@) && optional_spells(token_c, token) ==>
                    call.requires((self.addr(), cidr_c, switch_bool_of(allow), token_c)),
        ensures
            !(c_safe(cidr@) && optional_safe(token)) ==> r == Err::<(), SwitchError>(generic_error()),
            c_safe(cidr@) && optional_safe(token) ==>
                exists|cidr_c: &CText, token_c: Option<&CText>, reply: RawStatus| {
                &&& cidr_c.spells(cidr@)
                &&& optional_spells(token_c, token)
                &&& #[trigger] call.ensures(
                        (self.addr(), cidr_c, switch_bool_of(allow), token_c),
                        reply,
                    )
                &&& r == status_outcome(reply)
            },
    {
        let cidr = cstring(cidr)?;
        let token = optional_cstring(token)?;
        status_to_result(call(self.as_ptr(), &cidr, switch_bool(allow), token.as_ref()))
    }

    /// Adds a rule for a host and a mask.
    pub fn add_host<F>(&self, host: &str, mask: &str, allow: bool, call: F) -> (r: Result<()>)
        where
            F: FnOnce(Address, &CText, &CText, SwitchBool) -> RawStatus,
        requires
            c_safe(host@) && c_safe(mask@) ==> forall|host_c: &CText, mask_c: &CText|
                #![trigger call.requires((self.addr(), host_c, mask_c, switch_bool_of(allow)))]
                host_c.spells(host@) && mask_c.spells(mask@) ==> call.requires((self.addr(), host_c,
                    mask_c, switch_bool_of(allow))),
        ensures
            !(c_safe(host@) && c_safe(mask@)) ==> r == Err::<(), SwitchError>(generic_error()),
            c_safe(host@) && c_safe(mask@) ==>
                exists|host_c: &CText, mask_c: &CText, reply: RawStatus| {
                &&& host_c.spells(host@)
                &&& mask_c.spells(mask@)
                &&& #[trigger] call.ensures(
                        (self.addr(), host_c, mask_c, switch_bool_of(allow)),
                        reply,
                    )
                &&& r == status_outcome(reply)
            },
    {
        let host = cstring(host)?;
        let mask = cstring(mask)?;
        status_to_result(call(self.as_ptr(), &host, &mask, switch_bool(allow)))
    }

    /// Asks the list about an address. `call` is handed the number of the address, and returns the
    /// core's answer and the token of the rule that decided.
    pub fn validate_ipv4<F>(&self, octets: [u8; 4], call: F) -> (r: AclVerdict)
        where
            F: FnOnce(Address, u32) -> (SwitchBool, Option<Vec<u8>>),
        requires
            call.requires((self.addr(), address_number(octets))),
        ensures
            exists|answer: SwitchBool, token: Option<Vec<u8>>| #[trigger]
                call.ensures((self.addr(), address_number(octets)), (answer, token))
                    && r.lets_in() == (answer != SWITCH_FALSE) && match token {
                    Some(bytes) => r.decided_by() matches Some(t) && t@ == bytes@.take(
                        first_zero(bytes@),
                    ),
                    None => r.decided_by() is None,
                },
    {
        let ip: u32 = octets[0] as u32 * 0x100_0000 + octets[1] as u32 * 0x1_0000 + octets[2] as u32
            * 0x100 + octets[3] as u32;
        proof {
            assert(ip == address_number(octets));
        }
        let (answer, token) = call(self.as_ptr(), ip);
        let token = match token {
            Some(bytes) => Some(CText::from_memory(bytes.as_slice())),
            None => None,
        };
        AclVerdict { allowed: from_switch_bool(answer), token }
    }
}

/// The number of an address is its four bytes, the first the most significant.
pub proof fn address_bytes_stand_in_order(octets: [u8; 4])
    ensures
        address_number(octets) / 0x100_0000 == octets@[0],
        address_number(octets) / 0x1_0000 % 256 == octets@[1],
        address_number(octets) / 0x100 % 256 == octets@[2],
        address_number(octets) % 256 == octets@[3],
{
}

} // verus!
