//! Call control: menus, digit collection, playback, recording, bridging and the like.

use vstd::prelude::*;
use vstd::utf8::encode_utf8;
use crate::buffer::overwrite_head;
use crate::channel::Filled;
use crate::command::{
    CText, borrowed_cstr_to_string, c_safe, c_safe_is_without_nul, cstring, first_zero, latin_text,
    nul_position, optional_cstring, optional_safe, optional_spells, owned_text, reply_text,
    strdup_to_string, text_is,
};
use crate::endpoint::set_contains;
use crate::event::Event;
use crate::handle::{created, made_at, maybe_at, Address, At, Created, Handle, NULL};
use crate::pool::Pool;
use crate::session::Session;
use crate::status::{
    from_switch_bool, generic_error, status_outcome, status_to_result, switch_bool, switch_bool_of,
    Cause, RawCause, RawStatus, Result, SwitchBool, SwitchError, SUCCESS, SWITCH_FALSE,
};

verus! {

/// A set of media flags.
#[derive(Debug, Copy, Clone, PartialEq, Eq, Hash, Structural)]
pub struct MediaFlag(pub u32);

impl MediaFlag {
    pub const NONE: u32 = 0;
    pub const REBRIDGE: u32 = 1;
    pub const ECHO_ALEG: u32 = 2;
    pub const ECHO_BLEG: u32 = 4;
    pub const FORCE: u32 = 8;
    pub const LOOP: u32 = 16;
    pub const HOLD_BLEG: u32 = 32;
    pub const IMMEDIATE: u32 = 64;
    pub const EXEC_INLINE: u32 = 128;
    pub const PRIORITY: u32 = 256;
    pub const REPLYONLY_A: u32 = 512;
    pub const REPLYONLY_B: u32 = 1024;

    /// The raw bits.
    pub fn bits(self) -> (r: u32)
        ensures
            r == self.0,
    {
        self.0
    }

    /// Wraps raw bits.
    pub fn from_raw(v: u32) -> (r: MediaFlag)
        ensures
            r == MediaFlag(v),
    {
        MediaFlag(v)
    }

    /// Whether every flag of `flag` is set. The empty set contains only itself.
    pub fn contains(self, flag: MediaFlag) -> (r: bool)
        ensures
            r == set_contains(self.0, flag.0),
    {
        if flag.0 == 0 {
            self.0 == 0
        } else {
            (self.0 & flag.0) == flag.0
        }
    }
}

impl std::ops::BitOr for MediaFlag {
    type Output = MediaFlag;

    fn bitor(self, rhs: MediaFlag) -> (r: MediaFlag) {
        MediaFlag(self.0 | rhs.0)
    }
}

impl vstd::std_specs::ops::BitOrSpecImpl for MediaFlag {
    open spec fn obeys_bitor_spec() -> bool {
        true
    }

    open spec fn bitor_req(self, rhs: MediaFlag) -> bool {
        true
    }

    open spec fn bitor_spec(self, rhs: MediaFlag) -> MediaFlag {
        MediaFlag(self.0 | rhs.0)
    }
}

impl std::ops::BitOrAssign for MediaFlag {
    fn bitor_assign(&mut self, rhs: MediaFlag)
        ensures
            *final(self) == MediaFlag(old(self).0 | rhs.0),
    {
        self.0 = self.0 | rhs.0;
    }
}

/// The leg that the actions of a digit machine are for.
#[derive(Debug, Copy, Clone, PartialEq, Eq, Hash, Structural)]
pub struct DigitActionTarget(pub u32);

impl DigitActionTarget {
    pub const SELF: u32 = 0;
    pub const PEER: u32 = 1;
    pub const BOTH: u32 = 2;

    /// The raw target.
    pub fn raw(self) -> (r: u32)
        ensures
            r == self.0,
    {
        self.0
    }

    /// Wraps a raw target.
    pub fn from_raw(v: u32) -> (r: DigitActionTarget)
        ensures
            r == DigitActionTarget(v),
    {
        DigitActionTarget(v)
    }

    /// Whether the actions are for the session's own leg.
    pub open spec fn for_self(self) -> bool {
        self.0 == DigitActionTarget::SELF || self.0 == DigitActionTarget::BOTH
    }

    /// Whether the actions are for the bridged leg.
    pub open spec fn for_peer(self) -> bool {
        self.0 == DigitActionTarget::PEER || self.0 == DigitActionTarget::BOTH
    }

    /// Whether the actions are for the session's own leg.
    pub fn is_self(self) -> (r: bool)
        ensures
            r == self.for_self(),
    {
        self.0 == DigitActionTarget::SELF || self.0 == DigitActionTarget::BOTH
    }

    /// Whether the actions are for the bridged leg.
    pub fn is_peer(self) -> (r: bool)
        ensures
            r == self.for_peer(),
    {
        self.0 == DigitActionTarget::PEER || self.0 == DigitActionTarget::BOTH
    }
}

/// Both legs are meant exactly where the target says so, and each of the three targets means at
/// least one leg.
pub proof fn both_legs_are_both(t: DigitActionTarget)
    ensures
        t.for_self() && t.for_peer() <==> t.0 == DigitActionTarget::BOTH,
        t.for_self() || t.for_peer() <==> t.0 <= DigitActionTarget::BOTH,
{
}

impl From<u32> for DigitActionTarget {
    fn from(v: u32) -> (r: DigitActionTarget) {
        DigitActionTarget(v)
    }
}

impl vstd::std_specs::convert::FromSpecImpl<u32> for DigitActionTarget {
    open spec fn obeys_from_spec() -> bool {
        true
    }

    open spec fn from_spec(v: u32) -> DigitActionTarget {
        DigitActionTarget(v)
    }
}

/// Broadcasts a file or an application to the channel with this UUID.
pub fn broadcast<F>(uuid: &str, path: &str, flags: u32, call: F) -> (r: Result<()>)
    where
        F: FnOnce(&CText, &CText, u32) -> RawStatus,
    requires
        c_safe(uuid@) && c_safe(path@) ==> forall|uuid_c: &CText, path_c: &CText|
            #![trigger call.requires((uuid_c, path_c, flags))]
            uuid_c.spells(uuid@) && path_c.spells(path@) ==> call.requires((uuid_c, path_c, flags)),
    ensures
        !(c_safe(uuid@) && c_safe(path@)) ==> r == Err::<(), SwitchError>(generic_error()),
        c_safe(uuid@) && c_safe(path@) ==> exists|uuid_c: &CText, path_c: &CText, reply: RawStatus| {
            &&& uuid_c.spells(uuid@)
            &&& path_c.spells(path@)
            &&& #[trigger] call.ensures((uuid_c, path_c, flags), reply)
            &&& r == status_outcome(reply)
        },
{
    let uuid = cstring(uuid)?;
    let path = cstring(path)?;
    status_to_result(call(&uuid, &path, flags))
}

/// The presence identity of an extension in a domain; `None` where there is none. The text that the
/// core hands out is freed.
pub fn check_presence_mapping<F, D>(
    exten_name: &str,
    domain_name: &str,
    call: F,
    free: D,
) -> (r: Result<Option<String>>)
    where
        F: FnOnce(&CText, &CText) -> (Address, Vec<u8>),
        D: FnOnce(Address),
    requires
        c_safe(exten_name@) && c_safe(domain_name@) ==> forall|exten_name_c: &CText, domain_name_c:
            &CText|
            #![trigger call.requires((exten_name_c, domain_name_c))]
            exten_name_c.spells(exten_name@) && domain_name_c.spells(domain_name@) ==>
                call.requires((exten_name_c, domain_name_c)),
        forall|exten_name_c: &CText, domain_name_c: &CText, at: Address, bytes: Vec<u8>|
            #![trigger call.ensures((exten_name_c, domain_name_c), (at, bytes))]
            exten_name_c.spells(exten_name@) && domain_name_c.spells(domain_name@) &&
                call.ensures((exten_name_c, domain_name_c), (at, bytes)) && at != NULL ==>
                free.requires((at,)),
    ensures
        !(c_safe(exten_name@) && c_safe(domain_name@)) ==>
            r == Err::<Option<String>, SwitchError>(generic_error()),
        c_safe(exten_name@) && c_safe(domain_name@) ==>
            exists|exten_name_c: &CText, domain_name_c: &CText, at: Address, bytes: Vec<u8>| {
            &&& exten_name_c.spells(exten_name@)
            &&& domain_name_c.spells(domain_name@)
            &&& #[trigger] call.ensures((exten_name_c, domain_name_c), (at, bytes))
            &&& r matches Ok(v) && text_is(v, owned_text(at, bytes))
            &&& at != NULL ==> free.ensures((at,), ())
        },
{
    let exten_name = cstring(exten_name)?;
    let domain_name = cstring(domain_name)?;
    let (at, bytes) = call(&exten_name, &domain_name);
    Ok(strdup_to_string(at, bytes, free))
}

/// What an originate came to: the session of the other leg, why it ended, and why it was cancelled.
#[derive(Debug)]
pub struct OriginateOutcome {
    pub peer: Option<Session>,
    pub cause: Cause,
    pub cancel_cause: Cause,
}

/// Takes the media of the channel with this UUID.
pub fn media<F>(uuid: &str, flags: MediaFlag, call: F) -> (r: Result<()>)
    where
        F: FnOnce(&CText, u32) -> RawStatus,
    requires
        c_safe(uuid@) ==> forall|uuid_c: &CText|
            #![trigger call.requires((uuid_c, flags.0))]
            uuid_c.spells(uuid@) ==> call.requires((uuid_c, flags.0)),
    ensures
        !c_safe(uuid@) ==> r == Err::<(), SwitchError>(generic_error()),
        c_safe(uuid@) ==> exists|uuid_c: &CText, reply: RawStatus| {
            &&& uuid_c.spells(uuid@)
            &&& #[trigger] call.ensures((uuid_c, flags.0), reply)
            &&& r == status_outcome(reply)
        },
{
    let uuid = cstring(uuid)?;
    status_to_result(call(&uuid, flags.0))
}

/// Gives up the media of the channel with this UUID.
pub fn nomedia<F>(uuid: &str, flags: MediaFlag, call: F) -> (r: Result<()>)
    where
        F: FnOnce(&CText, u32) -> RawStatus,
    requires
        c_safe(uuid@) ==> forall|uuid_c: &CText|
            #![trigger call.requires((uuid_c, flags.0))]
            uuid_c.spells(uuid@) ==> call.requires((uuid_c, flags.0)),
    ensures
        !c_safe(uuid@) ==> r == Err::<(), SwitchError>(generic_error()),
        c_safe(uuid@) ==> exists|uuid_c: &CText, reply: RawStatus| {
            &&& uuid_c.spells(uuid@)
            &&& #[trigger] call.ensures((uuid_c, flags.0), reply)
            &&& r == status_outcome(reply)
        },
{
    let uuid = cstring(uuid)?;
    status_to_result(call(&uuid, flags.0))
}

/// Whether there is a channel with this UUID.
pub fn uuid_exists<F>(uuid: &str, call: F) -> (r: Result<bool>)
    where
        F: FnOnce(&CText) -> SwitchBool,
    requires
        c_safe(uuid@) ==> forall|uuid_c: &CText|
            #![trigger call.requires((uuid_c,))]
            uuid_c.spells(uuid@) ==> call.requires((uuid_c,)),
    ensures
        !c_safe(uuid@) ==> r == Err::<bool, SwitchError>(generic_error()),
        c_safe(uuid@) ==> exists|uuid_c: &CText, reply: SwitchBool| {
            &&& uuid_c.spells(uuid@)
            &&& #[trigger] call.ensures((uuid_c,), reply)
            &&& r matches Ok(v) && v == (reply != SWITCH_FALSE)
        },
{
    let uuid = cstring(uuid)?;
    Ok(from_switch_bool(call(&uuid)))
}

/// Makes the core treat a channel with this UUID as there. Returns what the core reports.
pub fn uuid_force_exists<F>(uuid: &str, call: F) -> (r: Result<bool>)
    where
        F: FnOnce(&CText) -> SwitchBool,
    requires
        c_safe(uuid@) ==> forall|uuid_c: &CText|
            #![trigger call.requires((uuid_c,))]
            uuid_c.spells(uuid@) ==> call.requires((uuid_c,)),
    ensures
        !c_safe(uuid@) ==> r == Err::<bool, SwitchError>(generic_error()),
        c_safe(uuid@) ==> exists|uuid_c: &CText, reply: SwitchBool| {
            &&& uuid_c.spells(uuid@)
            &&& #[trigger] call.ensures((uuid_c,), reply)
            &&& r matches Ok(v) && v == (reply != SWITCH_FALSE)
        },
{
    let uuid = cstring(uuid)?;
    Ok(from_switch_bool(call(&uuid)))
}

/// What a menu is made of. A text that is empty is not used; times are in milliseconds.
#[derive(Debug)]
pub struct IvrMenuConfig<'a> {
    pub name: &'a str,
    pub greeting_sound: &'a str,
    pub short_greeting_sound: &'a str,
    pub invalid_sound: &'a str,
    pub exit_sound: &'a str,
    pub transfer_sound: &'a str,
    pub confirm_macro: &'a str,
    pub confirm_key: &'a str,
    pub tts_engine: &'a str,
    pub tts_voice: &'a str,
    pub confirm_attempts: i32,
    pub inter_timeout: i32,
    pub digit_len: i32,
    pub timeout: i32,
    pub max_failures: i32,
    pub max_timeouts: i32,
}

/// A menu as it is asked for.
#[derive(Debug, Copy, Clone)]
pub struct IvrMenuRequest<'a> {
    pub main: Address,
    pub name: &'a CText,
    pub greeting_sound: &'a CText,
    pub short_greeting_sound: &'a CText,
    pub invalid_sound: &'a CText,
    pub exit_sound: &'a CText,
    pub transfer_sound: &'a CText,
    pub confirm_macro: &'a CText,
    pub confirm_key: &'a CText,
    pub tts_engine: &'a CText,
    pub tts_voice: &'a CText,
    pub confirm_attempts: i32,
    pub inter_timeout: i32,
    pub digit_len: i32,
    pub timeout: i32,
    pub max_failures: i32,
    pub max_timeouts: i32,
    pub pool: Address,
}

impl<'a> IvrMenuConfig<'a> {
    /// Whether all texts of the config can be handed over.
    pub open spec fn safe(&self) -> bool {
        &&& c_safe(self.name@)
        &&& c_safe(self.greeting_sound@)
        &&& c_safe(self.short_greeting_sound@)
        &&& c_safe(self.invalid_sound@)
        &&& c_safe(self.exit_sound@)
        &&& c_safe(self.transfer_sound@)
        &&& c_safe(self.confirm_macro@)
        &&& c_safe(self.confirm_key@)
        &&& c_safe(self.tts_engine@)
        &&& c_safe(self.tts_voice@)
    }

    /// Whether a request asks for what the config says, below the menu at `main` and in the pool at
    /// `pool`.
    pub open spec fn asks(&self, q: IvrMenuRequest<'_>, main: Address, pool: Address) -> bool {
        &&& q.main == main
        &&& q.name.spells(self.name@)
        &&& q.greeting_sound.spells(self.greeting_sound@)
        &&& q.short_greeting_sound.spells(self.short_greeting_sound@)
        &&& q.invalid_sound.spells(self.invalid_sound@)
        &&& q.exit_sound.spells(self.exit_sound@)
        &&& q.transfer_sound.spells(self.transfer_sound@)
        &&& q.confirm_macro.spells(self.confirm_macro@)
        &&& q.confirm_key.spells(self.confirm_key@)
        &&& q.tts_engine.spells(self.tts_engine@)
        &&& q.tts_voice.spells(self.tts_voice@)
        &&& q.confirm_attempts == self.confirm_attempts
        &&& q.inter_timeout == self.inter_timeout
        &&& q.digit_len == self.digit_len
        &&& q.timeout == self.timeout
        &&& q.max_failures == self.max_failures
        &&& q.max_timeouts == self.max_timeouts
        &&& q.pool == pool
    }

    /// A menu with a name and nothing else.
    pub fn minimal(name: &'a str) -> (r: IvrMenuConfig<'a>)
        ensures
            r.name == name,
            r.greeting_sound@ == ""@,
            r.short_greeting_sound@ == ""@,
            r.invalid_sound@ == ""@,
            r.exit_sound@ == ""@,
            r.transfer_sound@ == ""@,
            r.confirm_macro@ == ""@,
            r.confirm_key@ == ""@,
            r.tts_engine@ == ""@,
            r.tts_voice@ == ""@,
            r.confirm_attempts == 0,
            r.inter_timeout == 0,
            r.digit_len == 0,
            r.timeout == 0,
            r.max_failures == 0,
            r.max_timeouts == 0,
            r.safe() <==> c_safe(name@),
    {
        proof {
            reveal_strlit("");
        }
        IvrMenuConfig {
            name,
            greeting_sound: "",
            short_greeting_sound: "",
            invalid_sound: "",
            exit_sound: "",
            transfer_sound: "",
            confirm_macro: "",
            confirm_key: "",
            tts_engine: "",
            tts_voice: "",
            confirm_attempts: 0,
            inter_timeout: 0,
            digit_len: 0,
            timeout: 0,
            max_failures: 0,
            max_timeouts: 0,
        }
    }
}

/// A menu.
#[derive(Debug)]
pub struct IvrMenu {
    raw: Handle,
}

impl At for IvrMenu {
    closed spec fn addr(&self) -> Address {
        self.raw.addr()
    }
}

impl IvrMenu {
    /// Wraps an address; `None` for the null pointer.
    pub fn from_raw(raw: Address) -> (r: Option<IvrMenu>)
        ensures
            maybe_at(r, raw),
    {
        match Handle::new(raw) {
            Some(raw) => Some(IvrMenu { raw }),
            None => None,
        }
    }

    /// The address, which is never null.
    pub fn as_ptr(&self) -> (r: Address)
        ensures
            r == self.addr(),
            r != NULL,
    {
        self.raw.as_ptr()
    }
}

/// Whether `r` is the menu that `call` made of a config.
pub open spec fn menu_made<F>(
    call: F,
    config: &IvrMenuConfig<'_>,
    main: Address,
    pool: Address,
    r: Result<IvrMenu>,
) -> bool
    where
        F: FnOnce(IvrMenuRequest<'_>) -> Created,
{
    if config.safe() {
        exists|q: IvrMenuRequest<'_>, reply: Created|
            config.asks(q, main, pool) && #[trigger] call.ensures((q,), reply) && made_at(r, reply)
    } else {
        r == Err::<IvrMenu, SwitchError>(generic_error())
    }
}

impl IvrMenu {
    /// Makes a menu of its own.
    pub fn new<F>(pool: &Pool, config: &IvrMenuConfig<'_>, call: F) -> (r: Result<IvrMenu>)
        where
            F: FnOnce(IvrMenuRequest<'_>) -> Created,
        requires
            config.safe() ==> forall|q: IvrMenuRequest<'_>|
                #![trigger call.requires((q,))]
                config.asks(q, NULL, pool.addr()) ==> call.requires((q,)),
        ensures
            menu_made(call, config, NULL, pool.addr(), r),
    {
        IvrMenu::build(NULL, pool, config, call)
    }

    /// Makes a menu below another one, which has to outlive it.
    pub fn new_sub<F>(parent: &IvrMenu, pool: &Pool, config: &IvrMenuConfig<'_>, call: F) -> (r:
        Result<
        IvrMenu,
    >)
        where
            F: FnOnce(IvrMenuRequest<'_>) -> Created,
        requires
            config.safe() ==> forall|q: IvrMenuRequest<'_>|
                #![trigger call.requires((q,))]
                config.asks(q, parent.addr(), pool.addr()) ==> call.requires((q,)),
        ensures
            menu_made(call, config, parent.addr(), pool.addr(), r),
    {
        IvrMenu::build(parent.as_ptr(), pool, config, call)
    }

    /// Makes a menu. The texts are checked in order before the core is asked.
    fn build<F>(main: Address, pool: &Pool, config: &IvrMenuConfig<'_>, call: F) -> (r: Result<
        IvrMenu,
    >)
        where
            F: FnOnce(IvrMenuRequest<'_>) -> Created,
        requires
            config.safe() ==> forall|q: IvrMenuRequest<'_>|
                #![trigger call.requires((q,))]
                config.asks(q, main, pool.addr()) ==> call.requires((q,)),
        ensures
            menu_made(call, config, main, pool.addr(), r),
    {
        let name = cstring(config.name)?;
        let greeting = cstring(config.greeting_sound)?;
        let short_greeting = cstring(config.short_greeting_sound)?;
        let invalid = cstring(config.invalid_sound)?;
        let exit = cstring(config.exit_sound)?;
        let transfer = cstring(config.transfer_sound)?;
        let confirm_macro = cstring(config.confirm_macro)?;
        let confirm_key = cstring(config.confirm_key)?;
        let tts_engine = cstring(config.tts_engine)?;
        let tts_voice = cstring(config.tts_voice)?;
        let reply = call(
            IvrMenuRequest {
                main,
                name: &name,
                greeting_sound: &greeting,
                short_greeting_sound: &short_greeting,
                invalid_sound: &invalid,
                exit_sound: &exit,
                transfer_sound: &transfer,
                confirm_macro: &confirm_macro,
                confirm_key: &confirm_key,
                tts_engine: &tts_engine,
                tts_voice: &tts_voice,
                confirm_attempts: config.confirm_attempts,
                inter_timeout: config.inter_timeout,
                digit_len: config.digit_len,
                timeout: config.timeout,
                max_failures: config.max_failures,
                max_timeouts: config.max_timeouts,
                pool: pool.as_ptr(),
            },
        );
        let raw = created(reply)?;
        Ok(IvrMenu { raw })
    }

    /// Binds digits to an action with an argument.
    pub fn bind_action<F>(
        &self,
        ivr_action: u32,
        arg: &str,
        digits: &str,
        call: F,
    ) -> (r: Result<()>)
        where
            F: FnOnce(Address, u32, &CText, &CText) -> RawStatus,
        requires
            c_safe(arg@) && c_safe(digits@) ==> forall|arg_c: &CText, digits_c: &CText|
                #![trigger call.requires((self.addr(), ivr_action, arg_c, digits_c))]
                arg_c.spells(arg@) && digits_c.spells(digits@) ==> call.requires((self.addr(),
                    ivr_action, arg_c, digits_c)),
        ensures
            !(c_safe(arg@) && c_safe(digits@)) ==> r == Err::<(), SwitchError>(generic_error()),
            c_safe(arg@) && c_safe(digits@) ==>
                exists|arg_c: &CText, digits_c: &CText, reply: RawStatus| {
                &&& arg_c.spells(arg@)
                &&& digits_c.spells(digits@)
                &&& #[trigger] call.ensures((self.addr(), ivr_action, arg_c, digits_c), reply)
                &&& r == status_outcome(reply)
            },
    {
        let arg = cstring(arg)?;
        let digits = cstring(digits)?;
        status_to_result(call(self.as_ptr(), ivr_action, &arg, &digits))
    }

    /// Binds digits to a function with an argument.
    pub fn bind_function<F>(
        &self,
        function: Address,
        arg: &str,
        digits: &str,
        call: F,
    ) -> (r: Result<()>)
        where
            F: FnOnce(Address, Address, &CText, &CText) -> RawStatus,
        requires
            c_safe(arg@) && c_safe(digits@) ==> forall|arg_c: &CText, digits_c: &CText|
                #![trigger call.requires((self.addr(), function, arg_c, digits_c))]
                arg_c.spells(arg@) && digits_c.spells(digits@) ==> call.requires((self.addr(),
                    function, arg_c, digits_c)),
        ensures
            !(c_safe(arg@) && c_safe(digits@)) ==> r == Err::<(), SwitchError>(generic_error()),
            c_safe(arg@) && c_safe(digits@) ==>
                exists|arg_c: &CText, digits_c: &CText, reply: RawStatus| {
                &&& arg_c.spells(arg@)
                &&& digits_c.spells(digits@)
                &&& #[trigger] call.ensures((self.addr(), function, arg_c, digits_c), reply)
                &&& r == status_outcome(reply)
            },
    {
        let arg = cstring(arg)?;
        let digits = cstring(digits)?;
        status_to_result(call(self.as_ptr(), function, &arg, &digits))
    }

    /// Runs the menu that is called `name` for a session.
    pub fn execute<F>(&self, session: Session, name: &str, obj: Address, call: F) -> (r: Result<()>)
        where
            F: FnOnce(Address, Address, &CText, Address) -> RawStatus,
        requires
            c_safe(name@) ==> forall|name_c: &CText|
                #![trigger call.requires((session.addr(), self.addr(), name_c, obj))]
                name_c.spells(name@) ==> call.requires((session.addr(), self.addr(), name_c, obj)),
        ensures
            !c_safe(name@) ==> r == Err::<(), SwitchError>(generic_error()),
            c_safe(name@) ==> exists|name_c: &CText, reply: RawStatus| {
                &&& name_c.spells(name@)
                &&& #[trigger] call.ensures((session.addr(), self.addr(), name_c, obj), reply)
                &&& r == status_outcome(reply)
            },
    {
        let name = cstring(name)?;
        status_to_result(call(session.as_ptr(), self.as_ptr(), &name, obj))
    }
}

/// A machine that collects digits.
#[derive(Debug)]
pub struct DigitMachine {
    raw: Handle,
}

impl At for DigitMachine {
    closed spec fn addr(&self) -> Address {
        self.raw.addr()
    }
}

impl DigitMachine {
    /// Wraps an address; `None` for the null pointer.
    pub fn from_raw(raw: Address) -> (r: Option<DigitMachine>)
        ensures
            maybe_at(r, raw),
    {
        match Handle::new(raw) {
            Some(raw) => Some(DigitMachine { raw }),
            None => None,
        }
    }

    /// The address, which is never null.
    pub fn as_ptr(&self) -> (r: Address)
        ensures
            r == self.addr(),
            r != NULL,
    {
        self.raw.as_ptr()
    }
}

/// A match of a digit machine. It cannot outlive the machine.
#[derive(Debug, Copy, Clone)]
pub struct DmachineMatch<'a> {
    raw: Handle,
    machine: &'a DigitMachine,
}

impl<'a> At for DmachineMatch<'a> {
    closed spec fn addr(&self) -> Address {
        self.raw.addr()
    }
}

impl<'a> DmachineMatch<'a> {
    /// The match's address, which is never null.
    pub fn as_ptr(&self) -> (r: Address)
        ensures
            r == self.addr(),
            r != NULL,
    {
        self.raw.as_ptr()
    }

    /// The digits that matched.
    pub fn match_digits<F>(&self, call: F) -> (r: Option<String>)
        where
            F: FnOnce(Address) -> Option<Vec<u8>>,
        requires
            call.requires((self.addr(),)),
        ensures
            exists|reply: Option<Vec<u8>>| {
                &&& #[trigger] call.ensures((self.addr(),), reply)
                &&& text_is(r, reply_text(reply))
            },
    {
        borrowed_cstr_to_string(call(self.as_ptr()))
    }

    /// The key of the pattern that matched.
    pub fn match_key<F>(&self, call: F) -> (r: i32)
        where
            F: FnOnce(Address) -> i32,
        requires
            call.requires((self.addr(),)),
        ensures
            call.ensures((self.addr(),), r),
    {
        call(self.as_ptr())
    }

    /// Whether the match is positive or negative.
    pub fn match_type<F>(&self, call: F) -> (r: u32)
        where
            F: FnOnce(Address) -> u32,
        requires
            call.requires((self.addr(),)),
        ensures
            call.ensures((self.addr(),), r),
    {
        call(self.as_ptr())
    }
}

/// Whether `r` is the match of an answer: an error with its status where that is not success, else
/// the match, where there is one.
pub open spec fn match_found(r: Result<Option<DmachineMatch<'_>>>, reply: Created) -> bool {
    match status_outcome(reply.status) {
        Ok(_) => r matches Ok(m) && maybe_at(m, reply.raw),
        Err(e) => r == Err::<Option<DmachineMatch<'_>>, SwitchError>(e),
    }
}

impl DigitMachine {
    /// Makes a digit machine. Timeouts are in milliseconds; a callback may be null.
    pub fn new<F>(
        name: &str,
        pool: &Pool,
        digit_timeout: u32,
        input_timeout: u32,
        match_callback: Address,
        nonmatch_callback: Address,
        user_data: Address,
        call: F,
    ) -> (r: Result<DigitMachine>)
        where
            F: FnOnce(&CText, Address, u32, u32, Address, Address, Address) -> Created,
        requires
            c_safe(name@) ==> forall|n: &CText|
                #![trigger call.requires((n, pool.addr(), digit_timeout, input_timeout,
                    match_callback, nonmatch_callback, user_data))]
                n.spells(name@) ==> call.requires((n, pool.addr(), digit_timeout, input_timeout,
                    match_callback, nonmatch_callback, user_data)),
        ensures
            !c_safe(name@) ==> r == Err::<DigitMachine, SwitchError>(generic_error()),
            c_safe(name@) ==> exists|n: &CText, reply: Created|
                n.spells(name@) && #[trigger] call.ensures(
                    (
                        n,
                        pool.addr(),
                        digit_timeout,
                        input_timeout,
                        match_callback,
                        nonmatch_callback,
                        user_data,
                    ),
                    reply,
                ) && made_at(r, reply),
    {
        let name = cstring(name)?;
        let reply = call(
            &name,
            pool.as_ptr(),
            digit_timeout,
            input_timeout,
            match_callback,
            nonmatch_callback,
            user_data,
        );
        let raw = created(reply)?;
        Ok(DigitMachine { raw })
    }

    /// Binds a pattern of digits in a realm to a key.
    pub fn bind<F>(
        &self,
        realm: &str,
        digits: &str,
        is_priority: bool,
        key: i32,
        callback: Address,
        user_data: Address,
        call: F,
    ) -> (r: Result<()>)
        where
            F: FnOnce(Address, &CText, &CText, u32, i32, Address, Address) -> RawStatus,
        requires
            c_safe(realm@) && c_safe(digits@) ==> forall|s: &CText, d: &CText|
                #![trigger call.requires((self.addr(), s, d, switch_bool_of(is_priority), key,
                    callback, user_data))]
                s.spells(realm@) && d.spells(digits@) ==> call.requires((self.addr(), s, d,
                    switch_bool_of(is_priority), key, callback, user_data)),
        ensures
            !(c_safe(realm@) && c_safe(digits@)) ==> r == Err::<(), SwitchError>(generic_error()),
            c_safe(realm@) && c_safe(digits@) ==> exists|s: &CText, d: &CText, reply: RawStatus|
                s.spells(realm@) && d.spells(digits@) && #[trigger] call.ensures(
                    (self.addr(), s, d, switch_bool_of(is_priority), key, callback, user_data),
                    reply,
                ) && r == status_outcome(reply),
    {
        let realm = cstring(realm)?;
        let digits = cstring(digits)?;
        status_to_result(
            call(
                self.as_ptr(),
                &realm,
                &digits,
                switch_bool(is_priority),
                key,
                callback,
                user_data,
            ),
        )
    }

    /// Feeds digits. Returns the match, where they complete one.
    pub fn feed<'a, F>(&'a self, digits: &str, call: F) -> (r: Result<Option<DmachineMatch<'a>>>)
        where
            F: FnOnce(Address, &CText) -> Created,
        requires
            c_safe(digits@) ==> forall|d: &CText|
                #![trigger call.requires((self.addr(), d))]
                d.spells(digits@) ==> call.requires((self.addr(), d)),
        ensures
            !c_safe(digits@) ==> r == Err::<Option<DmachineMatch<'a>>, SwitchError>(
                generic_error(),
            ),
            c_safe(digits@) ==> exists|d: &CText, reply: Created|
                d.spells(digits@) && #[trigger] call.ensures((self.addr(), d), reply)
                    && match_found(r, reply),
    {
        let digits = cstring(digits)?;
        let reply = call(self.as_ptr(), &digits);
        status_to_result(reply.status)?;
        Ok(self.match_at(reply.raw))
    }

    /// Looks for a match without feeding digits.
    pub fn ping<'a, F>(&'a self, call: F) -> (r: Result<Option<DmachineMatch<'a>>>)
        where
            F: FnOnce(Address) -> Created,
        requires
            call.requires((self.addr(),)),
        ensures
            exists|reply: Created| #[trigger]
                call.ensures((self.addr(),), reply) && match_found(r, reply),
    {
        let reply = call(self.as_ptr());
        status_to_result(reply.status)?;
        Ok(self.match_at(reply.raw))
    }

    /// The last match, where there is one.
    pub fn get_match<'a, F>(&'a self, call: F) -> (r: Option<DmachineMatch<'a>>)
        where
            F: FnOnce(Address) -> Address,
        requires
            call.requires((self.addr(),)),
        ensures
            exists|raw: Address| #[trigger] call.ensures((self.addr(),), raw) && maybe_at(r, raw),
    {
        self.match_at(call(self.as_ptr()))
    }

    /// The match at an address; `None` for the null pointer.
    fn match_at<'a>(&'a self, raw: Address) -> (r: Option<DmachineMatch<'a>>)
        ensures
            maybe_at(r, raw),
    {
        match Handle::new(raw) {
            Some(raw) => Some(DmachineMatch { raw, machine: self }),
            None => None,
        }
    }

    /// The digits that did not match.
    pub fn failed_digits<F>(&self, call: F) -> (r: Option<String>)
        where
            F: FnOnce(Address) -> Option<Vec<u8>>,
        requires
            call.requires((self.addr(),)),
        ensures
            exists|reply: Option<Vec<u8>>| {
                &&& #[trigger] call.ensures((self.addr(),), reply)
                &&& text_is(r, reply_text(reply))
            },
    {
        borrowed_cstr_to_string(call(self.as_ptr()))
    }

    /// The name of the machine.
    pub fn name<F>(&self, call: F) -> (r: Option<String>)
        where
            F: FnOnce(Address) -> Option<Vec<u8>>,
        requires
            call.requires((self.addr(),)),
        ensures
            exists|reply: Option<Vec<u8>>| {
                &&& #[trigger] call.ensures((self.addr(),), reply)
                &&& text_is(r, reply_text(reply))
            },
    {
        borrowed_cstr_to_string(call(self.as_ptr()))
    }

    /// Drops the digits that wait.
    pub fn clear<F>(&self, call: F) -> (r: Result<()>)
        where
            F: FnOnce(Address) -> RawStatus,
        requires
            call.requires((self.addr(),)),
        ensures
            exists|reply: RawStatus| {
                &&& #[trigger] call.ensures((self.addr(),), reply)
                &&& r == status_outcome(reply)
            },
    {
        status_to_result(call(self.as_ptr()))
    }

    /// Makes a realm the active one.
    pub fn set_realm<F>(&self, realm: &str, call: F) -> (r: Result<()>)
        where
            F: FnOnce(Address, &CText) -> RawStatus,
        requires
            c_safe(realm@) ==> forall|realm_c: &CText|
                #![trigger call.requires((self.addr(), realm_c))]
                realm_c.spells(realm@) ==> call.requires((self.addr(), realm_c)),
        ensures
            !c_safe(realm@) ==> r == Err::<(), SwitchError>(generic_error()),
            c_safe(realm@) ==> exists|realm_c: &CText, reply: RawStatus| {
                &&& realm_c.spells(realm@)
                &&& #[trigger] call.ensures((self.addr(), realm_c), reply)
                &&& r == status_outcome(reply)
            },
    {
        let realm = cstring(realm)?;
        status_to_result(call(self.as_ptr(), &realm))
    }

    /// Drops the patterns of a realm.
    pub fn clear_realm<F>(&self, realm: &str, call: F) -> (r: Result<()>)
        where
            F: FnOnce(Address, &CText) -> RawStatus,
        requires
            c_safe(realm@) ==> forall|realm_c: &CText|
                #![trigger call.requires((self.addr(), realm_c))]
                realm_c.spells(realm@) ==> call.requires((self.addr(), realm_c)),
        ensures
            !c_safe(realm@) ==> r == Err::<(), SwitchError>(generic_error()),
            c_safe(realm@) ==> exists|realm_c: &CText, reply: RawStatus| {
                &&& realm_c.spells(realm@)
                &&& #[trigger] call.ensures((self.addr(), realm_c), reply)
                &&& r == status_outcome(reply)
            },
    {
        let realm = cstring(realm)?;
        status_to_result(call(self.as_ptr(), &realm))
    }

    /// Sets the time between digits, in milliseconds.
    pub fn set_digit_timeout_ms<F>(&self, digit_timeout_ms: u32, call: F)
        where
            F: FnOnce(Address, u32),
        requires
            call.requires((self.addr(), digit_timeout_ms)),
        ensures
            call.ensures((self.addr(), digit_timeout_ms), ()),
    {
        call(self.as_ptr(), digit_timeout_ms)
    }

    /// Sets the time for the input, in milliseconds.
    pub fn set_input_timeout_ms<F>(&self, input_timeout_ms: u32, call: F)
        where
            F: FnOnce(Address, u32),
        requires
            call.requires((self.addr(), input_timeout_ms)),
        ensures
            call.ensures((self.addr(), input_timeout_ms), ()),
    {
        call(self.as_ptr(), input_timeout_ms)
    }

    /// Sets the characters that end the input.
    pub fn set_terminators<F>(&self, terminators: &str, call: F) -> (r: Result<()>)
        where
            F: FnOnce(Address, &CText) -> RawStatus,
        requires
            c_safe(terminators@) ==> forall|terminators_c: &CText|
                #![trigger call.requires((self.addr(), terminators_c))]
                terminators_c.spells(terminators@) ==> call.requires((self.addr(), terminators_c)),
        ensures
            !c_safe(terminators@) ==> r == Err::<(), SwitchError>(generic_error()),
            c_safe(terminators@) ==> exists|terminators_c: &CText, reply: RawStatus| {
                &&& terminators_c.spells(terminators@)
                &&& #[trigger] call.ensures((self.addr(), terminators_c), reply)
                &&& r == status_outcome(reply)
            },
    {
        let terminators = cstring(terminators)?;
        status_to_result(call(self.as_ptr(), &terminators))
    }

    /// Sets the leg that the actions are for.
    pub fn set_target<F>(&self, target: DigitActionTarget, call: F)
        where
            F: FnOnce(Address, u32),
        requires
            call.requires((self.addr(), target.0)),
        ensures
            call.ensures((self.addr(), target.0), ()),
    {
        call(self.as_ptr(), target.0)
    }

    /// The leg that the actions are for.
    pub fn get_target<F>(&self, call: F) -> (r: DigitActionTarget)
        where
            F: FnOnce(Address) -> u32,
        requires
            call.requires((self.addr(),)),
        ensures
            exists|reply: u32| {
                &&& #[trigger] call.ensures((self.addr(),), reply)
                &&& r == DigitActionTarget(reply)
            },
    {
        DigitActionTarget(call(self.as_ptr()))
    }

    /// Whether digits wait for more.
    pub fn is_parsing<F>(&self, call: F) -> (r: bool)
        where
            F: FnOnce(Address) -> SwitchBool,
        requires
            call.requires((self.addr(),)),
        ensures
            exists|reply: SwitchBool| {
                &&& #[trigger] call.ensures((self.addr(),), reply)
                &&& r == (reply != SWITCH_FALSE)
            },
    {
        from_switch_bool(call(self.as_ptr()))
    }
}

/// Holds the session with this UUID, with music where `moh` is set.
pub fn hold_uuid<F>(uuid: &str, message: &str, moh: bool, call: F) -> (r: Result<()>)
    where
        F: FnOnce(&CText, &CText, SwitchBool) -> RawStatus,
    requires
        c_safe(uuid@) && c_safe(message@) ==> forall|uuid_c: &CText, message_c: &CText|
            #![trigger call.requires((uuid_c, message_c, switch_bool_of(moh)))]
            uuid_c.spells(uuid@) && message_c.spells(message@) ==> call.requires((uuid_c, message_c,
                switch_bool_of(moh))),
    ensures
        !(c_safe(uuid@) && c_safe(message@)) ==> r == Err::<(), SwitchError>(generic_error()),
        c_safe(uuid@) && c_safe(message@) ==>
            exists|uuid_c: &CText, message_c: &CText, reply: RawStatus| {
            &&& uuid_c.spells(uuid@)
            &&& message_c.spells(message@)
            &&& #[trigger] call.ensures((uuid_c, message_c, switch_bool_of(moh)), reply)
            &&& r == status_outcome(reply)
        },
{
    let uuid = cstring(uuid)?;
    let message = cstring(message)?;
    status_to_result(call(&uuid, &message, switch_bool(moh)))
}

/// Holds the session with this UUID, or takes it off hold.
pub fn hold_toggle_uuid<F>(uuid: &str, message: &str, moh: bool, call: F) -> (r: Result<()>)
    where
        F: FnOnce(&CText, &CText, SwitchBool) -> RawStatus,
    requires
        c_safe(uuid@) && c_safe(message@) ==> forall|uuid_c: &CText, message_c: &CText|
            #![trigger call.requires((uuid_c, message_c, switch_bool_of(moh)))]
            uuid_c.spells(uuid@) && message_c.spells(message@) ==> call.requires((uuid_c, message_c,
                switch_bool_of(moh))),
    ensures
        !(c_safe(uuid@) && c_safe(message@)) ==> r == Err::<(), SwitchError>(generic_error()),
        c_safe(uuid@) && c_safe(message@) ==>
            exists|uuid_c: &CText, message_c: &CText, reply: RawStatus| {
            &&& uuid_c.spells(uuid@)
            &&& message_c.spells(message@)
            &&& #[trigger] call.ensures((uuid_c, message_c, switch_bool_of(moh)), reply)
            &&& r == status_outcome(reply)
        },
{
    let uuid = cstring(uuid)?;
    let message = cstring(message)?;
    status_to_result(call(&uuid, &message, switch_bool(moh)))
}

/// Takes the session with this UUID off hold.
pub fn unhold_uuid<F>(uuid: &str, call: F) -> (r: Result<()>)
    where
        F: FnOnce(&CText) -> RawStatus,
    requires
        c_safe(uuid@) ==> forall|uuid_c: &CText|
            #![trigger call.requires((uuid_c,))]
            uuid_c.spells(uuid@) ==> call.requires((uuid_c,)),
    ensures
        !c_safe(uuid@) ==> r == Err::<(), SwitchError>(generic_error()),
        c_safe(uuid@) ==> exists|uuid_c: &CText, reply: RawStatus| {
            &&& uuid_c.spells(uuid@)
            &&& #[trigger] call.ensures((uuid_c,), reply)
            &&& r == status_outcome(reply)
        },
{
    let uuid = cstring(uuid)?;
    status_to_result(call(&uuid))
}

/// Bridges two sessions by their UUIDs.
pub fn uuid_bridge<F>(originator_uuid: &str, originatee_uuid: &str, call: F) -> (r: Result<()>)
    where
        F: FnOnce(&CText, &CText) -> RawStatus,
    requires
        c_safe(originator_uuid@) && c_safe(originatee_uuid@) ==> forall|originator_uuid_c: &CText,
            originatee_uuid_c: &CText|
            #![trigger call.requires((originator_uuid_c, originatee_uuid_c))]
            originator_uuid_c.spells(originator_uuid@)
                && originatee_uuid_c.spells(originatee_uuid@) ==> call.requires((originator_uuid_c,
                    originatee_uuid_c)),
    ensures
        !(c_safe(originator_uuid@) && c_safe(originatee_uuid@)) ==>
            r == Err::<(), SwitchError>(generic_error()),
        c_safe(originator_uuid@) && c_safe(originatee_uuid@) ==>
            exists|originator_uuid_c: &CText, originatee_uuid_c: &CText, reply: RawStatus| {
            &&& originator_uuid_c.spells(originator_uuid@)
            &&& originatee_uuid_c.spells(originatee_uuid@)
            &&& #[trigger] call.ensures((originator_uuid_c, originatee_uuid_c), reply)
            &&& r == status_outcome(reply)
        },
{
    let originator_uuid = cstring(originator_uuid)?;
    let originatee_uuid = cstring(originatee_uuid)?;
    status_to_result(call(&originator_uuid, &originatee_uuid))
}

/// Hangs up the session with this UUID.
pub fn kill_uuid<F>(uuid: &str, cause: Cause, call: F) -> (r: Result<()>)
    where
        F: FnOnce(&CText, u32) -> RawStatus,
    requires
        c_safe(uuid@) ==> forall|uuid_c: &CText|
            #![trigger call.requires((uuid_c, cause.0))]
            uuid_c.spells(uuid@) ==> call.requires((uuid_c, cause.0)),
    ensures
        !c_safe(uuid@) ==> r == Err::<(), SwitchError>(generic_error()),
        c_safe(uuid@) ==> exists|uuid_c: &CText, reply: RawStatus| {
            &&& uuid_c.spells(uuid@)
            &&& #[trigger] call.ensures((uuid_c, cause.0), reply)
            &&& r == status_outcome(reply)
        },
{
    let uuid = cstring(uuid)?;
    status_to_result(call(&uuid, cause.0))
}

/// Schedules a broadcast to a session. Returns the number of the task; zero for a text that holds a
/// NUL character.
pub fn schedule_broadcast<F>(runtime: i64, uuid: &str, path: &str, flags: u32, call: F) -> (r: u32)
    where
        F: FnOnce(i64, &CText, &CText, u32) -> u32,
    requires
        c_safe(uuid@) && c_safe(path@) ==> forall|u: &CText, p: &CText|
            #![trigger call.requires((runtime, u, p, flags))]
            u.spells(uuid@) && p.spells(path@) ==> call.requires((runtime, u, p, flags)),
    ensures
        !(c_safe(uuid@) && c_safe(path@)) ==> r == 0,
        c_safe(uuid@) && c_safe(path@) ==> exists|u: &CText, p: &CText|
            u.spells(uuid@) && p.spells(path@) && #[trigger] call.ensures(
                (runtime, u, p, flags),
                r,
            ),
{
    match (cstring(uuid), cstring(path)) {
        (Ok(uuid), Ok(path)) => call(runtime, &uuid, &path, flags),
        _ => 0,
    }
}

/// Schedules a hangup of a session, and of its other leg where `bleg` is set. Returns the number of
/// the task; zero for a UUID that holds a NUL character.
pub fn schedule_hangup<F>(runtime: i64, uuid: &str, cause: Cause, bleg: bool, call: F) -> (r: u32)
    where
        F: FnOnce(i64, &CText, RawCause, SwitchBool) -> u32,
    requires
        c_safe(uuid@) ==> forall|u: &CText|
            #![trigger call.requires((runtime, u, cause.0, switch_bool_of(bleg)))]
            u.spells(uuid@) ==> call.requires((runtime, u, cause.0, switch_bool_of(bleg))),
    ensures
        !c_safe(uuid@) ==> r == 0,
        c_safe(uuid@) ==> exists|u: &CText|
            u.spells(uuid@) && #[trigger] call.ensures(
                (runtime, u, cause.0, switch_bool_of(bleg)),
                r,
            ),
{
    match cstring(uuid) {
        Ok(uuid) => call(runtime, &uuid, cause.raw(), switch_bool(bleg)),
        Err(_) => 0,
    }
}

/// Schedules a transfer of a session. The extension, the dialplan and the context are addresses of
/// texts that the core takes over. Returns the number of the task; zero for a UUID that holds a NUL
/// character.
pub fn schedule_transfer<F>(
    runtime: i64,
    uuid: &str,
    extension_ptr: Address,
    dialplan_ptr: Address,
    context_ptr: Address,
    call: F,
) -> (r: u32)
    where
        F: FnOnce(i64, &CText, Address, Address, Address) -> u32,
    requires
        c_safe(uuid@) ==> forall|u: &CText|
            #![trigger call.requires((runtime, u, extension_ptr, dialplan_ptr, context_ptr))]
            u.spells(uuid@) ==> call.requires((runtime, u, extension_ptr, dialplan_ptr, context_ptr)),
    ensures
        !c_safe(uuid@) ==> r == 0,
        c_safe(uuid@) ==> exists|u: &CText|
            u.spells(uuid@) && #[trigger] call.ensures(
                (runtime, u, extension_ptr, dialplan_ptr, context_ptr),
                r,
            ),
{
    match cstring(uuid) {
        Ok(uuid) => call(runtime, &uuid, extension_ptr, dialplan_ptr, context_ptr),
        Err(_) => 0,
    }
}

/// Opens a speech synthesizer.
pub fn speech_open<F>(
    sh: Address,
    module_name: &str,
    voice_name: &str,
    rate: u32,
    interval: u32,
    channels: u32,
    flags: Address,
    pool: &Pool,
    call: F,
) -> (r: Result<()>)
    where
        F: FnOnce(Address, &CText, &CText, u32, u32, u32, Address, Address) -> RawStatus,
    requires
        c_safe(module_name@) && c_safe(voice_name@) ==> forall|module_name_c: &CText, voice_name_c:
            &CText|
            #![trigger call.requires(
                (
                    sh,
                    module_name_c,
                    voice_name_c,
                    rate,
                    interval,
                    channels,
                    flags,
                    pool.addr(),
                ),
            )]
            module_name_c.spells(module_name@) && voice_name_c.spells(voice_name@) ==> call.requires(
                (
                    sh,
                    module_name_c,
                    voice_name_c,
                    rate,
                    interval,
                    channels,
                    flags,
                    pool.addr(),
                ),
            ),
    ensures
        !(c_safe(module_name@) && c_safe(voice_name@)) ==> r == Err::<(),
            SwitchError>(generic_error()),
        c_safe(module_name@) && c_safe(voice_name@) ==>
            exists|module_name_c: &CText, voice_name_c: &CText, reply: RawStatus| {
            &&& module_name_c.spells(module_name@)
            &&& voice_name_c.spells(voice_name@)
            &&& #[trigger] call.ensures(
                    (
                        sh,
                        module_name_c,
                        voice_name_c,
                        rate,
                        interval,
                        channels,
                        flags,
                        pool.addr(),
                    ),
                    reply,
                )
            &&& r == status_outcome(reply)
        },
{
    let module_name = cstring(module_name)?;
    let voice_name = cstring(voice_name)?;
    status_to_result(
        call(
            sh,
            &module_name,
            &voice_name,
            rate,
            interval,
            channels,
            flags,
            pool.as_ptr(),
        ),
    )
}

/// Gives text to a synthesizer.
pub fn speech_feed_tts<F>(sh: Address, text: &str, flags: Address, call: F) -> (r: Result<()>)
    where
        F: FnOnce(Address, &CText, Address) -> RawStatus,
    requires
        c_safe(text@) ==> forall|text_c: &CText|
            #![trigger call.requires((sh, text_c, flags))]
            text_c.spells(text@) ==> call.requires((sh, text_c, flags)),
    ensures
        !c_safe(text@) ==> r == Err::<(), SwitchError>(generic_error()),
        c_safe(text@) ==> exists|text_c: &CText, reply: RawStatus| {
            &&& text_c.spells(text@)
            &&& #[trigger] call.ensures((sh, text_c, flags), reply)
            &&& r == status_outcome(reply)
        },
{
    let text = cstring(text)?;
    status_to_result(call(sh, &text, flags))
}

/// Drops what a synthesizer has not yet spoken.
pub fn speech_flush_tts<F>(sh: Address, call: F)
    where
        F: FnOnce(Address),
    requires
        call.requires((sh,)),
    ensures
        call.ensures((sh,), ()),
{
    call(sh)
}

/// Sets a parameter of a synthesizer to a text.
pub fn speech_text_param_tts<F>(sh: Address, param: &str, val: &str, call: F) -> (r: Result<()>)
    where
        F: FnOnce(Address, &CText, &CText),
    requires
        c_safe(param@) && c_safe(val@) ==> forall|param_c: &CText, val_c: &CText|
            #![trigger call.requires((sh, param_c, val_c))]
            param_c.spells(param@) && val_c.spells(val@) ==> call.requires((sh, param_c, val_c)),
    ensures
        !(c_safe(param@) && c_safe(val@)) ==> r == Err::<(), SwitchError>(generic_error()),
        c_safe(param@) && c_safe(val@) ==> r == Ok::<(), SwitchError>(()),
        c_safe(param@) && c_safe(val@) ==> exists|param_c: &CText, val_c: &CText| {
            &&& param_c.spells(param@)
            &&& val_c.spells(val@)
            &&& #[trigger] call.ensures((sh, param_c, val_c), ())
        },
{
    let param = cstring(param)?;
    let val = cstring(val)?;
    call(sh, &param, &val);
    Ok(())
}

/// Sets a parameter of a synthesizer to a number.
pub fn speech_numeric_param_tts<F>(sh: Address, param: &str, val: i32, call: F) -> (r: Result<()>)
    where
        F: FnOnce(Address, &CText, i32),
    requires
        c_safe(param@) ==> forall|param_c: &CText|
            #![trigger call.requires((sh, param_c, val))]
            param_c.spells(param@) ==> call.requires((sh, param_c, val)),
    ensures
        !c_safe(param@) ==> r == Err::<(), SwitchError>(generic_error()),
        c_safe(param@) ==> r == Ok::<(), SwitchError>(()),
        c_safe(param@) ==> exists|param_c: &CText| {
            &&& param_c.spells(param@)
            &&& #[trigger] call.ensures((sh, param_c, val), ())
        },
{
    let param = cstring(param)?;
    call(sh, &param, val);
    Ok(())
}

/// Closes a synthesizer.
pub fn speech_close<F>(sh: Address, flags: Address, call: F) -> (r: Result<()>)
    where
        F: FnOnce(Address, Address) -> RawStatus,
    requires
        call.requires((sh, flags)),
    ensures
        exists|reply: RawStatus| {
            &&& #[trigger] call.ensures((sh, flags), reply)
            &&& r == status_outcome(reply)
        },
{
    status_to_result(call(sh, flags))
}

/// Reads synthesized audio to `data`. `datalen` holds the room there and then what the call left,
/// whatever the status.
pub fn speech_read_tts<F>(sh: Address, data: Address, datalen: &mut u64, flags: Address, call: F) ->
    (r:
    Result<()>)
    where
        F: FnOnce(Address, Address, u64, Address) -> (RawStatus, u64),
    requires
        call.requires((sh, data, *old(datalen), flags)),
    ensures
        exists|status: RawStatus, n: u64| #[trigger]
            call.ensures((sh, data, *old(datalen), flags), (status, n)) && *final(datalen) == n && r
                == status_outcome(status),
{
    let (status, n) = call(sh, data, *datalen, flags);
    *datalen = n;
    status_to_result(status)
}

/// Sets a parameter of a synthesizer to a floating point number, which passes through as a value of
/// the type `T`.
pub fn speech_float_param_tts<T, F>(sh: Address, param: &str, val: T, call: F) -> (r: Result<()>)
    where
        F: FnOnce(Address, &CText, T),
    requires
        c_safe(param@) ==> forall|p: &CText|
            #![trigger call.requires((sh, p, val))]
            p.spells(param@) ==> call.requires((sh, p, val)),
    ensures
        !c_safe(param@) ==> r == Err::<(), SwitchError>(generic_error()),
        c_safe(param@) ==> r == Ok::<(), SwitchError>(()) && exists|p: &CText|
            p.spells(param@) && #[trigger] call.ensures((sh, p, val), ()),
{
    let param = cstring(param)?;
    call(sh, &param, val);
    Ok(())
}

/// The flag of a channel that is on hold.
pub const CHANNEL_FLAG_HOLD: u32 = 10;

/// What the core answers to an originate.
#[derive(Debug, Copy, Clone, PartialEq, Eq, Structural)]
pub struct Originated {
    pub status: RawStatus,
    pub peer: Address,
    pub cause: RawCause,
    pub cancel_cause: RawCause,
}

/// Whether `r` is what an originate came to: its status as an error, or its outcome.
pub open spec fn originated(r: Result<OriginateOutcome>, reply: Originated) -> bool {
    match status_outcome(reply.status) {
        Ok(_) => r matches Ok(o) && maybe_at(o.peer, reply.peer) && o.cause == Cause(reply.cause)
            && o.cancel_cause == Cause(reply.cancel_cause),
        Err(e) => r == Err::<OriginateOutcome, SwitchError>(e),
    }
}

/// The parameters of an originate. A text may be missing; an address may be null.
#[derive(Debug, Copy, Clone)]
pub struct OriginateRequest<'a> {
    pub bridge_to: &'a CText,
    pub timelimit_sec: u32,
    pub table: Address,
    pub cid_name: Option<&'a CText>,
    pub cid_num: Option<&'a CText>,
    pub caller_profile_override: Address,
    pub ovars: Address,
    pub flags: u32,
    pub dh: Address,
}

/// Whether a request asks for a plain call: everything but the number, the time limit and the
/// caller's name and number is left out.
pub open spec fn plain_call(
    q: OriginateRequest<'_>,
    bridge_to: &str,
    timelimit_sec: u32,
    cid_name: Option<&str>,
    cid_num: Option<&str>,
) -> bool {
    &&& q.bridge_to.spells(bridge_to@)
    &&& q.timelimit_sec == timelimit_sec
    &&& q.table == NULL
    &&& optional_spells(q.cid_name, cid_name)
    &&& optional_spells(q.cid_num, cid_num)
    &&& q.caller_profile_override == NULL
    &&& q.ovars == NULL
    &&& q.flags == 0
    &&& q.dh == NULL
}

impl Session {
    /// Records to a file, for up to `limit` seconds; zero sets no limit.
    pub fn record_file<F>(self, path: &str, limit: u32, call: F) -> (r: Result<()>)
        where
            F: FnOnce(Address, &CText, u32) -> RawStatus,
        requires
            c_safe(path@) ==> forall|path_c: &CText|
                #![trigger call.requires((self.addr(), path_c, limit))]
                path_c.spells(path@) ==> call.requires((self.addr(), path_c, limit)),
        ensures
            !c_safe(path@) ==> r == Err::<(), SwitchError>(generic_error()),
            c_safe(path@) ==> exists|path_c: &CText, reply: RawStatus| {
                &&& path_c.spells(path@)
                &&& #[trigger] call.ensures((self.addr(), path_c, limit), reply)
                &&& r == status_outcome(reply)
            },
    {
        let path = cstring(path)?;
        status_to_result(call(self.as_ptr(), &path, limit))
    }

    /// Parks the session. Any status but success is an error.
    pub fn park<F>(self, call: F) -> (r: Result<()>)
        where
            F: FnOnce(Address) -> RawStatus,
        requires
            call.requires((self.addr(),)),
        ensures
            exists|reply: RawStatus| {
                &&& #[trigger] call.ensures((self.addr(),), reply)
                &&& r == status_outcome(reply)
            },
    {
        status_to_result(call(self.as_ptr()))
    }

    /// Collects digits without a callback of its own. Timeouts are in milliseconds.
    pub fn collect_digits_callback<F>(
        self,
        digit_timeout: u32,
        abs_timeout: u32,
        call: F,
    ) -> (r: Result<()>)
        where
            F: FnOnce(Address, u32, u32) -> RawStatus,
        requires
            call.requires((self.addr(), digit_timeout, abs_timeout)),
        ensures
            exists|reply: RawStatus| {
                &&& #[trigger] call.ensures((self.addr(), digit_timeout, abs_timeout), reply)
                &&& r == status_outcome(reply)
            },
    {
        status_to_result(call(self.as_ptr(), digit_timeout, abs_timeout))
    }

    /// Records the whole session to a file.
    pub fn record_session<F>(self, file: &str, limit: u32, call: F) -> (r: Result<()>)
        where
            F: FnOnce(Address, &CText, u32) -> RawStatus,
        requires
            c_safe(file@) ==> forall|file_c: &CText|
                #![trigger call.requires((self.addr(), file_c, limit))]
                file_c.spells(file@) ==> call.requires((self.addr(), file_c, limit)),
        ensures
            !c_safe(file@) ==> r == Err::<(), SwitchError>(generic_error()),
            c_safe(file@) ==> exists|file_c: &CText, reply: RawStatus| {
                &&& file_c.spells(file@)
                &&& #[trigger] call.ensures((self.addr(), file_c, limit), reply)
                &&& r == status_outcome(reply)
            },
    {
        let file = cstring(file)?;
        status_to_result(call(self.as_ptr(), &file, limit))
    }

    /// Records the whole session to a file, with the variables of an event.
    pub fn record_session_event<F>(
        self,
        file: &str,
        limit: u32,
        variables: &Event,
        call: F,
    ) -> (r: Result<()>)
        where
            F: FnOnce(Address, &CText, u32, Address) -> RawStatus,
        requires
            c_safe(file@) ==> forall|file_c: &CText|
                #![trigger call.requires((self.addr(), file_c, limit, variables.addr()))]
                file_c.spells(file@) ==> call.requires((self.addr(), file_c, limit,
                    variables.addr())),
        ensures
            !c_safe(file@) ==> r == Err::<(), SwitchError>(generic_error()),
            c_safe(file@) ==> exists|file_c: &CText, reply: RawStatus| {
                &&& file_c.spells(file@)
                &&& #[trigger] call.ensures(
                        (self.addr(), file_c, limit, variables.addr()),
                        reply,
                    )
                &&& r == status_outcome(reply)
            },
    {
        let file = cstring(file)?;
        status_to_result(call(self.as_ptr(), &file, limit, variables.as_ptr()))
    }

    /// Masks a recording, or unmasks it.
    pub fn record_session_mask<F>(self, file: &str, on: bool, call: F) -> (r: Result<()>)
        where
            F: FnOnce(Address, &CText, SwitchBool) -> RawStatus,
        requires
            c_safe(file@) ==> forall|file_c: &CText|
                #![trigger call.requires((self.addr(), file_c, switch_bool_of(on)))]
                file_c.spells(file@) ==> call.requires((self.addr(), file_c, switch_bool_of(on))),
        ensures
            !c_safe(file@) ==> r == Err::<(), SwitchError>(generic_error()),
            c_safe(file@) ==> exists|file_c: &CText, reply: RawStatus| {
                &&& file_c.spells(file@)
                &&& #[trigger] call.ensures((self.addr(), file_c, switch_bool_of(on)), reply)
                &&& r == status_outcome(reply)
            },
    {
        let file = cstring(file)?;
        status_to_result(call(self.as_ptr(), &file, switch_bool(on)))
    }

    /// Pauses a recording, or resumes it.
    pub fn record_session_pause<F>(self, file: &str, on: bool, call: F) -> (r: Result<()>)
        where
            F: FnOnce(Address, &CText, SwitchBool) -> RawStatus,
        requires
            c_safe(file@) ==> forall|file_c: &CText|
                #![trigger call.requires((self.addr(), file_c, switch_bool_of(on)))]
                file_c.spells(file@) ==> call.requires((self.addr(), file_c, switch_bool_of(on))),
        ensures
            !c_safe(file@) ==> r == Err::<(), SwitchError>(generic_error()),
            c_safe(file@) ==> exists|file_c: &CText, reply: RawStatus| {
                &&& file_c.spells(file@)
                &&& #[trigger] call.ensures((self.addr(), file_c, switch_bool_of(on)), reply)
                &&& r == status_outcome(reply)
            },
    {
        let file = cstring(file)?;
        status_to_result(call(self.as_ptr(), &file, switch_bool(on)))
    }

    /// Replaces the audio of the session by a file.
    pub fn displace_session<F>(
        self,
        file: &str,
        limit: u32,
        flags: &str,
        call: F,
    ) -> (r: Result<()>)
        where
            F: FnOnce(Address, &CText, u32, &CText) -> RawStatus,
        requires
            c_safe(file@) && c_safe(flags@) ==> forall|file_c: &CText, flags_c: &CText|
                #![trigger call.requires((self.addr(), file_c, limit, flags_c))]
                file_c.spells(file@) && flags_c.spells(flags@) ==> call.requires((self.addr(),
                    file_c, limit, flags_c)),
        ensures
            !(c_safe(file@) && c_safe(flags@)) ==> r == Err::<(), SwitchError>(generic_error()),
            c_safe(file@) && c_safe(flags@) ==>
                exists|file_c: &CText, flags_c: &CText, reply: RawStatus| {
                &&& file_c.spells(file@)
                &&& flags_c.spells(flags@)
                &&& #[trigger] call.ensures((self.addr(), file_c, limit, flags_c), reply)
                &&& r == status_outcome(reply)
            },
    {
        let file = cstring(file)?;
        let flags = cstring(flags)?;
        status_to_result(call(self.as_ptr(), &file, limit, &flags))
    }

    /// Plays what the caller says back after a delay.
    pub fn delay_echo<F>(self, delay_ms: u32, call: F)
        where
            F: FnOnce(Address, u32),
        requires
            call.requires((self.addr(), delay_ms)),
        ensures
            call.ensures((self.addr(), delay_ms), ()),
    {
        call(self.as_ptr(), delay_ms)
    }

    /// Holds DTMF back.
    pub fn block_dtmf_session<F>(self, call: F) -> (r: Result<()>)
        where
            F: FnOnce(Address) -> RawStatus,
        requires
            call.requires((self.addr(),)),
        ensures
            exists|reply: RawStatus| {
                &&& #[trigger] call.ensures((self.addr(),), reply)
                &&& r == status_outcome(reply)
            },
    {
        status_to_result(call(self.as_ptr()))
    }

    /// Lets DTMF through again.
    pub fn unblock_dtmf_session<F>(self, call: F) -> (r: Result<()>)
        where
            F: FnOnce(Address) -> RawStatus,
        requires
            call.requires((self.addr(),)),
        ensures
            exists|reply: RawStatus| {
                &&& #[trigger] call.ensures((self.addr(),), reply)
                &&& r == status_outcome(reply)
            },
    {
        status_to_result(call(self.as_ptr()))
    }

    /// Turns the capture of text on or off.
    pub fn capture_text<F>(self, on: bool, call: F) -> (r: Result<()>)
        where
            F: FnOnce(Address, SwitchBool) -> RawStatus,
        requires
            call.requires((self.addr(), switch_bool_of(on))),
        ensures
            exists|reply: RawStatus| {
                &&& #[trigger] call.ensures((self.addr(), switch_bool_of(on)), reply)
                &&& r == status_outcome(reply)
            },
    {
        status_to_result(call(self.as_ptr(), switch_bool(on)))
    }

    /// Runs an application for every session that listens in on this one.
    pub fn eavesdrop_exec_all<F>(self, app: &str, arg: &str, call: F) -> (r: Result<()>)
        where
            F: FnOnce(Address, &CText, &CText) -> RawStatus,
        requires
            c_safe(app@) && c_safe(arg@) ==> forall|app_c: &CText, arg_c: &CText|
                #![trigger call.requires((self.addr(), app_c, arg_c))]
                app_c.spells(app@) && arg_c.spells(arg@) ==> call.requires((self.addr(), app_c,
                    arg_c)),
        ensures
            !(c_safe(app@) && c_safe(arg@)) ==> r == Err::<(), SwitchError>(generic_error()),
            c_safe(app@) && c_safe(arg@) ==> exists|app_c: &CText, arg_c: &CText, reply: RawStatus| {
                &&& app_c.spells(app@)
                &&& arg_c.spells(arg@)
                &&& #[trigger] call.ensures((self.addr(), app_c, arg_c), reply)
                &&& r == status_outcome(reply)
            },
    {
        let app = cstring(app)?;
        let arg = cstring(arg)?;
        status_to_result(call(self.as_ptr(), &app, &arg))
    }

    /// Bridges the session with another one until one of them hangs up. The callback and the data
    /// for it may be null.
    pub fn multi_threaded_bridge_raw<F>(
        self,
        peer: Session,
        dtmf_callback: Address,
        session_data: Address,
        peer_session_data: Address,
        call: F,
    ) -> (r: Result<()>)
        where
            F: FnOnce(Address, Address, Address, Address, Address) -> RawStatus,
        requires
            call.requires(
                (self.addr(), peer.addr(), dtmf_callback, session_data, peer_session_data),
            ),
        ensures
            exists|reply: RawStatus| {
                &&& #[trigger] call.ensures(
                        (
                            self.addr(),
                            peer.addr(),
                            dtmf_callback,
                            session_data,
                            peer_session_data,
                        ),
                        reply,
                    )
                &&& r == status_outcome(reply)
            },
    {
        status_to_result(
            call(
                self.as_ptr(),
                peer.as_ptr(),
                dtmf_callback,
                session_data,
                peer_session_data,
            ),
        )
    }

    /// Pronounces a text.
    pub fn say<F>(
        self,
        to_say: &str,
        module_name: &str,
        say_type: &str,
        say_method: &str,
        say_gender: Option<&str>,
        call: F,
    ) -> (r: Result<()>)
        where
            F: FnOnce(Address, &CText, &CText, &CText, &CText, Option<&CText>) -> RawStatus,
        requires
            c_safe(to_say@)
                && c_safe(module_name@)
                && c_safe(say_type@)
                && c_safe(say_method@)
                && optional_safe(say_gender) ==> forall|
                to_say_c: &CText,
                module_name_c: &CText,
                say_type_c: &CText,
                say_method_c: &CText,
                say_gender_c: Option<&CText>,
            |
                #![trigger call.requires(
                    (
                        self.addr(),
                        to_say_c,
                        module_name_c,
                        say_type_c,
                        say_method_c,
                        say_gender_c,
                    ),
                )]
                to_say_c.spells(to_say@)
                    && module_name_c.spells(module_name@)
                    && say_type_c.spells(say_type@)
                    && say_method_c.spells(say_method@)
                    && optional_spells(say_gender_c, say_gender) ==> call.requires(
                    (
                        self.addr(),
                        to_say_c,
                        module_name_c,
                        say_type_c,
                        say_method_c,
                        say_gender_c,
                    ),
                ),
        ensures
            !(c_safe(to_say@)
                && c_safe(module_name@)
                && c_safe(say_type@)
                && c_safe(say_method@)
                && optional_safe(say_gender)
            ) ==> r == Err::<(), SwitchError>(generic_error()),
            c_safe(to_say@)
                && c_safe(module_name@)
                && c_safe(say_type@)
                && c_safe(say_method@)
                && optional_safe(say_gender) ==> exists|
                to_say_c: &CText,
                module_name_c: &CText,
                say_type_c: &CText,
                say_method_c: &CText,
                say_gender_c: Option<&CText>,
                reply: RawStatus,
            | {
                &&& to_say_c.spells(to_say@)
                &&& module_name_c.spells(module_name@)
                &&& say_type_c.spells(say_type@)
                &&& say_method_c.spells(say_method@)
                &&& optional_spells(say_gender_c, say_gender)
                &&& #[trigger] call.ensures(
                        (
                            self.addr(),
                            to_say_c,
                            module_name_c,
                            say_type_c,
                            say_method_c,
                            say_gender_c,
                        ),
                        reply,
                    )
                &&& r == status_outcome(reply)
            },
    {
        let to_say = cstring(to_say)?;
        let module_name = cstring(module_name)?;
        let say_type = cstring(say_type)?;
        let say_method = cstring(say_method)?;
        let say_gender = optional_cstring(say_gender)?;
        status_to_result(
            call(
                self.as_ptr(),
                &to_say,
                &module_name,
                &say_type,
                &say_method,
                say_gender.as_ref(),
            ),
        )
    }

    /// Spells a text.
    pub fn say_spell<F>(self, to_say: &str, say_args: Address, call: F) -> (r: Result<()>)
        where
            F: FnOnce(Address, &CText, Address) -> RawStatus,
        requires
            c_safe(to_say@) ==> forall|to_say_c: &CText|
                #![trigger call.requires((self.addr(), to_say_c, say_args))]
                to_say_c.spells(to_say@) ==> call.requires((self.addr(), to_say_c, say_args)),
        ensures
            !c_safe(to_say@) ==> r == Err::<(), SwitchError>(generic_error()),
            c_safe(to_say@) ==> exists|to_say_c: &CText, reply: RawStatus| {
                &&& to_say_c.spells(to_say@)
                &&& #[trigger] call.ensures((self.addr(), to_say_c, say_args), reply)
                &&& r == status_outcome(reply)
            },
    {
        let to_say = cstring(to_say)?;
        status_to_result(call(self.as_ptr(), &to_say, say_args))
    }

    /// Pronounces an address, number by number.
    pub fn say_ip<F>(
        self,
        to_say: &str,
        number_func: Address,
        say_args: Address,
        call: F,
    ) -> (r: Result<()>)
        where
            F: FnOnce(Address, &CText, Address, Address) -> RawStatus,
        requires
            c_safe(to_say@) ==> forall|to_say_c: &CText|
                #![trigger call.requires((self.addr(), to_say_c, number_func, say_args))]
                to_say_c.spells(to_say@) ==> call.requires((self.addr(), to_say_c, number_func,
                    say_args)),
        ensures
            !c_safe(to_say@) ==> r == Err::<(), SwitchError>(generic_error()),
            c_safe(to_say@) ==> exists|to_say_c: &CText, reply: RawStatus| {
                &&& to_say_c.spells(to_say@)
                &&& #[trigger] call.ensures(
                        (self.addr(), to_say_c, number_func, say_args),
                        reply,
                    )
                &&& r == status_outcome(reply)
            },
    {
        let to_say = cstring(to_say)?;
        status_to_result(call(self.as_ptr(), &to_say, number_func, say_args))
    }

    /// Handles one event.
    pub fn parse_event<F>(self, event: Address, call: F) -> (r: Result<()>)
        where
            F: FnOnce(Address, Address) -> RawStatus,
        requires
            call.requires((self.addr(), event)),
        ensures
            exists|reply: RawStatus| {
                &&& #[trigger] call.ensures((self.addr(), event), reply)
                &&& r == status_outcome(reply)
            },
    {
        status_to_result(call(self.as_ptr(), event))
    }

    /// Handles all queued events.
    pub fn parse_all_events<F>(self, call: F) -> (r: Result<()>)
        where
            F: FnOnce(Address) -> RawStatus,
        requires
            call.requires((self.addr(),)),
        ensures
            exists|reply: RawStatus| {
                &&& #[trigger] call.ensures((self.addr(),), reply)
                &&& r == status_outcome(reply)
            },
    {
        status_to_result(call(self.as_ptr()))
    }

    /// Handles the next queued event.
    pub fn parse_next_event<F>(self, call: F) -> (r: Result<()>)
        where
            F: FnOnce(Address) -> RawStatus,
        requires
            call.requires((self.addr(),)),
        ensures
            exists|reply: RawStatus| {
                &&& #[trigger] call.ensures((self.addr(),), reply)
                &&& r == status_outcome(reply)
            },
    {
        status_to_result(call(self.as_ptr()))
    }

    /// Sets up the recognition of speech.
    pub fn detect_speech_init<F>(
        self,
        mod_name: &str,
        dest: &str,
        ah: Address,
        call: F,
    ) -> (r: Result<()>)
        where
            F: FnOnce(Address, &CText, &CText, Address) -> RawStatus,
        requires
            c_safe(mod_name@) && c_safe(dest@) ==> forall|mod_name_c: &CText, dest_c: &CText|
                #![trigger call.requires((self.addr(), mod_name_c, dest_c, ah))]
                mod_name_c.spells(mod_name@) && dest_c.spells(dest@) ==> call.requires((self.addr(),
                    mod_name_c, dest_c, ah)),
        ensures
            !(c_safe(mod_name@) && c_safe(dest@)) ==> r == Err::<(), SwitchError>(generic_error()),
            c_safe(mod_name@) && c_safe(dest@) ==>
                exists|mod_name_c: &CText, dest_c: &CText, reply: RawStatus| {
                &&& mod_name_c.spells(mod_name@)
                &&& dest_c.spells(dest@)
                &&& #[trigger] call.ensures((self.addr(), mod_name_c, dest_c, ah), reply)
                &&& r == status_outcome(reply)
            },
    {
        let mod_name = cstring(mod_name)?;
        let dest = cstring(dest)?;
        status_to_result(call(self.as_ptr(), &mod_name, &dest, ah))
    }

    /// Starts the recognition of speech with a grammar.
    pub fn detect_speech<F>(
        self,
        mod_name: &str,
        grammar: &str,
        name: &str,
        dest: &str,
        ah: Address,
        call: F,
    ) -> (r: Result<()>)
        where
            F: FnOnce(Address, &CText, &CText, &CText, &CText, Address) -> RawStatus,
        requires
            c_safe(mod_name@)
                && c_safe(grammar@)
                && c_safe(name@)
                && c_safe(dest@) ==> forall|mod_name_c: &CText, grammar_c: &CText, name_c: &CText,
                    dest_c: &CText|
                #![trigger call.requires(
                    (self.addr(), mod_name_c, grammar_c, name_c, dest_c, ah),
                )]
                mod_name_c.spells(mod_name@)
                    && grammar_c.spells(grammar@)
                    && name_c.spells(name@)
                    && dest_c.spells(dest@) ==> call.requires(
                    (self.addr(), mod_name_c, grammar_c, name_c, dest_c, ah),
                ),
        ensures
            !(c_safe(mod_name@)
                && c_safe(grammar@)
                && c_safe(name@)
                && c_safe(dest@)
            ) ==> r == Err::<(), SwitchError>(generic_error()),
            c_safe(mod_name@)
                && c_safe(grammar@)
                && c_safe(name@)
                && c_safe(dest@) ==> exists|
                mod_name_c: &CText,
                grammar_c: &CText,
                name_c: &CText,
                dest_c: &CText,
                reply: RawStatus,
            | {
                &&& mod_name_c.spells(mod_name@)
                &&& grammar_c.spells(grammar@)
                &&& name_c.spells(name@)
                &&& dest_c.spells(dest@)
                &&& #[trigger] call.ensures(
                        (self.addr(), mod_name_c, grammar_c, name_c, dest_c, ah),
                        reply,
                    )
                &&& r == status_outcome(reply)
            },
    {
        let mod_name = cstring(mod_name)?;
        let grammar = cstring(grammar)?;
        let name = cstring(name)?;
        let dest = cstring(dest)?;
        status_to_result(call(self.as_ptr(), &mod_name, &grammar, &name, &dest, ah))
    }

    /// Stops the recognition of speech.
    pub fn stop_detect_speech<F>(self, call: F) -> (r: Result<()>)
        where
            F: FnOnce(Address) -> RawStatus,
        requires
            call.requires((self.addr(),)),
        ensures
            exists|reply: RawStatus| {
                &&& #[trigger] call.ensures((self.addr(),), reply)
                &&& r == status_outcome(reply)
            },
    {
        status_to_result(call(self.as_ptr()))
    }

    /// Pauses the recognition of speech.
    pub fn pause_detect_speech<F>(self, call: F) -> (r: Result<()>)
        where
            F: FnOnce(Address) -> RawStatus,
        requires
            call.requires((self.addr(),)),
        ensures
            exists|reply: RawStatus| {
                &&& #[trigger] call.ensures((self.addr(),), reply)
                &&& r == status_outcome(reply)
            },
    {
        status_to_result(call(self.as_ptr()))
    }

    /// Resumes the recognition of speech.
    pub fn resume_detect_speech<F>(self, call: F) -> (r: Result<()>)
        where
            F: FnOnce(Address) -> RawStatus,
        requires
            call.requires((self.addr(),)),
        ensures
            exists|reply: RawStatus| {
                &&& #[trigger] call.ensures((self.addr(),), reply)
                &&& r == status_outcome(reply)
            },
    {
        status_to_result(call(self.as_ptr()))
    }

    /// Loads a grammar under a name.
    pub fn detect_speech_load_grammar<F>(
        self,
        grammar: &str,
        name: &str,
        call: F,
    ) -> (r: Result<()>)
        where
            F: FnOnce(Address, &CText, &CText) -> RawStatus,
        requires
            c_safe(grammar@) && c_safe(name@) ==> forall|grammar_c: &CText, name_c: &CText|
                #![trigger call.requires((self.addr(), grammar_c, name_c))]
                grammar_c.spells(grammar@) && name_c.spells(name@) ==> call.requires((self.addr(),
                    grammar_c, name_c)),
        ensures
            !(c_safe(grammar@) && c_safe(name@)) ==> r == Err::<(), SwitchError>(generic_error()),
            c_safe(grammar@) && c_safe(name@) ==>
                exists|grammar_c: &CText, name_c: &CText, reply: RawStatus| {
                &&& grammar_c.spells(grammar@)
                &&& name_c.spells(name@)
                &&& #[trigger] call.ensures((self.addr(), grammar_c, name_c), reply)
                &&& r == status_outcome(reply)
            },
    {
        let grammar = cstring(grammar)?;
        let name = cstring(name)?;
        status_to_result(call(self.as_ptr(), &grammar, &name))
    }

    /// Unloads a grammar.
    pub fn detect_speech_unload_grammar<F>(self, name: &str, call: F) -> (r: Result<()>)
        where
            F: FnOnce(Address, &CText) -> RawStatus,
        requires
            c_safe(name@) ==> forall|name_c: &CText|
                #![trigger call.requires((self.addr(), name_c))]
                name_c.spells(name@) ==> call.requires((self.addr(), name_c)),
        ensures
            !c_safe(name@) ==> r == Err::<(), SwitchError>(generic_error()),
            c_safe(name@) ==> exists|name_c: &CText, reply: RawStatus| {
                &&& name_c.spells(name@)
                &&& #[trigger] call.ensures((self.addr(), name_c), reply)
                &&& r == status_outcome(reply)
            },
    {
        let name = cstring(name)?;
        status_to_result(call(self.as_ptr(), &name))
    }

    /// Enables a grammar.
    pub fn detect_speech_enable_grammar<F>(self, name: &str, call: F) -> (r: Result<()>)
        where
            F: FnOnce(Address, &CText) -> RawStatus,
        requires
            c_safe(name@) ==> forall|name_c: &CText|
                #![trigger call.requires((self.addr(), name_c))]
                name_c.spells(name@) ==> call.requires((self.addr(), name_c)),
        ensures
            !c_safe(name@) ==> r == Err::<(), SwitchError>(generic_error()),
            c_safe(name@) ==> exists|name_c: &CText, reply: RawStatus| {
                &&& name_c.spells(name@)
                &&& #[trigger] call.ensures((self.addr(), name_c), reply)
                &&& r == status_outcome(reply)
            },
    {
        let name = cstring(name)?;
        status_to_result(call(self.as_ptr(), &name))
    }

    /// Disables a grammar.
    pub fn detect_speech_disable_grammar<F>(self, name: &str, call: F) -> (r: Result<()>)
        where
            F: FnOnce(Address, &CText) -> RawStatus,
        requires
            c_safe(name@) ==> forall|name_c: &CText|
                #![trigger call.requires((self.addr(), name_c))]
                name_c.spells(name@) ==> call.requires((self.addr(), name_c)),
        ensures
            !c_safe(name@) ==> r == Err::<(), SwitchError>(generic_error()),
            c_safe(name@) ==> exists|name_c: &CText, reply: RawStatus| {
                &&& name_c.spells(name@)
                &&& #[trigger] call.ensures((self.addr(), name_c), reply)
                &&& r == status_outcome(reply)
            },
    {
        let name = cstring(name)?;
        status_to_result(call(self.as_ptr(), &name))
    }

    /// Disables all grammars.
    pub fn detect_speech_disable_all_grammars<F>(self, call: F) -> (r: Result<()>)
        where
            F: FnOnce(Address) -> RawStatus,
        requires
            call.requires((self.addr(),)),
        ensures
            exists|reply: RawStatus| {
                &&& #[trigger] call.ensures((self.addr(),), reply)
                &&& r == status_outcome(reply)
            },
    {
        status_to_result(call(self.as_ptr()))
    }

    /// Starts the timers of the recognition.
    pub fn detect_speech_start_input_timers<F>(self, call: F) -> (r: Result<()>)
        where
            F: FnOnce(Address) -> RawStatus,
        requires
            call.requires((self.addr(),)),
        ensures
            exists|reply: RawStatus| {
                &&& #[trigger] call.ensures((self.addr(),), reply)
                &&& r == status_outcome(reply)
            },
    {
        status_to_result(call(self.as_ptr()))
    }

    /// Speaks a text.
    pub fn speak_text<F>(
        self,
        tts_name: &str,
        voice_name: &str,
        text: &str,
        args: Address,
        call: F,
    ) -> (r: Result<()>)
        where
            F: FnOnce(Address, &CText, &CText, &CText, Address) -> RawStatus,
        requires
            c_safe(tts_name@)
                && c_safe(voice_name@)
                && c_safe(text@) ==> forall|tts_name_c: &CText, voice_name_c: &CText, text_c: &CText|
                #![trigger call.requires((self.addr(), tts_name_c, voice_name_c, text_c, args))]
                tts_name_c.spells(tts_name@)
                    && voice_name_c.spells(voice_name@)
                    && text_c.spells(text@) ==> call.requires((self.addr(), tts_name_c,
                        voice_name_c, text_c, args)),
        ensures
            !(c_safe(tts_name@)
                && c_safe(voice_name@)
                && c_safe(text@)
            ) ==> r == Err::<(), SwitchError>(generic_error()),
            c_safe(tts_name@)
                && c_safe(voice_name@)
                && c_safe(text@) ==>
                    exists|tts_name_c: &CText, voice_name_c: &CText, text_c: &CText, reply:
                        RawStatus| {
                &&& tts_name_c.spells(tts_name@)
                &&& voice_name_c.spells(voice_name@)
                &&& text_c.spells(text@)
                &&& #[trigger] call.ensures(
                        (self.addr(), tts_name_c, voice_name_c, text_c, args),
                        reply,
                    )
                &&& r == status_outcome(reply)
            },
    {
        let tts_name = cstring(tts_name)?;
        let voice_name = cstring(voice_name)?;
        let text = cstring(text)?;
        status_to_result(call(self.as_ptr(), &tts_name, &voice_name, &text, args))
    }

    /// Holds the session, with music where `moh` is set.
    pub fn hold<F>(self, message: &str, moh: bool, call: F) -> (r: Result<()>)
        where
            F: FnOnce(Address, &CText, SwitchBool) -> RawStatus,
        requires
            c_safe(message@) ==> forall|message_c: &CText|
                #![trigger call.requires((self.addr(), message_c, switch_bool_of(moh)))]
                message_c.spells(message@) ==> call.requires((self.addr(), message_c,
                    switch_bool_of(moh))),
        ensures
            !c_safe(message@) ==> r == Err::<(), SwitchError>(generic_error()),
            c_safe(message@) ==> exists|message_c: &CText, reply: RawStatus| {
                &&& message_c.spells(message@)
                &&& #[trigger] call.ensures(
                        (self.addr(), message_c, switch_bool_of(moh)),
                        reply,
                    )
                &&& r == status_outcome(reply)
            },
    {
        let message = cstring(message)?;
        status_to_result(call(self.as_ptr(), &message, switch_bool(moh)))
    }

    /// Takes the session off hold.
    pub fn unhold<F>(self, call: F) -> (r: Result<()>)
        where
            F: FnOnce(Address) -> RawStatus,
        requires
            call.requires((self.addr(),)),
        ensures
            exists|reply: RawStatus| {
                &&& #[trigger] call.ensures((self.addr(),), reply)
                &&& r == status_outcome(reply)
            },
    {
        status_to_result(call(self.as_ptr()))
    }

    /// Holds the session until a key is pressed, with music for each leg.
    pub fn soft_hold<F>(
        self,
        unhold_key: &str,
        moh_a: &str,
        moh_b: &str,
        call: F,
    ) -> (r: Result<()>)
        where
            F: FnOnce(Address, &CText, &CText, &CText) -> RawStatus,
        requires
            c_safe(unhold_key@)
                && c_safe(moh_a@)
                && c_safe(moh_b@) ==> forall|unhold_key_c: &CText, moh_a_c: &CText, moh_b_c: &CText|
                #![trigger call.requires((self.addr(), unhold_key_c, moh_a_c, moh_b_c))]
                unhold_key_c.spells(unhold_key@)
                    && moh_a_c.spells(moh_a@)
                    && moh_b_c.spells(moh_b@) ==> call.requires((self.addr(), unhold_key_c, moh_a_c,
                        moh_b_c)),
        ensures
            !(c_safe(unhold_key@)
                && c_safe(moh_a@)
                && c_safe(moh_b@)
            ) ==> r == Err::<(), SwitchError>(generic_error()),
            c_safe(unhold_key@)
                && c_safe(moh_a@)
                && c_safe(moh_b@) ==>
                    exists|unhold_key_c: &CText, moh_a_c: &CText, moh_b_c: &CText, reply: RawStatus| {
                &&& unhold_key_c.spells(unhold_key@)
                &&& moh_a_c.spells(moh_a@)
                &&& moh_b_c.spells(moh_b@)
                &&& #[trigger] call.ensures(
                        (self.addr(), unhold_key_c, moh_a_c, moh_b_c),
                        reply,
                    )
                &&& r == status_outcome(reply)
            },
    {
        let unhold_key = cstring(unhold_key)?;
        let moh_a = cstring(moh_a)?;
        let moh_b = cstring(moh_b)?;
        status_to_result(call(self.as_ptr(), &unhold_key, &moh_a, &moh_b))
    }

    /// Plays tones.
    pub fn gentones<F>(self, script: &str, loops: i32, args: Address, call: F) -> (r: Result<()>)
        where
            F: FnOnce(Address, &CText, i32, Address) -> RawStatus,
        requires
            c_safe(script@) ==> forall|script_c: &CText|
                #![trigger call.requires((self.addr(), script_c, loops, args))]
                script_c.spells(script@) ==> call.requires((self.addr(), script_c, loops, args)),
        ensures
            !c_safe(script@) ==> r == Err::<(), SwitchError>(generic_error()),
            c_safe(script@) ==> exists|script_c: &CText, reply: RawStatus| {
                &&& script_c.spells(script@)
                &&& #[trigger] call.ensures((self.addr(), script_c, loops, args), reply)
                &&& r == status_outcome(reply)
            },
    {
        let script = cstring(script)?;
        status_to_result(call(self.as_ptr(), &script, loops, args))
    }

    /// Inserts a file into another one.
    pub fn insert_file<F>(
        self,
        file: &str,
        insert_file: &str,
        sample_point: u64,
        call: F,
    ) -> (r: Result<()>)
        where
            F: FnOnce(Address, &CText, &CText, u64) -> RawStatus,
        requires
            c_safe(file@) && c_safe(insert_file@) ==> forall|file_c: &CText, insert_file_c: &CText|
                #![trigger call.requires((self.addr(), file_c, insert_file_c, sample_point))]
                file_c.spells(file@) && insert_file_c.spells(insert_file@) ==>
                    call.requires((self.addr(), file_c, insert_file_c, sample_point)),
        ensures
            !(c_safe(file@) && c_safe(insert_file@)) ==> r == Err::<(), SwitchError>(generic_error()),
            c_safe(file@) && c_safe(insert_file@) ==>
                exists|file_c: &CText, insert_file_c: &CText, reply: RawStatus| {
                &&& file_c.spells(file@)
                &&& insert_file_c.spells(insert_file@)
                &&& #[trigger] call.ensures(
                        (self.addr(), file_c, insert_file_c, sample_point),
                        reply,
                    )
                &&& r == status_outcome(reply)
            },
    {
        let file = cstring(file)?;
        let insert_file = cstring(insert_file)?;
        status_to_result(call(self.as_ptr(), &file, &insert_file, sample_point))
    }

    /// Calls several numbers at once, with every parameter that the core takes.
    pub fn enterprise_originate<F>(
        self,
        bleg: Address,
        cause: Address,
        bridgeto: &str,
        timelimit_sec: u32,
        table: Address,
        cid_name_override: Address,
        cid_num_override: Address,
        caller_profile_override: Address,
        ovars: Address,
        flags: u32,
        cancel_cause: Address,
        hl: Address,
        call: F,
    ) -> (r: Result<()>)
        where
            F: FnOnce(
                Address,
                Address,
                Address,
                &CText,
                u32,
                Address,
                Address,
                Address,
                Address,
                Address,
                u32,
                Address,
                Address,
            ) -> RawStatus,
        requires
            c_safe(bridgeto@) ==> forall|bridgeto_c: &CText|
                #![trigger call.requires(
                    (
                        self.addr(),
                        bleg,
                        cause,
                        bridgeto_c,
                        timelimit_sec,
                        table,
                        cid_name_override,
                        cid_num_override,
                        caller_profile_override,
                        ovars,
                        flags,
                        cancel_cause,
                        hl,
                    ),
                )]
                bridgeto_c.spells(bridgeto@) ==> call.requires(
                    (
                        self.addr(),
                        bleg,
                        cause,
                        bridgeto_c,
                        timelimit_sec,
                        table,
                        cid_name_override,
                        cid_num_override,
                        caller_profile_override,
                        ovars,
                        flags,
                        cancel_cause,
                        hl,
                    ),
                ),
        ensures
            !c_safe(bridgeto@) ==> r == Err::<(), SwitchError>(generic_error()),
            c_safe(bridgeto@) ==> exists|bridgeto_c: &CText, reply: RawStatus| {
                &&& bridgeto_c.spells(bridgeto@)
                &&& #[trigger] call.ensures(
                        (
                            self.addr(),
                            bleg,
                            cause,
                            bridgeto_c,
                            timelimit_sec,
                            table,
                            cid_name_override,
                            cid_num_override,
                            caller_profile_override,
                            ovars,
                            flags,
                            cancel_cause,
                            hl,
                        ),
                        reply,
                    )
                &&& r == status_outcome(reply)
            },
    {
        let bridgeto = cstring(bridgeto)?;
        status_to_result(
            call(
                self.as_ptr(),
                bleg,
                cause,
                &bridgeto,
                timelimit_sec,
                table,
                cid_name_override,
                cid_num_override,
                caller_profile_override,
                ovars,
                flags,
                cancel_cause,
                hl,
            ),
        )
    }

    /// Calls several numbers at once and bridges with the one that answers.
    pub fn enterprise_orig_and_bridge<F>(
        self,
        data: &str,
        hl: Address,
        cause: Address,
        call: F,
    ) -> (r: Result<()>)
        where
            F: FnOnce(Address, &CText, Address, Address) -> RawStatus,
        requires
            c_safe(data@) ==> forall|data_c: &CText|
                #![trigger call.requires((self.addr(), data_c, hl, cause))]
                data_c.spells(data@) ==> call.requires((self.addr(), data_c, hl, cause)),
        ensures
            !c_safe(data@) ==> r == Err::<(), SwitchError>(generic_error()),
            c_safe(data@) ==> exists|data_c: &CText, reply: RawStatus| {
                &&& data_c.spells(data@)
                &&& #[trigger] call.ensures((self.addr(), data_c, hl, cause), reply)
                &&& r == status_outcome(reply)
            },
    {
        let data = cstring(data)?;
        status_to_result(call(self.as_ptr(), &data, hl, cause))
    }

    /// Calls a number and bridges with it.
    pub fn orig_and_bridge<F>(
        self,
        data: &str,
        dh: Address,
        cause: Address,
        call: F,
    ) -> (r: Result<()>)
        where
            F: FnOnce(Address, &CText, Address, Address) -> RawStatus,
        requires
            c_safe(data@) ==> forall|data_c: &CText|
                #![trigger call.requires((self.addr(), data_c, dh, cause))]
                data_c.spells(data@) ==> call.requires((self.addr(), data_c, dh, cause)),
        ensures
            !c_safe(data@) ==> r == Err::<(), SwitchError>(generic_error()),
            c_safe(data@) ==> exists|data_c: &CText, reply: RawStatus| {
                &&& data_c.spells(data@)
                &&& #[trigger] call.ensures((self.addr(), data_c, dh, cause), reply)
                &&& r == status_outcome(reply)
            },
    {
        let data = cstring(data)?;
        status_to_result(call(self.as_ptr(), &data, dh, cause))
    }

    /// Listens in on a session.
    pub fn eavesdrop_session<F>(
        self,
        uuid: &str,
        require_group: &str,
        flags: u32,
        call: F,
    ) -> (r: Result<()>)
        where
            F: FnOnce(Address, &CText, &CText, u32) -> RawStatus,
        requires
            c_safe(uuid@) && c_safe(require_group@) ==> forall|uuid_c: &CText, require_group_c:
                &CText|
                #![trigger call.requires((self.addr(), uuid_c, require_group_c, flags))]
                uuid_c.spells(uuid@) && require_group_c.spells(require_group@) ==>
                    call.requires((self.addr(), uuid_c, require_group_c, flags)),
        ensures
            !(c_safe(uuid@) && c_safe(require_group@)) ==> r == Err::<(),
                SwitchError>(generic_error()),
            c_safe(uuid@) && c_safe(require_group@) ==>
                exists|uuid_c: &CText, require_group_c: &CText, reply: RawStatus| {
                &&& uuid_c.spells(uuid@)
                &&& require_group_c.spells(require_group@)
                &&& #[trigger] call.ensures(
                        (self.addr(), uuid_c, require_group_c, flags),
                        reply,
                    )
                &&& r == status_outcome(reply)
            },
    {
        let uuid = cstring(uuid)?;
        let require_group = cstring(require_group)?;
        status_to_result(call(self.as_ptr(), &uuid, &require_group, flags))
    }

    /// Takes over a session, or its other leg.
    pub fn intercept_session<F>(self, uuid: &str, bleg: bool, call: F) -> (r: Result<()>)
        where
            F: FnOnce(Address, &CText, SwitchBool) -> RawStatus,
        requires
            c_safe(uuid@) ==> forall|uuid_c: &CText|
                #![trigger call.requires((self.addr(), uuid_c, switch_bool_of(bleg)))]
                uuid_c.spells(uuid@) ==> call.requires((self.addr(), uuid_c, switch_bool_of(bleg))),
        ensures
            !c_safe(uuid@) ==> r == Err::<(), SwitchError>(generic_error()),
            c_safe(uuid@) ==> exists|uuid_c: &CText, reply: RawStatus| {
                &&& uuid_c.spells(uuid@)
                &&& #[trigger] call.ensures((self.addr(), uuid_c, switch_bool_of(bleg)), reply)
                &&& r == status_outcome(reply)
            },
    {
        let uuid = cstring(uuid)?;
        status_to_result(call(self.as_ptr(), &uuid, switch_bool(bleg)))
    }

    /// Waits for audio.
    pub fn detect_audio<F>(
        self,
        thresh: u32,
        audio_hits: u32,
        timeout_ms: u32,
        file: &str,
        call: F,
    ) -> (r: Result<()>)
        where
            F: FnOnce(Address, u32, u32, u32, &CText) -> RawStatus,
        requires
            c_safe(file@) ==> forall|file_c: &CText|
                #![trigger call.requires((self.addr(), thresh, audio_hits, timeout_ms, file_c))]
                file_c.spells(file@) ==> call.requires((self.addr(), thresh, audio_hits, timeout_ms,
                    file_c)),
        ensures
            !c_safe(file@) ==> r == Err::<(), SwitchError>(generic_error()),
            c_safe(file@) ==> exists|file_c: &CText, reply: RawStatus| {
                &&& file_c.spells(file@)
                &&& #[trigger] call.ensures(
                        (self.addr(), thresh, audio_hits, timeout_ms, file_c),
                        reply,
                    )
                &&& r == status_outcome(reply)
            },
    {
        let file = cstring(file)?;
        status_to_result(call(self.as_ptr(), thresh, audio_hits, timeout_ms, &file))
    }

    /// Waits for silence.
    pub fn detect_silence<F>(
        self,
        thresh: u32,
        silence_hits: u32,
        timeout_ms: u32,
        file: &str,
        call: F,
    ) -> (r: Result<()>)
        where
            F: FnOnce(Address, u32, u32, u32, &CText) -> RawStatus,
        requires
            c_safe(file@) ==> forall|file_c: &CText|
                #![trigger call.requires(
                    (self.addr(), thresh, silence_hits, timeout_ms, file_c),
                )]
                file_c.spells(file@) ==> call.requires(
                    (self.addr(), thresh, silence_hits, timeout_ms, file_c),
                ),
        ensures
            !c_safe(file@) ==> r == Err::<(), SwitchError>(generic_error()),
            c_safe(file@) ==> exists|file_c: &CText, reply: RawStatus| {
                &&& file_c.spells(file@)
                &&& #[trigger] call.ensures(
                        (self.addr(), thresh, silence_hits, timeout_ms, file_c),
                        reply,
                    )
                &&& r == status_outcome(reply)
            },
    {
        let file = cstring(file)?;
        status_to_result(call(self.as_ptr(), thresh, silence_hits, timeout_ms, &file))
    }

    /// Sets up echo cancellation, noise suppression and gain control by a list of commands.
    pub fn preprocess_session<F>(self, cmds: &str, call: F) -> (r: Result<()>)
        where
            F: FnOnce(Address, &CText) -> RawStatus,
        requires
            c_safe(cmds@) ==> forall|cmds_c: &CText|
                #![trigger call.requires((self.addr(), cmds_c))]
                cmds_c.spells(cmds@) ==> call.requires((self.addr(), cmds_c)),
        ensures
            !c_safe(cmds@) ==> r == Err::<(), SwitchError>(generic_error()),
            c_safe(cmds@) ==> exists|cmds_c: &CText, reply: RawStatus| {
                &&& cmds_c.spells(cmds@)
                &&& #[trigger] call.ensures((self.addr(), cmds_c), reply)
                &&& r == status_outcome(reply)
            },
    {
        let cmds = cstring(cmds)?;
        status_to_result(call(self.as_ptr(), &cmds))
    }

    /// Transfers the session to an extension.
    pub fn transfer<F>(
        self,
        extension: &str,
        dialplan: &str,
        context: &str,
        call: F,
    ) -> (r: Result<()>)
        where
            F: FnOnce(Address, &CText, &CText, &CText) -> RawStatus,
        requires
            c_safe(extension@)
                && c_safe(dialplan@)
                && c_safe(context@) ==> forall|extension_c: &CText, dialplan_c: &CText, context_c:
                    &CText|
                #![trigger call.requires((self.addr(), extension_c, dialplan_c, context_c))]
                extension_c.spells(extension@)
                    && dialplan_c.spells(dialplan@)
                    && context_c.spells(context@) ==> call.requires((self.addr(), extension_c,
                        dialplan_c, context_c)),
        ensures
            !(c_safe(extension@)
                && c_safe(dialplan@)
                && c_safe(context@)
            ) ==> r == Err::<(), SwitchError>(generic_error()),
            c_safe(extension@)
                && c_safe(dialplan@)
                && c_safe(context@) ==> exists|
                    extension_c: &CText,
                    dialplan_c: &CText,
                    context_c: &CText,
                    reply: RawStatus,
                | {
                &&& extension_c.spells(extension@)
                &&& dialplan_c.spells(dialplan@)
                &&& context_c.spells(context@)
                &&& #[trigger] call.ensures(
                        (self.addr(), extension_c, dialplan_c, context_c),
                        reply,
                    )
                &&& r == status_outcome(reply)
            },
    {
        let extension = cstring(extension)?;
        let dialplan = cstring(dialplan)?;
        let context = cstring(context)?;
        status_to_result(call(self.as_ptr(), &extension, &dialplan, &context))
    }

    /// Bridges the signalling with another session.
    pub fn signal_bridge<F>(self, peer_session: Session, call: F) -> (r: Result<()>)
        where
            F: FnOnce(Address, Address) -> RawStatus,
        requires
            call.requires((self.addr(), peer_session.addr())),
        ensures
            exists|reply: RawStatus| {
                &&& #[trigger] call.ensures((self.addr(), peer_session.addr()), reply)
                &&& r == status_outcome(reply)
            },
    {
        status_to_result(call(self.as_ptr(), peer_session.as_ptr()))
    }

    /// Collects up to `max_digits` digits into `buf`; a character of `terminators` ends it early.
    /// Timeouts are in milliseconds. `call` returns what it has put into the buffer and the
    /// terminator that was pressed, zero for none.
    ///
    /// The number of digits is the length of the C string in the buffer. It is stored, and the
    /// terminator with it, whatever the status.
    pub fn collect_digits_count<F>(
        self,
        buf: &mut [u8],
        max_digits: usize,
        terminators: &str,
        first_timeout: u32,
        digit_timeout: u32,
        abs_timeout: u32,
        out_count: &mut usize,
        out_terminator: &mut String,
        call: F,
    ) -> (r: Result<()>)
        where
            F: FnOnce(Address, usize, usize, &CText, u32, u32, u32) -> (Filled, u8),
        requires
            c_safe(terminators@) ==> forall|t: &CText|
                #![trigger call.requires((self.addr(), old(buf)@.len() as usize, max_digits, t,
                    first_timeout, digit_timeout, abs_timeout))]
                t.spells(terminators@) ==> call.requires((self.addr(), old(buf)@.len() as usize,
                    max_digits, t, first_timeout, digit_timeout, abs_timeout)),
            forall|a: Address, b: usize, c: usize, d: &CText, e: u32, f: u32, g: u32, h: Filled, i:
                u8|
                #[trigger] call.ensures((a, b, c, d, e, f, g), (h, i)) ==> h.bytes@.len() <= b,
        ensures
            final(buf)@.len() == old(buf)@.len(),
            !c_safe(terminators@) ==> r == Err::<(), SwitchError>(generic_error()) && final(buf)@
                == old(buf)@ && *final(out_count) == *old(out_count) && final(out_terminator)@
                == old(out_terminator)@,
            c_safe(terminators@) ==> exists|t: &CText, reply: Filled, term: u8|
                t.spells(terminators@) && #[trigger] call.ensures(
                    (
                        self.addr(),
                        old(buf)@.len() as usize,
                        max_digits,
                        t,
                        first_timeout,
                        digit_timeout,
                        abs_timeout,
                    ),
                    (reply, term),
                ) && final(buf)@ == reply.bytes@ + old(buf)@.skip(reply.bytes@.len() as int)
                    && *final(out_count) == first_zero(final(buf)@) && final(out_terminator)@
                    == terminator_of(term) && r == status_outcome(reply.status),
    {
        let terminators = cstring(terminators)?;
        let room: usize = buf.len();
        proof {
            assert(room == old(buf)@.len() as usize);
        }
        let (reply, term) = call(
            self.as_ptr(),
            room,
            max_digits,
            &terminators,
            first_timeout,
            digit_timeout,
            abs_timeout,
        );
        overwrite_head(buf, &reply.bytes);
        *out_terminator = if term != 0 {
            latin_text(term)
        } else {
            String::new()
        };
        *out_count = nul_position(&*buf);
        status_to_result(reply.status)
    }

    /// Plays a prompt and collects digits into `buf`, and into a variable. Timeouts are in
    /// milliseconds. The number of digits is the length of the C string in the buffer; it is stored
    /// whatever the status.
    pub fn read<F>(
        self,
        min_digits: u32,
        max_digits: u32,
        prompt_audio_file: &str,
        var_name: &str,
        buf: &mut [u8],
        timeout: u32,
        valid_terminators: &str,
        digit_timeout: u32,
        out_count: &mut usize,
        call: F,
    ) -> (r: Result<()>)
        where
            F: FnOnce(Address, u32, u32, &CText, &CText, usize, u32, &CText, u32) -> Filled,
        requires
            c_safe(prompt_audio_file@) && c_safe(var_name@) && c_safe(valid_terminators@) ==>
                forall|p: &CText, n: &CText, t: &CText|
                #![trigger call.requires((self.addr(), min_digits, max_digits, p, n, old(buf)@.len()
                    as usize, timeout, t, digit_timeout))]
                p.spells(prompt_audio_file@) && n.spells(var_name@) && t.spells(valid_terminators@)
                    ==> call.requires((self.addr(), min_digits, max_digits, p, n, old(buf)@.len() as
                    usize, timeout, t, digit_timeout)),
            forall|
                a: Address,
                b: u32,
                c: u32,
                d: &CText,
                e: &CText,
                f: usize,
                g: u32,
                h: &CText,
                i: u32,
                v: Filled,
            |
                #[trigger] call.ensures((a, b, c, d, e, f, g, h, i), v) ==> v.bytes@.len() <= f,
        ensures
            final(buf)@.len() == old(buf)@.len(),
            !(c_safe(prompt_audio_file@) && c_safe(var_name@) && c_safe(valid_terminators@)) ==> r
                == Err::<(), SwitchError>(generic_error()) && final(buf)@ == old(buf)@
                && *final(out_count) == *old(out_count),
            c_safe(prompt_audio_file@) && c_safe(var_name@) && c_safe(valid_terminators@) ==> exists|
                p: &CText,
                n: &CText,
                t: &CText,
                reply: Filled,
            |
                p.spells(prompt_audio_file@) && n.spells(var_name@) && t.spells(valid_terminators@)
                    && #[trigger] call.ensures(
                    (
                        self.addr(),
                        min_digits,
                        max_digits,
                        p,
                        n,
                        old(buf)@.len() as usize,
                        timeout,
                        t,
                        digit_timeout,
                    ),
                    reply,
                ) && final(buf)@ == reply.bytes@ + old(buf)@.skip(reply.bytes@.len() as int)
                    && *final(out_count) == first_zero(final(buf)@) && r == status_outcome(
                    reply.status,
                ),
    {
        let prompt = cstring(prompt_audio_file)?;
        let var = cstring(var_name)?;
        let terminators = cstring(valid_terminators)?;
        let room: usize = buf.len();
        proof {
            assert(room == old(buf)@.len() as usize);
        }
        let reply = call(
            self.as_ptr(),
            min_digits,
            max_digits,
            &prompt,
            &var,
            room,
            timeout,
            &terminators,
            digit_timeout,
        );
        overwrite_head(buf, &reply.bytes);
        *out_count = nul_position(&*buf);
        status_to_result(reply.status)
    }

    /// Whether the session is on hold, by the flag of its channel. `check` makes the core look;
    /// a session without a channel is not on hold.
    pub fn check_hold<K, C, T>(self, check: K, channel_of: C, test_flag: T) -> (r: bool)
        where
            K: FnOnce(Address),
            C: FnOnce(Address) -> Address,
            T: FnOnce(Address, u32) -> u32,
        requires
            check.requires((self.addr(),)),
            check.ensures((self.addr(),), ()) ==> channel_of.requires((self.addr(),)),
            forall|channel: Address| #[trigger]
                channel_of.ensures((self.addr(),), channel) && channel != NULL ==> test_flag.requires(
                    (channel, CHANNEL_FLAG_HOLD),
                ),
        ensures
            check.ensures((self.addr(),), ()),
            exists|channel: Address| #[trigger]
                channel_of.ensures((self.addr(),), channel) && if channel == NULL {
                    !r
                } else {
                    exists|set: u32| #[trigger]
                        test_flag.ensures((channel, CHANNEL_FLAG_HOLD), set) && r == (set != 0)
                },
    {
        check(self.as_ptr());
        let channel: Address = channel_of(self.as_ptr());
        if channel == NULL {
            return false;
        }
        let set: u32 = test_flag(channel, CHANNEL_FLAG_HOLD);
        set != 0
    }

    /// Broadcasts an application to the session from a thread of its own. The text is first copied
    /// into the session's pool by `strdup`, because the thread reads it later; no room is an error.
    pub fn broadcast_in_thread<S, F>(self, app: &str, flags: i32, strdup: S, call: F) -> (r: Result<
        (),
    >)
        where
            S: FnOnce(Address, &CText) -> Address,
            F: FnOnce(Address, Address, i32),
        requires
            c_safe(app@) ==> forall|t: &CText|
                #![trigger strdup.requires((self.addr(), t))]
                t.spells(app@) ==> strdup.requires((self.addr(), t)),
            forall|t: &CText, pooled: Address| #[trigger]
                strdup.ensures((self.addr(), t), pooled) && t.spells(app@) && pooled != NULL
                    ==> call.requires((self.addr(), pooled, flags)),
        ensures
            !c_safe(app@) ==> r == Err::<(), SwitchError>(generic_error()),
            c_safe(app@) ==> exists|t: &CText, pooled: Address|
                t.spells(app@) && #[trigger] strdup.ensures((self.addr(), t), pooled) && if pooled
                    == NULL {
                    r == Err::<(), SwitchError>(generic_error())
                } else {
                    r == Ok::<(), SwitchError>(()) && call.ensures((self.addr(), pooled, flags), ())
                },
    {
        let app = cstring(app)?;
        let pooled: Address = strdup(self.as_ptr(), &app);
        if pooled == NULL {
            return Err(SwitchError::generic());
        }
        call(self.as_ptr(), pooled, flags);
        Ok(())
    }

    /// Takes one session off those that listen in on this one; there may be none.
    pub fn eavesdrop_pop_eavesdropper<F>(self, call: F) -> (r: Result<Option<Session>>)
        where
            F: FnOnce(Address) -> Created,
        requires
            call.requires((self.addr(),)),
        ensures
            exists|reply: Created| #[trigger]
                call.ensures((self.addr(),), reply) && match status_outcome(reply.status) {
                    Ok(_) => r matches Ok(s) && maybe_at(s, reply.raw),
                    Err(e) => r == Err::<Option<Session>, SwitchError>(e),
                },
    {
        let reply = call(self.as_ptr());
        status_to_result(reply.status)?;
        Ok(Session::from_raw(reply.raw))
    }

    /// Calls a number from the session. `cid_name` and `cid_num`, where they are given, are shown as
    /// the caller.
    pub fn originate<F>(
        self,
        bridge_to: &str,
        timelimit_sec: u32,
        cid_name: Option<&str>,
        cid_num: Option<&str>,
        call: F,
    ) -> (r: Result<OriginateOutcome>)
        where
            F: FnOnce(Address, OriginateRequest<'_>) -> Originated,
        requires
            c_safe(bridge_to@) && optional_safe(cid_name) && optional_safe(cid_num) ==> forall|
                q: OriginateRequest<'_>,
            |
                #![trigger call.requires((self.addr(), q))]
                plain_call(q, bridge_to, timelimit_sec, cid_name, cid_num) ==> call.requires(
                    (self.addr(), q),
                ),
        ensures
            !(c_safe(bridge_to@) && optional_safe(cid_name) && optional_safe(cid_num)) ==> r == Err::<
                OriginateOutcome,
                SwitchError,
            >(generic_error()),
            c_safe(bridge_to@) && optional_safe(cid_name) && optional_safe(cid_num) ==> exists|
                q: OriginateRequest<'_>,
                reply: Originated,
            |
                plain_call(q, bridge_to, timelimit_sec, cid_name, cid_num) && #[trigger] call.ensures(
                    (self.addr(), q),
                    reply,
                ) && originated(r, reply),
    {
        let bridge_to = cstring(bridge_to)?;
        let cid_name = optional_cstring(cid_name)?;
        let cid_num = optional_cstring(cid_num)?;
        self.originate_raw(
            OriginateRequest {
                bridge_to: &bridge_to,
                timelimit_sec,
                table: NULL,
                cid_name: cid_name.as_ref(),
                cid_num: cid_num.as_ref(),
                caller_profile_override: NULL,
                ovars: NULL,
                flags: 0,
                dh: NULL,
            },
            call,
        )
    }

    /// Calls a number from the session, with every parameter that the core takes.
    pub fn originate_raw<F>(self, request: OriginateRequest<'_>, call: F) -> (r: Result<
        OriginateOutcome,
    >)
        where
            F: FnOnce(Address, OriginateRequest<'_>) -> Originated,
        requires
            call.requires((self.addr(), request)),
        ensures
            exists|reply: Originated| #[trigger]
                call.ensures((self.addr(), request), reply) && originated(r, reply),
    {
        let reply = call(self.as_ptr(), request);
        let peer = Session::from_raw(reply.peer);
        status_to_result(reply.status)?;
        Ok(
            OriginateOutcome {
                peer,
                cause: Cause::from_raw(reply.cause),
                cancel_cause: Cause::from_raw(reply.cancel_cause),
            },
        )
    }

    /// Bridges the session with another one until one of them hangs up, without a callback and
    /// without data for it.
    pub fn multi_threaded_bridge<F>(self, peer: Session, call: F) -> (r: Result<()>)
        where
            F: FnOnce(Address, Address, Address, Address, Address) -> RawStatus,
        requires
            call.requires((self.addr(), peer.addr(), NULL, NULL, NULL)),
        ensures
            exists|reply: RawStatus| #[trigger]
                call.ensures((self.addr(), peer.addr(), NULL, NULL, NULL), reply) && r
                    == status_outcome(reply),
    {
        self.multi_threaded_bridge_raw(peer, NULL, NULL, NULL, call)
    }

    /// The pronunciation of a text, as text. `call` returns the status and what the core has put
    /// together, which may be nothing.
    pub fn say_string<F, D>(
        self,
        lang: Option<&str>,
        ext: Option<&str>,
        to_say: &str,
        module_name: &str,
        say_type: &str,
        say_method: &str,
        say_gender: Option<&str>,
        call: F,
        free: D,
    ) -> (r: Result<Option<String>>)
        where
            F: FnOnce(
                Address,
                Option<&CText>,
                Option<&CText>,
                &CText,
                &CText,
                &CText,
                &CText,
                Option<&CText>,
            ) -> (RawStatus, Address, Vec<u8>),
            D: FnOnce(Address),
        requires
            optional_safe(lang) && optional_safe(ext) && c_safe(to_say@) && c_safe(module_name@)
                && c_safe(say_type@) && c_safe(say_method@) && optional_safe(say_gender) ==> forall|
                l: Option<&CText>,
                x: Option<&CText>,
                s: &CText,
                m: &CText,
                t: &CText,
                h: &CText,
                g: Option<&CText>,
            |
                #![trigger call.requires((self.addr(), l, x, s, m, t, h, g))]
                optional_spells(l, lang) && optional_spells(x, ext) && s.spells(to_say@) && m.spells(
                    module_name@,
                ) && t.spells(say_type@) && h.spells(say_method@) && optional_spells(g, say_gender)
                    ==> call.requires((self.addr(), l, x, s, m, t, h, g)),
            forall|
                l: Option<&CText>,
                x: Option<&CText>,
                s: &CText,
                m: &CText,
                t: &CText,
                h: &CText,
                g: Option<&CText>,
                at: Address,
                bytes: Vec<u8>,
            | #[trigger]
                call.ensures((self.addr(), l, x, s, m, t, h, g), (SUCCESS, at, bytes)) && at != NULL
                    ==> free.requires((at,)),
        ensures
            !(optional_safe(lang) && optional_safe(ext) && c_safe(to_say@) && c_safe(module_name@)
                && c_safe(say_type@) && c_safe(say_method@) && optional_safe(say_gender)) ==> r
                == Err::<Option<String>, SwitchError>(generic_error()),
            optional_safe(lang) && optional_safe(ext) && c_safe(to_say@) && c_safe(module_name@)
                && c_safe(say_type@) && c_safe(say_method@) && optional_safe(say_gender) ==> exists|
                l: Option<&CText>,
                x: Option<&CText>,
                s: &CText,
                m: &CText,
                t: &CText,
                h: &CText,
                g: Option<&CText>,
                status: RawStatus,
                at: Address,
                bytes: Vec<u8>,
            |
                optional_spells(l, lang) && optional_spells(x, ext) && s.spells(to_say@) && m.spells(
                    module_name@,
                ) && t.spells(say_type@) && h.spells(say_method@) && optional_spells(g, say_gender)
                    && #[trigger] call.ensures((self.addr(), l, x, s, m, t, h, g), (status, at,
                        bytes))
                    && match status_outcome(status) {
                    Ok(_) => (r matches Ok(v) && text_is(v, owned_text(at, bytes))) && (at != NULL ==>
                        free.ensures((at,), ())),
                    Err(e) => r == Err::<Option<String>, SwitchError>(e),
                },
    {
        let lang = optional_cstring(lang)?;
        let ext = optional_cstring(ext)?;
        let to_say = cstring(to_say)?;
        let module_name = cstring(module_name)?;
        let say_type = cstring(say_type)?;
        let say_method = cstring(say_method)?;
        let say_gender = optional_cstring(say_gender)?;
        let (status, at, bytes) = call(
            self.as_ptr(),
            lang.as_ref(),
            ext.as_ref(),
            &to_say,
            &module_name,
            &say_type,
            &say_method,
            say_gender.as_ref(),
        );
        status_to_result(status)?;
        Ok(strdup_to_string(at, bytes, free))
    }

    /// The record of the call in JSON: the address of a document that the caller owns.
    pub fn generate_json_cdr<F>(self, urlencode: bool, call: F) -> (r: Result<Address>)
        where
            F: FnOnce(Address, SwitchBool) -> Created,
        requires
            call.requires((self.addr(), switch_bool_of(urlencode))),
        ensures
            exists|reply: Created| #[trigger]
                call.ensures((self.addr(), switch_bool_of(urlencode)), reply) && r
                    == match status_outcome(reply.status) {
                    Ok(_) => Ok::<Address, SwitchError>(reply.raw),
                    Err(e) => Err(e),
                },
    {
        let reply = call(self.as_ptr(), switch_bool(urlencode));
        status_to_result(reply.status)?;
        Ok(reply.raw)
    }

    /// The record of the call in XML: the address of a document that the caller owns.
    pub fn generate_xml_cdr<F>(self, call: F) -> (r: Result<Address>)
        where
            F: FnOnce(Address) -> Created,
        requires
            call.requires((self.addr(),)),
        ensures
            exists|reply: Created| #[trigger]
                call.ensures((self.addr(),), reply) && r == match status_outcome(reply.status) {
                    Ok(_) => Ok::<Address, SwitchError>(reply.raw),
                    Err(e) => Err(e),
                },
    {
        let reply = call(self.as_ptr());
        status_to_result(reply.status)?;
        Ok(reply.raw)
    }
}

/// The terminator that was pressed, as text; zero says that none was.
pub open spec fn terminator_of(term: u8) -> Seq<char> {
    if term != 0 {
        seq![term as char]
    } else {
        Seq::empty()
    }
}

/// A menu is asked for as it was configured, each text and each number under its own name.
pub proof fn menus_are_asked_for_as_configured(
    config: IvrMenuConfig<'_>,
    q: IvrMenuRequest<'_>,
    main: Address,
    pool: Address,
)
    requires
        config.asks(q, main, pool),
    ensures
        q.main == main,
        q.pool == pool,
        q.name@ == encode_utf8(config.name@),
        q.greeting_sound@ == encode_utf8(config.greeting_sound@),
        q.short_greeting_sound@ == encode_utf8(config.short_greeting_sound@),
        q.invalid_sound@ == encode_utf8(config.invalid_sound@),
        q.exit_sound@ == encode_utf8(config.exit_sound@),
        q.transfer_sound@ == encode_utf8(config.transfer_sound@),
        q.confirm_macro@ == encode_utf8(config.confirm_macro@),
        q.confirm_key@ == encode_utf8(config.confirm_key@),
        q.tts_engine@ == encode_utf8(config.tts_engine@),
        q.tts_voice@ == encode_utf8(config.tts_voice@),
        q.confirm_attempts == config.confirm_attempts,
        q.inter_timeout == config.inter_timeout,
        q.digit_len == config.digit_len,
        q.timeout == config.timeout,
        q.max_failures == config.max_failures,
        q.max_timeouts == config.max_timeouts,
{
}

/// A menu can be asked for exactly where none of its texts holds a NUL character.
pub proof fn menus_without_nul_are_safe(config: IvrMenuConfig<'_>)
    ensures
        config.safe() <==> {
            &&& !config.name@.contains('\0')
            &&& !config.greeting_sound@.contains('\0')
            &&& !config.short_greeting_sound@.contains('\0')
            &&& !config.invalid_sound@.contains('\0')
            &&& !config.exit_sound@.contains('\0')
            &&& !config.transfer_sound@.contains('\0')
            &&& !config.confirm_macro@.contains('\0')
            &&& !config.confirm_key@.contains('\0')
            &&& !config.tts_engine@.contains('\0')
            &&& !config.tts_voice@.contains('\0')
        },
{
    c_safe_is_without_nul(config.name@);
    c_safe_is_without_nul(config.greeting_sound@);
    c_safe_is_without_nul(config.short_greeting_sound@);
    c_safe_is_without_nul(config.invalid_sound@);
    c_safe_is_without_nul(config.exit_sound@);
    c_safe_is_without_nul(config.transfer_sound@);
    c_safe_is_without_nul(config.confirm_macro@);
    c_safe_is_without_nul(config.confirm_key@);
    c_safe_is_without_nul(config.tts_engine@);
    c_safe_is_without_nul(config.tts_voice@);
}

/// A menu is made of a request that asks for its configuration, and is there exactly where that
/// succeeded; a configuration that cannot be asked for is the general error.
pub proof fn menus_are_made_where_it_succeeded<F>(
    call: F,
    config: &IvrMenuConfig<'_>,
    main: Address,
    pool: Address,
    r: Result<IvrMenu>,
) where F: FnOnce(IvrMenuRequest<'_>) -> Created
    requires
        menu_made(call, config, main, pool, r),
    ensures
        !config.safe() ==> (r matches Err(e) && e.0.0 == 9),
        config.safe() ==> exists|q: IvrMenuRequest<'_>, reply: Created|
            config.asks(q, main, pool) && #[trigger] call.ensures((q,), reply) && (r is Ok
                <==> reply.status == 0 && reply.raw != 0) && (r matches Ok(m) ==> m.addr()
                == reply.raw) && (r matches Err(e) ==> e.0.0 == if reply.status != 0 {
                reply.status
            } else {
                9
            }),
{
}

/// Digits have matched where the call succeeded and gave a match, which is the one at that address; the
/// status of a call that failed is the error.
pub proof fn matches_are_found_where_they_are(
    r: Result<Option<DmachineMatch<'_>>>,
    reply: Created,
)
    requires
        match_found(r, reply),
    ensures
        r is Ok <==> reply.status == 0,
        r matches Err(e) ==> e.0.0 == reply.status,
        r matches Ok(m) ==> (m is Some <==> reply.raw != 0),
        r matches Ok(Some(m)) ==> m.addr() == reply.raw,
{
}

/// A call that was originated has the leg that answered, where one did, and the two causes, each under
/// its own name; the status of one that failed is the error.
pub proof fn originated_calls_keep_their_causes(r: Result<OriginateOutcome>, reply: Originated)
    requires
        originated(r, reply),
    ensures
        r is Ok <==> reply.status == 0,
        r matches Err(e) ==> e.0.0 == reply.status,
        r matches Ok(o) ==> o.cause.0 == reply.cause && o.cancel_cause.0 == reply.cancel_cause,
        r matches Ok(o) ==> (o.peer is Some <==> reply.peer != 0),
        r matches Ok(o) ==> (o.peer matches Some(s) ==> s.addr() == reply.peer),
{
}

/// A plain call is made to the number that was given, within the time that was given, with the caller's
/// name and number where they were given, and with nothing else.
pub proof fn plain_calls_leave_the_rest_out(
    q: OriginateRequest<'_>,
    bridge_to: &str,
    timelimit_sec: u32,
    cid_name: Option<&str>,
    cid_num: Option<&str>,
)
    requires
        plain_call(q, bridge_to, timelimit_sec, cid_name, cid_num),
    ensures
        q.bridge_to@ == encode_utf8(bridge_to@),
        q.timelimit_sec == timelimit_sec,
        cid_name is None <==> q.cid_name is None,
        cid_name is Some ==> q.cid_name->0@ == encode_utf8(cid_name->0@),
        cid_num is None <==> q.cid_num is None,
        cid_num is Some ==> q.cid_num->0@ == encode_utf8(cid_num->0@),
        q.table == 0,
        q.caller_profile_override == 0,
        q.ovars == 0,
        q.flags == 0,
        q.dh == 0,
{
}

/// A terminator is the one character whose code it is, and no text where none was pressed.
pub proof fn terminators_are_their_codes(term: u8)
    ensures
        term == 0 ==> terminator_of(term).len() == 0,
        term != 0 ==> terminator_of(term).len() == 1 && terminator_of(term)[0] as int == term,
{
}

/// Which leg the digits are for, by the numbers of the targets.
pub proof fn digit_targets_are_told_by_number(t: DigitActionTarget)
    ensures
        t.for_self() <==> t.0 == 0 || t.0 == 2,
        t.for_peer() <==> t.0 == 1 || t.0 == 2,
{
}

/// The union of two sets of flags has a flag exactly where one of them has it.
pub proof fn media_union_has_the_flags_of_both(a: MediaFlag, b: MediaFlag, k: u32)
    requires
        k < 32,
    ensures
        (vstd::std_specs::ops::BitOrSpec::bitor_spec(a, b).0 >> k) & 1 == 1 <==> (a.0 >> k) & 1 == 1
            || (b.0 >> k) & 1 == 1,
{
    let x = a.0;
    let y = b.0;
    assert(((x | y) >> k) & 1 == 1 <==> (x >> k) & 1 == 1 || (y >> k) & 1 == 1) by (bit_vector);
}

} // verus!
