//! Registration of a module and of the interfaces that it offers.
//!
//! The core allocates each interface; the module fills in its name and its callbacks. An address of
//! a callback is `None` where the callback is not set.

use vstd::prelude::*;
use vstd::utf8::encode_utf8;
use crate::command::{c_safe, c_safe_is_without_nul, cstring, CText, StaticCStr};
use crate::handle::{allocated, allocated_at, maybe_at, Address, At, Handle, NULL};
use crate::status::{generic_error, RawStatus, Result, Status, SwitchError, GENERR, SUCCESS};

verus! {

// The addresses of the callbacks, one alias for each; `None` is a callback that is not set.
pub type TimerInitFn = Option<Address>;
pub type TimerNextFn = Option<Address>;
pub type TimerStepFn = Option<Address>;
pub type TimerSyncFn = Option<Address>;
pub type TimerCheckFn = Option<Address>;
pub type TimerDestroyFn = Option<Address>;
pub type FileOpenFn = Option<Address>;
pub type FileCloseFn = Option<Address>;
pub type FileTruncateFn = Option<Address>;
pub type FileReadFn = Option<Address>;
pub type FileWriteFn = Option<Address>;
pub type SpeechOpenFn = Option<Address>;
pub type SpeechCloseFn = Option<Address>;
pub type SpeechFeedTtsFn = Option<Address>;
pub type SpeechReadTtsFn = Option<Address>;
pub type AsrOpenFn = Option<Address>;
pub type AsrLoadGrammarFn = Option<Address>;
pub type AsrUnloadGrammarFn = Option<Address>;
pub type AsrCloseFn = Option<Address>;
pub type AsrFeedFn = Option<Address>;
pub type SayFn = Option<Address>;
pub type SayStringFn = Option<Address>;
pub type DirectoryOpenFn = Option<Address>;
pub type DirectoryCloseFn = Option<Address>;
pub type DirectoryQueryFn = Option<Address>;
pub type DirectoryNextFn = Option<Address>;
pub type DirectoryNextPairFn = Option<Address>;
pub type ChatSendFn = Option<Address>;
pub type ManagementFn = Option<Address>;
pub type LimitIncrFn = Option<Address>;
pub type LimitReleaseFn = Option<Address>;
pub type LimitUsageFn = Option<Address>;
pub type LimitResetFn = Option<Address>;
pub type LimitStatusFn = Option<Address>;
pub type LimitIntervalResetFn = Option<Address>;
pub type DbHandleNewFn = Option<Address>;
pub type DbHandleDestroyFn = Option<Address>;
pub type DbExecDetailedFn = Option<Address>;
pub type DialplanHuntFn = Option<Address>;

/// The kinds of interface that a module can offer.
#[derive(Debug, Copy, Clone, PartialEq, Eq, Structural)]
pub enum InterfaceKind {
    Endpoint,
    Timer,
    Dialplan,
    Application,
    Api,
    File,
    Speech,
    Directory,
    Chat,
    Say,
    Asr,
    Management,
    Limit,
    ChatApplication,
    JsonApi,
    Database,
}

/// The number by which the core knows a kind of interface.
pub open spec fn number_of(kind: InterfaceKind) -> u32 {
    match kind {
        InterfaceKind::Endpoint => 0,
        InterfaceKind::Timer => 1,
        InterfaceKind::Dialplan => 2,
        InterfaceKind::Application => 4,
        InterfaceKind::Api => 5,
        InterfaceKind::File => 6,
        InterfaceKind::Speech => 7,
        InterfaceKind::Directory => 8,
        InterfaceKind::Chat => 9,
        InterfaceKind::Say => 10,
        InterfaceKind::Asr => 11,
        InterfaceKind::Management => 12,
        InterfaceKind::Limit => 13,
        InterfaceKind::ChatApplication => 14,
        InterfaceKind::JsonApi => 15,
        InterfaceKind::Database => 16,
    }
}

/// The number by which the core knows a kind of interface.
pub fn interface_number(kind: InterfaceKind) -> (r: u32)
    ensures
        r == number_of(kind),
{
    match kind {
        InterfaceKind::Endpoint => 0,
        InterfaceKind::Timer => 1,
        InterfaceKind::Dialplan => 2,
        InterfaceKind::Application => 4,
        InterfaceKind::Api => 5,
        InterfaceKind::File => 6,
        InterfaceKind::Speech => 7,
        InterfaceKind::Directory => 8,
        InterfaceKind::Chat => 9,
        InterfaceKind::Say => 10,
        InterfaceKind::Asr => 11,
        InterfaceKind::Management => 12,
        InterfaceKind::Limit => 13,
        InterfaceKind::ChatApplication => 14,
        InterfaceKind::JsonApi => 15,
        InterfaceKind::Database => 16,
    }
}

/// No two kinds of interface have one number.
pub proof fn interface_numbers_are_distinct(a: InterfaceKind, b: InterfaceKind)
    requires
        number_of(a) == number_of(b),
    ensures
        a == b,
{
}

/// The callbacks of this kind of interface; one that is not set is `None`.
#[derive(Debug, Copy, Clone, PartialEq, Eq, Structural)]
pub struct TimerCallbacks {
    pub timer_init: TimerInitFn,
    pub timer_next: TimerNextFn,
    pub timer_step: TimerStepFn,
    pub timer_sync: TimerSyncFn,
    pub timer_check: TimerCheckFn,
    pub timer_destroy: TimerDestroyFn,
}

impl Default for TimerCallbacks {
    fn default() -> (r: TimerCallbacks)
        ensures
            r == (TimerCallbacks {
                timer_init: None,
                timer_next: None,
                timer_step: None,
                timer_sync: None,
                timer_check: None,
                timer_destroy: None,
            }),
    {
        TimerCallbacks {
            timer_init: None,
            timer_next: None,
            timer_step: None,
            timer_sync: None,
            timer_check: None,
            timer_destroy: None,
        }
    }
}

/// The callbacks of this kind of interface; one that is not set is `None`.
#[derive(Debug, Copy, Clone, PartialEq, Eq, Structural)]
pub struct FileCallbacks {
    pub file_open: FileOpenFn,
    pub file_close: FileCloseFn,
    pub file_truncate: FileTruncateFn,
    pub file_read: FileReadFn,
    pub file_write: FileWriteFn,
}

impl Default for FileCallbacks {
    fn default() -> (r: FileCallbacks)
        ensures
            r == (FileCallbacks {
                file_open: None,
                file_close: None,
                file_truncate: None,
                file_read: None,
                file_write: None,
            }),
    {
        FileCallbacks {
            file_open: None,
            file_close: None,
            file_truncate: None,
            file_read: None,
            file_write: None,
        }
    }
}

/// The callbacks of this kind of interface; one that is not set is `None`.
#[derive(Debug, Copy, Clone, PartialEq, Eq, Structural)]
pub struct SpeechCallbacks {
    pub speech_open: SpeechOpenFn,
    pub speech_close: SpeechCloseFn,
    pub speech_feed_tts: SpeechFeedTtsFn,
    pub speech_read_tts: SpeechReadTtsFn,
}

impl Default for SpeechCallbacks {
    fn default() -> (r: SpeechCallbacks)
        ensures
            r == (SpeechCallbacks {
                speech_open: None,
                speech_close: None,
                speech_feed_tts: None,
                speech_read_tts: None,
            }),
    {
        SpeechCallbacks {
            speech_open: None,
            speech_close: None,
            speech_feed_tts: None,
            speech_read_tts: None,
        }
    }
}

/// The callbacks of this kind of interface; one that is not set is `None`.
#[derive(Debug, Copy, Clone, PartialEq, Eq, Structural)]
pub struct AsrCallbacks {
    pub asr_open: AsrOpenFn,
    pub asr_load_grammar: AsrLoadGrammarFn,
    pub asr_unload_grammar: AsrUnloadGrammarFn,
    pub asr_close: AsrCloseFn,
    pub asr_feed: AsrFeedFn,
}

impl Default for AsrCallbacks {
    fn default() -> (r: AsrCallbacks)
        ensures
            r == (AsrCallbacks {
                asr_open: None,
                asr_load_grammar: None,
                asr_unload_grammar: None,
                asr_close: None,
                asr_feed: None,
            }),
    {
        AsrCallbacks {
            asr_open: None,
            asr_load_grammar: None,
            asr_unload_grammar: None,
            asr_close: None,
            asr_feed: None,
        }
    }
}

/// The callbacks of this kind of interface; one that is not set is `None`.
#[derive(Debug, Copy, Clone, PartialEq, Eq, Structural)]
pub struct SayCallbacks {
    pub say_function: SayFn,
    pub say_string_function: SayStringFn,
}

impl Default for SayCallbacks {
    fn default() -> (r: SayCallbacks)
        ensures
            r == (SayCallbacks { say_function: None, say_string_function: None }),
    {
        SayCallbacks { say_function: None, say_string_function: None }
    }
}

/// The callbacks of this kind of interface; one that is not set is `None`.
#[derive(Debug, Copy, Clone, PartialEq, Eq, Structural)]
pub struct DirectoryCallbacks {
    pub directory_open: DirectoryOpenFn,
    pub directory_close: DirectoryCloseFn,
    pub directory_query: DirectoryQueryFn,
    pub directory_next: DirectoryNextFn,
    pub directory_next_pair: DirectoryNextPairFn,
}

impl Default for DirectoryCallbacks {
    fn default() -> (r: DirectoryCallbacks)
        ensures
            r == (DirectoryCallbacks {
                directory_open: None,
                directory_close: None,
                directory_query: None,
                directory_next: None,
                directory_next_pair: None,
            }),
    {
        DirectoryCallbacks {
            directory_open: None,
            directory_close: None,
            directory_query: None,
            directory_next: None,
            directory_next_pair: None,
        }
    }
}

/// The callbacks of this kind of interface; one that is not set is `None`.
#[derive(Debug, Copy, Clone, PartialEq, Eq, Structural)]
pub struct ChatCallbacks {
    pub chat_send: ChatSendFn,
}

impl Default for ChatCallbacks {
    fn default() -> (r: ChatCallbacks)
        ensures
            r == (ChatCallbacks { chat_send: None }),
    {
        ChatCallbacks { chat_send: None }
    }
}

/// The callbacks of this kind of interface; one that is not set is `None`.
#[derive(Debug, Copy, Clone, PartialEq, Eq, Structural)]
pub struct ManagementCallbacks {
    pub management_function: ManagementFn,
}

impl Default for ManagementCallbacks {
    fn default() -> (r: ManagementCallbacks)
        ensures
            r == (ManagementCallbacks { management_function: None }),
    {
        ManagementCallbacks { management_function: None }
    }
}

/// The callbacks of this kind of interface; one that is not set is `None`.
#[derive(Debug, Copy, Clone, PartialEq, Eq, Structural)]
pub struct LimitCallbacks {
    pub incr: LimitIncrFn,
    pub release: LimitReleaseFn,
    pub usage: LimitUsageFn,
    pub reset: LimitResetFn,
    pub status: LimitStatusFn,
    pub interval_reset: LimitIntervalResetFn,
}

impl Default for LimitCallbacks {
    fn default() -> (r: LimitCallbacks)
        ensures
            r == (LimitCallbacks {
                incr: None,
                release: None,
                usage: None,
                reset: None,
                status: None,
                interval_reset: None,
            }),
    {
        LimitCallbacks {
            incr: None,
            release: None,
            usage: None,
            reset: None,
            status: None,
            interval_reset: None,
        }
    }
}

/// The callbacks of this kind of interface; one that is not set is `None`.
#[derive(Debug, Copy, Clone, PartialEq, Eq, Structural)]
pub struct DatabaseCallbacks {
    pub handle_new: DbHandleNewFn,
    pub handle_destroy: DbHandleDestroyFn,
    pub exec_detailed: DbExecDetailedFn,
}

impl Default for DatabaseCallbacks {
    fn default() -> (r: DatabaseCallbacks)
        ensures
            r == (DatabaseCallbacks { handle_new: None, handle_destroy: None, exec_detailed: None }),
    {
        DatabaseCallbacks { handle_new: None, handle_destroy: None, exec_detailed: None }
    }
}

/// The callbacks of this kind of interface; one that is not set is `None`.
#[derive(Debug, Copy, Clone, PartialEq, Eq, Structural)]
pub struct DialplanCallbacks {
    pub hunt_function: DialplanHuntFn,
}

impl Default for DialplanCallbacks {
    fn default() -> (r: DialplanCallbacks)
        ensures
            r == (DialplanCallbacks { hunt_function: None }),
    {
        DialplanCallbacks { hunt_function: None }
    }
}

/// Asks the core for an interface of a kind. No memory is an error.
fn create_interface<C>(module: Handle, kind: InterfaceKind, create: C) -> (r: Result<Handle>)
    where
        C: FnOnce(Address, InterfaceKind) -> Address,
    requires
        create.requires((module.addr(), kind)),
    ensures
        exists|raw: Address| #[trigger]
            create.ensures((module.addr(), kind), raw) && if raw == NULL {
                r == Err::<Handle, SwitchError>(generic_error())
            } else {
                r matches Ok(h) && h.addr() == raw
            },
{
    allocated(create(module.as_ptr(), kind))
}

/// A registered module.
#[derive(Debug, Copy, Clone)]
pub struct Module {
    raw: Handle,
}

impl At for Module {
    closed spec fn addr(&self) -> Address {
        self.raw.addr()
    }
}

impl Module {
    /// Wraps an address; `None` for the null pointer.
    pub fn from_raw(raw: Address) -> (r: Option<Module>)
        ensures
            maybe_at(r, raw),
    {
        match Handle::new(raw) {
            Some(raw) => Some(Module { raw }),
            None => None,
        }
    }

    /// The address, which is never null.
    pub fn as_ptr(&self) -> (r: Address)
        ensures
            r == self.addr(),
            r != NULL,
    {
        self.raw.as_ptr()
    }
}

/// The texts of an API command, as C strings.
#[derive(Debug, Copy, Clone)]
pub struct ApiEntry<'a> {
    pub name: &'a CText,
    pub description: &'a CText,
    pub syntax: &'a CText,
    pub function: Address,
}

/// Whether an entry holds these texts and this function.
pub open spec fn entry_holds(
    e: ApiEntry<'_>,
    name: Option<Seq<u8>>,
    description: Option<Seq<u8>>,
    syntax: Option<Seq<u8>>,
    function: Address,
) -> bool {
    &&& Some(e.name@) == name
    &&& Some(e.description@) == description
    &&& Some(e.syntax@) == syntax
    &&& e.function == function
}

impl Module {
    /// Registers the module under a name. `slot` is where its address has to be stored, `pool` the
    /// pool that it lives in. Without a slot nothing is asked of the core, and only a module that
    /// was made is stored.
    pub fn create<N, C, S>(slot: Address, pool: Address, name: N, create: C, store: S) -> (r: Result<
        Module,
    >)
        where
            N: StaticCStr,
            C: FnOnce(Address, &CText) -> Address,
            S: FnOnce(Address, Address),
        requires
            slot != NULL && name.c_form() is Some ==> forall|n: &CText|
                #![trigger create.requires((pool, n))]
                Some(n@) == name.c_form() ==> create.requires((pool, n)),
            forall|n: &CText, raw: Address| #[trigger]
                create.ensures((pool, n), raw) && slot != NULL && Some(n@) == name.c_form() && raw
                    != NULL ==> store.requires((slot, raw)),
        ensures
            slot == NULL || name.c_form() is None ==> r == Err::<Module, SwitchError>(
                generic_error(),
            ),
            slot != NULL && name.c_form() is Some ==> exists|n: &CText, raw: Address|
                Some(n@) == name.c_form() && #[trigger] create.ensures((pool, n), raw)
                    && allocated_at(r, raw) && (raw != NULL ==> store.ensures((slot, raw), ())),
    {
        if slot == NULL {
            return Err(SwitchError::generic());
        }
        let name = name.into_static_cstr()?;
        let raw = allocated(create(pool, &name))?;
        store(slot, raw.as_ptr());
        Ok(Module { raw })
    }

    /// Registers an API command.
    pub fn add_api<N, D, X, C, I>(
        self,
        name: N,
        description: D,
        syntax: X,
        function: Address,
        create: C,
        install: I,
    ) -> (r: Result<ApiInterface>)
        where
            N: StaticCStr,
            D: StaticCStr,
            X: StaticCStr,
            C: FnOnce(Address, InterfaceKind) -> Address,
            I: FnOnce(Address, ApiEntry<'_>),
        requires
            name.c_form() is Some && description.c_form() is Some && syntax.c_form() is Some ==>
                create.requires((self.addr(), InterfaceKind::Api)),
            name.c_form() is Some && description.c_form() is Some && syntax.c_form() is Some ==>
                forall|raw: Address, e: ApiEntry<'_>|
                #![trigger install.requires((raw, e))]
                create.ensures((self.addr(), InterfaceKind::Api), raw) && raw != NULL &&
                    entry_holds(e, name.c_form(), description.c_form(), syntax.c_form(), function)
                    ==> install.requires((raw, e)),
        ensures
            name.c_form() is None || description.c_form() is None || syntax.c_form() is None ==> r
                == Err::<ApiInterface, SwitchError>(generic_error()),
            name.c_form() is Some && description.c_form() is Some && syntax.c_form() is Some
                ==> exists|raw: Address| #[trigger]
                create.ensures((self.addr(), InterfaceKind::Api), raw) && allocated_at(r, raw) && (raw
                    != NULL ==> exists|e: ApiEntry<'_>|
                    entry_holds(e, name.c_form(), description.c_form(), syntax.c_form(), function)
                        && #[trigger] install.ensures((raw, e), ())),
    {
        let name = name.into_static_cstr()?;
        let description = description.into_static_cstr()?;
        let syntax = syntax.into_static_cstr()?;
        let raw = create_interface(self.raw, InterfaceKind::Api, create)?;
        install(
            raw.as_ptr(),
            ApiEntry { name: &name, description: &description, syntax: &syntax, function },
        );
        Ok(ApiInterface { raw })
    }

    /// Registers an API command that answers in JSON.
    pub fn add_json_api<N, D, X, C, I>(
        self,
        name: N,
        description: D,
        syntax: X,
        function: Address,
        create: C,
        install: I,
    ) -> (r: Result<JsonApiInterface>)
        where
            N: StaticCStr,
            D: StaticCStr,
            X: StaticCStr,
            C: FnOnce(Address, InterfaceKind) -> Address,
            I: FnOnce(Address, ApiEntry<'_>),
        requires
            name.c_form() is Some && description.c_form() is Some && syntax.c_form() is Some ==>
                create.requires((self.addr(), InterfaceKind::JsonApi)),
            name.c_form() is Some && description.c_form() is Some && syntax.c_form() is Some ==>
                forall|raw: Address, e: ApiEntry<'_>|
                #![trigger install.requires((raw, e))]
                create.ensures((self.addr(), InterfaceKind::JsonApi), raw) && raw != NULL &&
                    entry_holds(e, name.c_form(), description.c_form(), syntax.c_form(), function)
                    ==> install.requires((raw, e)),
        ensures
            name.c_form() is None || description.c_form() is None || syntax.c_form() is None ==> r
                == Err::<JsonApiInterface, SwitchError>(generic_error()),
            name.c_form() is Some && description.c_form() is Some && syntax.c_form() is Some
                ==> exists|raw: Address| #[trigger]
                create.ensures((self.addr(), InterfaceKind::JsonApi), raw) && allocated_at(r, raw)
                    && (raw != NULL ==> exists|e: ApiEntry<'_>|
                    entry_holds(e, name.c_form(), description.c_form(), syntax.c_form(), function)
                        && #[trigger] install.ensures((raw, e), ())),
    {
        let name = name.into_static_cstr()?;
        let description = description.into_static_cstr()?;
        let syntax = syntax.into_static_cstr()?;
        let raw = create_interface(self.raw, InterfaceKind::JsonApi, create)?;
        install(
            raw.as_ptr(),
            ApiEntry { name: &name, description: &description, syntax: &syntax, function },
        );
        Ok(JsonApiInterface { raw })
    }

    /// Registers an application.
    pub fn add_application<C, I>(
        self,
        info: ApplicationInfo,
        function: Address,
        create: C,
        install: I,
    ) -> (r: Result<ApplicationInterface>)
        where
            C: FnOnce(Address, InterfaceKind) -> Address,
            I: FnOnce(Address, &ApplicationInfoCStrings, Address),
        requires
            info.safe() ==> create.requires((self.addr(), InterfaceKind::Application)),
            info.safe() ==> forall|raw: Address, s: &ApplicationInfoCStrings|
                #![trigger install.requires((raw, s, function))]
                create.ensures((self.addr(), InterfaceKind::Application), raw) && raw != NULL &&
                    s.spells(info)
                    ==> install.requires((raw, s, function)),
        ensures
            !info.safe() ==> r == Err::<ApplicationInterface, SwitchError>(generic_error()),
            info.safe() ==> exists|raw: Address| #[trigger]
                create.ensures((self.addr(), InterfaceKind::Application), raw) && allocated_at(r, raw)
                    && (raw != NULL ==> exists|s: &ApplicationInfoCStrings|
                    s.spells(info) && #[trigger] install.ensures((raw, s, function), ())),
    {
        let strings = info.into_cstrings()?;
        let raw = create_interface(self.raw, InterfaceKind::Application, create)?;
        install(raw.as_ptr(), &strings, function);
        Ok(ApplicationInterface { raw })
    }

    /// Registers a chat application.
    pub fn add_chat_application<C, I>(
        self,
        info: ApplicationInfo,
        function: Address,
        create: C,
        install: I,
    ) -> (r: Result<ChatApplicationInterface>)
        where
            C: FnOnce(Address, InterfaceKind) -> Address,
            I: FnOnce(Address, &ApplicationInfoCStrings, Address),
        requires
            info.safe() ==> create.requires((self.addr(), InterfaceKind::ChatApplication)),
            info.safe() ==> forall|raw: Address, s: &ApplicationInfoCStrings|
                #![trigger install.requires((raw, s, function))]
                create.ensures((self.addr(), InterfaceKind::ChatApplication), raw) && raw != NULL &&
                    s.spells(info)
                    ==> install.requires((raw, s, function)),
        ensures
            !info.safe() ==> r == Err::<ChatApplicationInterface, SwitchError>(generic_error()),
            info.safe() ==> exists|raw: Address| #[trigger]
                create.ensures((self.addr(), InterfaceKind::ChatApplication), raw) && allocated_at(
                    r,
                    raw,
                ) && (raw != NULL ==> exists|s: &ApplicationInfoCStrings|
                    s.spells(info) && #[trigger] install.ensures((raw, s, function), ())),
    {
        let strings = info.into_cstrings()?;
        let raw = create_interface(self.raw, InterfaceKind::ChatApplication, create)?;
        install(raw.as_ptr(), &strings, function);
        Ok(ChatApplicationInterface { raw })
    }

    /// Registers an endpoint. `io_routines` and `state_handler` are the addresses of its tables.
    pub fn add_endpoint<N, C, I>(
        self,
        name: N,
        io_routines: Address,
        state_handler: Address,
        create: C,
        install: I,
    ) -> (r: Result<EndpointInterface>)
        where
            N: StaticCStr,
            C: FnOnce(Address, InterfaceKind) -> Address,
            I: FnOnce(Address, &CText, Address, Address),
        requires
            name.c_form() is Some ==> create.requires((self.addr(), InterfaceKind::Endpoint)),
            name.c_form() is Some ==> forall|raw: Address, n: &CText|
                #![trigger install.requires((raw, n, io_routines, state_handler))]
                create.ensures((self.addr(), InterfaceKind::Endpoint), raw) && raw != NULL &&
                    Some(n@) == name.c_form()
                    ==> install.requires((raw, n, io_routines, state_handler)),
        ensures
            name.c_form() is None ==> r == Err::<EndpointInterface, SwitchError>(generic_error()),
            name.c_form() is Some ==> exists|raw: Address| #[trigger]
                create.ensures((self.addr(), InterfaceKind::Endpoint), raw) && allocated_at(r, raw)
                    && (raw != NULL ==> exists|n: &CText|
                    Some(n@) == name.c_form() && #[trigger] install.ensures(
                        (raw, n, io_routines, state_handler),
                        (),
                    )),
    {
        let name = name.into_static_cstr()?;
        let raw = create_interface(self.raw, InterfaceKind::Endpoint, create)?;
        install(raw.as_ptr(), &name, io_routines, state_handler);
        Ok(EndpointInterface { raw })
    }

    /// Registers a timer. `create` makes the interface, and `install` writes the name and the
    /// callbacks into it.
    pub fn add_timer<N, C, I>(
        self,
        name: N,
        timer_init: TimerInitFn,
        timer_next: TimerNextFn,
        timer_step: TimerStepFn,
        timer_sync: TimerSyncFn,
        timer_check: TimerCheckFn,
        timer_destroy: TimerDestroyFn,
        create: C,
        install: I,
    ) -> (r: Result<TimerInterface>)
        where
            N: StaticCStr,
            C: FnOnce(Address, InterfaceKind) -> Address,
            I: FnOnce(Address, &CText, TimerCallbacks),
        requires
            name.c_form() is Some ==> create.requires((self.addr(), InterfaceKind::Timer)),
            name.c_form() is Some ==> forall|raw: Address, n: &CText|
                #![trigger install.requires((raw, n, TimerCallbacks { timer_init, timer_next,
                    timer_step, timer_sync, timer_check, timer_destroy, }))]
                create.ensures((self.addr(), InterfaceKind::Timer), raw) && raw != NULL && Some(n@)
                    == name.c_form()
                    ==> install.requires((raw, n, TimerCallbacks { timer_init, timer_next,
                        timer_step, timer_sync, timer_check, timer_destroy, })),
        ensures
            name.c_form() is None ==> r == Err::<TimerInterface, SwitchError>(generic_error()),
            name.c_form() is Some ==> exists|raw: Address| #[trigger]
                create.ensures((self.addr(), InterfaceKind::Timer), raw) && allocated_at(r, raw) &&
                    (raw
                    != NULL ==> exists|n: &CText|
                    Some(n@) == name.c_form() && #[trigger] install.ensures(
                        (raw, n, TimerCallbacks {
                            timer_init,
                            timer_next,
                            timer_step,
                            timer_sync,
                            timer_check,
                            timer_destroy,
                        }),
                        (),
                    )),
    {
        let name = name.into_static_cstr()?;
        let raw = create_interface(self.raw, InterfaceKind::Timer, create)?;
        install(raw.as_ptr(), &name, TimerCallbacks {
            timer_init,
            timer_next,
            timer_step,
            timer_sync,
            timer_check,
            timer_destroy,
        });
        Ok(TimerInterface { raw })
    }

    /// Registers a file format. `create` makes the interface, and `install` writes the name and the
    /// callbacks into it.
    pub fn add_file<N, C, I>(
        self,
        name: N,
        file_open: FileOpenFn,
        file_close: FileCloseFn,
        file_truncate: FileTruncateFn,
        file_read: FileReadFn,
        file_write: FileWriteFn,
        create: C,
        install: I,
    ) -> (r: Result<FileInterface>)
        where
            N: StaticCStr,
            C: FnOnce(Address, InterfaceKind) -> Address,
            I: FnOnce(Address, &CText, FileCallbacks),
        requires
            name.c_form() is Some ==> create.requires((self.addr(), InterfaceKind::File)),
            name.c_form() is Some ==> forall|raw: Address, n: &CText|
                #![trigger install.requires((raw, n, FileCallbacks { file_open, file_close,
                    file_truncate, file_read, file_write, }))]
                create.ensures((self.addr(), InterfaceKind::File), raw) && raw != NULL && Some(n@)
                    == name.c_form()
                    ==> install.requires((raw, n, FileCallbacks { file_open, file_close,
                        file_truncate, file_read, file_write, })),
        ensures
            name.c_form() is None ==> r == Err::<FileInterface, SwitchError>(generic_error()),
            name.c_form() is Some ==> exists|raw: Address| #[trigger]
                create.ensures((self.addr(), InterfaceKind::File), raw) && allocated_at(r, raw) &&
                    (raw
                    != NULL ==> exists|n: &CText|
                    Some(n@) == name.c_form() && #[trigger] install.ensures(
                        (raw, n, FileCallbacks {
                            file_open,
                            file_close,
                            file_truncate,
                            file_read,
                            file_write,
                        }),
                        (),
                    )),
    {
        let name = name.into_static_cstr()?;
        let raw = create_interface(self.raw, InterfaceKind::File, create)?;
        install(raw.as_ptr(), &name, FileCallbacks {
            file_open,
            file_close,
            file_truncate,
            file_read,
            file_write,
        });
        Ok(FileInterface { raw })
    }

    /// Registers a speech synthesizer. `create` makes the interface, and `install` writes the name
    /// and the callbacks into it.
    pub fn add_speech<N, C, I>(
        self,
        name: N,
        speech_open: SpeechOpenFn,
        speech_close: SpeechCloseFn,
        speech_feed_tts: SpeechFeedTtsFn,
        speech_read_tts: SpeechReadTtsFn,
        create: C,
        install: I,
    ) -> (r: Result<SpeechInterface>)
        where
            N: StaticCStr,
            C: FnOnce(Address, InterfaceKind) -> Address,
            I: FnOnce(Address, &CText, SpeechCallbacks),
        requires
            name.c_form() is Some ==> create.requires((self.addr(), InterfaceKind::Speech)),
            name.c_form() is Some ==> forall|raw: Address, n: &CText|
                #![trigger install.requires((raw, n, SpeechCallbacks { speech_open, speech_close,
                    speech_feed_tts, speech_read_tts, }))]
                create.ensures((self.addr(), InterfaceKind::Speech), raw) && raw != NULL && Some(n@)
                    == name.c_form()
                    ==> install.requires((raw, n, SpeechCallbacks { speech_open, speech_close,
                        speech_feed_tts, speech_read_tts, })),
        ensures
            name.c_form() is None ==> r == Err::<SpeechInterface, SwitchError>(generic_error()),
            name.c_form() is Some ==> exists|raw: Address| #[trigger]
                create.ensures((self.addr(), InterfaceKind::Speech), raw) && allocated_at(r, raw) &&
                    (raw
                    != NULL ==> exists|n: &CText|
                    Some(n@) == name.c_form() && #[trigger] install.ensures(
                        (raw, n, SpeechCallbacks {
                            speech_open,
                            speech_close,
                            speech_feed_tts,
                            speech_read_tts,
                        }),
                        (),
                    )),
    {
        let name = name.into_static_cstr()?;
        let raw = create_interface(self.raw, InterfaceKind::Speech, create)?;
        install(raw.as_ptr(), &name, SpeechCallbacks {
            speech_open,
            speech_close,
            speech_feed_tts,
            speech_read_tts,
        });
        Ok(SpeechInterface { raw })
    }

    /// Registers a speech recognizer. `create` makes the interface, and `install` writes the name
    /// and the callbacks into it.
    pub fn add_asr<N, C, I>(
        self,
        name: N,
        asr_open: AsrOpenFn,
        asr_load_grammar: AsrLoadGrammarFn,
        asr_unload_grammar: AsrUnloadGrammarFn,
        asr_close: AsrCloseFn,
        asr_feed: AsrFeedFn,
        create: C,
        install: I,
    ) -> (r: Result<AsrInterface>)
        where
            N: StaticCStr,
            C: FnOnce(Address, InterfaceKind) -> Address,
            I: FnOnce(Address, &CText, AsrCallbacks),
        requires
            name.c_form() is Some ==> create.requires((self.addr(), InterfaceKind::Asr)),
            name.c_form() is Some ==> forall|raw: Address, n: &CText|
                #![trigger install.requires((raw, n, AsrCallbacks { asr_open, asr_load_grammar,
                    asr_unload_grammar, asr_close, asr_feed, }))]
                create.ensures((self.addr(), InterfaceKind::Asr), raw) && raw != NULL && Some(n@) ==
                    name.c_form()
                    ==> install.requires((raw, n, AsrCallbacks { asr_open, asr_load_grammar,
                        asr_unload_grammar, asr_close, asr_feed, })),
        ensures
            name.c_form() is None ==> r == Err::<AsrInterface, SwitchError>(generic_error()),
            name.c_form() is Some ==> exists|raw: Address| #[trigger]
                create.ensures((self.addr(), InterfaceKind::Asr), raw) && allocated_at(r, raw) && (raw
                    != NULL ==> exists|n: &CText|
                    Some(n@) == name.c_form() && #[trigger] install.ensures(
                        (raw, n, AsrCallbacks {
                            asr_open,
                            asr_load_grammar,
                            asr_unload_grammar,
                            asr_close,
                            asr_feed,
                        }),
                        (),
                    )),
    {
        let name = name.into_static_cstr()?;
        let raw = create_interface(self.raw, InterfaceKind::Asr, create)?;
        install(raw.as_ptr(), &name, AsrCallbacks {
            asr_open,
            asr_load_grammar,
            asr_unload_grammar,
            asr_close,
            asr_feed,
        });
        Ok(AsrInterface { raw })
    }

    /// Registers a pronunciation. `create` makes the interface, and `install` writes the name and
    /// the callbacks into it.
    pub fn add_say<N, C, I>(
        self,
        name: N,
        say_function: SayFn,
        say_string_function: SayStringFn,
        create: C,
        install: I,
    ) -> (r: Result<SayInterface>)
        where
            N: StaticCStr,
            C: FnOnce(Address, InterfaceKind) -> Address,
            I: FnOnce(Address, &CText, SayCallbacks),
        requires
            name.c_form() is Some ==> create.requires((self.addr(), InterfaceKind::Say)),
            name.c_form() is Some ==> forall|raw: Address, n: &CText|
                #![trigger install.requires((raw, n, SayCallbacks { say_function,
                    say_string_function }))]
                create.ensures((self.addr(), InterfaceKind::Say), raw) && raw != NULL && Some(n@) ==
                    name.c_form()
                    ==> install.requires((raw, n, SayCallbacks { say_function, say_string_function
                        })),
        ensures
            name.c_form() is None ==> r == Err::<SayInterface, SwitchError>(generic_error()),
            name.c_form() is Some ==> exists|raw: Address| #[trigger]
                create.ensures((self.addr(), InterfaceKind::Say), raw) && allocated_at(r, raw) && (raw
                    != NULL ==> exists|n: &CText|
                    Some(n@) == name.c_form() && #[trigger] install.ensures(
                        (raw, n, SayCallbacks { say_function, say_string_function }),
                        (),
                    )),
    {
        let name = name.into_static_cstr()?;
        let raw = create_interface(self.raw, InterfaceKind::Say, create)?;
        install(raw.as_ptr(), &name, SayCallbacks { say_function, say_string_function });
        Ok(SayInterface { raw })
    }

    /// Registers a directory. `create` makes the interface, and `install` writes the name and the
    /// callbacks into it.
    pub fn add_directory<N, C, I>(
        self,
        name: N,
        directory_open: DirectoryOpenFn,
        directory_close: DirectoryCloseFn,
        directory_query: DirectoryQueryFn,
        directory_next: DirectoryNextFn,
        directory_next_pair: DirectoryNextPairFn,
        create: C,
        install: I,
    ) -> (r: Result<DirectoryInterface>)
        where
            N: StaticCStr,
            C: FnOnce(Address, InterfaceKind) -> Address,
            I: FnOnce(Address, &CText, DirectoryCallbacks),
        requires
            name.c_form() is Some ==> create.requires((self.addr(), InterfaceKind::Directory)),
            name.c_form() is Some ==> forall|raw: Address, n: &CText|
                #![trigger install.requires((raw, n, DirectoryCallbacks { directory_open,
                    directory_close, directory_query, directory_next, directory_next_pair, }))]
                create.ensures((self.addr(), InterfaceKind::Directory), raw) && raw != NULL &&
                    Some(n@) == name.c_form()
                    ==> install.requires((raw, n, DirectoryCallbacks { directory_open,
                        directory_close, directory_query, directory_next, directory_next_pair, })),
        ensures
            name.c_form() is None ==> r == Err::<DirectoryInterface, SwitchError>(generic_error()),
            name.c_form() is Some ==> exists|raw: Address| #[trigger]
                create.ensures((self.addr(), InterfaceKind::Directory), raw) && allocated_at(r, raw)
                    && (raw
                    != NULL ==> exists|n: &CText|
                    Some(n@) == name.c_form() && #[trigger] install.ensures(
                        (raw, n, DirectoryCallbacks {
                            directory_open,
                            directory_close,
                            directory_query,
                            directory_next,
                            directory_next_pair,
                        }),
                        (),
                    )),
    {
        let name = name.into_static_cstr()?;
        let raw = create_interface(self.raw, InterfaceKind::Directory, create)?;
        install(raw.as_ptr(), &name, DirectoryCallbacks {
            directory_open,
            directory_close,
            directory_query,
            directory_next,
            directory_next_pair,
        });
        Ok(DirectoryInterface { raw })
    }

    /// Registers a chat transport. `create` makes the interface, and `install` writes the name and
    /// the callbacks into it.
    pub fn add_chat<N, C, I>(
        self,
        name: N,
        chat_send: ChatSendFn,
        create: C,
        install: I,
    ) -> (r: Result<ChatInterface>)
        where
            N: StaticCStr,
            C: FnOnce(Address, InterfaceKind) -> Address,
            I: FnOnce(Address, &CText, ChatCallbacks),
        requires
            name.c_form() is Some ==> create.requires((self.addr(), InterfaceKind::Chat)),
            name.c_form() is Some ==> forall|raw: Address, n: &CText|
                #![trigger install.requires((raw, n, ChatCallbacks { chat_send }))]
                create.ensures((self.addr(), InterfaceKind::Chat), raw) && raw != NULL && Some(n@)
                    == name.c_form()
                    ==> install.requires((raw, n, ChatCallbacks { chat_send })),
        ensures
            name.c_form() is None ==> r == Err::<ChatInterface, SwitchError>(generic_error()),
            name.c_form() is Some ==> exists|raw: Address| #[trigger]
                create.ensures((self.addr(), InterfaceKind::Chat), raw) && allocated_at(r, raw) &&
                    (raw
                    != NULL ==> exists|n: &CText|
                    Some(n@) == name.c_form() && #[trigger] install.ensures(
                        (raw, n, ChatCallbacks { chat_send }),
                        (),
                    )),
    {
        let name = name.into_static_cstr()?;
        let raw = create_interface(self.raw, InterfaceKind::Chat, create)?;
        install(raw.as_ptr(), &name, ChatCallbacks { chat_send });
        Ok(ChatInterface { raw })
    }

    /// Registers a management function under a relative object identifier. `create` makes the
    /// interface, and `install` writes the name and the callbacks into it.
    pub fn add_management<N, C, I>(
        self,
        relative_oid: N,
        management_function: ManagementFn,
        create: C,
        install: I,
    ) -> (r: Result<ManagementInterface>)
        where
            N: StaticCStr,
            C: FnOnce(Address, InterfaceKind) -> Address,
            I: FnOnce(Address, &CText, ManagementCallbacks),
        requires
            relative_oid.c_form() is Some ==> create.requires((self.addr(),
                InterfaceKind::Management)),
            relative_oid.c_form() is Some ==> forall|raw: Address, n: &CText|
                #![trigger install.requires((raw, n, ManagementCallbacks { management_function }))]
                create.ensures((self.addr(), InterfaceKind::Management), raw) && raw != NULL &&
                    Some(n@) == relative_oid.c_form()
                    ==> install.requires((raw, n, ManagementCallbacks { management_function })),
        ensures
            relative_oid.c_form() is None ==>
                r == Err::<ManagementInterface, SwitchError>(generic_error()),
            relative_oid.c_form() is Some ==> exists|raw: Address| #[trigger]
                create.ensures((self.addr(), InterfaceKind::Management), raw) && allocated_at(r,
                    raw) && (raw
                    != NULL ==> exists|n: &CText|
                    Some(n@) == relative_oid.c_form() && #[trigger] install.ensures(
                        (raw, n, ManagementCallbacks { management_function }),
                        (),
                    )),
    {
        let relative_oid = relative_oid.into_static_cstr()?;
        let raw = create_interface(self.raw, InterfaceKind::Management, create)?;
        install(raw.as_ptr(), &relative_oid, ManagementCallbacks { management_function });
        Ok(ManagementInterface { raw })
    }

    /// Registers a backend for limits. `create` makes the interface, and `install` writes the name
    /// and the callbacks into it.
    pub fn add_limit<N, C, I>(
        self,
        name: N,
        incr: LimitIncrFn,
        release: LimitReleaseFn,
        usage: LimitUsageFn,
        reset: LimitResetFn,
        status: LimitStatusFn,
        interval_reset: LimitIntervalResetFn,
        create: C,
        install: I,
    ) -> (r: Result<LimitInterface>)
        where
            N: StaticCStr,
            C: FnOnce(Address, InterfaceKind) -> Address,
            I: FnOnce(Address, &CText, LimitCallbacks),
        requires
            name.c_form() is Some ==> create.requires((self.addr(), InterfaceKind::Limit)),
            name.c_form() is Some ==> forall|raw: Address, n: &CText|
                #![trigger install.requires((raw, n, LimitCallbacks { incr, release, usage, reset,
                    status, interval_reset, }))]
                create.ensures((self.addr(), InterfaceKind::Limit), raw) && raw != NULL && Some(n@)
                    == name.c_form()
                    ==> install.requires((raw, n, LimitCallbacks { incr, release, usage, reset,
                        status, interval_reset, })),
        ensures
            name.c_form() is None ==> r == Err::<LimitInterface, SwitchError>(generic_error()),
            name.c_form() is Some ==> exists|raw: Address| #[trigger]
                create.ensures((self.addr(), InterfaceKind::Limit), raw) && allocated_at(r, raw) &&
                    (raw
                    != NULL ==> exists|n: &CText|
                    Some(n@) == name.c_form() && #[trigger] install.ensures(
                        (raw, n, LimitCallbacks {
                            incr,
                            release,
                            usage,
                            reset,
                            status,
                            interval_reset,
                        }),
                        (),
                    )),
    {
        let name = name.into_static_cstr()?;
        let raw = create_interface(self.raw, InterfaceKind::Limit, create)?;
        install(raw.as_ptr(), &name, LimitCallbacks {
            incr,
            release,
            usage,
            reset,
            status,
            interval_reset,
        });
        Ok(LimitInterface { raw })
    }

    /// Registers a database backend. `create` makes the interface, and `install` writes the name
    /// and the callbacks into it.
    pub fn add_database<N, C, I>(
        self,
        name: N,
        handle_new: DbHandleNewFn,
        handle_destroy: DbHandleDestroyFn,
        exec_detailed: DbExecDetailedFn,
        create: C,
        install: I,
    ) -> (r: Result<DatabaseInterface>)
        where
            N: StaticCStr,
            C: FnOnce(Address, InterfaceKind) -> Address,
            I: FnOnce(Address, &CText, DatabaseCallbacks),
        requires
            name.c_form() is Some ==> create.requires((self.addr(), InterfaceKind::Database)),
            name.c_form() is Some ==> forall|raw: Address, n: &CText|
                #![trigger install.requires((raw, n, DatabaseCallbacks { handle_new, handle_destroy,
                    exec_detailed }))]
                create.ensures((self.addr(), InterfaceKind::Database), raw) && raw != NULL &&
                    Some(n@) == name.c_form()
                    ==> install.requires((raw, n, DatabaseCallbacks { handle_new, handle_destroy,
                        exec_detailed })),
        ensures
            name.c_form() is None ==> r == Err::<DatabaseInterface, SwitchError>(generic_error()),
            name.c_form() is Some ==> exists|raw: Address| #[trigger]
                create.ensures((self.addr(), InterfaceKind::Database), raw) && allocated_at(r, raw)
                    && (raw
                    != NULL ==> exists|n: &CText|
                    Some(n@) == name.c_form() && #[trigger] install.ensures(
                        (raw, n, DatabaseCallbacks { handle_new, handle_destroy, exec_detailed }),
                        (),
                    )),
    {
        let name = name.into_static_cstr()?;
        let raw = create_interface(self.raw, InterfaceKind::Database, create)?;
        install(raw.as_ptr(), &name, DatabaseCallbacks { handle_new, handle_destroy, exec_detailed });
        Ok(DatabaseInterface { raw })
    }

    /// Registers a dialplan. `create` makes the interface, and `install` writes the name and the
    /// callbacks into it.
    pub fn add_dialplan<N, C, I>(
        self,
        name: N,
        hunt_function: DialplanHuntFn,
        create: C,
        install: I,
    ) -> (r: Result<DialplanInterface>)
        where
            N: StaticCStr,
            C: FnOnce(Address, InterfaceKind) -> Address,
            I: FnOnce(Address, &CText, DialplanCallbacks),
        requires
            name.c_form() is Some ==> create.requires((self.addr(), InterfaceKind::Dialplan)),
            name.c_form() is Some ==> forall|raw: Address, n: &CText|
                #![trigger install.requires((raw, n, DialplanCallbacks { hunt_function }))]
                create.ensures((self.addr(), InterfaceKind::Dialplan), raw) && raw != NULL &&
                    Some(n@) == name.c_form()
                    ==> install.requires((raw, n, DialplanCallbacks { hunt_function })),
        ensures
            name.c_form() is None ==> r == Err::<DialplanInterface, SwitchError>(generic_error()),
            name.c_form() is Some ==> exists|raw: Address| #[trigger]
                create.ensures((self.addr(), InterfaceKind::Dialplan), raw) && allocated_at(r, raw)
                    && (raw
                    != NULL ==> exists|n: &CText|
                    Some(n@) == name.c_form() && #[trigger] install.ensures(
                        (raw, n, DialplanCallbacks { hunt_function }),
                        (),
                    )),
    {
        let name = name.into_static_cstr()?;
        let raw = create_interface(self.raw, InterfaceKind::Dialplan, create)?;
        install(raw.as_ptr(), &name, DialplanCallbacks { hunt_function });
        Ok(DialplanInterface { raw })
    }
}

/// What is said of an application.
#[derive(Debug, Copy, Clone)]
pub struct ApplicationInfo {
    pub name: &'static str,
    pub long_description: &'static str,
    pub short_description: &'static str,
    pub syntax: &'static str,
}

/// The texts of an application, as C strings.
#[derive(Debug)]
pub struct ApplicationInfoCStrings {
    pub name: CText,
    pub long_description: CText,
    pub short_description: CText,
    pub syntax: CText,
}

impl ApplicationInfoCStrings {
    /// Whether these are the texts of `info`.
    pub open spec fn spells(&self, info: ApplicationInfo) -> bool {
        &&& self.name.spells(info.name@)
        &&& self.long_description.spells(info.long_description@)
        &&& self.short_description.spells(info.short_description@)
        &&& self.syntax.spells(info.syntax@)
    }
}

impl ApplicationInfo {
    /// Whether all texts can be handed over.
    pub open spec fn safe(&self) -> bool {
        &&& c_safe(self.name@)
        &&& c_safe(self.long_description@)
        &&& c_safe(self.short_description@)
        &&& c_safe(self.syntax@)
    }

    /// Puts the texts together.
    pub fn new(
        name: &'static str,
        long_description: &'static str,
        short_description: &'static str,
        syntax: &'static str,
    ) -> (r: ApplicationInfo)
        ensures
            r == (ApplicationInfo { name, long_description, short_description, syntax }),
    {
        ApplicationInfo { name, long_description, short_description, syntax }
    }

    /// Makes C strings of the texts.
    pub fn into_cstrings(self) -> (r: Result<ApplicationInfoCStrings>)
        ensures
            !self.safe() ==> r == Err::<ApplicationInfoCStrings, SwitchError>(generic_error()),
            self.safe() ==> (r matches Ok(s) && s.spells(self)),
    {
        let name = cstring(self.name)?;
        let long_description = cstring(self.long_description)?;
        let short_description = cstring(self.short_description)?;
        let syntax = cstring(self.syntax)?;
        Ok(ApplicationInfoCStrings { name, long_description, short_description, syntax })
    }
}

/// A module that is being registered. Every step hands it on, or ends with the step's error.
pub struct ModuleBuilder {
    module: Module,
}

impl At for ModuleBuilder {
    closed spec fn addr(&self) -> Address {
        self.module.addr()
    }
}

impl ModuleBuilder {
    /// Starts with the registration of the module.
    pub fn new<N, C, S>(slot: Address, pool: Address, name: N, create: C, store: S) -> (r: Result<
        ModuleBuilder,
    >)
        where
            N: StaticCStr,
            C: FnOnce(Address, &CText) -> Address,
            S: FnOnce(Address, Address),
        requires
            slot != NULL && name.c_form() is Some ==> forall|n: &CText|
                #![trigger create.requires((pool, n))]
                Some(n@) == name.c_form() ==> create.requires((pool, n)),
            forall|n: &CText, raw: Address| #[trigger]
                create.ensures((pool, n), raw) && slot != NULL && Some(n@) == name.c_form() && raw
                    != NULL ==> store.requires((slot, raw)),
        ensures
            slot == NULL || name.c_form() is None ==> r == Err::<ModuleBuilder, SwitchError>(
                generic_error(),
            ),
            slot != NULL && name.c_form() is Some ==> exists|n: &CText, raw: Address|
                Some(n@) == name.c_form() && #[trigger] create.ensures((pool, n), raw)
                    && allocated_at(r, raw) && (raw != NULL ==> store.ensures((slot, raw), ())),
    {
        let module = Module::create(slot, pool, name, create, store)?;
        Ok(ModuleBuilder { module })
    }

    /// Adds an API command.
    pub fn api<N, D, X, C, I>(
        self,
        name: N,
        description: D,
        syntax: X,
        function: Address,
        create: C,
        install: I,
    ) -> (r: Result<ModuleBuilder>)
        where
            N: StaticCStr,
            D: StaticCStr,
            X: StaticCStr,
            C: FnOnce(Address, InterfaceKind) -> Address,
            I: FnOnce(Address, ApiEntry<'_>),
        requires
            name.c_form() is Some && description.c_form() is Some && syntax.c_form() is Some ==>
                create.requires((self.addr(), InterfaceKind::Api)),
            name.c_form() is Some && description.c_form() is Some && syntax.c_form() is Some ==>
                forall|raw: Address, e: ApiEntry<'_>|
                #![trigger install.requires((raw, e))]
                create.ensures((self.addr(), InterfaceKind::Api), raw) && raw != NULL &&
                    entry_holds(e, name.c_form(), description.c_form(), syntax.c_form(), function)
                    ==> install.requires((raw, e)),
        ensures
            name.c_form() is None || description.c_form() is None || syntax.c_form() is None ==> r
                == Err::<ModuleBuilder, SwitchError>(generic_error()),
            name.c_form() is Some && description.c_form() is Some && syntax.c_form() is Some
                ==> exists|raw: Address| #[trigger]
                create.ensures((self.addr(), InterfaceKind::Api), raw) && handed_on(self, r, raw)
                    && (raw != NULL ==> exists|e: ApiEntry<'_>|
                    entry_holds(e, name.c_form(), description.c_form(), syntax.c_form(), function)
                        && #[trigger] install.ensures((raw, e), ())),
    {
        let _ = self.module.add_api(name, description, syntax, function, create, install)?;
        Ok(self)
    }

    /// Adds an application.
    pub fn application<C, I>(self, info: ApplicationInfo, function: Address, create: C, install: I)
        -> (r:
        Result<ModuleBuilder>)
        where
            C: FnOnce(Address, InterfaceKind) -> Address,
            I: FnOnce(Address, &ApplicationInfoCStrings, Address),
        requires
            info.safe() ==> create.requires((self.addr(), InterfaceKind::Application)),
            info.safe() ==> forall|raw: Address, s: &ApplicationInfoCStrings|
                #![trigger install.requires((raw, s, function))]
                create.ensures((self.addr(), InterfaceKind::Application), raw) && raw != NULL &&
                    s.spells(info)
                    ==> install.requires((raw, s, function)),
        ensures
            !info.safe() ==> r == Err::<ModuleBuilder, SwitchError>(generic_error()),
            info.safe() ==> exists|raw: Address| #[trigger]
                create.ensures((self.addr(), InterfaceKind::Application), raw) && handed_on(
                    self,
                    r,
                    raw,
                ) && (raw != NULL ==> exists|s: &ApplicationInfoCStrings|
                    s.spells(info) && #[trigger] install.ensures((raw, s, function), ())),
    {
        let _ = self.module.add_application(info, function, create, install)?;
        Ok(self)
    }

    /// Adds a chat application.
    pub fn chat_application<C, I>(
        self,
        info: ApplicationInfo,
        function: Address,
        create: C,
        install: I,
    ) -> (r: Result<ModuleBuilder>)
        where
            C: FnOnce(Address, InterfaceKind) -> Address,
            I: FnOnce(Address, &ApplicationInfoCStrings, Address),
        requires
            info.safe() ==> create.requires((self.addr(), InterfaceKind::ChatApplication)),
            info.safe() ==> forall|raw: Address, s: &ApplicationInfoCStrings|
                #![trigger install.requires((raw, s, function))]
                create.ensures((self.addr(), InterfaceKind::ChatApplication), raw) && raw != NULL &&
                    s.spells(info)
                    ==> install.requires((raw, s, function)),
        ensures
            !info.safe() ==> r == Err::<ModuleBuilder, SwitchError>(generic_error()),
            info.safe() ==> exists|raw: Address| #[trigger]
                create.ensures((self.addr(), InterfaceKind::ChatApplication), raw) && handed_on(
                    self,
                    r,
                    raw,
                ) && (raw != NULL ==> exists|s: &ApplicationInfoCStrings|
                    s.spells(info) && #[trigger] install.ensures((raw, s, function), ())),
    {
        let _ = self.module.add_chat_application(info, function, create, install)?;
        Ok(self)
    }

    /// Adds an endpoint.
    pub fn endpoint<N, C, I>(
        self,
        name: N,
        io_routines: Address,
        state_handler: Address,
        create: C,
        install: I,
    ) -> (r: Result<ModuleBuilder>)
        where
            N: StaticCStr,
            C: FnOnce(Address, InterfaceKind) -> Address,
            I: FnOnce(Address, &CText, Address, Address),
        requires
            name.c_form() is Some ==> create.requires((self.addr(), InterfaceKind::Endpoint)),
            name.c_form() is Some ==> forall|raw: Address, n: &CText|
                #![trigger install.requires((raw, n, io_routines, state_handler))]
                create.ensures((self.addr(), InterfaceKind::Endpoint), raw) && raw != NULL &&
                    Some(n@) == name.c_form()
                    ==> install.requires((raw, n, io_routines, state_handler)),
        ensures
            name.c_form() is None ==> r == Err::<ModuleBuilder, SwitchError>(generic_error()),
            name.c_form() is Some ==> exists|raw: Address| #[trigger]
                create.ensures((self.addr(), InterfaceKind::Endpoint), raw) && handed_on(
                    self,
                    r,
                    raw,
                ) && (raw != NULL ==> exists|n: &CText|
                    Some(n@) == name.c_form() && #[trigger] install.ensures(
                        (raw, n, io_routines, state_handler),
                        (),
                    )),
    {
        let _ = self.module.add_endpoint(name, io_routines, state_handler, create, install)?;
        Ok(self)
    }

    /// The registered module.
    pub fn finish(self) -> (r: Module)
        ensures
            r.addr() == self.addr(),
    {
        self.module
    }
}

/// Whether a step handed the builder on: it did where the core made an interface, and ended with
/// the general error where it made none.
pub open spec fn handed_on(before: ModuleBuilder, r: Result<ModuleBuilder>, raw: Address) -> bool {
    if raw == NULL {
        r == Err::<ModuleBuilder, SwitchError>(generic_error())
    } else {
        r matches Ok(b) && b == before
    }
}

/// The status that the core gets from a callback: what the callback returned, or the general error
/// where it panicked, which `None` stands for.
pub fn callback_status(result: Option<Status>) -> (r: RawStatus)
    ensures
        r == match result {
            Some(status) => status.0,
            None => GENERR,
        },
{
    match result {
        Some(status) => status.raw(),
        None => GENERR,
    }
}

/// The status that the core gets from a load callback: success where the module was built, the
/// status of the error where it was not, and the general error for a panic, which `None` stands for.
pub fn load_status(result: Option<Result<ModuleBuilder>>) -> (r: RawStatus)
    ensures
        r == match result {
            Some(Ok(_)) => SUCCESS,
            Some(Err(e)) => e.0.0,
            None => GENERR,
        },
{
    match result {
        Some(Ok(_)) => SUCCESS,
        Some(Err(e)) => e.0.raw(),
        None => GENERR,
    }
}

/// The version of the module interface.
pub const SWITCH_API_VERSION: i32 = 5;

/// The table by which the core finds the entry points of a module.
#[derive(Debug, Copy, Clone, PartialEq, Eq, Structural)]
pub struct __ModuleFunctionTable {
    pub switch_api_version: i32,
    pub load: Option<Address>,
    pub shutdown: Option<Address>,
    pub runtime: Option<Address>,
    pub flags: u32,
}

impl __ModuleFunctionTable {
    /// A table of the current version, without flags.
    pub fn __new(load: Option<Address>, shutdown: Option<Address>, runtime: Option<Address>) -> (r:
        __ModuleFunctionTable)
        ensures
            r == (__ModuleFunctionTable {
                switch_api_version: SWITCH_API_VERSION,
                load,
                shutdown,
                runtime,
                flags: 0,
            }),
    {
        __ModuleFunctionTable {
            switch_api_version: SWITCH_API_VERSION,
            load,
            shutdown,
            runtime,
            flags: 0,
        }
    }
}

/// A registered API command.
#[derive(Debug, Copy, Clone)]
pub struct ApiInterface {
    raw: Handle,
}

impl At for ApiInterface {
    closed spec fn addr(&self) -> Address {
        self.raw.addr()
    }
}

impl ApiInterface {
    /// Wraps an address; `None` for the null pointer.
    pub fn from_raw(raw: Address) -> (r: Option<ApiInterface>)
        ensures
            maybe_at(r, raw),
    {
        match Handle::new(raw) {
            Some(raw) => Some(ApiInterface { raw }),
            None => None,
        }
    }

    /// The address, which is never null.
    pub fn as_ptr(&self) -> (r: Address)
        ensures
            r == self.addr(),
            r != NULL,
    {
        self.raw.as_ptr()
    }
}

/// A registered application.
#[derive(Debug, Copy, Clone)]
pub struct ApplicationInterface {
    raw: Handle,
}

impl At for ApplicationInterface {
    closed spec fn addr(&self) -> Address {
        self.raw.addr()
    }
}

impl ApplicationInterface {
    /// Wraps an address; `None` for the null pointer.
    pub fn from_raw(raw: Address) -> (r: Option<ApplicationInterface>)
        ensures
            maybe_at(r, raw),
    {
        match Handle::new(raw) {
            Some(raw) => Some(ApplicationInterface { raw }),
            None => None,
        }
    }

    /// The address, which is never null.
    pub fn as_ptr(&self) -> (r: Address)
        ensures
            r == self.addr(),
            r != NULL,
    {
        self.raw.as_ptr()
    }
}

/// A registered chat application.
#[derive(Debug, Copy, Clone)]
pub struct ChatApplicationInterface {
    raw: Handle,
}

impl At for ChatApplicationInterface {
    closed spec fn addr(&self) -> Address {
        self.raw.addr()
    }
}

impl ChatApplicationInterface {
    /// Wraps an address; `None` for the null pointer.
    pub fn from_raw(raw: Address) -> (r: Option<ChatApplicationInterface>)
        ensures
            maybe_at(r, raw),
    {
        match Handle::new(raw) {
            Some(raw) => Some(ChatApplicationInterface { raw }),
            None => None,
        }
    }

    /// The address, which is never null.
    pub fn as_ptr(&self) -> (r: Address)
        ensures
            r == self.addr(),
            r != NULL,
    {
        self.raw.as_ptr()
    }
}

/// A registered endpoint.
#[derive(Debug, Copy, Clone)]
pub struct EndpointInterface {
    raw: Handle,
}

impl At for EndpointInterface {
    closed spec fn addr(&self) -> Address {
        self.raw.addr()
    }
}

impl EndpointInterface {
    /// Wraps an address; `None` for the null pointer.
    pub fn from_raw(raw: Address) -> (r: Option<EndpointInterface>)
        ensures
            maybe_at(r, raw),
    {
        match Handle::new(raw) {
            Some(raw) => Some(EndpointInterface { raw }),
            None => None,
        }
    }

    /// The address, which is never null.
    pub fn as_ptr(&self) -> (r: Address)
        ensures
            r == self.addr(),
            r != NULL,
    {
        self.raw.as_ptr()
    }
}

/// A registered dialplan.
#[derive(Debug, Copy, Clone)]
pub struct DialplanInterface {
    raw: Handle,
}

impl At for DialplanInterface {
    closed spec fn addr(&self) -> Address {
        self.raw.addr()
    }
}

impl DialplanInterface {
    /// Wraps an address; `None` for the null pointer.
    pub fn from_raw(raw: Address) -> (r: Option<DialplanInterface>)
        ensures
            maybe_at(r, raw),
    {
        match Handle::new(raw) {
            Some(raw) => Some(DialplanInterface { raw }),
            None => None,
        }
    }

    /// The address, which is never null.
    pub fn as_ptr(&self) -> (r: Address)
        ensures
            r == self.addr(),
            r != NULL,
    {
        self.raw.as_ptr()
    }
}

/// A registered timer.
#[derive(Debug, Copy, Clone)]
pub struct TimerInterface {
    raw: Handle,
}

impl At for TimerInterface {
    closed spec fn addr(&self) -> Address {
        self.raw.addr()
    }
}

impl TimerInterface {
    /// Wraps an address; `None` for the null pointer.
    pub fn from_raw(raw: Address) -> (r: Option<TimerInterface>)
        ensures
            maybe_at(r, raw),
    {
        match Handle::new(raw) {
            Some(raw) => Some(TimerInterface { raw }),
            None => None,
        }
    }

    /// The address, which is never null.
    pub fn as_ptr(&self) -> (r: Address)
        ensures
            r == self.addr(),
            r != NULL,
    {
        self.raw.as_ptr()
    }
}

/// A registered file format.
#[derive(Debug, Copy, Clone)]
pub struct FileInterface {
    raw: Handle,
}

impl At for FileInterface {
    closed spec fn addr(&self) -> Address {
        self.raw.addr()
    }
}

impl FileInterface {
    /// Wraps an address; `None` for the null pointer.
    pub fn from_raw(raw: Address) -> (r: Option<FileInterface>)
        ensures
            maybe_at(r, raw),
    {
        match Handle::new(raw) {
            Some(raw) => Some(FileInterface { raw }),
            None => None,
        }
    }

    /// The address, which is never null.
    pub fn as_ptr(&self) -> (r: Address)
        ensures
            r == self.addr(),
            r != NULL,
    {
        self.raw.as_ptr()
    }
}

/// A registered speech synthesizer.
#[derive(Debug, Copy, Clone)]
pub struct SpeechInterface {
    raw: Handle,
}

impl At for SpeechInterface {
    closed spec fn addr(&self) -> Address {
        self.raw.addr()
    }
}

impl SpeechInterface {
    /// Wraps an address; `None` for the null pointer.
    pub fn from_raw(raw: Address) -> (r: Option<SpeechInterface>)
        ensures
            maybe_at(r, raw),
    {
        match Handle::new(raw) {
            Some(raw) => Some(SpeechInterface { raw }),
            None => None,
        }
    }

    /// The address, which is never null.
    pub fn as_ptr(&self) -> (r: Address)
        ensures
            r == self.addr(),
            r != NULL,
    {
        self.raw.as_ptr()
    }
}

/// A registered speech recognizer.
#[derive(Debug, Copy, Clone)]
pub struct AsrInterface {
    raw: Handle,
}

impl At for AsrInterface {
    closed spec fn addr(&self) -> Address {
        self.raw.addr()
    }
}

impl AsrInterface {
    /// Wraps an address; `None` for the null pointer.
    pub fn from_raw(raw: Address) -> (r: Option<AsrInterface>)
        ensures
            maybe_at(r, raw),
    {
        match Handle::new(raw) {
            Some(raw) => Some(AsrInterface { raw }),
            None => None,
        }
    }

    /// The address, which is never null.
    pub fn as_ptr(&self) -> (r: Address)
        ensures
            r == self.addr(),
            r != NULL,
    {
        self.raw.as_ptr()
    }
}

/// A registered pronunciation.
#[derive(Debug, Copy, Clone)]
pub struct SayInterface {
    raw: Handle,
}

impl At for SayInterface {
    closed spec fn addr(&self) -> Address {
        self.raw.addr()
    }
}

impl SayInterface {
    /// Wraps an address; `None` for the null pointer.
    pub fn from_raw(raw: Address) -> (r: Option<SayInterface>)
        ensures
            maybe_at(r, raw),
    {
        match Handle::new(raw) {
            Some(raw) => Some(SayInterface { raw }),
            None => None,
        }
    }

    /// The address, which is never null.
    pub fn as_ptr(&self) -> (r: Address)
        ensures
            r == self.addr(),
            r != NULL,
    {
        self.raw.as_ptr()
    }
}

/// A registered directory.
#[derive(Debug, Copy, Clone)]
pub struct DirectoryInterface {
    raw: Handle,
}

impl At for DirectoryInterface {
    closed spec fn addr(&self) -> Address {
        self.raw.addr()
    }
}

impl DirectoryInterface {
    /// Wraps an address; `None` for the null pointer.
    pub fn from_raw(raw: Address) -> (r: Option<DirectoryInterface>)
        ensures
            maybe_at(r, raw),
    {
        match Handle::new(raw) {
            Some(raw) => Some(DirectoryInterface { raw }),
            None => None,
        }
    }

    /// The address, which is never null.
    pub fn as_ptr(&self) -> (r: Address)
        ensures
            r == self.addr(),
            r != NULL,
    {
        self.raw.as_ptr()
    }
}

/// A registered chat transport.
#[derive(Debug, Copy, Clone)]
pub struct ChatInterface {
    raw: Handle,
}

impl At for ChatInterface {
    closed spec fn addr(&self) -> Address {
        self.raw.addr()
    }
}

impl ChatInterface {
    /// Wraps an address; `None` for the null pointer.
    pub fn from_raw(raw: Address) -> (r: Option<ChatInterface>)
        ensures
            maybe_at(r, raw),
    {
        match Handle::new(raw) {
            Some(raw) => Some(ChatInterface { raw }),
            None => None,
        }
    }

    /// The address, which is never null.
    pub fn as_ptr(&self) -> (r: Address)
        ensures
            r == self.addr(),
            r != NULL,
    {
        self.raw.as_ptr()
    }
}

/// A registered management function.
#[derive(Debug, Copy, Clone)]
pub struct ManagementInterface {
    raw: Handle,
}

impl At for ManagementInterface {
    closed spec fn addr(&self) -> Address {
        self.raw.addr()
    }
}

impl ManagementInterface {
    /// Wraps an address; `None` for the null pointer.
    pub fn from_raw(raw: Address) -> (r: Option<ManagementInterface>)
        ensures
            maybe_at(r, raw),
    {
        match Handle::new(raw) {
            Some(raw) => Some(ManagementInterface { raw }),
            None => None,
        }
    }

    /// The address, which is never null.
    pub fn as_ptr(&self) -> (r: Address)
        ensures
            r == self.addr(),
            r != NULL,
    {
        self.raw.as_ptr()
    }
}

/// A registered backend for limits.
#[derive(Debug, Copy, Clone)]
pub struct LimitInterface {
    raw: Handle,
}

impl At for LimitInterface {
    closed spec fn addr(&self) -> Address {
        self.raw.addr()
    }
}

impl LimitInterface {
    /// Wraps an address; `None` for the null pointer.
    pub fn from_raw(raw: Address) -> (r: Option<LimitInterface>)
        ensures
            maybe_at(r, raw),
    {
        match Handle::new(raw) {
            Some(raw) => Some(LimitInterface { raw }),
            None => None,
        }
    }

    /// The address, which is never null.
    pub fn as_ptr(&self) -> (r: Address)
        ensures
            r == self.addr(),
            r != NULL,
    {
        self.raw.as_ptr()
    }
}

/// A registered JSON API command.
#[derive(Debug, Copy, Clone)]
pub struct JsonApiInterface {
    raw: Handle,
}

impl At for JsonApiInterface {
    closed spec fn addr(&self) -> Address {
        self.raw.addr()
    }
}

impl JsonApiInterface {
    /// Wraps an address; `None` for the null pointer.
    pub fn from_raw(raw: Address) -> (r: Option<JsonApiInterface>)
        ensures
            maybe_at(r, raw),
    {
        match Handle::new(raw) {
            Some(raw) => Some(JsonApiInterface { raw }),
            None => None,
        }
    }

    /// The address, which is never null.
    pub fn as_ptr(&self) -> (r: Address)
        ensures
            r == self.addr(),
            r != NULL,
    {
        self.raw.as_ptr()
    }
}

/// A registered database backend.
#[derive(Debug, Copy, Clone)]
pub struct DatabaseInterface {
    raw: Handle,
}

impl At for DatabaseInterface {
    closed spec fn addr(&self) -> Address {
        self.raw.addr()
    }
}

impl DatabaseInterface {
    /// Wraps an address; `None` for the null pointer.
    pub fn from_raw(raw: Address) -> (r: Option<DatabaseInterface>)
        ensures
            maybe_at(r, raw),
    {
        match Handle::new(raw) {
            Some(raw) => Some(DatabaseInterface { raw }),
            None => None,
        }
    }

    /// The address, which is never null.
    pub fn as_ptr(&self) -> (r: Address)
        ensures
            r == self.addr(),
            r != NULL,
    {
        self.raw.as_ptr()
    }
}

/// The kinds of interface have their numbers.
pub proof fn interfaces_have_their_numbers(kind: InterfaceKind)
    ensures
        kind is Endpoint <==> number_of(kind) == 0,
        kind is Timer <==> number_of(kind) == 1,
        kind is Dialplan <==> number_of(kind) == 2,
        kind is Application <==> number_of(kind) == 4,
        kind is Api <==> number_of(kind) == 5,
        kind is File <==> number_of(kind) == 6,
        kind is Speech <==> number_of(kind) == 7,
        kind is Directory <==> number_of(kind) == 8,
        kind is Chat <==> number_of(kind) == 9,
        kind is Say <==> number_of(kind) == 10,
        kind is Asr <==> number_of(kind) == 11,
        kind is Management <==> number_of(kind) == 12,
        kind is Limit <==> number_of(kind) == 13,
        kind is ChatApplication <==> number_of(kind) == 14,
        kind is JsonApi <==> number_of(kind) == 15,
        kind is Database <==> number_of(kind) == 16,
{
}

/// An entry holds the name, the description, the syntax and the function that it was made of.
pub proof fn entries_hold_what_they_were_made_of(
    e: ApiEntry<'_>,
    name: Seq<u8>,
    description: Seq<u8>,
    syntax: Seq<u8>,
    function: Address,
)
    ensures
        entry_holds(e, Some(name), Some(description), Some(syntax), function) <==> e.name@ == name
            && e.description@ == description && e.syntax@ == syntax && e.function == function,
{
}

/// The C strings of an application are its four texts, each under its own name, and can be made exactly
/// where none of them holds NUL.
pub proof fn application_texts_are_spelled(c: ApplicationInfoCStrings, info: ApplicationInfo)
    ensures
        c.spells(info) ==> {
            &&& c.name@ == encode_utf8(info.name@)
            &&& c.long_description@ == encode_utf8(info.long_description@)
            &&& c.short_description@ == encode_utf8(info.short_description@)
            &&& c.syntax@ == encode_utf8(info.syntax@)
        },
        info.safe() <==> !info.name@.contains('\0') && !info.long_description@.contains('\0')
            && !info.short_description@.contains('\0') && !info.syntax@.contains('\0'),
{
    c_safe_is_without_nul(info.name@);
    c_safe_is_without_nul(info.long_description@);
    c_safe_is_without_nul(info.short_description@);
    c_safe_is_without_nul(info.syntax@);
}

/// A builder goes on as it was where the interface was added, and stops with the general error where
/// there was no room for it.
pub proof fn builders_go_on_as_they_were(
    before: ModuleBuilder,
    r: Result<ModuleBuilder>,
    raw: Address,
)
    requires
        handed_on(before, r, raw),
    ensures
        r is Ok <==> raw != 0,
        r matches Ok(b) ==> b == before,
        r matches Err(e) ==> e.0.0 == 9,
{
}

} // verus!
