use fswtch::module::{
    callback_status, interface_number, load_status, ApplicationInfo, AsrCallbacks, AsrCloseFn, AsrFeedFn,
    AsrLoadGrammarFn, AsrOpenFn, AsrUnloadGrammarFn, ChatCallbacks, ChatSendFn, DatabaseCallbacks,
    DbExecDetailedFn, DbHandleDestroyFn, DbHandleNewFn, DirectoryCallbacks, DirectoryCloseFn,
    DirectoryNextFn, DirectoryNextPairFn, DirectoryOpenFn, DirectoryQueryFn, FileCallbacks,
    FileCloseFn, FileOpenFn, FileReadFn, FileTruncateFn, FileWriteFn, InterfaceKind, LimitCallbacks,
    LimitIncrFn, LimitIntervalResetFn, LimitReleaseFn, LimitResetFn, LimitStatusFn, LimitUsageFn,
    ManagementCallbacks, ManagementFn, Module, ModuleBuilder, SpeechCallbacks, SpeechCloseFn,
    SpeechFeedTtsFn, SpeechOpenFn, SpeechReadTtsFn, TimerCallbacks, TimerCheckFn, TimerDestroyFn,
    TimerInitFn, TimerNextFn, TimerStepFn, TimerSyncFn, __ModuleFunctionTable,
};
use fswtch::regex::{is_match, is_match_partial, Copied, Performed, Regex, RegexMatch};
use fswtch::rtp::{request_port, Rtp, RtpConfig, RTP_FLAG_COUNT};
use fswtch::pool::Pool;
use fswtch::scheduler::{
    cancel_group, spawn, task_trampoline, RunOutcome, Task, TaskConfig, TaskFields, TaskFlags,
    TaskHandler,
};
use fswtch::status::{switch_bool, RawStatus, Status, SwitchError, GENERR, SWITCH_FALSE, SWITCH_TRUE};
use std::cell::{Cell, RefCell};
use std::mem::{align_of, size_of};

fn generic() -> SwitchError {
    SwitchError(Status(GENERR))
}

#[test]
fn timer_aliases_match_fields() {
    let r = TimerCallbacks::default();
    let _: TimerInitFn = r.timer_init;
    let _: TimerNextFn = r.timer_next;
    let _: TimerStepFn = r.timer_step;
    let _: TimerSyncFn = r.timer_sync;
    let _: TimerCheckFn = r.timer_check;
    let _: TimerDestroyFn = r.timer_destroy;
}

#[test]
fn file_aliases_match_fields() {
    let r = FileCallbacks::default();
    let _: FileOpenFn = r.file_open;
    let _: FileCloseFn = r.file_close;
    let _: FileTruncateFn = r.file_truncate;
    let _: FileReadFn = r.file_read;
    let _: FileWriteFn = r.file_write;
}

#[test]
fn speech_aliases_match_fields() {
    let r = SpeechCallbacks::default();
    let _: SpeechOpenFn = r.speech_open;
    let _: SpeechCloseFn = r.speech_close;
    let _: SpeechFeedTtsFn = r.speech_feed_tts;
    let _: SpeechReadTtsFn = r.speech_read_tts;
}

#[test]
fn asr_aliases_match_fields() {
    let r = AsrCallbacks::default();
    let _: AsrOpenFn = r.asr_open;
    let _: AsrLoadGrammarFn = r.asr_load_grammar;
    let _: AsrUnloadGrammarFn = r.asr_unload_grammar;
    let _: AsrCloseFn = r.asr_close;
    let _: AsrFeedFn = r.asr_feed;
}

#[test]
fn directory_aliases_match_fields() {
    let r = DirectoryCallbacks::default();
    let _: DirectoryOpenFn = r.directory_open;
    let _: DirectoryCloseFn = r.directory_close;
    let _: DirectoryQueryFn = r.directory_query;
    let _: DirectoryNextFn = r.directory_next;
    let _: DirectoryNextPairFn = r.directory_next_pair;
}

#[test]
fn chat_management_aliases_match_fields() {
    let chat = ChatCallbacks::default();
    let _: ChatSendFn = chat.chat_send;
    let mgmt = ManagementCallbacks::default();
    let _: ManagementFn = mgmt.management_function;
}

#[test]
fn limit_aliases_match_fields() {
    let r = LimitCallbacks::default();
    let _: LimitIncrFn = r.incr;
    let _: LimitReleaseFn = r.release;
    let _: LimitUsageFn = r.usage;
    let _: LimitResetFn = r.reset;
    let _: LimitStatusFn = r.status;
    let _: LimitIntervalResetFn = r.interval_reset;
}

#[test]
fn database_aliases_match_fields() {
    let r = DatabaseCallbacks::default();
    let _: DbHandleNewFn = r.handle_new;
    let _: DbHandleDestroyFn = r.handle_destroy;
    let _: DbExecDetailedFn = r.exec_detailed;
}

#[test]
fn status_is_abi_compatible_with_switch_status_t() {
    assert_eq!(size_of::<Status>(), size_of::<RawStatus>());
    assert_eq!(align_of::<Status>(), align_of::<RawStatus>());
}

fn builder() -> ModuleBuilder {
    ModuleBuilder::new(1, 2, "mod_x", |p, n| { assert_eq!((p, n.to_bytes()), (2, b"mod_x".to_vec())); 10 }, |s, m| assert_eq!((s, m), (1, 10))).unwrap()
}

#[test]
fn modules_are_stored_in_their_slot() {
    assert_eq!(builder().finish().as_ptr(), 10);
    let none = |_: usize, _: usize| panic!("nothing to store");
    assert!(Module::create(0, 2, "m", |_, _| panic!("no slot"), none).is_err());
    assert!(Module::create(1, 2, "m\0", |_, _| panic!("no name"), none).is_err());
    assert!(Module::create(1, 2, "m", |_, _| 0, none).is_err());
    assert_eq!(load_status(None), GENERR);
    assert_eq!(load_status(Some(Ok(builder()))), 0);
    assert_eq!(load_status(Some(Err(SwitchError(Status(5))))), 5);
    assert_eq!(callback_status(Some(Status(3))), 3);
    assert_eq!(callback_status(None), GENERR);
    let t = __ModuleFunctionTable::__new(Some(1), None, Some(2));
    assert_eq!((t.switch_api_version, t.load, t.shutdown, t.runtime, t.flags), (5, Some(1), None, Some(2), 0));
}

#[test]
fn interfaces_are_created_and_filled() {
    let info = ApplicationInfo::new("app", "long", "short", "<x>");
    let seen = RefCell::new(Vec::new());
    let create = |m: usize, k: InterfaceKind| {
        assert_eq!(m, 10);
        seen.borrow_mut().push(k);
        20
    };
    let m = builder()
        .api("cmd", "does", "<y>", 30, create, |at, e| {
            assert_eq!((at, e.name.to_bytes(), e.function), (20, b"cmd".to_vec(), 30));
            assert_eq!((e.description.to_bytes(), e.syntax.to_bytes()), (b"does".to_vec(), b"<y>".to_vec()));
        })
        .unwrap()
        .application(info, 31, create, |at, s, f| {
            assert_eq!((at, f, s.name.to_bytes(), s.long_description.to_bytes()), (20, 31, b"app".to_vec(), b"long".to_vec()));
            assert_eq!((s.short_description.to_bytes(), s.syntax.to_bytes()), (b"short".to_vec(), b"<x>".to_vec()));
        })
        .unwrap()
        .chat_application(info, 32, create, |_, _, f| assert_eq!(f, 32))
        .unwrap()
        .endpoint("ep", 40, 41, create, |at, n, io, st| assert_eq!((at, n.to_bytes(), io, st), (20, b"ep".to_vec(), 40, 41)))
        .unwrap()
        .finish();
    let t = m.add_timer("soft", Some(1), Some(2), Some(3), Some(4), None, Some(6), create, |_, n, c| {
        assert_eq!(n.to_bytes(), b"soft");
        assert_eq!(c, TimerCallbacks { timer_init: Some(1), timer_next: Some(2), timer_step: Some(3), timer_sync: Some(4), timer_check: None, timer_destroy: Some(6) });
    });
    assert_eq!(t.unwrap().as_ptr(), 20);
    assert!(m.add_management(".1.2", Some(9), create, |_, o, c| assert_eq!((o.to_bytes(), c.management_function), (b".1.2".to_vec(), Some(9)))).is_ok());
    assert_eq!(
        *seen.borrow(),
        [InterfaceKind::Api, InterfaceKind::Application, InterfaceKind::ChatApplication, InterfaceKind::Endpoint, InterfaceKind::Timer, InterfaceKind::Management]
    );
}

#[test]
fn interfaces_have_the_numbers_of_the_core() {
    let kinds = [
        (InterfaceKind::Endpoint, 0),
        (InterfaceKind::Timer, 1),
        (InterfaceKind::Dialplan, 2),
        (InterfaceKind::Application, 4),
        (InterfaceKind::Api, 5),
        (InterfaceKind::File, 6),
        (InterfaceKind::Speech, 7),
        (InterfaceKind::Directory, 8),
        (InterfaceKind::Chat, 9),
        (InterfaceKind::Say, 10),
        (InterfaceKind::Asr, 11),
        (InterfaceKind::Management, 12),
        (InterfaceKind::Limit, 13),
        (InterfaceKind::ChatApplication, 14),
        (InterfaceKind::JsonApi, 15),
        (InterfaceKind::Database, 16),
    ];
    for (kind, number) in kinds {
        assert_eq!(interface_number(kind), number);
    }
}

#[test]
fn refused_interfaces_end_the_registration() {
    let m = builder().finish();
    assert_eq!(m.add_chat("c", None, |_, _| 0, |_, _, _| panic!("nothing to fill")).unwrap_err(), generic());
    assert_eq!(m.add_chat("c\0", None, |_, _| panic!("no name"), |_, _, _| panic!("no name")).unwrap_err(), generic());
    let bad = ApplicationInfo::new("app", "long", "sh\0rt", "");
    assert!(builder().application(bad, 1, |_, _| panic!("no text"), |_, _, _| panic!("no text")).is_err());
    assert!(builder().api("a", "b", "c", 1, |_, _| 0, |_, _| panic!("nothing to fill")).is_err());
}

fn phone_matcher(field: &fswtch::command::CText, _: &fswtch::command::CText) -> Performed {
    let text = field.to_str().unwrap();
    let hit = text.len() == 8 && text.chars().enumerate().all(|(i, c)| if i == 3 { c == '-' } else { c.is_ascii_digit() });
    if hit { Performed { count: 1, re: 70, match_data: 71 } } else { Performed { count: 0, re: 70, match_data: 0 } }
}

#[test]
fn compile_and_match() {
    let re = Regex::compile(r"^\d{3}-\d{4}$", 0, |p, o| { assert_eq!((p.to_bytes(), o), (br"^\d{3}-\d{4}$".to_vec(), 0)); 60 }).expect("compile");
    let freed = RefCell::new(Vec::new());
    let check = |s: &str| re.is_match(s, phone_matcher, |a| freed.borrow_mut().push(a), |a| freed.borrow_mut().push(a));
    assert!(check("555-1234"));
    assert!(!check("abc"));
    assert_eq!(*freed.borrow(), vec![70, 71, 70]);
    assert_eq!((re.pattern(), re.as_ptr()), (r"^\d{3}-\d{4}$".to_owned(), 60));
}

fn copier(groups: &'static [Option<&'static str>]) -> impl Fn(usize, i32, usize) -> Copied {
    move |_, index, room| match groups[index as usize] {
        None => Copied { rc: -49, size: 0, bytes: vec![] },
        Some(text) if text.len() + 1 > room => Copied { rc: -48, size: text.len(), bytes: vec![] },
        Some(text) => Copied { rc: 0, size: text.len(), bytes: text.as_bytes().to_vec() },
    }
}

#[test]
fn capture_groups() {
    let re = Regex::compile(r"^(\w+)-(\w+)$", 0, |_, _| 60).expect("compile");
    let m = re.matches("foo-bar", |_, _| Performed { count: 3, re: 0, match_data: 71 }, |_| panic!("nothing to free")).expect("match").expect("present");
    let copy = copier(&[Some("foo-bar"), Some("foo"), Some("bar")]);
    assert_eq!(m.capture(0, &copy).unwrap(), Some("foo-bar".to_owned()));
    assert_eq!(m.capture(1, &copy).unwrap(), Some("foo".to_owned()));
    assert_eq!(m.capture(2, &copy).unwrap(), Some("bar".to_owned()));
    assert_eq!(m.capture(3, &copy).unwrap(), None);
}

#[test]
fn free_fn_one_shot() {
    let call = |s: &fswtch::command::CText, _: &fswtch::command::CText| if s.to_bytes() == b"hello" { 0 } else { 1 };
    assert!(is_match("hello", r"^h.llo$", call).unwrap());
    assert!(!is_match("world", r"^h.llo$", call).unwrap());
}

#[test]
fn captures_grow_once() {
    let m = RegexMatch::from_raw(71, 2).unwrap();
    let long: &'static str = Box::leak("x".repeat(300).into_boxed_str());
    let groups: &'static [Option<&'static str>] = Box::leak(vec![Some(long), None].into_boxed_slice());
    let rooms = RefCell::new(Vec::new());
    let copy = copier(groups);
    let got = m.capture(0, |a, i, room| { rooms.borrow_mut().push(room); copy(a, i, room) }).unwrap();
    assert_eq!((got.as_deref(), rooms.into_inner()), (Some(long), vec![256, 301]));
    assert_eq!(m.capture(1, &copy), Ok(None));
    assert_eq!(m.capture(0, |_, _, _| Copied { rc: -48, size: 400, bytes: vec![] }), Err(generic()));
    assert_eq!(m.capture(0, |_, _, _| Copied { rc: 0, size: 2, bytes: vec![0xff, 0xfe, b'x'] }), Err(generic()));
    let none = RegexMatch::from_raw(71, -1).unwrap();
    assert_eq!((none.group_count(), none.capture(0, |_, _, _| panic!("no groups"))), (0, Ok(None)));
    assert!(RegexMatch::from_raw(0, 1).is_none());
}

#[test]
fn matching_has_three_outcomes() {
    let re = Regex::compile("x", u32::MAX, |_, o| { assert_eq!(o, -1); 60 }).unwrap();
    assert!(re.matches("x", |_, _| Performed { count: -1, re: 0, match_data: 9 }, |_| {}).unwrap().is_none());
    assert_eq!(re.matches("x", |_, _| Performed { count: 1, re: 0, match_data: 0 }, |_| {}).unwrap_err(), generic());
    assert_eq!(re.matches("\0", |_, _| panic!("no call"), |_| {}).unwrap_err(), generic());
    assert_eq!(Regex::compile("(", 0, |_, _| 0).unwrap_err(), generic());
    assert_eq!(is_match_partial("a", "ab", |_, _| (0, 1)), Ok(Some(false)));
    assert_eq!(is_match_partial("ab", "ab", |_, _| (0, 0)), Ok(Some(true)));
    assert_eq!(is_match_partial("c", "ab", |_, _| (1, 0)), Ok(None));
    let m = RegexMatch::from_raw(71, 1).unwrap();
    let room = Cell::new(0);
    assert_eq!(m.substitute("$1!", |_, t, n| { room.set(n); assert_eq!(t.to_bytes(), b"$1!"); b"foo!\0\0".to_vec() }), Ok("foo!".to_owned()));
    assert_eq!(room.get(), 257);
    let template = "y".repeat(40);
    assert_eq!(m.substitute(&template, |_, _, n| { room.set(n); vec![0xff] }), Err(generic()));
    assert_eq!(room.get(), 321);
}

#[test]
fn config_builder_is_chainable() {
    let cfg = RtpConfig::new()
        .rx_host("127.0.0.1")
        .rx_port(0)
        .tx_host("127.0.0.1")
        .tx_port(5004)
        .payload(8)
        .samples_per_interval(160)
        .ms_per_packet(20)
        .timer_name("soft");
    assert_eq!(cfg.payload, 8);
    assert_eq!(cfg.tx_port, 5004);
    assert_eq!(cfg.ms_per_packet, 20);
    assert_eq!(cfg.timer_name.as_deref(), Some("soft"));
}

#[test]
fn flag_set_clears_others_only_for_index() {
    let use_timer = 3u32;
    let cfg = RtpConfig::new().flag(use_timer);
    let idx = use_timer as usize;
    assert_eq!(cfg.flags[idx], use_timer);
    assert_eq!(cfg.flags[0], 0);
    let both = RtpConfig::new().flag(7).flag(use_timer);
    assert_eq!(both.flags, RtpConfig::new().flag(use_timer).flag(7).flag(7).flags);
    assert_eq!(RtpConfig::new().flag(50).flag(u32::MAX).flags, [0; RTP_FLAG_COUNT]);
}

#[test]
fn switch_bool_maps_both_directions() {
    assert_eq!(switch_bool(true), SWITCH_TRUE);
    assert_eq!(switch_bool(false), SWITCH_FALSE);
}

#[test]
fn sessions_are_made_of_configs() {
    let pool = Pool::from_raw(2).unwrap();
    let rtp = RtpConfig::default().tx_host("10.0.0.1").bundle_internal_port(1).bundle_external_port(2).flag(5).build(&pool, |q| {
        assert_eq!((q.rx_host.to_bytes(), q.tx_host.to_bytes()), (b"127.0.0.1".to_vec(), b"10.0.0.1".to_vec()));
        assert_eq!((q.timer_name.is_none(), q.pool, q.flags[5]), (true, 2, 5));
        assert_eq!((q.bundle_internal_port, q.bundle_external_port), (1, 2));
        (9, false)
    });
    assert_eq!(rtp.unwrap().as_ptr(), 9);
    assert_eq!(RtpConfig::new().timer_name("\0").build(&pool, |_| panic!("no call")).unwrap_err(), generic());
    assert_eq!(RtpConfig::new().rx_host("\0").build(&pool, |_| panic!("no call")).unwrap_err(), generic());
    assert_eq!(RtpConfig::new().build(&pool, |_| (0, false)).unwrap_err(), generic());
    assert_eq!(RtpConfig::new().build(&pool, |_| (9, true)).unwrap_err(), generic());
    let rtp = Rtp::from_raw(9).unwrap();
    assert_eq!(rtp.write_frame(4, |r, f| { assert_eq!((r, f), (9, 4)); 172 }), Ok(172));
    assert_eq!(rtp.write_frame(4, |_, _| -1), Err(generic()));
    assert_eq!(rtp.set_remote_address("h", 1, 2, true, |_, h, a, b, c| { assert_eq!((h.to_bytes(), a, b, c), (b"h".to_vec(), 1, 2, SWITCH_TRUE)); (0, false) }), Ok(()));
    assert_eq!(rtp.set_remote_address("h", 1, 2, true, |_, _, _, _, _| (0, true)), Err(generic()));
    assert_eq!(rtp.set_remote_address("h", 1, 2, true, |_, _, _, _, _| (4, true)), Err(SwitchError(Status(4))));
    assert_eq!(RtpConfig::new().payload(3).clone().payload, 3);
    assert!(rtp.ready(|_| 1));
    assert_eq!(rtp.remote_host(|_| Some(b"x".to_vec())).as_deref(), Some("x"));
    assert_eq!(request_port("1.2.3.4", |_| 16384), Ok(16384));
}

#[test]
fn flags_bitor_combines() {
    let combined = TaskFlags(TaskFlags::NONE) | TaskFlags(TaskFlags::OWN_THREAD);
    assert_eq!(combined.bits(), TaskFlags::OWN_THREAD);
}

#[test]
fn config_builder_sets_fields() {
    let desc = "probe";
    let group = "tests";
    let config = TaskConfig::new(0, desc, group).expect("static cstr").cmd_id(7).flags(TaskFlags(TaskFlags::OWN_THREAD));

    assert_eq!(config.cmd_id, 7);
    assert_eq!(config.flags.bits(), TaskFlags::OWN_THREAD);
}

#[test]
fn flags_default_is_none() {
    assert_eq!(TaskFlags::default(), TaskFlags(TaskFlags::NONE));
}

#[test]
fn tasks_are_spawned_and_cancelled() {
    let config = TaskConfig::new(99, "d", "g").unwrap().cmd_id(7);
    let h = spawn(500, &config, |t, d, g, c, s, f| {
        assert_eq!((t, d.to_bytes(), g.to_bytes(), c, s, f), (99, b"d".to_vec(), b"g".to_vec(), 7, 500, 0));
        12
    })
    .unwrap();
    assert_eq!((h.id(), h.cancel(|n| { assert_eq!(n, 12); 1 })), (12, 1));
    assert_eq!(cancel_group("g", |_| 3), Ok(3));
    assert!(TaskConfig::new(0, "d\0", "g").is_err());
    assert!(TaskConfig::new(0, "d", "\0").is_err());
}

struct Countdown {
    left: u32,
}

impl TaskHandler for Countdown {
    fn run(&mut self, task: &mut Task) {
        self.left -= 1;
        task.set_repeat(self.left);
    }
}

#[test]
fn handlers_are_freed_after_the_last_run() {
    let handler = RefCell::new(Countdown { left: 2 });
    let freed = Cell::new(0);
    let fire = || {
        task_trampoline(5, 600, |t, arg| {
            let fields = TaskFields { runtime: 1, created: 2, cmd_id: 3, task_id: 4, repeat: 0, group: Some(b"g".to_vec()), cmd_arg: arg };
            let mut task = Task::from_raw(t, fields).unwrap();
            assert_eq!((task.as_ptr(), task.runtime(), task.created(), task.cmd_id(), task.task_id()), (5, 1, 2, 3, 4));
            assert_eq!(task.group().as_deref(), Some("g"));
            handler.borrow_mut().run(&mut task);
            (task.repeat(), false)
        }, || panic!("no panic"), |a| freed.set(a))
    };
    assert_eq!((fire(), freed.get()), (RunOutcome::Again, 0));
    assert_eq!((fire(), freed.get()), (RunOutcome::Finished, 600));
    let logged = Cell::new(false);
    assert_eq!(task_trampoline(5, 600, |_, _| (0, true), || logged.set(true), |_| {}), RunOutcome::Finished);
    assert!(logged.get());
    assert_eq!(task_trampoline(0, 600, |_, _| panic!("no task"), || {}, |_| {}), RunOutcome::Skipped);
    assert_eq!(task_trampoline(5, 0, |_, _| panic!("no handler"), || {}, |_| {}), RunOutcome::Skipped);
}
