use fswtch::console::{
    complete, execute, execute_api, expand_alias, free_matches, standard_stream, CompletionFunc,
    CompletionMatches, Executed, StreamHandle, StreamWriters, STREAM_CHUNK_LEN,
};
use fswtch::core_db::{db_result, CoreDb, DbCreated, DbExecuted, Stmt, DB_DONE, DB_OK, DB_ROW};
use fswtch::event::{Event, EventBinder, EventRef, EVENT_CUSTOM, STACK_BOTTOM};
use fswtch::file::{
    core_file_get_string, core_file_has_video, core_file_read, core_file_seek, file_mktemp,
    file_open, file_pipe_create, file_rename, file_seek, Transferred,
};
use fswtch::globals::{get_domain, get_variable, sessions_per_second, set_variable};
use fswtch::handle::Created;
use fswtch::limit::{fire_event, incr, release, status, usage, Usage, BACKEND_HASH};
use fswtch::logging::{log, log_debug10, log_error, log_example, log_info, log_str2mask, LogLevel};
use fswtch::pool::Pool;
use fswtch::session::Session;
use fswtch::status::{Status, SwitchError, GENERR, SWITCH_FALSE, SWITCH_TRUE};
use std::cell::{Cell, RefCell};

fn generic() -> SwitchError {
    SwitchError(Status(GENERR))
}

const WRITERS: StreamWriters = StreamWriters { write: 70, raw_write: 71 };

#[test]
fn commands_run_over_a_fresh_stream() {
    let freed = Cell::new(0);
    let out = execute("status", WRITERS, |n| { assert_eq!(n, STREAM_CHUNK_LEN); 500 }, |c, s| {
        assert_eq!(c.to_bytes(), b"status");
        assert_eq!(s, StreamHandle { data: 500, end: 500, data_size: 1024, data_len: 0, alloc_len: 1024, alloc_chunk: 1024, write_function: 70, raw_write_function: 71 });
        Executed { status: 0, data: 600, bytes: b"UP 1 year".to_vec() }
    }, |p| freed.set(p));
    assert_eq!((out.as_deref(), freed.get()), (Ok("UP 1 year"), 600));
    let out = execute("x", WRITERS, |_| 500, |_, _| Executed { status: 1, data: 500, bytes: vec![] }, |p| freed.set(p));
    assert_eq!((out, freed.get()), (Err(SwitchError(Status(1))), 500));
    let out = execute("x", WRITERS, |_| 500, |_, _| Executed { status: 0, data: 0, bytes: b"junk".to_vec() }, |_| panic!("no buffer"));
    assert_eq!(out.as_deref(), Ok(""));
    let out = execute("x", WRITERS, |_| 0, |_, _| panic!("no stream"), |_| panic!("no stream"));
    assert_eq!(out, Err(generic()));
    let out = execute("\0", WRITERS, |_| panic!("no call"), |_, _| panic!("no call"), |_| panic!("no call"));
    assert_eq!(out, Err(generic()));
    let out = execute("x", WRITERS, |_| 500, |_, _| Executed { status: 0, data: 500, bytes: vec![b'a', 0xff] }, |_| {});
    assert_eq!(out.as_deref(), Ok("a\u{fffd}"));
}

#[test]
fn api_commands_may_have_a_session() {
    let session = Session::from_raw(3).unwrap();
    let out = execute_api("show", "calls", Some(&session), WRITERS, |_| 500, |c, a, s, h| {
        assert_eq!((c.to_bytes(), a.to_bytes(), s, h.data), (b"show".to_vec(), b"calls".to_vec(), 3, 500));
        Executed { status: 0, data: 500, bytes: b"0 total".to_vec() }
    }, |_| {});
    assert_eq!(out.as_deref(), Ok("0 total"));
    let out = execute_api("show", "", None, WRITERS, |_| 500, |_, _, s, _| { assert_eq!(s, 0); Executed { status: 7, data: 500, bytes: vec![] } }, |_| {});
    assert_eq!(out, Err(SwitchError(Status(7))));
    assert_eq!(execute_api("a", "\0", None, WRITERS, |_| panic!(), |_, _, _, _| panic!(), |_| panic!()), Err(generic()));
    assert_eq!(standard_stream(WRITERS, |_| 0), Err(generic()));
    assert_eq!(standard_stream(WRITERS, |_| 4).unwrap().1, 4);
    assert_eq!(expand_alias("a", "b", |_, _| Some(b"c b".to_vec())), Ok(Some("c b".to_owned())));
    assert_eq!(complete("sho", "sho", 9, |_, _, s| { assert_eq!(s, 9); 1 }), Ok(true));
    assert_eq!(complete("sho", "sho", 9, |_, _, _| 0), Ok(false));
}

#[test]
fn completions_are_listed_in_order() {
    assert!(CompletionMatches::from_list(&[]).is_none());
    let nodes = [b"show".to_vec(), b"shutdown".to_vec()];
    let mut m = CompletionMatches::from_list(&nodes).unwrap();
    assert_eq!(m.next(), Some(&nodes[0]));
    assert_eq!(m.next(), Some(&nodes[1]));
    assert_eq!(m.next(), None);
    assert_eq!(m.next(), None);
    let f = CompletionFunc::new("::x", 44, |n, c| { assert_eq!((n.to_bytes(), c), (b"::x".to_vec(), 44)); 0 }).unwrap();
    assert_eq!(f.name().to_bytes(), b"::x");
    assert_eq!(f.release(|n| { assert_eq!(n.to_bytes(), b"::x"); 1 }), Err(SwitchError(Status(1))));
    assert_eq!(CompletionFunc::new("x", 44, |_, _| 3).unwrap_err(), SwitchError(Status(3)));
    let mut list = 5;
    free_matches(&mut list, |l| { assert_eq!(l, 5); 0 });
    assert_eq!(list, 0);
}

fn memdb() -> CoreDb {
    CoreDb::open(":memory:", |n| {
        assert_eq!(n.to_bytes(), b":memory:");
        DbCreated { code: DB_OK, raw: 7 }
    })
    .expect("open memory db")
}

fn exec(db: &CoreDb, sql: &str, code: i32) -> Result<(), SwitchError> {
    db.exec(sql, |d, s| { assert_eq!((d, s.to_str().as_deref()), (7, Some(sql))); DbExecuted { code, message: 0 } }, |_| panic!("no message"))
}

fn prepare<'a>(db: &'a CoreDb, sql: &str) -> Stmt<'a> {
    db.prepare(sql, |_, s| { assert_eq!(s.to_str().as_deref(), Some(sql)); DbCreated { code: DB_OK, raw: 9 } }).unwrap()
}

#[test]
fn open_and_exec_creates_table() {
    let db = memdb();
    exec(&db, "CREATE TABLE t(id INTEGER PRIMARY KEY, name TEXT)", DB_OK).expect("exec create");
}

#[test]
fn prepare_bind_step_and_read_columns() {
    let db = memdb();
    exec(&db, "CREATE TABLE t(id INTEGER PRIMARY KEY, s TEXT)", DB_OK).unwrap();
    let mut stmt = prepare(&db, "INSERT INTO t(s) VALUES (?)");
    stmt.bind_text(1, "hello", |_, i, t| { assert_eq!((i, t.to_bytes()), (1, b"hello".to_vec())); DB_OK }).unwrap();
    assert!(stmt.step(|_| DB_DONE).unwrap() == false);
    assert_eq!(db.changes(|_| 1), 1);

    let q = prepare(&db, "SELECT id, s FROM t");
    assert_eq!(q.column_count(|_| 2), 2);
    assert!(q.step(|_| DB_ROW).unwrap());
    let row: Vec<Option<&[u8]>> = vec![Some(b"1"), Some(b"hello")];
    let column = |idx: i32| q.column_text(idx, |_, i| row[i as usize].map(|b| b.to_vec()));
    assert_eq!(column(0).map(|s| s.parse::<i64>().unwrap()), Some(db.last_insert_rowid(|_| 1)));
    assert_eq!(column(1), Some("hello".to_owned()));
    assert!(!q.step(|_| DB_DONE).unwrap());
}

#[test]
fn iterator_yields_one_row() {
    let db = memdb();
    exec(&db, "CREATE TABLE t(s TEXT)", DB_OK).unwrap();
    exec(&db, "INSERT INTO t(s) VALUES ('a'), ('b'), ('c')", DB_OK).unwrap();
    let q = prepare(&db, "SELECT s FROM t ORDER BY s");
    let rows: [&[u8]; 3] = [b"a", b"b", b"c"];
    let at = Cell::new(0usize);
    let mut values = Vec::new();
    let mut it = q.iter();
    while let Some(row) = it.next(|_| { at.set(at.get() + 1); if at.get() <= 3 { DB_ROW } else { DB_DONE } }) {
        row.unwrap();
        values.push(q.column_text(0, |_, _| Some(rows[at.get() - 1].to_vec())));
    }
    assert_eq!(values, vec![Some("a".to_owned()), Some("b".to_owned()), Some("c".to_owned())]);
    assert!(it.next(|_| panic!("the rows have ended")).is_none());
}

#[test]
fn null_text_column_is_none() {
    let db = memdb();
    let q = prepare(&db, "SELECT s FROM t");
    q.step(|_| DB_ROW).unwrap();
    assert_eq!(q.column_text(0, |_, _| None), None);
}

#[test]
fn bad_sql_is_err() {
    let db = memdb();
    assert!(db.prepare("SELECT FROM nowhere", |_, _| DbCreated { code: 1, raw: 0 }).is_err());
    assert_eq!(db.prepare("", |_, _| DbCreated { code: DB_OK, raw: 0 }).unwrap_err(), generic());
    assert_eq!(db.prepare("\0", |_, _| panic!("no call")).unwrap_err(), generic());
}

#[test]
fn errmsg_is_some_after_success() {
    let db = memdb();
    exec(&db, "CREATE TABLE t(x INTEGER)", DB_OK).unwrap();
    assert!(db.errmsg(|_| Some(b"not an error".to_vec())).is_some());
}

#[test]
fn codes_of_the_engine() {
    assert_eq!(db_result(DB_OK), Ok(()));
    assert_eq!(db_result(DB_ROW), Err(generic()));
    let db = memdb();
    let freed = Cell::new(0);
    let r = db.exec("x", |_, _| DbExecuted { code: 1, message: 40 }, |m| freed.set(m));
    assert_eq!((r, freed.get()), (Err(generic()), 40));
    let q = prepare(&db, "x");
    assert_eq!(q.step(|_| 5), Err(generic()));
    let mut it = q.iter();
    assert_eq!(it.next(|_| 5), Some(Err(generic())));
    assert_eq!(it.next(|_| panic!("the rows have ended")), None);
    let mut q = Stmt::from_raw(4, &db).unwrap();
    assert_eq!(q.bind_text(2, "t", |_, _, _| 1), Err(generic()));
    assert_eq!(q.bind_text(2, "\0", |_, _, _| panic!("no call")), Err(generic()));
    assert_eq!(q.bind_int(1, -2, |s, i, v| { assert_eq!((s, i, v), (4, 1, -2)); 0 }), Ok(()));
    assert_eq!(q.bind_int64(1, i64::MIN, |_, _, v| { assert_eq!(v, i64::MIN); 0 }), Ok(()));
    assert_eq!(q.bind_double(1, 2.5f64, |_, _, v| { assert_eq!(v, 2.5); 0 }), Ok(()));
    assert_eq!(CoreDb::open_uri("f", |_| DbCreated { code: 14, raw: 3 }).unwrap_err(), generic());
    assert_eq!(CoreDb::open("f", |_| DbCreated { code: 0, raw: 0 }).unwrap_err(), generic());
}

#[test]
fn events_are_fired_once() {
    let mut e = Event::custom("a::b", |t, s| {
        assert_eq!((t, s.unwrap().to_bytes()), (EVENT_CUSTOM, b"a::b".to_vec()));
        Created { status: 0, raw: 5 }
    })
    .unwrap();
    assert_eq!(e.add_header("N", "v", |a, stack, n, v| {
        assert_eq!((a, stack, n.to_bytes(), v.to_bytes()), (5, STACK_BOTTOM, b"N".to_vec(), b"v".to_vec()));
        0
    }), Ok(()));
    assert_eq!(e.add_header_name("N", "\0", |_, _, _, _| panic!("no call")), Err(generic()));
    assert_eq!(e.add_body("text", |_, b| { assert_eq!(b.to_bytes(), b"text"); 3 }), Err(SwitchError(Status(3))));
    assert_eq!(e.del_header("N", |_, _| 0), Ok(()));
    assert_eq!(e.body(|_| Some(b"text".to_vec())).as_deref(), Some("text"));
    assert_eq!(e.fire(|a| { assert_eq!(a, 5); Created { status: 0, raw: 0 } }, |_| panic!("the core owns the event")), Ok(()));
    let e = Event::new(7, |t, s| { assert_eq!((t, s.is_none()), (7, true)); Created { status: 0, raw: 6 } }).unwrap();
    let destroyed = Cell::new(0);
    assert_eq!(e.fire(|_| Created { status: 4, raw: 6 }, |a| destroyed.set(a)), Err(SwitchError(Status(4))));
    assert_eq!(destroyed.get(), 6);
    assert_eq!(Event::custom("\0", |_, _| panic!("no call")).unwrap_err(), generic());
    assert_eq!(Event::new(7, |_, _| Created { status: 2, raw: 6 }).unwrap_err(), SwitchError(Status(2)));
}

#[test]
fn events_without_a_counterpart_do_nothing() {
    let mut e = Event::new(7, |_, _| Created { status: 0, raw: 0 }).unwrap();
    assert_eq!(e.as_ptr(), 0);
    assert_eq!(e.add_header("N", "\0", |_, _, _, _| panic!("no call")), Ok(()));
    assert_eq!(e.add_body("b", |_, _| panic!("no call")), Ok(()));
    assert_eq!(e.del_header("b", |_, _| panic!("no call")), Ok(()));
    assert_eq!(e.body(|_| panic!("no call")), None);
    e.release(|_| panic!("nothing to destroy"));
    assert_eq!(e.fire(|_| panic!("no call"), |_| panic!("no call")), Ok(()));
    let mut e = Event::new(7, |_, _| Created { status: 0, raw: 9 }).unwrap();
    let destroyed = RefCell::new(Vec::new());
    e.release(|a| destroyed.borrow_mut().push(a));
    e.release(|a| destroyed.borrow_mut().push(a));
    assert_eq!((destroyed.into_inner(), e.as_ptr()), (vec![9], 0));
}

#[test]
fn headers_and_subscriptions() {
    let e = EventRef::from_raw(8);
    assert_eq!(e.header("N", |a, n| { assert_eq!((a, n.to_bytes()), (8, b"N".to_vec())); Some(b"v".to_vec()) }).as_deref(), Some("v"));
    assert_eq!(e.header("N", |_, _| None), None);
    assert_eq!(e.header("N\0", |_, _| panic!("no call")), None);
    assert_eq!(EventRef::from_raw(0).header("N", |_, _| panic!("no event")), None);
    let mut b = EventBinder::bind("id", 3, Some("sub"), 50, 60, |i, e, s, c, u| {
        assert_eq!((i.to_bytes(), e, s.unwrap().to_bytes(), c, u), (b"id".to_vec(), 3, b"sub".to_vec(), 50, 60));
        Created { status: 0, raw: 70 }
    })
    .unwrap();
    assert_eq!(b.as_ptr(), 70);
    let unbound = Cell::new(0);
    b.release(|n| unbound.set(n));
    assert_eq!((unbound.get(), b.as_ptr()), (70, 0));
    b.release(|_| panic!("already given up"));
    assert_eq!(EventBinder::bind("id", 3, Some("\0"), 0, 0, |_, _, _, _, _| panic!("no call")).unwrap_err(), generic());
    assert_eq!(EventBinder::bind("id", 3, None, 0, 0, |_, _, s, _, _| { assert!(s.is_none()); Created { status: 9, raw: 0 } }).unwrap_err(), generic());
}

#[test]
fn global_variables_and_the_domain() {
    assert_eq!(get_variable("v", |_| (3, b"x".to_vec()), |p| assert_eq!(p, 3)), Ok(Some("x".to_owned())));
    assert_eq!(set_variable("v", None, |n, v| assert_eq!((n.to_bytes(), v.is_none()), (b"v".to_vec(), true))), Ok(()));
    assert_eq!(set_variable("v", Some("\0"), |_, _| panic!("no call")), Err(generic()));
    let freed = Cell::new(0);
    assert_eq!(get_domain(true, |d| { assert_eq!(d, SWITCH_TRUE); (4, b"example.com".to_vec()) }, |p| freed.set(p)), Ok(Some("example.com".to_owned())));
    assert_eq!(freed.get(), 4);
    assert_eq!(get_domain(false, |d| { assert_eq!(d, SWITCH_FALSE); (4, b"d".to_vec()) }, |_| panic!("not owned")), Ok(Some("d".to_owned())));
    assert_eq!(get_domain(true, |_| (0, vec![]), |_| panic!("nothing to free")), Ok(None));
    assert_eq!(sessions_per_second(30, |l| l + 1), 31);
}

#[test]
fn limits_name_their_resource() {
    let session = Session::from_raw(3).unwrap();
    assert_eq!(incr(BACKEND_HASH, "r", "x", 5, 60, Some(&session), |b, s, r, x, m, i| {
        assert_eq!((b.to_bytes(), s, r.to_bytes(), x.to_bytes(), m, i), (b"hash".to_vec(), 3, b"r".to_vec(), b"x".to_vec(), 5, 60));
        0
    }), Ok(()));
    assert_eq!(release("db", "r", "x", None, |_, s, _, _| { assert_eq!(s, 0); 1 }), Err(SwitchError(Status(1))));
    assert_eq!(usage("db", "r", "x", |_, _, _| Usage { count: -1, rate: 4 }), Usage { count: -1, rate: 4 });
    assert_eq!(usage("db", "r\0", "x", |_, _, _| panic!("no call")), Usage::default());
    assert_eq!(Usage::default(), Usage { count: 0, rate: 0 });
    assert_eq!(fire_event("db", "r", "x", 1, 2, 3, 4, |_, _, _, a, b, c, d| assert_eq!((a, b, c, d), (1, 2, 3, 4))), Ok(()));
    assert_eq!(status("db", |_| (0, vec![]), |_| panic!("nothing to free")), Ok(None));
}

#[test]
fn log_lines_are_framed_and_escaped() {
    let lines = RefCell::new(Vec::new());
    let sink = |level: i32, line: &fswtch::command::CText| lines.borrow_mut().push((level, line.to_str().unwrap()));
    log("m", LogLevel::Notice, "hello", sink);
    log_error("m", "a\0b\0", sink);
    log_info("", "", sink);
    log_debug10("m\0", "ü", sink);
    log_example("m", "x", sink);
    let expected = [
        (5, "[fswtch:m] hello"),
        (3, "[fswtch:m] a\\0b\\0"),
        (6, "[fswtch:] "),
        (110, "[fswtch:m\\0] ü"),
        (6, "[fswtch:m] x"),
    ];
    let expected: Vec<(i32, String)> = expected.iter().map(|(l, t)| (*l, t.to_string())).collect();
    assert_eq!(lines.into_inner(), expected);
    assert_eq!(LogLevel::Disable.as_raw(), -1);
    assert_eq!(LogLevel::Uninit.as_raw(), 1000);
    assert_eq!(log_str2mask("all", |_| 255), Ok(255));
}

#[test]
fn files_are_opened_and_moved() {
    let pool = Pool::from_raw(2).unwrap();
    assert_eq!(file_open("f", 1, 2, &pool, |n, f, p, o| { assert_eq!((n.to_bytes(), f, p, o), (b"f".to_vec(), 1, 2, 2)); Created { status: 0, raw: 8 } }), Ok(8));
    assert_eq!(file_open("f", 1, 2, &pool, |_, _, _, _| Created { status: 0, raw: 0 }), Err(generic()));
    assert_eq!(file_open("f", 1, 2, &pool, |_, _, _, _| Created { status: 3, raw: 8 }), Err(SwitchError(Status(3))));
    assert_eq!(file_mktemp(5, 0, &pool, |_, _, _| Created { status: 0, raw: 6 }), Ok(6));
    let mut n = 100;
    assert_eq!(core_file_read(1, 2, &mut n, |a, b, c| { assert_eq!((a, b, c), (1, 2, 100)); Transferred { status: 1, amount: 7 } }), Err(SwitchError(Status(1))));
    assert_eq!(n, 7);
    let mut pos = 3;
    assert_eq!(core_file_seek(1, &mut pos, -4, 2, |_, p, s, w| { assert_eq!((p, s, w), (3, -4, 2)); (0, 9) }), Ok(()));
    assert_eq!(pos, 9);
    let mut off = 5;
    assert_eq!(file_seek(1, 0, &mut off, |_, _, o| (0, o + 1)), Ok(()));
    assert_eq!(off, 6);
    let (mut i, mut o) = (0, 0);
    assert_eq!(file_pipe_create(&mut i, &mut o, &pool, |_, _, _| (0, 1, 2)), Ok(()));
    assert_eq!((i, o), (1, 2));
    assert_eq!(core_file_get_string(1, 2, |_, _| (0, Some(vec![b'x', 0xff]))), Ok(Some("x\u{fffd}".to_owned())));
    assert_eq!(core_file_get_string(1, 2, |_, _| (0, None)), Ok(None));
    assert_eq!(core_file_get_string(1, 2, |_, _| (4, None)), Err(SwitchError(Status(4))));
    assert!(core_file_has_video(1, true, |_, c| c));
    assert_eq!(file_rename("a", "b\0", &pool, |_, _, _| panic!("no call")), Err(generic()));
}
