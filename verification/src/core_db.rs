//! The core's built-in SQL database.
//!
//! The engine answers with result codes of its own. Every failure is the general error; the
//! engine's words for it are read with [`CoreDb::errmsg`].

use vstd::prelude::*;
use crate::command::{
    borrowed_cstr_to_string, c_safe, cstring, free_cstr, reply_text, text_is, CText,
};
use crate::handle::{allocated, allocated_at, maybe_at, Address, At, Handle, NULL};
use crate::status::{generic_error, Result, SwitchError};

verus! {

/// The code of success.
pub const DB_OK: i32 = 0;

/// The code of a step that found a row.
pub const DB_ROW: i32 = 100;

/// The code of a step that found no more rows.
pub const DB_DONE: i32 = 101;

/// What a code means: success, or the general error.
pub open spec fn db_outcome(code: i32) -> Result<()> {
    if code == DB_OK {
        Ok(())
    } else {
        Err(generic_error())
    }
}

/// Turns a code into a result.
pub fn db_result(code: i32) -> (r: Result<()>)
    ensures
        r == db_outcome(code),
{
    if code == DB_OK {
        Ok(())
    } else {
        Err(SwitchError::generic())
    }
}

/// What the engine answers when it makes an object: a code, and the object's address.
#[derive(Debug, Copy, Clone, PartialEq, Eq, Structural)]
pub struct DbCreated {
    pub code: i32,
    pub raw: Address,
}

/// What the engine answers to a batch of statements: a code, and the address of a message that the
/// caller has to free, or null.
#[derive(Debug, Copy, Clone, PartialEq, Eq, Structural)]
pub struct DbExecuted {
    pub code: i32,
    pub message: Address,
}

/// Whether `r` is the object that the engine made, or the general error where it made none.
pub open spec fn db_made<T: At>(r: Result<T>, reply: DbCreated) -> bool {
    if reply.code == DB_OK {
        allocated_at(r, reply.raw)
    } else {
        r == Err::<T, SwitchError>(generic_error())
    }
}

/// A connection to the built-in database.
#[derive(Debug)]
pub struct CoreDb {
    raw: Handle,
}

impl At for CoreDb {
    closed spec fn addr(&self) -> Address {
        self.raw.addr()
    }
}

impl CoreDb {
    /// Wraps an address; `None` for the null pointer.
    pub fn from_raw(raw: Address) -> (r: Option<CoreDb>)
        ensures
            maybe_at(r, raw),
    {
        match Handle::new(raw) {
            Some(raw) => Some(CoreDb { raw }),
            None => None,
        }
    }

    /// The address, which is never null.
    pub fn as_ptr(&self) -> (r: Address)
        ensures
            r == self.addr(),
            r != NULL,
    {
        self.raw.as_ptr()
    }
}

impl CoreDb {
    /// Opens the database in a file, or in memory for the name `:memory:`.
    pub fn open<F>(filename: &str, call: F) -> (r: Result<CoreDb>)
        where
            F: FnOnce(&CText) -> DbCreated,
        requires
            c_safe(filename@) ==> forall|c: &CText|
                #![trigger call.requires((c,))]
                c.spells(filename@) ==> call.requires((c,)),
        ensures
            !c_safe(filename@) ==> r == Err::<CoreDb, SwitchError>(generic_error()),
            c_safe(filename@) ==> exists|c: &CText, reply: DbCreated|
                c.spells(filename@) && #[trigger] call.ensures((c,), reply) && db_made(r, reply),
    {
        let filename = cstring(filename)?;
        let reply = call(&filename);
        db_result(reply.code)?;
        let raw = allocated(reply.raw)?;
        Ok(CoreDb { raw })
    }

    /// Opens the database that a URI names.
    pub fn open_uri<F>(filename: &str, call: F) -> (r: Result<CoreDb>)
        where
            F: FnOnce(&CText) -> DbCreated,
        requires
            c_safe(filename@) ==> forall|c: &CText|
                #![trigger call.requires((c,))]
                c.spells(filename@) ==> call.requires((c,)),
        ensures
            !c_safe(filename@) ==> r == Err::<CoreDb, SwitchError>(generic_error()),
            c_safe(filename@) ==> exists|c: &CText, reply: DbCreated|
                c.spells(filename@) && #[trigger] call.ensures((c,), reply) && db_made(r, reply),
    {
        let filename = cstring(filename)?;
        let reply = call(&filename);
        db_result(reply.code)?;
        let raw = allocated(reply.raw)?;
        Ok(CoreDb { raw })
    }

    /// Runs statements. A message that the engine returns is freed.
    pub fn exec<F, D>(&self, sql: &str, call: F, free: D) -> (r: Result<()>)
        where
            F: FnOnce(Address, &CText) -> DbExecuted,
            D: FnOnce(Address),
        requires
            c_safe(sql@) ==> forall|c: &CText|
                #![trigger call.requires((self.addr(), c))]
                c.spells(sql@) ==> call.requires((self.addr(), c)),
            forall|c: &CText, reply: DbExecuted| #[trigger]
                call.ensures((self.addr(), c), reply) && c.spells(sql@) && reply.message != NULL
                    ==> free.requires((reply.message,)),
        ensures
            !c_safe(sql@) ==> r == Err::<(), SwitchError>(generic_error()),
            c_safe(sql@) ==> exists|c: &CText, reply: DbExecuted|
                c.spells(sql@) && #[trigger] call.ensures((self.addr(), c), reply) && r
                    == db_outcome(reply.code) && (reply.message != NULL ==> free.ensures(
                    (reply.message,),
                    (),
                )),
    {
        let sql = cstring(sql)?;
        let reply = call(self.as_ptr(), &sql);
        free_cstr(reply.message, free);
        db_result(reply.code)
    }

    /// Compiles the first statement of `sql`. The statement cannot outlive the connection.
    pub fn prepare<'a, F>(&'a self, sql: &str, call: F) -> (r: Result<Stmt<'a>>)
        where
            F: FnOnce(Address, &CText) -> DbCreated,
        requires
            c_safe(sql@) ==> forall|c: &CText|
                #![trigger call.requires((self.addr(), c))]
                c.spells(sql@) ==> call.requires((self.addr(), c)),
        ensures
            !c_safe(sql@) ==> r == Err::<Stmt<'a>, SwitchError>(generic_error()),
            c_safe(sql@) ==> exists|c: &CText, reply: DbCreated|
                c.spells(sql@) && #[trigger] call.ensures((self.addr(), c), reply) && db_made(
                    r,
                    reply,
                ),
            r matches Ok(s) ==> s.held().len() == 0,
    {
        let sql = cstring(sql)?;
        let reply = call(self.as_ptr(), &sql);
        db_result(reply.code)?;
        let stmt = allocated(reply.raw)?;
        Ok(Stmt { stmt, db: self, bound: Vec::new() })
    }

    /// What the engine says of its last call.
    pub fn errmsg<F>(&self, call: F) -> (r: Option<String>)
        where
            F: FnOnce(Address) -> Option<Vec<u8>>,
        requires
            call.requires((self.addr(),)),
        ensures
            exists|reply: Option<Vec<u8>>| {
                &&& #[trigger] call.ensures((self.addr(),), reply)
                &&& text_is(r, reply_text(reply))
            },
    {
        borrowed_cstr_to_string(call(self.as_ptr()))
    }

    /// The number of rows that the last statement changed.
    pub fn changes<F>(&self, call: F) -> (r: i32)
        where
            F: FnOnce(Address) -> i32,
        requires
            call.requires((self.addr(),)),
        ensures
            call.ensures((self.addr(),), r),
    {
        call(self.as_ptr())
    }

    /// The row number of the last insertion.
    pub fn last_insert_rowid<F>(&self, call: F) -> (r: i64)
        where
            F: FnOnce(Address) -> i64,
        requires
            call.requires((self.addr(),)),
        ensures
            call.ensures((self.addr(),), r),
    {
        call(self.as_ptr())
    }
}

/// A compiled statement of a connection. It holds the texts that were bound to it, because the
/// engine reads them where they stand.
#[derive(Debug)]
pub struct Stmt<'a> {
    stmt: Handle,
    db: &'a CoreDb,
    bound: Vec<CText>,
}

impl<'a> At for Stmt<'a> {
    closed spec fn addr(&self) -> Address {
        self.stmt.addr()
    }
}

/// What a step found, by its code: a row, no more rows, or an error.
pub open spec fn step_outcome(code: i32) -> Result<bool> {
    if code == DB_ROW {
        Ok(true)
    } else if code == DB_DONE {
        Ok(false)
    } else {
        Err(generic_error())
    }
}

impl<'a> Stmt<'a> {
    /// The texts that the statement holds, in the order in which they were bound.
    pub closed spec fn held(&self) -> Seq<CText> {
        self.bound@
    }

    /// Wraps a statement of a connection; `None` for the null pointer.
    pub fn from_raw(stmt: Address, db: &'a CoreDb) -> (r: Option<Stmt<'a>>)
        ensures
            maybe_at(r, stmt),
            r matches Some(s) ==> s.held().len() == 0,
    {
        match Handle::new(stmt) {
            Some(stmt) => Some(Stmt { stmt, db, bound: Vec::new() }),
            None => None,
        }
    }

    /// The statement's address, which is never null.
    pub fn as_ptr(&self) -> (r: Address)
        ensures
            r == self.addr(),
            r != NULL,
    {
        self.stmt.as_ptr()
    }

    /// Takes one step: `true` where there is a row to be read, `false` where there are no more.
    pub fn step<F>(&self, call: F) -> (r: Result<bool>)
        where
            F: FnOnce(Address) -> i32,
        requires
            call.requires((self.addr(),)),
        ensures
            exists|code: i32| #[trigger] call.ensures((self.addr(),), code) && r == step_outcome(
                code,
            ),
    {
        let code: i32 = call(self.as_ptr());
        if code == DB_ROW {
            Ok(true)
        } else if code == DB_DONE {
            Ok(false)
        } else {
            Err(SwitchError::generic())
        }
    }

    /// Makes the statement ready to run again. What is bound stays bound.
    pub fn reset<F>(&self, call: F) -> (r: Result<()>)
        where
            F: FnOnce(Address) -> i32,
        requires
            call.requires((self.addr(),)),
        ensures
            exists|code: i32| #[trigger] call.ensures((self.addr(),), code) && r == db_outcome(
                code,
            ),
    {
        db_result(call(self.as_ptr()))
    }

    /// Binds a text to a parameter. The text is held from then on, even where binding it fails.
    pub fn bind_text<F>(&mut self, idx: i32, value: &str, call: F) -> (r: Result<()>)
        where
            F: FnOnce(Address, i32, &CText) -> i32,
        requires
            c_safe(value@) ==> forall|c: CText|
                #![trigger call.requires((old(self).addr(), idx, &c))]
                c.spells(value@) ==> call.requires((old(self).addr(), idx, &c)),
        ensures
            final(self).addr() == old(self).addr(),
            !c_safe(value@) ==> r == Err::<(), SwitchError>(generic_error()) && final(self).held()
                == old(self).held(),
            c_safe(value@) ==> exists|c: CText, code: i32|
                c.spells(value@) && #[trigger] call.ensures((old(self).addr(), idx, &c), code) && r
                    == db_outcome(code) && final(self).held() == old(self).held().push(c),
    {
        let value = cstring(value)?;
        let code: i32 = call(self.as_ptr(), idx, &value);
        self.bound.push(value);
        db_result(code)
    }

    /// Binds an integer to a parameter.
    pub fn bind_int<F>(&self, idx: i32, value: i32, call: F) -> (r: Result<()>)
        where
            F: FnOnce(Address, i32, i32) -> i32,
        requires
            call.requires((self.addr(), idx, value)),
        ensures
            exists|code: i32| #[trigger]
                call.ensures((self.addr(), idx, value), code) && r == db_outcome(code),
    {
        db_result(call(self.as_ptr(), idx, value))
    }

    /// Binds a 64-bit integer to a parameter.
    pub fn bind_int64<F>(&self, idx: i32, value: i64, call: F) -> (r: Result<()>)
        where
            F: FnOnce(Address, i32, i64) -> i32,
        requires
            call.requires((self.addr(), idx, value)),
        ensures
            exists|code: i32| #[trigger]
                call.ensures((self.addr(), idx, value), code) && r == db_outcome(code),
    {
        db_result(call(self.as_ptr(), idx, value))
    }

    /// Binds a floating point number to a parameter; it passes through as a value of the type `T`.
    pub fn bind_double<T, F>(&self, idx: i32, value: T, call: F) -> (r: Result<()>)
        where
            F: FnOnce(Address, i32, T) -> i32,
        requires
            call.requires((self.addr(), idx, value)),
        ensures
            exists|code: i32| #[trigger]
                call.ensures((self.addr(), idx, value), code) && r == db_outcome(code),
    {
        db_result(call(self.as_ptr(), idx, value))
    }

    /// The number of columns in a row.
    pub fn column_count<F>(&self, call: F) -> (r: i32)
        where
            F: FnOnce(Address) -> i32,
        requires
            call.requires((self.addr(),)),
        ensures
            call.ensures((self.addr(),), r),
    {
        call(self.as_ptr())
    }

    /// The text of a column; `None` for `NULL`.
    pub fn column_text<F>(&self, idx: i32, call: F) -> (r: Option<String>)
        where
            F: FnOnce(Address, i32) -> Option<Vec<u8>>,
        requires
            call.requires((self.addr(), idx)),
        ensures
            exists|reply: Option<Vec<u8>>| {
                &&& #[trigger] call.ensures((self.addr(), idx), reply)
                &&& text_is(r, reply_text(reply))
            },
    {
        borrowed_cstr_to_string(call(self.as_ptr(), idx))
    }

    /// The name of a column.
    pub fn column_name<F>(&self, idx: i32, call: F) -> (r: Option<String>)
        where
            F: FnOnce(Address, i32) -> Option<Vec<u8>>,
        requires
            call.requires((self.addr(), idx)),
        ensures
            exists|reply: Option<Vec<u8>>| {
                &&& #[trigger] call.ensures((self.addr(), idx), reply)
                &&& text_is(r, reply_text(reply))
            },
    {
        borrowed_cstr_to_string(call(self.as_ptr(), idx))
    }

    /// The rows of the statement, one after the other.
    pub fn iter<'s>(&'s self) -> (r: StmtRows<'s, 'a>)
        ensures
            r.statement() == self.addr(),
            !r.finished(),
    {
        StmtRows { stmt: self, done: false }
    }
}

/// The rows of a statement. They end with the last row or with the first error.
#[derive(Debug)]
pub struct StmtRows<'s, 'db: 's> {
    stmt: &'s Stmt<'db>,
    done: bool,
}

impl<'s, 'db> StmtRows<'s, 'db> {
    /// The address of the statement.
    pub closed spec fn statement(&self) -> Address {
        self.stmt.addr()
    }

    /// Whether the rows have ended.
    pub closed spec fn finished(&self) -> bool {
        self.done
    }

    /// Steps to the next row: `Some(Ok(()))` for a row, the error once where the step fails, and
    /// `None` from the end on. After the end the statement is left alone.
    pub fn next<F>(&mut self, call: F) -> (r: Option<Result<()>>)
        where
            F: FnOnce(Address) -> i32,
        requires
            !old(self).finished() ==> call.requires((old(self).statement(),)),
        ensures
            final(self).statement() == old(self).statement(),
            old(self).finished() ==> r is None && final(self).finished(),
            !old(self).finished() ==> exists|code: i32| #[trigger]
                call.ensures((old(self).statement(),), code) && match step_outcome(code) {
                    Ok(true) => r == Some(Ok::<(), SwitchError>(())) && !final(self).finished(),
                    Ok(false) => r is None && final(self).finished(),
                    Err(e) => r == Some(Err::<(), SwitchError>(e)) && final(self).finished(),
                },
    {
        if self.done {
            return None;
        }
        proof {
            assert(old(self).statement() == self.stmt.addr());
        }
        match self.stmt.step(call) {
            Ok(true) => Some(Ok(())),
            Ok(false) => {
                self.done = true;
                None
            },
            Err(error) => {
                self.done = true;
                Some(Err(error))
            },
        }
    }
}

/// A database call succeeded where its code is zero. A statement has a row at code 100 and is done at
/// code 101. Any other code is the general error.
pub proof fn database_codes_are_outcomes(code: i32)
    ensures
        db_outcome(code) is Ok <==> code == 0,
        db_outcome(code) matches Err(e) ==> e.0.0 == 9,
        step_outcome(code) == Ok::<bool, SwitchError>(true) <==> code == 100,
        step_outcome(code) == Ok::<bool, SwitchError>(false) <==> code == 101,
        step_outcome(code) is Ok <==> code == 100 || code == 101,
        step_outcome(code) matches Err(e) ==> e.0.0 == 9,
{
}

/// What a database makes is there exactly where the code is zero and there is an address, and it is at
/// that address; otherwise the error is the general one.
pub proof fn databases_make_what_succeeded<T: At>(r: Result<T>, reply: DbCreated)
    requires
        db_made(r, reply),
    ensures
        r is Ok <==> reply.code == 0 && reply.raw != 0,
        r matches Ok(x) ==> x.addr() == reply.raw,
        r matches Err(e) ==> e.0.0 == 9,
{
}

} // verus!
