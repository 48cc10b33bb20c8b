//! Log lines of a module.

use vstd::prelude::*;
use vstd::string::{StrSliceExecFns, StringExecFns};
use crate::command::{
    borrowed_cstr_to_string, c_safe, cstring, reply_text, text_is, CText,
};
use crate::handle::Address;
use crate::status::{
    generic_error, status_outcome, status_to_result, switch_bool, switch_bool_of, RawStatus, Result,
    SwitchBool, SwitchError,
};

verus! {

/// How important a log line is.
#[derive(Debug, Copy, Clone, PartialEq, Eq, Structural)]
pub enum LogLevel {
    Disable,
    Console,
    Alert,
    Critical,
    Error,
    Warning,
    Notice,
    Info,
    Debug,
    Debug1,
    Debug2,
    Debug3,
    Debug4,
    Debug5,
    Debug6,
    Debug7,
    Debug8,
    Debug9,
    Debug10,
    Invalid,
    Uninit,
}

/// The number of a log level on the core's side.
pub open spec fn raw_level(level: LogLevel) -> i32 {
    match level {
        LogLevel::Disable => (-1) as i32,
        LogLevel::Console => 0,
        LogLevel::Alert => 1,
        LogLevel::Critical => 2,
        LogLevel::Error => 3,
        LogLevel::Warning => 4,
        LogLevel::Notice => 5,
        LogLevel::Info => 6,
        LogLevel::Debug => 7,
        LogLevel::Debug1 => 101,
        LogLevel::Debug2 => 102,
        LogLevel::Debug3 => 103,
        LogLevel::Debug4 => 104,
        LogLevel::Debug5 => 105,
        LogLevel::Debug6 => 106,
        LogLevel::Debug7 => 107,
        LogLevel::Debug8 => 108,
        LogLevel::Debug9 => 109,
        LogLevel::Debug10 => 110,
        LogLevel::Invalid => 64,
        LogLevel::Uninit => 1000,
    }
}

impl LogLevel {
    /// The number of the level on the core's side.
    pub fn as_raw(self) -> (r: i32)
        ensures
            r == raw_level(self),
    {
        match self {
            LogLevel::Disable => -1,
            LogLevel::Console => 0,
            LogLevel::Alert => 1,
            LogLevel::Critical => 2,
            LogLevel::Error => 3,
            LogLevel::Warning => 4,
            LogLevel::Notice => 5,
            LogLevel::Info => 6,
            LogLevel::Debug => 7,
            LogLevel::Debug1 => 101,
            LogLevel::Debug2 => 102,
            LogLevel::Debug3 => 103,
            LogLevel::Debug4 => 104,
            LogLevel::Debug5 => 105,
            LogLevel::Debug6 => 106,
            LogLevel::Debug7 => 107,
            LogLevel::Debug8 => 108,
            LogLevel::Debug9 => 109,
            LogLevel::Debug10 => 110,
            LogLevel::Invalid => 64,
            LogLevel::Uninit => 1000,
        }
    }
}

/// No two log levels have the same number.
pub proof fn levels_are_distinct(a: LogLevel, b: LogLevel)
    requires
        raw_level(a) == raw_level(b),
    ensures
        a == b,
{
}

/// `text` with every NUL character written as a backslash and a zero.
pub open spec fn escaped(text: Seq<char>) -> Seq<char>
    decreases text.len(),
{
    if text.len() == 0 {
        text
    } else if text.last() == '\0' {
        escaped(text.drop_last()) + seq!['\\', '0']
    } else {
        escaped(text.drop_last()).push(text.last())
    }
}

/// The text of a log line: the module in brackets behind the library's name, a space, and the
/// message, with no NUL character left.
pub open spec fn log_line(module: Seq<char>, message: Seq<char>) -> Seq<char> {
    escaped("[fswtch:"@ + module + "] "@ + message)
}

/// An escaped text can always be handed over as a C string, and text without a NUL character stands
/// as it is.
pub proof fn escaped_is_safe(text: Seq<char>)
    ensures
        c_safe(escaped(text)),
        c_safe(text) ==> escaped(text) == text,
    decreases text.len(),
{
    if text.len() > 0 {
        let rest = text.drop_last();
        escaped_is_safe(rest);
        if c_safe(text) {
            assert forall|i: int| 0 <= i < rest.len() implies rest[i] != '\0' by {
                assert(rest[i] == text[i]);
            }
            assert(text.last() == text[text.len() - 1]);
            assert(escaped(text) =~= text);
        }
        assert forall|i: int| 0 <= i < escaped(text).len() implies escaped(text)[i] != '\0' by {
            if i < escaped(rest).len() {
                assert(escaped(text)[i] == escaped(rest)[i]);
            }
        }
    }
}

/// Escaping a concatenation escapes its parts.
pub proof fn escaped_concat(a: Seq<char>, b: Seq<char>)
    ensures
        escaped(a + b) == escaped(a) + escaped(b),
    decreases b.len(),
{
    if b.len() == 0 {
        assert(a + b =~= a);
        assert(escaped(a) + escaped(b) =~= escaped(a));
    } else {
        let whole = a + b;
        assert(whole.drop_last() =~= a + b.drop_last());
        assert(whole.last() == b.last());
        escaped_concat(a, b.drop_last());
        if b.last() == '\0' {
            assert(escaped(whole) =~= escaped(a) + (escaped(b.drop_last()) + seq!['\\', '0']));
        } else {
            assert(escaped(whole) =~= escaped(a) + escaped(b.drop_last()).push(b.last()));
        }
    }
}

/// `text` with every NUL character written as a backslash and a zero.
fn escape_nul(text: &str) -> (r: String)
    ensures
        r@ == escaped(text@),
{
    let n: usize = text.unicode_len();
    let mut out = String::new();
    let mut start: usize = 0;
    let mut i: usize = 0;
    proof {
        reveal_strlit("\\0");
        assert(text@.take(0) =~= Seq::<char>::empty());
    }
    while i < n
        invariant
            start <= i <= n,
            n == text@.len(),
            out@ == escaped(text@.take(start as int)),
            c_safe(text@.subrange(start as int, i as int)),
            "\\0"@ == seq!['\\', '0'],
        decreases n - i,
    {
        let ghost piece = text@.subrange(start as int, i as int);
        if text.get_char(i) == '\0' {
            out.append(text.substring_char(start, i));
            out.append("\\0");
            proof {
                assert(text@.take(i as int) =~= text@.take(start as int) + piece);
                escaped_concat(text@.take(start as int), piece);
                escaped_is_safe(piece);
                assert(text@.take(i + 1).drop_last() =~= text@.take(i as int));
                assert(text@.take(i + 1).last() == '\0');
                assert(out@ =~= escaped(text@.take(i + 1)));
                assert(text@.subrange(i + 1, i + 1) =~= Seq::<char>::empty());
            }
            start = i + 1;
        } else {
            proof {
                let longer = text@.subrange(start as int, i + 1);
                assert forall|k: int| 0 <= k < longer.len() implies longer[k] != '\0' by {
                    if k < piece.len() {
                        assert(longer[k] == piece[k]);
                    }
                }
            }
        }
        i = i + 1;
    }
    out.append(text.substring_char(start, n));
    proof {
        let piece = text@.subrange(start as int, n as int);
        escaped_concat(text@.take(start as int), piece);
        escaped_is_safe(piece);
        assert(text@ =~= text@.take(start as int) + piece);
    }
    out
}

/// Writes a log line at a raw level. Every line reaches the core: what would cut it short is
/// escaped.
fn log_at<F>(level: i32, module: &str, message: &str, call: F)
    where
        F: FnOnce(i32, &CText),
    requires
        forall|line: &CText|
            #![trigger call.requires((level, line))]
            line.spells(log_line(module@, message@)) ==> call.requires((level, line)),
    ensures
        exists|line: &CText|
            line.spells(log_line(module@, message@)) && #[trigger] call.ensures((level, line), ()),
{
    let mut text = String::new();
    text.append("[fswtch:");
    text.append(module);
    text.append("] ");
    text.append(message);
    proof {
        assert(text@ =~= "[fswtch:"@ + module@ + "] "@ + message@);
        escaped_is_safe(text@);
    }
    let text = escape_nul(text.as_str());
    match cstring(text.as_str()) {
        Ok(line) => call(level, &line),
        Err(_) => {},
    }
}

/// Writes a log line of a module.
pub fn log<F>(module: &str, level: LogLevel, message: &str, call: F)
    where
        F: FnOnce(i32, &CText),
    requires
        forall|line: &CText|
            #![trigger call.requires((raw_level(level), line))]
            line.spells(log_line(module@, message@)) ==> call.requires((raw_level(level), line)),
    ensures
        exists|line: &CText|
            line.spells(log_line(module@, message@)) && #[trigger] call.ensures(
                (raw_level(level), line),
                (),
            ),
{
    log_at(level.as_raw(), module, message, call)
}

/// Writes a log line for the console.
pub fn log_console<F>(module: &str, message: &str, call: F)
    where
        F: FnOnce(i32, &CText),
    requires
        forall|line: &CText|
            #![trigger call.requires((raw_level(LogLevel::Console), line))]
            line.spells(log_line(module@, message@)) ==>
                call.requires((raw_level(LogLevel::Console), line)),
    ensures
        exists|line: &CText|
            line.spells(log_line(module@, message@)) && #[trigger] call.ensures(
                (raw_level(LogLevel::Console), line),
                (),
            ),
{
    log(module, LogLevel::Console, message, call)
}

/// Writes a log line of an alert.
pub fn log_alert<F>(module: &str, message: &str, call: F)
    where
        F: FnOnce(i32, &CText),
    requires
        forall|line: &CText|
            #![trigger call.requires((raw_level(LogLevel::Alert), line))]
            line.spells(log_line(module@, message@)) ==> call.requires((raw_level(LogLevel::Alert),
                line)),
    ensures
        exists|line: &CText|
            line.spells(log_line(module@, message@)) && #[trigger] call.ensures(
                (raw_level(LogLevel::Alert), line),
                (),
            ),
{
    log(module, LogLevel::Alert, message, call)
}

/// Writes a log line of a critical error.
pub fn log_critical<F>(module: &str, message: &str, call: F)
    where
        F: FnOnce(i32, &CText),
    requires
        forall|line: &CText|
            #![trigger call.requires((raw_level(LogLevel::Critical), line))]
            line.spells(log_line(module@, message@)) ==>
                call.requires((raw_level(LogLevel::Critical), line)),
    ensures
        exists|line: &CText|
            line.spells(log_line(module@, message@)) && #[trigger] call.ensures(
                (raw_level(LogLevel::Critical), line),
                (),
            ),
{
    log(module, LogLevel::Critical, message, call)
}

/// Writes a log line of an error.
pub fn log_error<F>(module: &str, message: &str, call: F)
    where
        F: FnOnce(i32, &CText),
    requires
        forall|line: &CText|
            #![trigger call.requires((raw_level(LogLevel::Error), line))]
            line.spells(log_line(module@, message@)) ==> call.requires((raw_level(LogLevel::Error),
                line)),
    ensures
        exists|line: &CText|
            line.spells(log_line(module@, message@)) && #[trigger] call.ensures(
                (raw_level(LogLevel::Error), line),
                (),
            ),
{
    log(module, LogLevel::Error, message, call)
}

/// Writes a log line of a warning.
pub fn log_warning<F>(module: &str, message: &str, call: F)
    where
        F: FnOnce(i32, &CText),
    requires
        forall|line: &CText|
            #![trigger call.requires((raw_level(LogLevel::Warning), line))]
            line.spells(log_line(module@, message@)) ==>
                call.requires((raw_level(LogLevel::Warning), line)),
    ensures
        exists|line: &CText|
            line.spells(log_line(module@, message@)) && #[trigger] call.ensures(
                (raw_level(LogLevel::Warning), line),
                (),
            ),
{
    log(module, LogLevel::Warning, message, call)
}

/// Writes a log line of a notice.
pub fn log_notice<F>(module: &str, message: &str, call: F)
    where
        F: FnOnce(i32, &CText),
    requires
        forall|line: &CText|
            #![trigger call.requires((raw_level(LogLevel::Notice), line))]
            line.spells(log_line(module@, message@)) ==> call.requires((raw_level(LogLevel::Notice),
                line)),
    ensures
        exists|line: &CText|
            line.spells(log_line(module@, message@)) && #[trigger] call.ensures(
                (raw_level(LogLevel::Notice), line),
                (),
            ),
{
    log(module, LogLevel::Notice, message, call)
}

/// Writes a log line of information.
pub fn log_info<F>(module: &str, message: &str, call: F)
    where
        F: FnOnce(i32, &CText),
    requires
        forall|line: &CText|
            #![trigger call.requires((raw_level(LogLevel::Info), line))]
            line.spells(log_line(module@, message@)) ==> call.requires((raw_level(LogLevel::Info),
                line)),
    ensures
        exists|line: &CText|
            line.spells(log_line(module@, message@)) && #[trigger] call.ensures(
                (raw_level(LogLevel::Info), line),
                (),
            ),
{
    log(module, LogLevel::Info, message, call)
}

/// Writes a log line for debugging.
pub fn log_debug<F>(module: &str, message: &str, call: F)
    where
        F: FnOnce(i32, &CText),
    requires
        forall|line: &CText|
            #![trigger call.requires((raw_level(LogLevel::Debug), line))]
            line.spells(log_line(module@, message@)) ==> call.requires((raw_level(LogLevel::Debug),
                line)),
    ensures
        exists|line: &CText|
            line.spells(log_line(module@, message@)) && #[trigger] call.ensures(
                (raw_level(LogLevel::Debug), line),
                (),
            ),
{
    log(module, LogLevel::Debug, message, call)
}

/// Writes a log line for debugging at depth 1.
pub fn log_debug1<F>(module: &str, message: &str, call: F)
    where
        F: FnOnce(i32, &CText),
    requires
        forall|line: &CText|
            #![trigger call.requires((raw_level(LogLevel::Debug1), line))]
            line.spells(log_line(module@, message@)) ==> call.requires((raw_level(LogLevel::Debug1),
                line)),
    ensures
        exists|line: &CText|
            line.spells(log_line(module@, message@)) && #[trigger] call.ensures(
                (raw_level(LogLevel::Debug1), line),
                (),
            ),
{
    log(module, LogLevel::Debug1, message, call)
}

/// Writes a log line for debugging at depth 2.
pub fn log_debug2<F>(module: &str, message: &str, call: F)
    where
        F: FnOnce(i32, &CText),
    requires
        forall|line: &CText|
            #![trigger call.requires((raw_level(LogLevel::Debug2), line))]
            line.spells(log_line(module@, message@)) ==> call.requires((raw_level(LogLevel::Debug2),
                line)),
    ensures
        exists|line: &CText|
            line.spells(log_line(module@, message@)) && #[trigger] call.ensures(
                (raw_level(LogLevel::Debug2), line),
                (),
            ),
{
    log(module, LogLevel::Debug2, message, call)
}

/// Writes a log line for debugging at depth 3.
pub fn log_debug3<F>(module: &str, message: &str, call: F)
    where
        F: FnOnce(i32, &CText),
    requires
        forall|line: &CText|
            #![trigger call.requires((raw_level(LogLevel::Debug3), line))]
            line.spells(log_line(module@, message@)) ==> call.requires((raw_level(LogLevel::Debug3),
                line)),
    ensures
        exists|line: &CText|
            line.spells(log_line(module@, message@)) && #[trigger] call.ensures(
                (raw_level(LogLevel::Debug3), line),
                (),
            ),
{
    log(module, LogLevel::Debug3, message, call)
}

/// Writes a log line for debugging at depth 4.
pub fn log_debug4<F>(module: &str, message: &str, call: F)
    where
        F: FnOnce(i32, &CText),
    requires
        forall|line: &CText|
            #![trigger call.requires((raw_level(LogLevel::Debug4), line))]
            line.spells(log_line(module@, message@)) ==> call.requires((raw_level(LogLevel::Debug4),
                line)),
    ensures
        exists|line: &CText|
            line.spells(log_line(module@, message@)) && #[trigger] call.ensures(
                (raw_level(LogLevel::Debug4), line),
                (),
            ),
{
    log(module, LogLevel::Debug4, message, call)
}

/// Writes a log line for debugging at depth 5.
pub fn log_debug5<F>(module: &str, message: &str, call: F)
    where
        F: FnOnce(i32, &CText),
    requires
        forall|line: &CText|
            #![trigger call.requires((raw_level(LogLevel::Debug5), line))]
            line.spells(log_line(module@, message@)) ==> call.requires((raw_level(LogLevel::Debug5),
                line)),
    ensures
        exists|line: &CText|
            line.spells(log_line(module@, message@)) && #[trigger] call.ensures(
                (raw_level(LogLevel::Debug5), line),
                (),
            ),
{
    log(module, LogLevel::Debug5, message, call)
}

/// Writes a log line for debugging at depth 6.
pub fn log_debug6<F>(module: &str, message: &str, call: F)
    where
        F: FnOnce(i32, &CText),
    requires
        forall|line: &CText|
            #![trigger call.requires((raw_level(LogLevel::Debug6), line))]
            line.spells(log_line(module@, message@)) ==> call.requires((raw_level(LogLevel::Debug6),
                line)),
    ensures
        exists|line: &CText|
            line.spells(log_line(module@, message@)) && #[trigger] call.ensures(
                (raw_level(LogLevel::Debug6), line),
                (),
            ),
{
    log(module, LogLevel::Debug6, message, call)
}

/// Writes a log line for debugging at depth 7.
pub fn log_debug7<F>(module: &str, message: &str, call: F)
    where
        F: FnOnce(i32, &CText),
    requires
        forall|line: &CText|
            #![trigger call.requires((raw_level(LogLevel::Debug7), line))]
            line.spells(log_line(module@, message@)) ==> call.requires((raw_level(LogLevel::Debug7),
                line)),
    ensures
        exists|line: &CText|
            line.spells(log_line(module@, message@)) && #[trigger] call.ensures(
                (raw_level(LogLevel::Debug7), line),
                (),
            ),
{
    log(module, LogLevel::Debug7, message, call)
}

/// Writes a log line for debugging at depth 8.
pub fn log_debug8<F>(module: &str, message: &str, call: F)
    where
        F: FnOnce(i32, &CText),
    requires
        forall|line: &CText|
            #![trigger call.requires((raw_level(LogLevel::Debug8), line))]
            line.spells(log_line(module@, message@)) ==> call.requires((raw_level(LogLevel::Debug8),
                line)),
    ensures
        exists|line: &CText|
            line.spells(log_line(module@, message@)) && #[trigger] call.ensures(
                (raw_level(LogLevel::Debug8), line),
                (),
            ),
{
    log(module, LogLevel::Debug8, message, call)
}

/// Writes a log line for debugging at depth 9.
pub fn log_debug9<F>(module: &str, message: &str, call: F)
    where
        F: FnOnce(i32, &CText),
    requires
        forall|line: &CText|
            #![trigger call.requires((raw_level(LogLevel::Debug9), line))]
            line.spells(log_line(module@, message@)) ==> call.requires((raw_level(LogLevel::Debug9),
                line)),
    ensures
        exists|line: &CText|
            line.spells(log_line(module@, message@)) && #[trigger] call.ensures(
                (raw_level(LogLevel::Debug9), line),
                (),
            ),
{
    log(module, LogLevel::Debug9, message, call)
}

/// Writes a log line for debugging at depth 10.
pub fn log_debug10<F>(module: &str, message: &str, call: F)
    where
        F: FnOnce(i32, &CText),
    requires
        forall|line: &CText|
            #![trigger call.requires((raw_level(LogLevel::Debug10), line))]
            line.spells(log_line(module@, message@)) ==>
                call.requires((raw_level(LogLevel::Debug10), line)),
    ensures
        exists|line: &CText|
            line.spells(log_line(module@, message@)) && #[trigger] call.ensures(
                (raw_level(LogLevel::Debug10), line),
                (),
            ),
{
    log(module, LogLevel::Debug10, message, call)
}

/// Writes a log line of an example, at the level of information.
pub fn log_example<F>(module: &str, message: &str, call: F)
    where
        F: FnOnce(i32, &CText),
    requires
        forall|line: &CText|
            #![trigger call.requires((raw_level(LogLevel::Info), line))]
            line.spells(log_line(module@, message@)) ==> call.requires((raw_level(LogLevel::Info),
                line)),
    ensures
        exists|line: &CText|
            line.spells(log_line(module@, message@)) && #[trigger] call.ensures(
                (raw_level(LogLevel::Info), line),
                (),
            ),
{
    log(module, LogLevel::Info, message, call)
}

/// Writes a log line of an error in an example.
pub fn log_example_error<F>(module: &str, message: &str, call: F)
    where
        F: FnOnce(i32, &CText),
    requires
        forall|line: &CText|
            #![trigger call.requires((raw_level(LogLevel::Error), line))]
            line.spells(log_line(module@, message@)) ==> call.requires((raw_level(LogLevel::Error),
                line)),
    ensures
        exists|line: &CText|
            line.spells(log_line(module@, message@)) && #[trigger] call.ensures(
                (raw_level(LogLevel::Error), line),
                (),
            ),
{
    log(module, LogLevel::Error, message, call)
}

/// The name of a raw level.
pub fn log_level2str<F>(level: i32, call: F) -> (r: Option<String>)
    where
        F: FnOnce(i32) -> Option<Vec<u8>>,
    requires
        call.requires((level,)),
    ensures
        exists|reply: Option<Vec<u8>>| {
            &&& #[trigger] call.ensures((level,), reply)
            &&& text_is(r, reply_text(reply))
        },
{
    borrowed_cstr_to_string(call(level))
}

/// The raw level that is called `s`.
pub fn log_str2level<F>(s: &str, call: F) -> (r: Result<i32>)
    where
        F: FnOnce(&CText) -> i32,
    requires
        c_safe(s@) ==> forall|s_c: &CText|
            #![trigger call.requires((s_c,))]
            s_c.spells(s@) ==> call.requires((s_c,)),
    ensures
        !c_safe(s@) ==> r == Err::<i32, SwitchError>(generic_error()),
        c_safe(s@) ==> exists|s_c: &CText, reply: i32| {
            &&& s_c.spells(s@)
            &&& #[trigger] call.ensures((s_c,), reply)
            &&& r matches Ok(v) && v == reply
        },
{
    let s = cstring(s)?;
    let reply: i32 = call(&s);
    Ok(reply)
}

/// The set of levels that `s` describes.
pub fn log_str2mask<F>(s: &str, call: F) -> (r: Result<u32>)
    where
        F: FnOnce(&CText) -> u32,
    requires
        c_safe(s@) ==> forall|s_c: &CText|
            #![trigger call.requires((s_c,))]
            s_c.spells(s@) ==> call.requires((s_c,)),
    ensures
        !c_safe(s@) ==> r == Err::<u32, SwitchError>(generic_error()),
        c_safe(s@) ==> exists|s_c: &CText, reply: u32| {
            &&& s_c.spells(s@)
            &&& #[trigger] call.ensures((s_c,), reply)
            &&& r matches Ok(v) && v == reply
        },
{
    let s = cstring(s)?;
    let reply: u32 = call(&s);
    Ok(reply)
}

/// Registers a function that gets the log lines up to a level.
pub fn log_bind_logger<F>(
    function: Address,
    level: i32,
    is_console: bool,
    call: F,
) -> (r: Result<()>)
    where
        F: FnOnce(Address, i32, SwitchBool) -> RawStatus,
    requires
        call.requires((function, level, switch_bool_of(is_console))),
    ensures
        exists|reply: RawStatus| {
            &&& #[trigger] call.ensures((function, level, switch_bool_of(is_console)), reply)
            &&& r == status_outcome(reply)
        },
{
    status_to_result(call(function, level, switch_bool(is_console)))
}

/// Removes a function that gets log lines.
pub fn log_unbind_logger<F>(function: Address, call: F) -> (r: Result<()>)
    where
        F: FnOnce(Address) -> RawStatus,
    requires
        call.requires((function,)),
    ensures
        exists|reply: RawStatus| {
            &&& #[trigger] call.ensures((function,), reply)
            &&& r == status_outcome(reply)
        },
{
    status_to_result(call(function))
}

/// The levels have their numbers: those of the system log from zero to seven, the finer ones from 101 on,
/// and three that are no levels to log at.
pub proof fn levels_have_their_numbers(level: LogLevel)
    ensures
        level is Disable <==> raw_level(level) == -1,
        level is Console <==> raw_level(level) == 0,
        level is Alert <==> raw_level(level) == 1,
        level is Critical <==> raw_level(level) == 2,
        level is Error <==> raw_level(level) == 3,
        level is Warning <==> raw_level(level) == 4,
        level is Notice <==> raw_level(level) == 5,
        level is Info <==> raw_level(level) == 6,
        level is Debug <==> raw_level(level) == 7,
        level is Debug1 <==> raw_level(level) == 101,
        level is Debug2 <==> raw_level(level) == 102,
        level is Debug3 <==> raw_level(level) == 103,
        level is Debug4 <==> raw_level(level) == 104,
        level is Debug5 <==> raw_level(level) == 105,
        level is Debug6 <==> raw_level(level) == 106,
        level is Debug7 <==> raw_level(level) == 107,
        level is Debug8 <==> raw_level(level) == 108,
        level is Debug9 <==> raw_level(level) == 109,
        level is Debug10 <==> raw_level(level) == 110,
        level is Invalid <==> raw_level(level) == 64,
        level is Uninit <==> raw_level(level) == 1000,
{
}

/// A character stands for itself, but for NUL, which is written as a backslash and a zero. Text without
/// NUL stays as it is.
pub proof fn only_nul_is_escaped(c: char, text: Seq<char>)
    ensures
        c != '\0' ==> escaped(seq![c]) == seq![c],
        escaped(seq!['\0']) == seq!['\\', '0'],
        escaped(Seq::<char>::empty()).len() == 0,
        !text.contains('\0') ==> escaped(text) == text,
    decreases text.len(),
{
    assert(seq![c].drop_last() =~= Seq::<char>::empty());
    assert(escaped(seq![c].drop_last()) =~= Seq::<char>::empty());
    if c != '\0' {
        assert(escaped(seq![c]) =~= seq![c]);
    }
    let nul = seq!['\0'];
    assert(nul.drop_last() =~= Seq::<char>::empty());
    assert(escaped(nul.drop_last()) =~= Seq::<char>::empty());
    assert(escaped(nul) =~= seq!['\\', '0']);
    if !text.contains('\0') && text.len() > 0 {
        assert(text.last() != '\0') by {
            if text.last() == '\0' {
                assert(text[text.len() - 1] == '\0');
            }
        }
        assert(!text.drop_last().contains('\0')) by {
            if text.drop_last().contains('\0') {
                let i = choose|i: int| 0 <= i < text.drop_last().len() && text.drop_last()[i] == '\0';
                assert(text[i] == '\0');
            }
        }
        only_nul_is_escaped(c, text.drop_last());
        assert(escaped(text) =~= text);
    }
}

/// A line is the module's name in its bracket, followed by the message, both as they are where neither
/// holds NUL.
pub proof fn lines_name_the_module(module: Seq<char>, message: Seq<char>)
    requires
        !module.contains('\0'),
        !message.contains('\0'),
    ensures
        log_line(module, message) == "[fswtch:"@ + module + "] "@ + message,
{
    reveal_strlit("[fswtch:");
    reveal_strlit("] ");
    only_nul_is_escaped('a', "[fswtch:"@);
    only_nul_is_escaped('a', "] "@);
    let line = "[fswtch:"@ + module + "] "@ + message;
    assert forall|i: int| 0 <= i < line.len() implies line[i] != '\0' by {
        let n = "[fswtch:"@.len();
        if n <= i < n + module.len() {
            assert(line[i] == module[i - n]);
        } else if i >= n + module.len() + 2 {
            assert(line[i] == message[i - n - module.len() - 2]);
        }
    }
    only_nul_is_escaped('a', line);
}

} // verus!
