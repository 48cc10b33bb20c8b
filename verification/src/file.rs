//! Files: the core's audio file handles and its plain file functions.

use vstd::prelude::*;
use crate::command::{c_safe, cstring, lossy, lossy_text, CText};
use crate::handle::{Address, At, Created, NULL};
use crate::pool::Pool;
use crate::status::{
    from_switch_bool, generic_error, status_outcome, status_to_result, switch_bool, switch_bool_of,
    RawStatus, Result, SwitchBool, SwitchError, SWITCH_FALSE,
};

verus! {

/// What the core answers to a transfer: a status, and how much was transferred.
#[derive(Debug, Copy, Clone, PartialEq, Eq, Structural)]
pub struct Transferred {
    pub status: RawStatus,
    pub amount: u64,
}

/// Reads up to `len` samples to `data`, and stores in `len` how many were read, whatever the
/// status.
pub fn core_file_read<F>(fh: Address, data: Address, len: &mut u64, call: F) -> (r: Result<()>)
    where
        F: FnOnce(Address, Address, u64) -> Transferred,
    requires
        call.requires((fh, data, *old(len))),
    ensures
        exists|reply: Transferred| #[trigger]
            call.ensures((fh, data, *old(len)), reply) && *final(len) == reply.amount && r
                == status_outcome(reply.status),
{
    let reply = call(fh, data, *len);
    *len = reply.amount;
    status_to_result(reply.status)
}

/// Writes `len` samples from `data`, and stores in `len` how many were written, whatever the
/// status.
pub fn core_file_write<F>(fh: Address, data: Address, len: &mut u64, call: F) -> (r: Result<()>)
    where
        F: FnOnce(Address, Address, u64) -> Transferred,
    requires
        call.requires((fh, data, *old(len))),
    ensures
        exists|reply: Transferred| #[trigger]
            call.ensures((fh, data, *old(len)), reply) && *final(len) == reply.amount && r
                == status_outcome(reply.status),
{
    let reply = call(fh, data, *len);
    *len = reply.amount;
    status_to_result(reply.status)
}

/// Writes a video frame.
pub fn core_file_write_video<F>(fh: Address, frame: Address, call: F) -> (r: Result<()>)
    where
        F: FnOnce(Address, Address) -> RawStatus,
    requires
        call.requires((fh, frame)),
    ensures
        exists|reply: RawStatus| {
            &&& #[trigger] call.ensures((fh, frame), reply)
            &&& r == status_outcome(reply)
        },
{
    status_to_result(call(fh, frame))
}

/// Reads a video frame.
pub fn core_file_read_video<F>(fh: Address, frame: Address, flags: u32, call: F) -> (r: Result<()>)
    where
        F: FnOnce(Address, Address, u32) -> RawStatus,
    requires
        call.requires((fh, frame, flags)),
    ensures
        exists|reply: RawStatus| {
            &&& #[trigger] call.ensures((fh, frame, flags), reply)
            &&& r == status_outcome(reply)
        },
{
    status_to_result(call(fh, frame, flags))
}

/// Sets the text of a metadata column.
pub fn core_file_set_string<F>(fh: Address, col: u32, string: &str, call: F) -> (r: Result<()>)
    where
        F: FnOnce(Address, u32, &CText) -> RawStatus,
    requires
        c_safe(string@) ==> forall|string_c: &CText|
            #![trigger call.requires((fh, col, string_c))]
            string_c.spells(string@) ==> call.requires((fh, col, string_c)),
    ensures
        !c_safe(string@) ==> r == Err::<(), SwitchError>(generic_error()),
        c_safe(string@) ==> exists|string_c: &CText, reply: RawStatus| {
            &&& string_c.spells(string@)
            &&& #[trigger] call.ensures((fh, col, string_c), reply)
            &&& r == status_outcome(reply)
        },
{
    let string = cstring(string)?;
    status_to_result(call(fh, col, &string))
}

/// Gives up the codecs of a file and keeps the handle.
pub fn core_file_pre_close<F>(fh: Address, call: F) -> (r: Result<()>)
    where
        F: FnOnce(Address) -> RawStatus,
    requires
        call.requires((fh,)),
    ensures
        exists|reply: RawStatus| {
            &&& #[trigger] call.ensures((fh,), reply)
            &&& r == status_outcome(reply)
        },
{
    status_to_result(call(fh))
}

/// Copies a file handle; the address of the copy is stored at `newfh`.
pub fn core_file_handle_dup<F>(
    oldfh: Address,
    newfh: Address,
    pool: &Pool,
    call: F,
) -> (r: Result<()>)
    where
        F: FnOnce(Address, Address, Address) -> RawStatus,
    requires
        call.requires((oldfh, newfh, pool.addr())),
    ensures
        exists|reply: RawStatus| {
            &&& #[trigger] call.ensures((oldfh, newfh, pool.addr()), reply)
            &&& r == status_outcome(reply)
        },
{
    status_to_result(call(oldfh, newfh, pool.as_ptr()))
}

/// Closes a file handle.
pub fn core_file_close<F>(fh: Address, call: F) -> (r: Result<()>)
    where
        F: FnOnce(Address) -> RawStatus,
    requires
        call.requires((fh,)),
    ensures
        exists|reply: RawStatus| {
            &&& #[trigger] call.ensures((fh,), reply)
            &&& r == status_outcome(reply)
        },
{
    status_to_result(call(fh))
}

/// Gives a command to a file handle.
pub fn core_file_command<F>(fh: Address, command: u32, call: F) -> (r: Result<()>)
    where
        F: FnOnce(Address, u32) -> RawStatus,
    requires
        call.requires((fh, command)),
    ensures
        exists|reply: RawStatus| {
            &&& #[trigger] call.ensures((fh, command), reply)
            &&& r == status_outcome(reply)
        },
{
    status_to_result(call(fh, command))
}

/// Cuts a file off.
pub fn core_file_truncate<F>(fh: Address, offset: i64, call: F) -> (r: Result<()>)
    where
        F: FnOnce(Address, i64) -> RawStatus,
    requires
        call.requires((fh, offset)),
    ensures
        exists|reply: RawStatus| {
            &&& #[trigger] call.ensures((fh, offset), reply)
            &&& r == status_outcome(reply)
        },
{
    status_to_result(call(fh, offset))
}

/// Whether a file has a video stream; `check_open` asks for an open one.
pub fn core_file_has_video<F>(fh: Address, check_open: bool, call: F) -> (r: bool)
    where
        F: FnOnce(Address, SwitchBool) -> SwitchBool,
    requires
        call.requires((fh, switch_bool_of(check_open))),
    ensures
        exists|reply: SwitchBool| {
            &&& #[trigger] call.ensures((fh, switch_bool_of(check_open)), reply)
            &&& r == (reply != SWITCH_FALSE)
        },
{
    from_switch_bool(call(fh, switch_bool(check_open)))
}

/// Copies a file.
pub fn file_copy<F>(
    from_path: &str,
    to_path: &str,
    perms: i32,
    pool: &Pool,
    call: F,
) -> (r: Result<()>)
    where
        F: FnOnce(&CText, &CText, i32, Address) -> RawStatus,
    requires
        c_safe(from_path@) && c_safe(to_path@) ==> forall|from_path_c: &CText, to_path_c: &CText|
            #![trigger call.requires((from_path_c, to_path_c, perms, pool.addr()))]
            from_path_c.spells(from_path@) && to_path_c.spells(to_path@) ==>
                call.requires((from_path_c, to_path_c, perms, pool.addr())),
    ensures
        !(c_safe(from_path@) && c_safe(to_path@)) ==> r == Err::<(), SwitchError>(generic_error()),
        c_safe(from_path@) && c_safe(to_path@) ==>
            exists|from_path_c: &CText, to_path_c: &CText, reply: RawStatus| {
            &&& from_path_c.spells(from_path@)
            &&& to_path_c.spells(to_path@)
            &&& #[trigger] call.ensures((from_path_c, to_path_c, perms, pool.addr()), reply)
            &&& r == status_outcome(reply)
        },
{
    let from_path = cstring(from_path)?;
    let to_path = cstring(to_path)?;
    status_to_result(call(&from_path, &to_path, perms, pool.as_ptr()))
}

/// Closes a file.
pub fn file_close<F>(thefile: Address, call: F) -> (r: Result<()>)
    where
        F: FnOnce(Address) -> RawStatus,
    requires
        call.requires((thefile,)),
    ensures
        exists|reply: RawStatus| {
            &&& #[trigger] call.ensures((thefile,), reply)
            &&& r == status_outcome(reply)
        },
{
    status_to_result(call(thefile))
}

/// Cuts a file off.
pub fn file_trunc<F>(thefile: Address, offset: i64, call: F) -> (r: Result<()>)
    where
        F: FnOnce(Address, i64) -> RawStatus,
    requires
        call.requires((thefile, offset)),
    ensures
        exists|reply: RawStatus| {
            &&& #[trigger] call.ensures((thefile, offset), reply)
            &&& r == status_outcome(reply)
        },
{
    status_to_result(call(thefile, offset))
}

/// Locks a file.
pub fn file_lock<F>(thefile: Address, type_: i32, call: F) -> (r: Result<()>)
    where
        F: FnOnce(Address, i32) -> RawStatus,
    requires
        call.requires((thefile, type_)),
    ensures
        exists|reply: RawStatus| {
            &&& #[trigger] call.ensures((thefile, type_), reply)
            &&& r == status_outcome(reply)
        },
{
    status_to_result(call(thefile, type_))
}

/// Removes a file.
pub fn file_remove<F>(path: &str, pool: &Pool, call: F) -> (r: Result<()>)
    where
        F: FnOnce(&CText, Address) -> RawStatus,
    requires
        c_safe(path@) ==> forall|path_c: &CText|
            #![trigger call.requires((path_c, pool.addr()))]
            path_c.spells(path@) ==> call.requires((path_c, pool.addr())),
    ensures
        !c_safe(path@) ==> r == Err::<(), SwitchError>(generic_error()),
        c_safe(path@) ==> exists|path_c: &CText, reply: RawStatus| {
            &&& path_c.spells(path@)
            &&& #[trigger] call.ensures((path_c, pool.addr()), reply)
            &&& r == status_outcome(reply)
        },
{
    let path = cstring(path)?;
    status_to_result(call(&path, pool.as_ptr()))
}

/// Renames a file.
pub fn file_rename<F>(from_path: &str, to_path: &str, pool: &Pool, call: F) -> (r: Result<()>)
    where
        F: FnOnce(&CText, &CText, Address) -> RawStatus,
    requires
        c_safe(from_path@) && c_safe(to_path@) ==> forall|from_path_c: &CText, to_path_c: &CText|
            #![trigger call.requires((from_path_c, to_path_c, pool.addr()))]
            from_path_c.spells(from_path@) && to_path_c.spells(to_path@) ==>
                call.requires((from_path_c, to_path_c, pool.addr())),
    ensures
        !(c_safe(from_path@) && c_safe(to_path@)) ==> r == Err::<(), SwitchError>(generic_error()),
        c_safe(from_path@) && c_safe(to_path@) ==>
            exists|from_path_c: &CText, to_path_c: &CText, reply: RawStatus| {
            &&& from_path_c.spells(from_path@)
            &&& to_path_c.spells(to_path@)
            &&& #[trigger] call.ensures((from_path_c, to_path_c, pool.addr()), reply)
            &&& r == status_outcome(reply)
        },
{
    let from_path = cstring(from_path)?;
    let to_path = cstring(to_path)?;
    status_to_result(call(&from_path, &to_path, pool.as_ptr()))
}

/// Reads up to `nbytes` bytes to `buf`, and stores in `nbytes` how many were read, whatever the
/// status.
pub fn file_read<F>(thefile: Address, buf: Address, nbytes: &mut u64, call: F) -> (r: Result<()>)
    where
        F: FnOnce(Address, Address, u64) -> Transferred,
    requires
        call.requires((thefile, buf, *old(nbytes))),
    ensures
        exists|reply: Transferred| #[trigger]
            call.ensures((thefile, buf, *old(nbytes)), reply) && *final(nbytes) == reply.amount && r
                == status_outcome(reply.status),
{
    let reply = call(thefile, buf, *nbytes);
    *nbytes = reply.amount;
    status_to_result(reply.status)
}

/// Writes `nbytes` bytes from `buf`, and stores in `nbytes` how many were written, whatever the
/// status.
pub fn file_write<F>(thefile: Address, buf: Address, nbytes: &mut u64, call: F) -> (r: Result<()>)
    where
        F: FnOnce(Address, Address, u64) -> Transferred,
    requires
        call.requires((thefile, buf, *old(nbytes))),
    ensures
        exists|reply: Transferred| #[trigger]
            call.ensures((thefile, buf, *old(nbytes)), reply) && *final(nbytes) == reply.amount && r
                == status_outcome(reply.status),
{
    let reply = call(thefile, buf, *nbytes);
    *nbytes = reply.amount;
    status_to_result(reply.status)
}

/// The size of a file in bytes.
pub fn file_get_size<F>(thefile: Address, call: F) -> (r: u64)
    where
        F: FnOnce(Address) -> u64,
    requires
        call.requires((thefile,)),
    ensures
        call.ensures((thefile,), r),
{
    call(thefile)
}

/// Success where a file exists.
pub fn file_exists<F>(filename: &str, pool: &Pool, call: F) -> (r: Result<()>)
    where
        F: FnOnce(&CText, Address) -> RawStatus,
    requires
        c_safe(filename@) ==> forall|filename_c: &CText|
            #![trigger call.requires((filename_c, pool.addr()))]
            filename_c.spells(filename@) ==> call.requires((filename_c, pool.addr())),
    ensures
        !c_safe(filename@) ==> r == Err::<(), SwitchError>(generic_error()),
        c_safe(filename@) ==> exists|filename_c: &CText, reply: RawStatus| {
            &&& filename_c.spells(filename@)
            &&& #[trigger] call.ensures((filename_c, pool.addr()), reply)
            &&& r == status_outcome(reply)
        },
{
    let filename = cstring(filename)?;
    status_to_result(call(&filename, pool.as_ptr()))
}

/// Sets the timeout of a pipe.
pub fn file_pipe_timeout_set<F>(thepipe: Address, timeout: i64, call: F) -> (r: Result<()>)
    where
        F: FnOnce(Address, i64) -> RawStatus,
    requires
        call.requires((thepipe, timeout)),
    ensures
        exists|reply: RawStatus| {
            &&& #[trigger] call.ensures((thepipe, timeout), reply)
            &&& r == status_outcome(reply)
        },
{
    status_to_result(call(thepipe, timeout))
}

/// Moves to a position: `samples` away from where `whence` says. The new position is stored in
/// `cur_pos`, as the call left it.
pub fn core_file_seek<F>(fh: Address, cur_pos: &mut u32, samples: i64, whence: i32, call: F) -> (r:
    Result<()>)
    where
        F: FnOnce(Address, u32, i64, i32) -> (RawStatus, u32),
    requires
        call.requires((fh, *old(cur_pos), samples, whence)),
    ensures
        exists|status: RawStatus, pos: u32| #[trigger]
            call.ensures((fh, *old(cur_pos), samples, whence), (status, pos)) && *final(cur_pos)
                == pos && r == status_outcome(status),
{
    let (status, pos) = call(fh, *cur_pos, samples, whence);
    *cur_pos = pos;
    status_to_result(status)
}

/// The text of a metadata column; `None` where it is not set. Bytes that are not UTF-8 are
/// replaced.
pub fn core_file_get_string<F>(fh: Address, col: u32, call: F) -> (r: Result<Option<String>>)
    where
        F: FnOnce(Address, u32) -> (RawStatus, Option<Vec<u8>>),
    requires
        call.requires((fh, col)),
    ensures
        exists|status: RawStatus, text: Option<Vec<u8>>| #[trigger]
            call.ensures((fh, col), (status, text)) && match status_outcome(status) {
                Ok(_) => r matches Ok(v) && match text {
                    Some(bytes) => v matches Some(s) && s@ == lossy_text(bytes@),
                    None => v is None,
                },
                Err(e) => r == Err::<Option<String>, SwitchError>(e),
            },
{
    let (status, text) = call(fh, col);
    status_to_result(status)?;
    match text {
        Some(bytes) => Ok(Some(lossy(bytes))),
        None => Ok(None),
    }
}

/// Whether `r` is the file that was opened: an error with the status where that is not success, the
/// general error where there is no file all the same.
pub open spec fn file_opened(r: Result<Address>, reply: Created) -> bool {
    r == match status_outcome(reply.status) {
        Ok(_) => if reply.raw == NULL {
            Err::<Address, SwitchError>(generic_error())
        } else {
            Ok(reply.raw)
        },
        Err(e) => Err(e),
    }
}

/// The address of the file that was opened.
fn opened(reply: Created) -> (r: Result<Address>)
    ensures
        file_opened(r, reply),
{
    status_to_result(reply.status)?;
    if reply.raw == NULL {
        return Err(SwitchError::generic());
    }
    Ok(reply.raw)
}

/// Opens a file.
pub fn file_open<F>(fname: &str, flag: i32, perm: i32, pool: &Pool, call: F) -> (r: Result<Address>)
    where
        F: FnOnce(&CText, i32, i32, Address) -> Created,
    requires
        c_safe(fname@) ==> forall|n: &CText|
            #![trigger call.requires((n, flag, perm, pool.addr()))]
            n.spells(fname@) ==> call.requires((n, flag, perm, pool.addr())),
    ensures
        !c_safe(fname@) ==> r == Err::<Address, SwitchError>(generic_error()),
        c_safe(fname@) ==> exists|n: &CText, reply: Created|
            n.spells(fname@) && #[trigger] call.ensures((n, flag, perm, pool.addr()), reply)
                && file_opened(r, reply),
{
    let fname = cstring(fname)?;
    opened(call(&fname, flag, perm, pool.as_ptr()))
}

/// Makes a temporary file after the pattern at `templ`, where its name is then stored.
pub fn file_mktemp<F>(templ: Address, flags: i32, pool: &Pool, call: F) -> (r: Result<Address>)
    where
        F: FnOnce(Address, i32, Address) -> Created,
    requires
        call.requires((templ, flags, pool.addr())),
    ensures
        exists|reply: Created| #[trigger]
            call.ensures((templ, flags, pool.addr()), reply) && r == match status_outcome(
                reply.status,
            ) {
                Ok(_) => Ok::<Address, SwitchError>(reply.raw),
                Err(e) => Err(e),
            },
{
    let reply = call(templ, flags, pool.as_ptr());
    status_to_result(reply.status)?;
    Ok(reply.raw)
}

/// Moves to a position. `offset` holds the distance, and then what the call left there.
pub fn file_seek<F>(thefile: Address, whence: i32, offset: &mut i64, call: F) -> (r: Result<()>)
    where
        F: FnOnce(Address, i32, i64) -> (RawStatus, i64),
    requires
        call.requires((thefile, whence, *old(offset))),
    ensures
        exists|status: RawStatus, pos: i64| #[trigger]
            call.ensures((thefile, whence, *old(offset)), (status, pos)) && *final(offset) == pos
                && r == status_outcome(status),
{
    let (status, pos) = call(thefile, whence, *offset);
    *offset = pos;
    status_to_result(status)
}

/// Makes a pipe and stores its two ends.
pub fn file_pipe_create<F>(in_: &mut Address, out: &mut Address, pool: &Pool, call: F) -> (r: Result<
    (),
>)
    where
        F: FnOnce(Address, Address, Address) -> (RawStatus, Address, Address),
    requires
        call.requires((*old(in_), *old(out), pool.addr())),
    ensures
        exists|status: RawStatus, i: Address, o: Address| #[trigger]
            call.ensures((*old(in_), *old(out), pool.addr()), (status, i, o)) && *final(in_) == i
                && *final(out) == o && r == status_outcome(status),
{
    let (status, i, o) = call(*in_, *out, pool.as_ptr());
    *in_ = i;
    *out = o;
    status_to_result(status)
}

/// Reads the timeout of a pipe.
pub fn file_pipe_timeout_get<F>(thepipe: Address, timeout: &mut i64, call: F) -> (r: Result<()>)
    where
        F: FnOnce(Address, i64) -> (RawStatus, i64),
    requires
        call.requires((thepipe, *old(timeout))),
    ensures
        exists|status: RawStatus, t: i64| #[trigger]
            call.ensures((thepipe, *old(timeout)), (status, t)) && *final(timeout) == t && r
                == status_outcome(status),
{
    let (status, t) = call(thepipe, *timeout);
    *timeout = t;
    status_to_result(status)
}

/// A file is open exactly where the call succeeded and gave a handle. A call that failed gives its own
/// status as the error, and one that succeeded without a handle the general error.
pub proof fn files_are_open_where_it_succeeded(r: Result<Address>, reply: Created)
    requires
        file_opened(r, reply),
    ensures
        r is Ok <==> reply.status == 0 && reply.raw != 0,
        r matches Ok(raw) ==> raw == reply.raw,
        reply.status != 0 ==> (r matches Err(e) && e.0.0 == reply.status),
        reply.status == 0 && reply.raw == 0 ==> (r matches Err(e) && e.0.0 == 9),
{
}

} // verus!
