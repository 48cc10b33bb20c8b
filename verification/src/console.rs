//! The console: running commands and completing them.

use vstd::prelude::*;
use crate::command::{
    borrowed_cstr_to_string, c_safe, cstring, lossy, lossy_text, reply_text, text_is, CText,
};
use crate::handle::{Address, NULL};
use crate::session::{optional_addr, optional_ptr, Session};
use crate::status::{
    generic_error, status_outcome, status_to_result, RawStatus, Result, SwitchError,
};

verus! {

/// The size of a fresh stream buffer, and the amount by which it grows.
pub const STREAM_CHUNK_LEN: usize = 1024;

/// The functions of the core that write to a stream.
#[derive(Debug, Copy, Clone, PartialEq, Eq, Structural)]
pub struct StreamWriters {
    pub write: Address,
    pub raw_write: Address,
}

/// The fields of an output stream (`switch_stream_handle_t`) that are set up for a command; the
/// others are zero.
#[derive(Debug, Copy, Clone, PartialEq, Eq, Structural)]
pub struct StreamHandle {
    pub data: Address,
    pub end: Address,
    pub data_size: usize,
    pub data_len: usize,
    pub alloc_len: usize,
    pub alloc_chunk: usize,
    pub write_function: Address,
    pub raw_write_function: Address,
}

/// What a command leaves behind: its status, the address of the stream's buffer, which the writers
/// may have moved, and the bytes that were written to it.
#[derive(Debug)]
pub struct Executed {
    pub status: RawStatus,
    pub data: Address,
    pub bytes: Vec<u8>,
}

/// Takes a zeroed buffer for a stream. `zalloc` is handed its size; no memory is an error.
fn alloc_chunk<M>(zalloc: M) -> (r: Result<Address>)
    where
        M: FnOnce(usize) -> Address,
    requires
        zalloc.requires((STREAM_CHUNK_LEN,)),
    ensures
        exists|buffer: Address| #[trigger]
            zalloc.ensures((STREAM_CHUNK_LEN,), buffer) && r == if buffer == NULL {
                Err::<Address, SwitchError>(generic_error())
            } else {
                Ok(buffer)
            },
{
    let buffer: Address = zalloc(STREAM_CHUNK_LEN);
    if buffer == NULL {
        return Err(SwitchError::generic());
    }
    Ok(buffer)
}

/// An empty stream over the buffer at `buffer`.
pub open spec fn fresh_stream(buffer: Address, writers: StreamWriters) -> StreamHandle {
    StreamHandle {
        data: buffer,
        end: buffer,
        data_size: STREAM_CHUNK_LEN,
        data_len: 0,
        alloc_len: STREAM_CHUNK_LEN,
        alloc_chunk: STREAM_CHUNK_LEN,
        write_function: writers.write,
        raw_write_function: writers.raw_write,
    }
}

/// Sets up an empty stream over a fresh buffer. Returns the stream and the address of the buffer.
pub fn standard_stream<M>(writers: StreamWriters, zalloc: M) -> (r: Result<(StreamHandle, Address)>)
    where
        M: FnOnce(usize) -> Address,
    requires
        zalloc.requires((STREAM_CHUNK_LEN,)),
    ensures
        exists|buffer: Address| #[trigger]
            zalloc.ensures((STREAM_CHUNK_LEN,), buffer) && r == if buffer == NULL {
                Err::<(StreamHandle, Address), SwitchError>(generic_error())
            } else {
                Ok((fresh_stream(buffer, writers), buffer))
            },
{
    let buffer: Address = alloc_chunk(zalloc)?;
    let stream = StreamHandle {
        data: buffer,
        end: buffer,
        data_size: STREAM_CHUNK_LEN,
        data_len: 0,
        alloc_len: STREAM_CHUNK_LEN,
        alloc_chunk: STREAM_CHUNK_LEN,
        write_function: writers.write,
        raw_write_function: writers.raw_write,
    };
    Ok((stream, buffer))
}

/// Whether `r` is what a command amounts to: the text that it wrote, with bytes that are not UTF-8
/// replaced, or its status as an error.
pub open spec fn executed(r: Result<String>, reply: Executed) -> bool {
    match status_outcome(reply.status) {
        Ok(_) => r matches Ok(s) && s@ == if reply.data == NULL {
            Seq::empty()
        } else {
            lossy_text(reply.bytes@)
        },
        Err(e) => r == Err::<String, SwitchError>(e),
    }
}

/// Reads what a command wrote and frees the stream's buffer, whatever the status.
fn finish_command<D>(reply: Executed, free: D) -> (r: Result<String>)
    where
        D: FnOnce(Address),
    requires
        reply.data != NULL ==> free.requires((reply.data,)),
    ensures
        executed(r, reply),
        reply.data != NULL ==> free.ensures((reply.data,), ()),
{
    let output = if reply.data != NULL {
        lossy(reply.bytes)
    } else {
        String::new()
    };
    if reply.data != NULL {
        free(reply.data);
    }
    status_to_result(reply.status)?;
    Ok(output)
}

/// Runs a command line and returns what it writes. `zalloc` takes the stream's buffer, `run` runs
/// the command over the stream, and `free` frees the buffer where the run left it.
pub fn execute<M, F, D>(cmd: &str, writers: StreamWriters, zalloc: M, run: F, free: D) -> (r: Result<
    String,
>)
    where
        M: FnOnce(usize) -> Address,
        F: FnOnce(&CText, StreamHandle) -> Executed,
        D: FnOnce(Address),
    requires
        c_safe(cmd@) ==> zalloc.requires((STREAM_CHUNK_LEN,)),
        forall|c: &CText, buffer: Address|
            #![trigger run.requires((c, fresh_stream(buffer, writers)))]
            c.spells(cmd@) && zalloc.ensures((STREAM_CHUNK_LEN,), buffer) && buffer != NULL
                ==> run.requires((c, fresh_stream(buffer, writers))),
        forall|c: &CText, buffer: Address, reply: Executed| #[trigger]
            run.ensures((c, fresh_stream(buffer, writers)), reply) && c.spells(cmd@) && reply.data
                != NULL ==> free.requires((reply.data,)),
    ensures
        !c_safe(cmd@) ==> r == Err::<String, SwitchError>(generic_error()),
        c_safe(cmd@) ==> exists|buffer: Address| #[trigger]
            zalloc.ensures((STREAM_CHUNK_LEN,), buffer) && if buffer == NULL {
                r == Err::<String, SwitchError>(generic_error())
            } else {
                exists|c: &CText, reply: Executed|
                    c.spells(cmd@) && #[trigger] run.ensures(
                        (c, fresh_stream(buffer, writers)),
                        reply,
                    ) && executed(r, reply) && (reply.data != NULL ==> free.ensures(
                        (reply.data,),
                        (),
                    ))
            },
{
    let cmd = cstring(cmd)?;
    let (stream, _) = standard_stream(writers, zalloc)?;
    finish_command(run(&cmd, stream), free)
}

/// Runs an API command with its argument, for a session where one is given, and returns what it
/// writes.
pub fn execute_api<M, F, D>(
    cmd: &str,
    arg: &str,
    session: Option<&Session>,
    writers: StreamWriters,
    zalloc: M,
    run: F,
    free: D,
) -> (r: Result<String>)
    where
        M: FnOnce(usize) -> Address,
        F: FnOnce(&CText, &CText, Address, StreamHandle) -> Executed,
        D: FnOnce(Address),
    requires
        c_safe(cmd@) && c_safe(arg@) ==> zalloc.requires((STREAM_CHUNK_LEN,)),
        forall|c: &CText, a: &CText, buffer: Address|
            #![trigger run.requires((c, a, optional_addr(session), fresh_stream(buffer, writers)))]
            c.spells(cmd@) && a.spells(arg@) && zalloc.ensures((STREAM_CHUNK_LEN,), buffer) && buffer
                != NULL ==> run.requires(
                (c, a, optional_addr(session), fresh_stream(buffer, writers)),
            ),
        forall|c: &CText, a: &CText, buffer: Address, reply: Executed| #[trigger]
            run.ensures((c, a, optional_addr(session), fresh_stream(buffer, writers)), reply)
                && c.spells(cmd@) && a.spells(arg@) && reply.data != NULL ==> free.requires(
                (reply.data,),
            ),
    ensures
        !(c_safe(cmd@) && c_safe(arg@)) ==> r == Err::<String, SwitchError>(generic_error()),
        c_safe(cmd@) && c_safe(arg@) ==> exists|buffer: Address| #[trigger]
            zalloc.ensures((STREAM_CHUNK_LEN,), buffer) && if buffer == NULL {
                r == Err::<String, SwitchError>(generic_error())
            } else {
                exists|c: &CText, a: &CText, reply: Executed|
                    c.spells(cmd@) && a.spells(arg@) && #[trigger] run.ensures(
                        (c, a, optional_addr(session), fresh_stream(buffer, writers)),
                        reply,
                    ) && executed(r, reply) && (reply.data != NULL ==> free.ensures(
                        (reply.data,),
                        (),
                    ))
            },
{
    let cmd = cstring(cmd)?;
    let arg = cstring(arg)?;
    let (stream, _) = standard_stream(writers, zalloc)?;
    finish_command(run(&cmd, &arg, optional_ptr(session), stream), free)
}

/// What an alias stands for, with an argument; `None` where it stands for nothing.
pub fn expand_alias<F>(cmd: &str, arg: &str, call: F) -> (r: Result<Option<String>>)
    where
        F: FnOnce(&CText, &CText) -> Option<Vec<u8>>,
    requires
        c_safe(cmd@) && c_safe(arg@) ==> forall|cmd_c: &CText, arg_c: &CText|
            #![trigger call.requires((cmd_c, arg_c))]
            cmd_c.spells(cmd@) && arg_c.spells(arg@) ==> call.requires((cmd_c, arg_c)),
    ensures
        !(c_safe(cmd@) && c_safe(arg@)) ==> r == Err::<Option<String>, SwitchError>(generic_error()),
        c_safe(cmd@) && c_safe(arg@) ==> exists|cmd_c: &CText, arg_c: &CText, reply:
            Option<Vec<u8>>| {
            &&& cmd_c.spells(cmd@)
            &&& arg_c.spells(arg@)
            &&& #[trigger] call.ensures((cmd_c, arg_c), reply)
            &&& r matches Ok(v) && text_is(v, reply_text(reply))
        },
{
    let cmd = cstring(cmd)?;
    let arg = cstring(arg)?;
    Ok(borrowed_cstr_to_string(call(&cmd, &arg)))
}

/// Completes the last word of a line and writes the candidates to the stream. Returns whether there
/// are any.
pub fn complete<F>(line: &str, last_word: &str, stream: Address, call: F) -> (r: Result<bool>)
    where
        F: FnOnce(&CText, &CText, Address) -> u32,
    requires
        c_safe(line@) && c_safe(last_word@) ==> forall|line_c: &CText, last_word_c: &CText|
            #![trigger call.requires((line_c, last_word_c, stream))]
            line_c.spells(line@) && last_word_c.spells(last_word@) ==> call.requires((line_c,
                last_word_c, stream)),
    ensures
        !(c_safe(line@) && c_safe(last_word@)) ==> r == Err::<bool, SwitchError>(generic_error()),
        c_safe(line@) && c_safe(last_word@) ==>
            exists|line_c: &CText, last_word_c: &CText, reply: u32| {
            &&& line_c.spells(line@)
            &&& last_word_c.spells(last_word@)
            &&& #[trigger] call.ensures((line_c, last_word_c, stream), reply)
            &&& r matches Ok(v) && v == (reply != 0)
        },
{
    let line = cstring(line)?;
    let last_word = cstring(last_word)?;
    let reply: u32 = call(&line, &last_word, stream);
    Ok(reply != 0)
}

/// A function that completes commands, registered under a name. It has to be given up once.
#[derive(Debug)]
pub struct CompletionFunc {
    name: CText,
}

impl CompletionFunc {
    /// The name under which the function is registered.
    pub closed spec fn registered(&self) -> CText {
        self.name
    }

    /// Registers the function at `callback` under a name.
    pub fn new<F>(name: &str, callback: Address, call: F) -> (r: Result<CompletionFunc>)
        where
            F: FnOnce(&CText, Address) -> RawStatus,
        requires
            c_safe(name@) ==> forall|n: &CText|
                #![trigger call.requires((n, callback))]
                n.spells(name@) ==> call.requires((n, callback)),
        ensures
            !c_safe(name@) ==> r == Err::<CompletionFunc, SwitchError>(generic_error()),
            c_safe(name@) ==> exists|n: &CText, reply: RawStatus|
                n.spells(name@) && #[trigger] call.ensures((n, callback), reply)
                    && match status_outcome(reply) {
                    Ok(_) => r matches Ok(f) && f.registered() == *n,
                    Err(e) => r == Err::<CompletionFunc, SwitchError>(e),
                },
    {
        let name = cstring(name)?;
        status_to_result(call(&name, callback))?;
        Ok(CompletionFunc { name })
    }

    /// The name under which the function is registered.
    pub fn name(&self) -> (r: &CText)
        ensures
            *r == self.registered(),
    {
        &self.name
    }

    /// Gives the registration up. An error says that the core did not know the name.
    pub fn release<F>(self, call: F) -> (r: Result<()>)
        where
            F: FnOnce(&CText) -> RawStatus,
        requires
            call.requires((&self.registered(),)),
        ensures
            exists|reply: RawStatus| #[trigger]
                call.ensures((&self.registered(),), reply) && r == status_outcome(reply),
    {
        proof {
            assert(self.registered() == self.name);
        }
        status_to_result(call(&self.name))
    }
}

/// Frees the list of matches at `matches`; the call leaves the null pointer there.
pub fn free_matches<F>(matches: &mut Address, call: F)
    where
        F: FnOnce(Address) -> Address,
    requires
        call.requires((*old(matches),)),
    ensures
        call.ensures((*old(matches),), *final(matches)),
{
    *matches = call(*matches);
}

/// The candidates of a completion, one after the other.
#[derive(Debug)]
pub struct CompletionMatches<'a> {
    nodes: &'a [Vec<u8>],
    index: usize,
}

impl<'a> CompletionMatches<'a> {
    #[verifier::type_invariant]
    closed spec fn in_list(&self) -> bool {
        self.index <= self.nodes@.len()
    }

    /// The candidates that are still to come.
    pub closed spec fn remaining(&self) -> Seq<Vec<u8>> {
        self.nodes@.skip(self.index as int)
    }

    /// Starts at the first candidate of a list; `None` for a list without one.
    pub fn from_list(nodes: &'a [Vec<u8>]) -> (r: Option<CompletionMatches<'a>>)
        ensures
            r is Some <==> nodes@.len() > 0,
            r matches Some(m) ==> m.remaining() == nodes@,
    {
        if nodes.len() == 0 {
            return None;
        }
        proof {
            assert(nodes@.skip(0) =~= nodes@);
        }
        Some(CompletionMatches { nodes, index: 0 })
    }

    /// The next candidate; `None` after the last.
    pub fn next(&mut self) -> (r: Option<&'a Vec<u8>>)
        ensures
            old(self).remaining().len() == 0 ==> r is None && final(self).remaining().len() == 0,
            old(self).remaining().len() > 0 ==> r == Some(&old(self).remaining()[0])
                && final(self).remaining() == old(self).remaining().drop_first(),
    {
        proof {
            use_type_invariant(&*self);
        }
        if self.index >= self.nodes.len() {
            return None;
        }
        let node = &self.nodes[self.index];
        let ghost before = self.remaining();
        let next: usize = self.index + 1;
        self.index = next;
        proof {
            assert(self.remaining() =~= before.drop_first());
        }
        Some(node)
    }
}

/// A stream starts empty, at the start of its buffer of 1024 bytes, and grows by as many.
pub proof fn streams_start_empty(buffer: Address, writers: StreamWriters)
    ensures
        fresh_stream(buffer, writers).data == buffer,
        fresh_stream(buffer, writers).end == buffer,
        fresh_stream(buffer, writers).data_len == 0,
        fresh_stream(buffer, writers).data_size == 1024,
        fresh_stream(buffer, writers).alloc_len == 1024,
        fresh_stream(buffer, writers).alloc_chunk == 1024,
        fresh_stream(buffer, writers).write_function == writers.write,
        fresh_stream(buffer, writers).raw_write_function == writers.raw_write,
{
}

/// A command that succeeded gives all that it wrote, and nothing where there is no buffer; one that
/// failed gives its own status as the error.
pub proof fn commands_give_what_they_wrote(r: Result<String>, reply: Executed)
    requires
        executed(r, reply),
    ensures
        r is Ok <==> reply.status == 0,
        r matches Ok(s) ==> (reply.data == 0 ==> s@.len() == 0),
        r matches Ok(s) ==> (reply.data != 0 ==> s@ == lossy_text(reply.bytes@)),
        r matches Err(e) ==> e.0.0 == reply.status,
{
}

} // verus!
