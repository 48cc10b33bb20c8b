//! Tasks that the core runs at a given time.
//!
//! A handler of type [`TaskHandler`] is boxed and handed to the scheduler. It is freed after the run
//! that leaves the task without an interval to repeat at.

use vstd::prelude::*;
use crate::command::{
    borrowed_cstr_to_string, c_safe, cstring, reply_text, text_is, CText, StaticCStr,
};
use crate::handle::{maybe_at, Address, At, Handle, NULL};
use crate::status::{generic_error, Result, SwitchError};

verus! {

/// The fields of a scheduled task, for the time of one run.
#[derive(Debug, Clone)]
pub struct TaskFields {
    pub runtime: i64,
    pub created: i64,
    pub cmd_id: u32,
    pub task_id: u32,
    pub repeat: u32,
    pub group: Option<Vec<u8>>,
    pub cmd_arg: Address,
}

/// A task, for the time of one run.
#[derive(Debug, Clone)]
pub struct Task {
    raw: Handle,
    fields: TaskFields,
}

impl At for Task {
    closed spec fn addr(&self) -> Address {
        self.raw.addr()
    }
}

impl Task {
    /// The task's fields.
    pub closed spec fn fields(&self) -> TaskFields {
        self.fields
    }

    /// Wraps a task; `None` for the null pointer.
    pub fn from_raw(raw: Address, fields: TaskFields) -> (r: Option<Task>)
        ensures
            maybe_at(r, raw),
            r matches Some(t) ==> t.fields() == fields,
    {
        match Handle::new(raw) {
            Some(raw) => Some(Task { raw, fields }),
            None => None,
        }
    }

    /// The task's address, which is never null.
    pub fn as_ptr(&self) -> (r: Address)
        ensures
            r == self.addr(),
            r != NULL,
    {
        self.raw.as_ptr()
    }

    /// The time, in epoch seconds, at which the run was due.
    pub fn runtime(&self) -> (r: i64)
        ensures
            r == self.fields().runtime,
    {
        self.fields.runtime
    }

    /// The time, in epoch seconds, at which the task was made.
    pub fn created(&self) -> (r: i64)
        ensures
            r == self.fields().created,
    {
        self.fields.created
    }

    /// The number that the module gave the task.
    pub fn cmd_id(&self) -> (r: u32)
        ensures
            r == self.fields().cmd_id,
    {
        self.fields.cmd_id
    }

    /// The number that the scheduler gave the task.
    pub fn task_id(&self) -> (r: u32)
        ensures
            r == self.fields().task_id,
    {
        self.fields.task_id
    }

    /// The interval, in seconds, after which the task runs again; zero where it does not.
    pub fn repeat(&self) -> (r: u32)
        ensures
            r == self.fields().repeat,
    {
        self.fields.repeat
    }

    /// Sets the interval after which the task runs again; zero ends it.
    pub fn set_repeat(&mut self, repeat: u32)
        ensures
            final(self).fields() == (TaskFields { repeat, ..old(self).fields() }),
            final(self).addr() == old(self).addr(),
    {
        self.fields.repeat = repeat;
    }

    /// The group of the task.
    pub fn group(&self) -> (r: Option<String>)
        ensures
            text_is(r, reply_text(self.fields().group)),
    {
        match &self.fields.group {
            Some(bytes) => {
                let copy = bytes.clone();
                proof {
                    assert(copy@ =~= bytes@);
                }
                borrowed_cstr_to_string(Some(copy))
            },
            None => None,
        }
    }
}

/// What is called when a task is due.
pub trait TaskHandler: Sized {
    /// Runs the task. Setting its interval makes it run again.
    fn run(&mut self, task: &mut Task);
}

/// A set of flags of a task.
#[derive(Debug, Copy, Clone, PartialEq, Eq, Structural)]
pub struct TaskFlags(pub u32);

impl TaskFlags {
    /// The task runs on the thread of the scheduler.
    pub const NONE: u32 = 0;
    /// The task runs on a thread of its own.
    pub const OWN_THREAD: u32 = 1;
    /// The task is not deleted after its last run.
    pub const NO_DEL: u32 = 4;

    /// The raw bits.
    pub fn bits(self) -> (r: u32)
        ensures
            r == self.0,
    {
        self.0
    }
}

impl Default for TaskFlags {
    fn default() -> (r: TaskFlags)
        ensures
            r == TaskFlags(TaskFlags::NONE),
    {
        TaskFlags(TaskFlags::NONE)
    }
}

impl std::ops::BitOr for TaskFlags {
    type Output = TaskFlags;

    fn bitor(self, rhs: TaskFlags) -> (r: TaskFlags) {
        TaskFlags(self.0 | rhs.0)
    }
}

impl vstd::std_specs::ops::BitOrSpecImpl for TaskFlags {
    open spec fn obeys_bitor_spec() -> bool {
        true
    }

    open spec fn bitor_req(self, rhs: TaskFlags) -> bool {
        true
    }

    open spec fn bitor_spec(self, rhs: TaskFlags) -> TaskFlags {
        TaskFlags(self.0 | rhs.0)
    }
}

/// How a task is scheduled.
#[derive(Debug, Clone)]
pub struct TaskConfig {
    pub runtime: i64,
    pub desc: CText,
    pub group: CText,
    pub cmd_id: u32,
    pub flags: TaskFlags,
}

impl TaskConfig {
    /// A task that runs once, at `runtime` in epoch seconds; zero is at once.
    pub fn new<D, G>(runtime: i64, desc: D, group: G) -> (r: Result<TaskConfig>)
        where
            D: StaticCStr,
            G: StaticCStr,
        ensures
            desc.c_form() is None || group.c_form() is None ==> r == Err::<TaskConfig, SwitchError>(
                generic_error(),
            ),
            desc.c_form() is Some && group.c_form() is Some ==> (r matches Ok(c) && c.runtime
                == runtime && Some(c.desc@) == desc.c_form() && Some(c.group@) == group.c_form()
                && c.cmd_id == 0 && c.flags == TaskFlags(TaskFlags::NONE)),
    {
        let desc = desc.into_static_cstr()?;
        let group = group.into_static_cstr()?;
        Ok(TaskConfig { runtime, desc, group, cmd_id: 0, flags: TaskFlags(TaskFlags::NONE) })
    }

    /// Sets the number of the task.
    pub fn cmd_id(self, cmd_id: u32) -> (r: TaskConfig)
        ensures
            r == (TaskConfig { cmd_id, ..self }),
    {
        TaskConfig { cmd_id, ..self }
    }

    /// Sets the flags.
    pub fn flags(self, flags: TaskFlags) -> (r: TaskConfig)
        ensures
            r == (TaskConfig { flags, ..self }),
    {
        TaskConfig { flags, ..self }
    }
}

/// A scheduled task, known by its number.
#[derive(Debug)]
pub struct TaskHandle {
    task_id: u32,
}

impl TaskHandle {
    /// The number that the scheduler gave the task.
    pub closed spec fn number(&self) -> u32 {
        self.task_id
    }

    /// The number that the scheduler gave the task.
    pub fn id(&self) -> (r: u32)
        ensures
            r == self.number(),
    {
        self.task_id
    }

    /// Takes the task off the schedule. Returns the number of tasks that were taken off.
    pub fn cancel<F>(&self, call: F) -> (r: u32)
        where
            F: FnOnce(u32) -> u32,
        requires
            call.requires((self.number(),)),
        ensures
            call.ensures((self.number(),), r),
    {
        call(self.task_id)
    }
}

/// Schedules a task. `state` is the address of the boxed handler, which the scheduler owns from then
/// on. Scheduling cannot fail.
pub fn spawn<F>(state: Address, config: &TaskConfig, call: F) -> (r: Result<TaskHandle>)
    where
        F: FnOnce(i64, &CText, &CText, u32, Address, u32) -> u32,
    requires
        call.requires(
            (config.runtime, &config.desc, &config.group, config.cmd_id, state, config.flags.0),
        ),
    ensures
        r matches Ok(h) && call.ensures(
            (config.runtime, &config.desc, &config.group, config.cmd_id, state, config.flags.0),
            h.number(),
        ),
{
    let task_id: u32 = call(
        config.runtime,
        &config.desc,
        &config.group,
        config.cmd_id,
        state,
        config.flags.bits(),
    );
    Ok(TaskHandle { task_id })
}

/// Takes every task of a group off the schedule. Returns their number.
pub fn cancel_group<F>(group: &str, call: F) -> (r: Result<u32>)
    where
        F: FnOnce(&CText) -> u32,
    requires
        c_safe(group@) ==> forall|group_c: &CText|
            #![trigger call.requires((group_c,))]
            group_c.spells(group@) ==> call.requires((group_c,)),
    ensures
        !c_safe(group@) ==> r == Err::<u32, SwitchError>(generic_error()),
        c_safe(group@) ==> exists|group_c: &CText, reply: u32| {
            &&& group_c.spells(group@)
            &&& #[trigger] call.ensures((group_c,), reply)
            &&& r matches Ok(v) && v == reply
        },
{
    let group = cstring(group)?;
    let reply: u32 = call(&group);
    Ok(reply)
}

/// Starts the scheduler.
pub fn start<F>(call: F)
    where
        F: FnOnce(),
    requires
        call.requires(()),
    ensures
        call.ensures((), ()),
{
    call()
}

/// Stops the scheduler.
pub fn stop<F>(call: F)
    where
        F: FnOnce(),
    requires
        call.requires(()),
    ensures
        call.ensures((), ()),
{
    call()
}

/// What a run of a task came to.
#[derive(Debug, Copy, Clone, PartialEq, Eq, Structural)]
pub enum RunOutcome {
    /// The handler was not called: there was no task or no handler.
    Skipped,
    /// The handler was called; the task runs again.
    Again,
    /// The handler was called for the last time and was freed.
    Finished,
}

/// The callback of the scheduler. `task` and `cmd_arg` are the addresses of the task and of its
/// handler; without either nothing is done. `run` calls the handler and returns the interval that the
/// task then has, and whether the handler panicked. A panic is logged and otherwise of no account.
/// Where the interval is zero the run was the last, and `reclaim` frees the handler.
pub fn task_trampoline<R, L, D>(task: Address, cmd_arg: Address, run: R, log_panic: L, reclaim: D)
    -> (r:
    RunOutcome)
    where
        R: FnOnce(Address, Address) -> (u32, bool),
        L: FnOnce(),
        D: FnOnce(Address),
    requires
        task != NULL && cmd_arg != NULL ==> run.requires((task, cmd_arg)),
        forall|repeat: u32| #[trigger]
            run.ensures((task, cmd_arg), (repeat, true)) && task != NULL && cmd_arg != NULL
                ==> log_panic.requires(()),
        forall|panicked: bool| #[trigger]
            run.ensures((task, cmd_arg), (0u32, panicked)) && task != NULL && cmd_arg != NULL
                ==> reclaim.requires((cmd_arg,)),
    ensures
        task == NULL || cmd_arg == NULL ==> r == RunOutcome::Skipped,
        task != NULL && cmd_arg != NULL ==> exists|repeat: u32, panicked: bool| #[trigger]
            run.ensures((task, cmd_arg), (repeat, panicked)) && r == (if repeat == 0 {
                RunOutcome::Finished
            } else {
                RunOutcome::Again
            }) && (panicked ==> log_panic.ensures((), ())) && (repeat == 0 ==> reclaim.ensures(
                (cmd_arg,),
                (),
            )),
{
    if task == NULL || cmd_arg == NULL {
        return RunOutcome::Skipped;
    }
    let (repeat, panicked) = run(task, cmd_arg);
    if panicked {
        log_panic();
    }
    if repeat == 0 {
        reclaim(cmd_arg);
        RunOutcome::Finished
    } else {
        RunOutcome::Again
    }
}

/// The union of two sets of flags has a flag exactly where one of them has it.
pub proof fn task_union_has_the_flags_of_both(a: TaskFlags, b: TaskFlags, k: u32)
    requires
        k < 32,
    ensures
        (vstd::std_specs::ops::BitOrSpec::bitor_spec(a, b).0 >> k) & 1 == 1 <==> (a.0 >> k) & 1 == 1
            || (b.0 >> k) & 1 == 1,
{
    let x = a.0;
    let y = b.0;
    assert(((x | y) >> k) & 1 == 1 <==> (x >> k) & 1 == 1 || (y >> k) & 1 == 1) by (bit_vector);
}

} // verus!
