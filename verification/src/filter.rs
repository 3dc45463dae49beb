//! The probe: what it decides on each entry into the traced call.

use crate::config::SharedTables;
use crate::table::lookup;
use crate::text::{append_decimal, decimal};
use vstd::prelude::*;
use vstd::string::StringExecFns;

verus! {

/// The status handed back to the kernel hook: the traced call proceeds.
pub const ALLOW: u32 = 0;

/// One entry into the traced system call, as the probe sees it.
#[derive(Clone, Copy, Debug, PartialEq, Eq)]
pub struct SyscallContext {
    /// Combined identifier of the caller: the process identifier in the
    /// upper 32 bits, the thread identifier in the lower.
    pub pid_tgid: u64,
    /// Argument zero of the call read as a descriptor number, or `None` when
    /// the argument could not be read.
    pub arg0: Option<u32>,
}

/// A write by the process in scope to a watched descriptor.
#[derive(Clone, Copy, Debug, PartialEq, Eq, Structural)]
pub struct WriteEvent {
    /// The process that wrote.
    pub pid: u32,
    /// The descriptor written to.
    pub fd: u32,
}

/// What one invocation of the probe comes to: the status for the hook, and
/// the event to log, if any.
#[derive(Clone, Copy, Debug, PartialEq, Eq)]
pub struct Verdict {
    /// The status for the hook.
    pub status: u32,
    /// The event to log.
    pub event: Option<WriteEvent>,
}

/// The process identifier carried in the upper 32 bits of a combined
/// process/thread identifier.
pub open spec fn caller_pid(pid_tgid: u64) -> u32 {
    (pid_tgid / 0x1_0000_0000) as u32
}

/// The event that an invocation gives rise to under the given table
/// contents: one exactly when the caller is in scope, the descriptor could be
/// read, and the descriptor is watched.
pub open spec fn emitted(
    processes: Map<u32, u32>,
    descriptors: Map<u32, u32>,
    ctx: SyscallContext,
) -> Option<WriteEvent> {
    let pid = caller_pid(ctx.pid_tgid);
    match ctx.arg0 {
        Some(fd) => if processes.contains_key(pid) && descriptors.contains_key(fd) {
            Some(WriteEvent { pid, fd })
        } else {
            None
        },
        None => None,
    }
}

/// Extracts the process identifier from a combined process/thread identifier.
pub fn pid_of(pid_tgid: u64) -> (pid: u32)
    ensures
        pid == caller_pid(pid_tgid),
{
    let upper: u64 = pid_tgid >> 32;
    assert(upper == pid_tgid / 0x1_0000_0000 && upper <= 0xffff_ffff) by (bit_vector)
        requires
            upper == pid_tgid >> 32,
    ;
    upper as u32
}

/// The probe at one point of an invocation: the question it puts to the
/// kernel next, or its result.
///
/// Each question is answered with an `Option<u32>`: what a table holds under
/// the key, or the argument that was read, and `None` where the key is
/// absent or the read failed.
#[derive(Clone, Copy, Debug, PartialEq, Eq)]
pub enum Probe {
    /// What does the process table hold under `pid`?
    AskProcess { pid: u32 },
    /// What is argument zero of the call?
    AskDescriptor { pid: u32 },
    /// What does the descriptor table hold under `fd`?
    AskWatched { pid: u32, fd: u32 },
    /// The invocation is over.
    Done(Result<Verdict, u32>),
}

impl Probe {
    /// The probe on entry: it asks first whether the caller is in scope.
    pub open spec fn entered(pid_tgid: u64) -> Probe {
        Probe::AskProcess { pid: caller_pid(pid_tgid) }
    }

    /// The probe after the answer `reply` to its question. A caller out of
    /// scope ends the invocation at once; an argument that cannot be read
    /// ends it with `Err`; a watched descriptor ends it with the event, any
    /// other with none.
    pub open spec fn resumed(self, reply: Option<u32>) -> Probe {
        match self {
            Probe::AskProcess { pid } => match reply {
                Some(_) => Probe::AskDescriptor { pid },
                None => Probe::Done(Ok(Verdict { status: ALLOW, event: None })),
            },
            Probe::AskDescriptor { pid } => match reply {
                Some(fd) => Probe::AskWatched { pid, fd },
                None => Probe::Done(Err(ALLOW)),
            },
            Probe::AskWatched { pid, fd } => match reply {
                Some(_) => Probe::Done(
                    Ok(Verdict { status: ALLOW, event: Some(WriteEvent { pid, fd }) }),
                ),
                None => Probe::Done(Ok(Verdict { status: ALLOW, event: None })),
            },
            Probe::Done(result) => Probe::Done(result),
        }
    }

    /// The number of questions that the probe may still ask.
    pub open spec fn questions_left(self) -> nat {
        match self {
            Probe::AskProcess { .. } => 3,
            Probe::AskDescriptor { .. } => 2,
            Probe::AskWatched { .. } => 1,
            Probe::Done(_) => 0,
        }
    }

    /// The answer that the probe's question has under the given table
    /// contents and context.
    pub open spec fn answer(
        self,
        processes: Map<u32, u32>,
        descriptors: Map<u32, u32>,
        ctx: SyscallContext,
    ) -> Option<u32> {
        match self {
            Probe::AskProcess { pid } => lookup(processes, pid),
            Probe::AskDescriptor { .. } => ctx.arg0,
            Probe::AskWatched { fd, .. } => lookup(descriptors, fd),
            Probe::Done(_) => None,
        }
    }

    /// The result that the probe reaches from here when each of its
    /// questions is answered from the given table contents and context.
    pub open spec fn result(
        self,
        processes: Map<u32, u32>,
        descriptors: Map<u32, u32>,
        ctx: SyscallContext,
    ) -> Result<Verdict, u32>
        decreases self.questions_left(),
    {
        match self {
            Probe::Done(result) => result,
            _ => self.resumed(self.answer(processes, descriptors, ctx)).result(
                processes,
                descriptors,
                ctx,
            ),
        }
    }

    /// The probe on entry into the traced call.
    pub fn enter(pid_tgid: u64) -> (probe: Probe)
        ensures
            probe == Probe::entered(pid_tgid),
    {
        Probe::AskProcess { pid: pid_of(pid_tgid) }
    }

    /// Takes the answer to the probe's question and moves on.
    pub fn resume(self, reply: Option<u32>) -> (probe: Probe)
        ensures
            probe == self.resumed(reply),
            probe.questions_left() < self.questions_left() || self is Done,
    {
        match self {
            Probe::AskProcess { pid } => match reply {
                Some(_) => Probe::AskDescriptor { pid },
                None => Probe::Done(Ok(Verdict { status: ALLOW, event: None })),
            },
            Probe::AskDescriptor { pid } => match reply {
                Some(fd) => Probe::AskWatched { pid, fd },
                None => Probe::Done(Err(ALLOW)),
            },
            Probe::AskWatched { pid, fd } => match reply {
                Some(_) => Probe::Done(
                    Ok(Verdict { status: ALLOW, event: Some(WriteEvent { pid, fd }) }),
                ),
                None => Probe::Done(Ok(Verdict { status: ALLOW, event: None })),
            },
            Probe::Done(result) => Probe::Done(result),
        }
    }
}

/// Answered from given table contents and context, the probe reports exactly
/// the event that those contents and that context give rise to. It ends with
/// `Err` exactly when the caller is in scope and the descriptor cannot be
/// read, and the status is the same on every path.
pub proof fn lemma_probe_result(
    processes: Map<u32, u32>,
    descriptors: Map<u32, u32>,
    ctx: SyscallContext,
)
    ensures
        ({
            let result = Probe::entered(ctx.pid_tgid).result(processes, descriptors, ctx);
            &&& result is Err <==> (processes.contains_key(caller_pid(ctx.pid_tgid))
                && ctx.arg0 is None)
            &&& result matches Err(status) ==> status == ALLOW
            &&& result matches Ok(verdict) ==> verdict.status == ALLOW && verdict.event
                == emitted(processes, descriptors, ctx)
        }),
{
    reveal_with_fuel(Probe::result, 4);
}

/// Decides one invocation against the shared tables: runs the probe from
/// entry to its result and answers each of its questions from the tables and
/// the context.
pub fn try_syscall_write(tables: &SharedTables, ctx: &SyscallContext) -> (result: Result<
    Verdict,
    u32,
>)
    ensures
        result == Probe::entered(ctx.pid_tgid).result(
            tables.processes(),
            tables.descriptors(),
            *ctx,
        ),
        result is Err <==> (tables.processes().contains_key(caller_pid(ctx.pid_tgid))
            && ctx.arg0 is None),
        result matches Err(status) ==> status == ALLOW,
        result matches Ok(verdict) ==> verdict.status == ALLOW && verdict.event == emitted(
            tables.processes(),
            tables.descriptors(),
            *ctx,
        ),
{
    let mut probe = Probe::enter(ctx.pid_tgid);
    loop
        invariant
            probe.result(tables.processes(), tables.descriptors(), *ctx) == Probe::entered(
                ctx.pid_tgid,
            ).result(tables.processes(), tables.descriptors(), *ctx),
        decreases probe.questions_left(),
    {
        let reply = match probe {
            Probe::AskProcess { pid } => tables.lookup_process(pid),
            Probe::AskDescriptor { .. } => ctx.arg0,
            Probe::AskWatched { fd, .. } => tables.lookup_descriptor(fd),
            Probe::Done(result) => {
                proof {
                    lemma_probe_result(tables.processes(), tables.descriptors(), *ctx);
                }
                return result;
            },
        };
        probe = probe.resume(reply);
    }
}

/// The probe's entry point. The hook is always told to let the call proceed;
/// a context that yields no descriptor counts as no match.
pub fn syscall_write(tables: &SharedTables, ctx: &SyscallContext) -> (verdict: Verdict)
    ensures
        verdict.status == ALLOW,
        verdict.event == emitted(tables.processes(), tables.descriptors(), *ctx),
{
    match try_syscall_write(tables, ctx) {
        Ok(verdict) => verdict,
        Err(status) => Verdict { status, event: None },
    }
}

impl WriteEvent {
    /// The text of the log record for this event.
    pub open spec fn log_text(self) -> Seq<char> {
        "WRITE: PID "@ + decimal(self.pid as nat) + " FD "@ + decimal(self.fd as nat)
    }

    /// The log record for this event, as one line of text.
    pub fn log_line(&self) -> (line: String)
        ensures
            line@ == self.log_text(),
    {
        let mut line = String::from_str("WRITE: PID ");
        append_decimal(&mut line, self.pid);
        line.append(" FD ");
        append_decimal(&mut line, self.fd);
        line
    }
}

} // verus!
