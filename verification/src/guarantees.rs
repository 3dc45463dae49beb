//! What holds of every configuration, every invocation and every run.

use crate::config::{target_map, watch_map, TARGET_FDS_CAPACITY};
use crate::filter::{caller_pid, emitted, Probe, SyscallContext, Verdict, WriteEvent, ALLOW};
use crate::lifecycle::{Action, Failure, Model, Report};
use vstd::prelude::*;

verus! {

/// With `target` configured as the process in scope, a call made by any other
/// process gives rise to no event, whatever the watch-list and whatever the
/// descriptor.
pub proof fn lemma_other_process_is_silent(target: u32, fds: Seq<u32>, ctx: SyscallContext)
    requires
        caller_pid(ctx.pid_tgid) != target,
    ensures
        emitted(target_map(target), watch_map(fds), ctx) is None,
{
}

/// With `fds` configured as the watch-list, a write to a descriptor that is
/// not in the list gives rise to no event, even when the target makes it.
pub proof fn lemma_unwatched_descriptor_is_silent(
    target: u32,
    fds: Seq<u32>,
    ctx: SyscallContext,
    fd: u32,
)
    requires
        ctx.arg0 == Some(fd),
        !fds.contains(fd),
    ensures
        emitted(target_map(target), watch_map(fds), ctx) is None,
{
}

/// With `target` and `fds` configured, every write of the target to a
/// descriptor in the list gives rise to one event, which names that process
/// and that descriptor.
pub proof fn lemma_watched_write_is_reported(
    target: u32,
    fds: Seq<u32>,
    ctx: SyscallContext,
    fd: u32,
)
    requires
        caller_pid(ctx.pid_tgid) == target,
        ctx.arg0 == Some(fd),
        fds.contains(fd),
    ensures
        emitted(target_map(target), watch_map(fds), ctx) == Some(WriteEvent { pid: target, fd }),
{
}

/// A call whose descriptor cannot be read gives rise to no event.
pub proof fn lemma_unreadable_descriptor_is_silent(
    processes: Map<u32, u32>,
    descriptors: Map<u32, u32>,
    ctx: SyscallContext,
)
    requires
        ctx.arg0 is None,
    ensures
        emitted(processes, descriptors, ctx) is None,
{
}

/// A caller out of scope is dismissed after the one lookup of its process:
/// the probe reads no argument and asks nothing more.
pub proof fn lemma_out_of_scope_ends_at_once(
    processes: Map<u32, u32>,
    descriptors: Map<u32, u32>,
    ctx: SyscallContext,
)
    requires
        !processes.contains_key(caller_pid(ctx.pid_tgid)),
    ensures
        Probe::entered(ctx.pid_tgid).resumed(
            Probe::entered(ctx.pid_tgid).answer(processes, descriptors, ctx),
        ) == Probe::Done(Ok(Verdict { status: ALLOW, event: None })),
{
}

/// Every answer brings the probe nearer its result, which it reaches within
/// three questions; the hook is told to let the call proceed whatever the
/// answers were.
pub proof fn lemma_probe_is_bounded(probe: Probe, reply: Option<u32>)
    ensures
        probe.questions_left() <= 3,
        probe is Done <==> probe.questions_left() == 0,
        !(probe is Done) ==> probe.resumed(reply).questions_left() < probe.questions_left(),
        probe is Done ==> probe.resumed(reply) == probe,
        !(probe is Done) ==> (probe.resumed(reply) matches Probe::Done(result) ==> match result {
            Ok(verdict) => verdict.status == ALLOW,
            Err(status) => status == ALLOW,
        }),
{
}

/// In every valid state a run reports exactly the target's writes to listed
/// descriptors, and only while the probe is attached.
pub proof fn lemma_emits_exactly(model: Model, ctx: SyscallContext)
    requires
        model.wf(),
    ensures
        model.emits(ctx) == (match ctx.arg0 {
            Some(fd) => if model.phase is Attached && caller_pid(ctx.pid_tgid) == model.target
                && model.watch_list.contains(fd) {
                Some(WriteEvent { pid: model.target, fd })
            } else {
                None
            },
            None => None,
        }),
{
}

/// Every report leads from a valid state to a valid state. In particular the
/// probe is never attached over tables that are empty or half written.
pub proof fn lemma_next_preserves_wf(model: Model, report: Report)
    requires
        model.wf(),
    ensures
        model.next(report).wf(),
        model.next(report).target == model.target,
        model.next(report).watch_list == model.watch_list,
        model.next(report).phase is Attached ==> model.next(report).populated(),
{
}

/// Every state that a run reaches is valid, whatever the host reports: a run
/// starts with nothing loaded and a watch-list that fits the table.
pub proof fn lemma_run_is_wf(target: u32, watch_list: Seq<u32>, reports: Seq<Report>)
    requires
        watch_list.len() <= TARGET_FDS_CAPACITY,
    ensures
        Model::initial(target, watch_list).after(reports).wf(),
        Model::initial(target, watch_list).after(reports).target == target,
        Model::initial(target, watch_list).after(reports).watch_list == watch_list,
    decreases reports.len(),
{
    if reports.len() > 0 {
        lemma_run_is_wf(target, watch_list, reports.drop_last());
        lemma_next_preserves_wf(
            Model::initial(target, watch_list).after(reports.drop_last()),
            reports.last(),
        );
    }
}

/// The probe becomes attached only by a successful attachment reported while
/// the bytecode is loaded and both tables hold the whole configuration.
pub proof fn lemma_attach_follows_population(model: Model, report: Report)
    requires
        model.wf(),
        !(model.phase is Attached),
        model.next(report).phase is Attached,
    ensures
        model.phase is Loaded,
        model.populated(),
        report is AttachSucceeded,
        model.next(report).processes == model.processes,
        model.next(report).descriptors == model.descriptors,
{
}

/// No report changes the tables under an attached probe: every report taken
/// while attached ends the attachment.
pub proof fn lemma_attached_tables_are_fixed(model: Model, report: Report)
    requires
        model.wf(),
        model.phase is Attached,
    ensures
        model.next(report).phase is Detached,
        model.next(report).blank(),
{
}

/// Whenever the host is told to exit, the run is over: nothing stays loaded
/// or attached, and the tables are gone.
pub proof fn lemma_exit_releases_everything(model: Model, report: Report)
    requires
        model.action(report).exit_status() is Some,
    ensures
        model.next(report).ended,
        model.next(report).phase is Unloaded || model.next(report).phase is Detached,
        model.next(report).blank(),
{
}

/// A run that is over stays over: every further report is answered with a
/// failure, the phase and the empty tables stay as they are, and no call
/// gives rise to an event. No failure is followed by another attempt.
pub proof fn lemma_ended_is_final(model: Model, report: Report, ctx: SyscallContext)
    requires
        model.wf(),
        model.ended,
    ensures
        model.next(report) == model,
        model.action(report) == Action::Abort(Failure::OutOfOrder),
        model.emits(ctx) is None,
{
}

/// A failure or a report out of order ends the run with a status other than
/// zero; only the cancellation of an attached probe ends it with zero.
pub proof fn lemma_exit_status(model: Model, report: Report)
    ensures
        model.action(report).exit_status() == Some(0i32) <==> (model.phase is Attached
            && !model.ended && report is Cancelled),
        model.action(report) is Abort ==> model.action(report).exit_status() == Some(1i32),
        !model.admits(report) ==> model.action(report) == Action::Abort(Failure::OutOfOrder),
{
}

/// Once detached, a run stays detached: every further report, an attachment
/// among them, is answered with a failure, and the tables stay empty.
pub proof fn lemma_detached_is_final(model: Model, report: Report)
    requires
        model.phase is Detached,
    ensures
        model.next(report).phase is Detached,
        model.next(report).ended,
        model.next(report).blank(),
        model.action(report) == Action::Abort(Failure::OutOfOrder),
{
}

/// Once detached, no sequence of reports attaches the probe again, and no
/// call gives rise to an event.
pub proof fn lemma_detached_stays_silent(model: Model, reports: Seq<Report>, ctx: SyscallContext)
    requires
        model.phase is Detached,
    ensures
        model.after(reports).phase is Detached,
        model.after(reports).emits(ctx) is None,
    decreases reports.len(),
{
    if reports.len() > 0 {
        lemma_detached_stays_silent(model, reports.drop_last(), ctx);
        lemma_detached_is_final(model.after(reports.drop_last()), reports.last());
    }
}

/// The cancellation of an attached probe detaches it and ends the run with
/// success, and from then on no call gives rise to an event.
pub proof fn lemma_cancellation_detaches(model: Model, later: Seq<Report>, ctx: SyscallContext)
    requires
        model.wf(),
        model.phase is Attached,
    ensures
        model.next(Report::Cancelled).phase is Detached,
        model.next(Report::Cancelled).blank(),
        model.action(Report::Cancelled) == Action::Exit,
        model.action(Report::Cancelled).exit_status() == Some(0i32),
        model.next(Report::Cancelled).after(later).emits(ctx) is None,
{
    lemma_detached_stays_silent(model.next(Report::Cancelled), later, ctx);
}

/// The one run that attaches: started, loaded, populated, attached. It ends
/// attached over tables that hold the whole configuration.
pub proof fn lemma_startup_attaches(target: u32, watch_list: Seq<u32>)
    requires
        watch_list.len() <= TARGET_FDS_CAPACITY,
    ensures
        ({
            let loaded = Model::initial(target, watch_list).next(Report::Started).next(
                Report::LoadAccepted,
            );
            let attached = loaded.next(Report::TablesPopulated).next(Report::AttachSucceeded);
            &&& loaded.phase is Loaded
            &&& loaded.blank()
            &&& attached.phase is Attached
            &&& attached.populated()
        }),
{
    assert(target_map(target).contains_key(target));
    assert(!Map::<u32, u32>::empty().contains_key(target));
}

} // verus!
