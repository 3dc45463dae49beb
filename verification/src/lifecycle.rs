//! The controller: loading, configuring, attaching and detaching the probe.

use crate::config::{target_map, watch_map, ConfigError, SharedTables, TARGET_FDS_CAPACITY};
use crate::filter::{emitted, syscall_write, SyscallContext, WriteEvent};
use vstd::prelude::*;

verus! {

/// Where the probe stands in its life.
#[derive(Clone, Copy, Debug, PartialEq, Eq, Structural)]
pub enum Phase {
    /// No bytecode is loaded.
    Unloaded,
    /// The bytecode was accepted; the probe is bound to no hook point.
    Loaded,
    /// The probe is bound to its hook point and runs on every entry.
    Attached,
    /// The attachment was released. Nothing follows but the exit.
    Detached,
}

/// What the host reports to the controller: that it started, or how the
/// action last asked of it ended.
#[derive(Clone, Copy, Debug, PartialEq, Eq, Structural)]
pub enum Report {
    /// The host process has started.
    Started,
    /// The bytecode was loaded and accepted.
    LoadAccepted,
    /// The bytecode was refused.
    LoadRejected,
    /// The target and the watch-list were written to the shared tables.
    TablesPopulated,
    /// The probe was bound to the hook point.
    AttachSucceeded,
    /// The probe could not be bound to the hook point.
    AttachFailed,
    /// The operator asked for the run to end.
    Cancelled,
}

/// Why a run is given up.
#[derive(Clone, Copy, Debug, PartialEq, Eq, Structural)]
pub enum Failure {
    /// The bytecode was refused.
    LoadRejected,
    /// The probe could not be bound to the hook point.
    AttachFailed,
    /// A report came that the current phase does not admit.
    OutOfOrder,
}

/// What the controller asks of the host next.
#[derive(Clone, Copy, Debug, PartialEq, Eq, Structural)]
pub enum Action {
    /// Load the bytecode, which creates the shared tables empty.
    LoadBytecode,
    /// Write the target and the watch-list to the shared tables.
    PopulateTables,
    /// Bind the probe to the hook point and keep the handle.
    AttachProbe,
    /// Wait until the operator asks for the run to end.
    AwaitCancellation,
    /// Release what is held and exit with success.
    Exit,
    /// Release what is held and exit with failure.
    Abort(Failure),
}

impl Action {
    /// The exit status that the action ends the process with, if it ends it:
    /// zero for success, one for failure.
    pub open spec fn exit_status(self) -> Option<i32> {
        match self {
            Action::Exit => Some(0i32),
            Action::Abort(_) => Some(1i32),
            _ => None,
        }
    }

    /// The exit status that the action ends the process with, if it ends it.
    pub fn exit_code(&self) -> (code: Option<i32>)
        ensures
            code == self.exit_status(),
    {
        match self {
            Action::Exit => Some(0),
            Action::Abort(_) => Some(1),
            _ => None,
        }
    }
}

/// A kernel hook point: an event category and an event name within it.
pub struct HookPoint {
    /// The event category.
    pub category: &'static str,
    /// The event's name within the category.
    pub name: &'static str,
}

/// The hook point that the probe is bound to: entry into the write call.
pub fn hook_point() -> (hook: HookPoint)
    ensures
        hook.category@ == "syscalls"@,
        hook.name@ == "sys_enter_write"@,
{
    HookPoint { category: "syscalls", name: "sys_enter_write" }
}

/// The controller and the shared tables as mathematical values.
pub struct Model {
    /// Where the probe stands in its life.
    pub phase: Phase,
    /// Whether the run is over: the host was told to exit.
    pub ended: bool,
    /// The process to trace.
    pub target: u32,
    /// The descriptors to watch, as the operator listed them.
    pub watch_list: Seq<u32>,
    /// Contents of the process table.
    pub processes: Map<u32, u32>,
    /// Contents of the descriptor table.
    pub descriptors: Map<u32, u32>,
}

impl Model {
    /// Both tables are empty.
    pub open spec fn blank(self) -> bool {
        &&& self.processes == Map::<u32, u32>::empty()
        &&& self.descriptors == Map::<u32, u32>::empty()
    }

    /// Both tables hold the whole configuration.
    pub open spec fn populated(self) -> bool {
        &&& self.processes == target_map(self.target)
        &&& self.descriptors == watch_map(self.watch_list)
    }

    /// The invariant of every run: the watch-list fits the descriptor table;
    /// the tables are empty while nothing is loaded and after detaching,
    /// empty or complete while loaded, and complete while attached; and a
    /// run that is over holds nothing, as a detached one is over.
    pub open spec fn wf(self) -> bool {
        &&& self.watch_list.len() <= TARGET_FDS_CAPACITY
        &&& match self.phase {
            Phase::Unloaded => self.blank(),
            Phase::Loaded => !self.ended && (self.blank() || self.populated()),
            Phase::Attached => !self.ended && self.populated(),
            Phase::Detached => self.ended && self.blank(),
        }
    }

    /// The state in which every run starts.
    pub open spec fn initial(target: u32, watch_list: Seq<u32>) -> Model {
        Model {
            phase: Phase::Unloaded,
            ended: false,
            target,
            watch_list,
            processes: Map::empty(),
            descriptors: Map::empty(),
        }
    }

    /// This state with the run over and the tables destroyed, in the given
    /// phase.
    pub open spec fn released(self, phase: Phase) -> Model {
        Model { phase, ended: true, processes: Map::empty(), descriptors: Map::empty(), ..self }
    }

    /// Whether `report` is one that the current state admits: the start and
    /// the outcome of loading while nothing is loaded, the population of
    /// empty tables and the outcome of attaching over complete tables while
    /// loaded, the cancellation while attached, and nothing once the run is
    /// over.
    pub open spec fn admits(self, report: Report) -> bool {
        !self.ended && match self.phase {
            Phase::Unloaded => {
                ||| report is Started
                ||| report is LoadAccepted
                ||| report is LoadRejected
            },
            Phase::Loaded => {
                ||| self.blank() && report is TablesPopulated
                ||| self.populated() && report is AttachSucceeded
                ||| self.populated() && report is AttachFailed
            },
            Phase::Attached => report is Cancelled,
            Phase::Detached => false,
        }
    }

    /// The state after `report`. A report that the state admits moves the run
    /// on; loading leaves the tables empty, populating fills both, and
    /// attaching needs both filled. A failure, the cancellation and a report
    /// out of order end the run for good and destroy the tables: before
    /// attachment the bytecode is unloaded, after it the attachment is
    /// released.
    pub open spec fn next(self, report: Report) -> Model {
        if !self.admits(report) {
            match self.phase {
                Phase::Unloaded | Phase::Loaded => self.released(Phase::Unloaded),
                Phase::Attached | Phase::Detached => self.released(Phase::Detached),
            }
        } else {
            match report {
                Report::Started => self,
                Report::LoadAccepted => Model { phase: Phase::Loaded, ..self },
                Report::LoadRejected => self.released(Phase::Unloaded),
                Report::TablesPopulated => Model {
                    processes: target_map(self.target),
                    descriptors: watch_map(self.watch_list),
                    ..self
                },
                Report::AttachSucceeded => Model { phase: Phase::Attached, ..self },
                Report::AttachFailed => self.released(Phase::Unloaded),
                Report::Cancelled => self.released(Phase::Detached),
            }
        }
    }

    /// What the host is asked to do after `report`.
    pub open spec fn action(self, report: Report) -> Action {
        if !self.admits(report) {
            Action::Abort(Failure::OutOfOrder)
        } else {
            match report {
                Report::Started => Action::LoadBytecode,
                Report::LoadAccepted => Action::PopulateTables,
                Report::LoadRejected => Action::Abort(Failure::LoadRejected),
                Report::TablesPopulated => Action::AttachProbe,
                Report::AttachSucceeded => Action::AwaitCancellation,
                Report::AttachFailed => Action::Abort(Failure::AttachFailed),
                Report::Cancelled => Action::Exit,
            }
        }
    }

    /// The state after a sequence of reports, taken in order.
    pub open spec fn after(self, reports: Seq<Report>) -> Model
        decreases reports.len(),
    {
        if reports.len() == 0 {
            self
        } else {
            self.after(reports.drop_last()).next(reports.last())
        }
    }

    /// The event that an entry into the traced call gives rise to in this
    /// state. The probe runs only while attached.
    pub open spec fn emits(self, ctx: SyscallContext) -> Option<WriteEvent> {
        if self.phase is Attached {
            emitted(self.processes, self.descriptors, ctx)
        } else {
            None
        }
    }
}

/// The controller of one run: the configuration, the phase, and the shared
/// tables as the probe would read them.
pub struct Controller {
    phase: Phase,
    ended: bool,
    target: u32,
    watch_list: Vec<u32>,
    tables: SharedTables,
}

impl View for Controller {
    type V = Model;

    closed spec fn view(&self) -> Model {
        Model {
            phase: self.phase,
            ended: self.ended,
            target: self.target,
            watch_list: self.watch_list@,
            processes: self.tables.processes(),
            descriptors: self.tables.descriptors(),
        }
    }
}

impl Controller {
    /// Validity: the tables are valid and the state meets the invariant of
    /// every run.
    pub closed spec fn wf(&self) -> bool {
        &&& self.tables.wf()
        &&& self@.wf()
    }

    /// A valid controller is in a state that meets the invariant of every run.
    pub proof fn lemma_wf_model(&self)
        requires
            self.wf(),
        ensures
            self@.wf(),
    {
    }

    /// A controller for target `pid` and watch-list `fds`, with nothing
    /// loaded. A watch-list longer than the descriptor table's capacity is
    /// refused.
    pub fn new(pid: u32, fds: Vec<u32>) -> (result: Result<Controller, ConfigError>)
        ensures
            result is Err <==> fds@.len() > TARGET_FDS_CAPACITY,
            result matches Err(e) ==> e == ConfigError::TooManyDescriptors,
            result matches Ok(controller) ==> controller.wf() && controller@ == Model::initial(
                pid,
                fds@,
            ),
    {
        if fds.len() > TARGET_FDS_CAPACITY as usize {
            return Err(ConfigError::TooManyDescriptors);
        }
        Ok(
            Controller {
                phase: Phase::Unloaded,
                ended: false,
                target: pid,
                watch_list: fds,
                tables: SharedTables::new(),
            },
        )
    }

    /// The current phase.
    pub fn phase(&self) -> (phase: Phase)
        ensures
            phase == self@.phase,
    {
        self.phase
    }

    /// Whether the run is over.
    pub fn has_ended(&self) -> (ended: bool)
        ensures
            ended == self@.ended,
    {
        self.ended
    }

    /// The process to trace.
    pub fn target(&self) -> (pid: u32)
        ensures
            pid == self@.target,
    {
        self.target
    }

    /// The descriptors to watch, as the operator listed them.
    pub fn watch_list(&self) -> (fds: &[u32])
        ensures
            fds@ == self@.watch_list,
    {
        self.watch_list.as_slice()
    }

    /// The shared tables as the probe would read them now.
    pub fn tables(&self) -> (tables: &SharedTables)
        ensures
            self.wf() ==> tables.wf(),
            tables.processes() == self@.processes,
            tables.descriptors() == self@.descriptors,
    {
        &self.tables
    }

    /// Takes one report from the host, moves to the next state and says what
    /// the host is to do next.
    pub fn step(&mut self, report: Report) -> (action: Action)
        requires
            old(self).wf(),
        ensures
            final(self).wf(),
            final(self)@ == old(self)@.next(report),
            action == old(self)@.action(report),
    {
        let populated = self.tables.is_target_process(self.target);
        proof {
            assert(target_map(self.target).contains_key(self.target));
            assert(!Map::<u32, u32>::empty().contains_key(self.target));
            assert(populated <==> self@.populated());
        }
        if self.ended {
            return Action::Abort(Failure::OutOfOrder);
        }
        let action = match (self.phase, report) {
            (Phase::Unloaded, Report::Started) => Action::LoadBytecode,
            (Phase::Unloaded, Report::LoadAccepted) => {
                self.phase = Phase::Loaded;
                Action::PopulateTables
            },
            (Phase::Unloaded, Report::LoadRejected) => {
                self.release(Phase::Unloaded);
                Action::Abort(Failure::LoadRejected)
            },
            (Phase::Loaded, Report::TablesPopulated) if !populated => {
                self.tables.populate(self.target, self.watch_list.as_slice());
                Action::AttachProbe
            },
            (Phase::Loaded, Report::AttachSucceeded) if populated => {
                self.phase = Phase::Attached;
                Action::AwaitCancellation
            },
            (Phase::Loaded, Report::AttachFailed) if populated => {
                self.release(Phase::Unloaded);
                Action::Abort(Failure::AttachFailed)
            },
            (Phase::Attached, Report::Cancelled) => {
                self.release(Phase::Detached);
                Action::Exit
            },
            (Phase::Unloaded, _) | (Phase::Loaded, _) => {
                self.release(Phase::Unloaded);
                Action::Abort(Failure::OutOfOrder)
            },
            (Phase::Attached, _) | (Phase::Detached, _) => {
                self.release(Phase::Detached);
                Action::Abort(Failure::OutOfOrder)
            },
        };
        assert(self@ =~= old(self)@.next(report));
        action
    }

    /// Ends the run: destroys the tables and enters `phase`.
    fn release(&mut self, phase: Phase)
        requires
            old(self).wf(),
            phase is Unloaded || phase is Detached,
        ensures
            final(self).wf(),
            final(self)@ == old(self)@.released(phase),
    {
        self.phase = phase;
        self.ended = true;
        self.tables = SharedTables::new();
    }

    /// The event that an entry into the traced call gives rise to now: the
    /// probe's verdict while attached, none in any other phase.
    pub fn observe(&self, ctx: &SyscallContext) -> (event: Option<WriteEvent>)
        ensures
            event == self@.emits(*ctx),
    {
        match self.phase {
            Phase::Attached => syscall_write(&self.tables, ctx).event,
            _ => None,
        }
    }
}

} // verus!
