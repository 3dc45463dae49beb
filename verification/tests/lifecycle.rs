use fdwatch::config::ConfigError;
use fdwatch::filter::{SyscallContext, WriteEvent};
use fdwatch::lifecycle::{hook_point, Action, Controller, Failure, Phase, Report};

const REPORTS: [Report; 7] = [
    Report::Started,
    Report::LoadAccepted,
    Report::LoadRejected,
    Report::TablesPopulated,
    Report::AttachSucceeded,
    Report::AttachFailed,
    Report::Cancelled,
];

fn entry(pid: u32, arg0: Option<u32>) -> SyscallContext {
    SyscallContext { pid_tgid: ((pid as u64) << 32) | pid as u64, arg0 }
}

fn controller(pid: u32, fds: &[u32]) -> Controller {
    match Controller::new(pid, fds.to_vec()) {
        Ok(controller) => controller,
        Err(e) => panic!("configuration refused: {:?}", e),
    }
}

fn after(pid: u32, fds: &[u32], reports: &[Report]) -> Controller {
    let mut c = controller(pid, fds);
    for report in reports {
        c.step(*report);
    }
    c
}

fn loaded(pid: u32, fds: &[u32]) -> Controller {
    after(pid, fds, &[Report::Started, Report::LoadAccepted])
}

fn populated(pid: u32, fds: &[u32]) -> Controller {
    after(pid, fds, &[Report::Started, Report::LoadAccepted, Report::TablesPopulated])
}

fn loaded_then(pid: u32, fds: &[u32], report: Report) -> Controller {
    let mut c = loaded(pid, fds);
    c.step(report);
    c
}

fn populated_then(pid: u32, fds: &[u32], report: Report) -> Controller {
    let mut c = populated(pid, fds);
    c.step(report);
    c
}

fn attached(pid: u32, fds: &[u32]) -> Controller {
    after(
        pid,
        fds,
        &[Report::Started, Report::LoadAccepted, Report::TablesPopulated, Report::AttachSucceeded],
    )
}

#[test]
fn new_controller_has_nothing_loaded() {
    let c = controller(4242, &[1, 2]);
    assert_eq!(c.phase(), Phase::Unloaded);
    assert_eq!(c.target(), 4242);
    assert_eq!(c.watch_list(), &[1, 2]);
    assert!(!c.tables().is_target_process(4242));
    assert!(!c.tables().is_target_descriptor(1));
}

#[test]
fn more_than_1024_descriptors_are_refused_at_once() {
    let fds: Vec<u32> = (0..1025).collect();
    assert!(matches!(Controller::new(4242, fds), Err(ConfigError::TooManyDescriptors)));
    let fds: Vec<u32> = (0..1024).collect();
    assert!(Controller::new(4242, fds).is_ok());
    assert!(Controller::new(4242, Vec::new()).is_ok());
}

#[test]
fn a_run_goes_through_the_phases_in_order() {
    let mut c = controller(4242, &[1, 2]);
    assert_eq!(c.step(Report::Started), Action::LoadBytecode);
    assert_eq!(c.phase(), Phase::Unloaded);
    assert_eq!(c.step(Report::LoadAccepted), Action::PopulateTables);
    assert_eq!(c.phase(), Phase::Loaded);
    assert!(!c.tables().is_target_process(4242));
    assert_eq!(c.step(Report::TablesPopulated), Action::AttachProbe);
    assert_eq!(c.phase(), Phase::Loaded);
    assert!(c.tables().is_target_process(4242));
    assert!(c.tables().is_target_descriptor(1));
    assert!(c.tables().is_target_descriptor(2));
    assert!(!c.tables().is_target_descriptor(3));
    assert_eq!(c.step(Report::AttachSucceeded), Action::AwaitCancellation);
    assert_eq!(c.phase(), Phase::Attached);
    assert!(c.tables().is_target_process(4242));
    assert_eq!(c.step(Report::Cancelled), Action::Exit);
    assert_eq!(c.phase(), Phase::Detached);
    assert!(!c.tables().is_target_process(4242));
    assert!(!c.tables().is_target_descriptor(1));
}

#[test]
fn exit_codes() {
    assert_eq!(Action::Exit.exit_code(), Some(0));
    assert_eq!(Action::Abort(Failure::LoadRejected).exit_code(), Some(1));
    assert_eq!(Action::Abort(Failure::AttachFailed).exit_code(), Some(1));
    assert_eq!(Action::Abort(Failure::OutOfOrder).exit_code(), Some(1));
    assert_eq!(Action::LoadBytecode.exit_code(), None);
    assert_eq!(Action::PopulateTables.exit_code(), None);
    assert_eq!(Action::AttachProbe.exit_code(), None);
    assert_eq!(Action::AwaitCancellation.exit_code(), None);
}

#[test]
fn the_hook_point_is_entry_into_write() {
    let hook = hook_point();
    assert_eq!(hook.category, "syscalls");
    assert_eq!(hook.name, "sys_enter_write");
}

#[test]
fn rejected_bytecode_aborts() {
    let mut c = controller(1, &[1]);
    assert_eq!(c.step(Report::Started), Action::LoadBytecode);
    assert_eq!(c.step(Report::LoadRejected), Action::Abort(Failure::LoadRejected));
    assert_eq!(c.phase(), Phase::Unloaded);
}

#[test]
fn failed_attachment_aborts_and_unloads() {
    let mut c = populated(1, &[1]);
    assert_eq!(c.step(Report::AttachFailed), Action::Abort(Failure::AttachFailed));
    assert_eq!(c.phase(), Phase::Unloaded);
    assert!(!c.tables().is_target_process(1));
    assert!(!c.tables().is_target_descriptor(1));
}

#[test]
fn attaching_before_populating_is_out_of_order() {
    let mut c = loaded(1, &[1]);
    assert_eq!(c.step(Report::AttachSucceeded), Action::Abort(Failure::OutOfOrder));
    assert_eq!(c.phase(), Phase::Unloaded);
    assert_eq!(c.observe(&entry(1, Some(1))), None);
}

#[test]
fn populating_twice_is_out_of_order() {
    let mut c = populated(1, &[1]);
    assert_eq!(c.step(Report::TablesPopulated), Action::Abort(Failure::OutOfOrder));
    assert_eq!(c.phase(), Phase::Unloaded);
}

#[test]
fn every_report_in_every_phase() {
    for report in REPORTS {
        let mut c = controller(1, &[1]);
        let action = c.step(report);
        let expected = match report {
            Report::Started => (Action::LoadBytecode, Phase::Unloaded),
            Report::LoadAccepted => (Action::PopulateTables, Phase::Loaded),
            Report::LoadRejected => (Action::Abort(Failure::LoadRejected), Phase::Unloaded),
            _ => (Action::Abort(Failure::OutOfOrder), Phase::Unloaded),
        };
        assert_eq!((action, c.phase()), expected);
    }
    for report in REPORTS {
        let mut c = loaded(1, &[1]);
        let action = c.step(report);
        let expected = match report {
            Report::TablesPopulated => (Action::AttachProbe, Phase::Loaded),
            _ => (Action::Abort(Failure::OutOfOrder), Phase::Unloaded),
        };
        assert_eq!((action, c.phase()), expected);
    }
    for report in REPORTS {
        let mut c = populated(1, &[1]);
        let action = c.step(report);
        let expected = match report {
            Report::AttachSucceeded => (Action::AwaitCancellation, Phase::Attached),
            Report::AttachFailed => (Action::Abort(Failure::AttachFailed), Phase::Unloaded),
            _ => (Action::Abort(Failure::OutOfOrder), Phase::Unloaded),
        };
        assert_eq!((action, c.phase()), expected);
    }
    for report in REPORTS {
        let mut c = attached(1, &[1]);
        let action = c.step(report);
        let expected = match report {
            Report::Cancelled => Action::Exit,
            _ => Action::Abort(Failure::OutOfOrder),
        };
        assert_eq!((action, c.phase()), (expected, Phase::Detached));
        assert!(!c.tables().is_target_process(1));
    }
}

#[test]
fn no_attachment_after_detaching() {
    for report in REPORTS {
        let mut c = attached(4242, &[1, 2]);
        assert_eq!(c.step(Report::Cancelled), Action::Exit);
        assert_eq!(c.step(report), Action::Abort(Failure::OutOfOrder));
        assert_eq!(c.phase(), Phase::Detached);
        assert!(!c.tables().is_target_process(4242));
        assert_eq!(c.observe(&entry(4242, Some(1))), None);
    }
    let mut c = attached(4242, &[1, 2]);
    c.step(Report::Cancelled);
    for report in [
        Report::Started,
        Report::LoadAccepted,
        Report::TablesPopulated,
        Report::AttachSucceeded,
    ] {
        assert_eq!(c.step(report), Action::Abort(Failure::OutOfOrder));
        assert_eq!(c.phase(), Phase::Detached);
    }
}

#[test]
fn the_probe_reports_only_while_attached() {
    let hit = entry(4242, Some(1));
    let mut c = controller(4242, &[1, 2]);
    assert_eq!(c.observe(&hit), None);
    c.step(Report::Started);
    assert_eq!(c.observe(&hit), None);
    c.step(Report::LoadAccepted);
    assert_eq!(c.observe(&hit), None);
    c.step(Report::TablesPopulated);
    assert_eq!(c.observe(&hit), None);
    c.step(Report::AttachSucceeded);
    assert_eq!(c.observe(&hit), Some(WriteEvent { pid: 4242, fd: 1 }));
    c.step(Report::Cancelled);
    assert_eq!(c.observe(&hit), None);
}

#[test]
fn cancellation_detaches_and_exits_with_success() {
    let mut c = attached(4242, &[1, 2]);
    assert_eq!(c.observe(&entry(4242, Some(2))), Some(WriteEvent { pid: 4242, fd: 2 }));
    let action = c.step(Report::Cancelled);
    assert_eq!(action, Action::Exit);
    assert_eq!(action.exit_code(), Some(0));
    assert_eq!(c.phase(), Phase::Detached);
    for fd in [1u32, 2, 3] {
        assert_eq!(c.observe(&entry(4242, Some(fd))), None);
    }
}

#[test]
fn end_to_end_run() {
    let mut c = controller(4242, &[1, 2]);
    let mut lines: Vec<String> = Vec::new();
    for report in
        [Report::Started, Report::LoadAccepted, Report::TablesPopulated, Report::AttachSucceeded]
    {
        assert_eq!(c.step(report).exit_code(), None);
    }
    for ctx in [entry(4242, Some(1)), entry(4242, Some(3)), entry(9999, Some(1))] {
        if let Some(event) = c.observe(&ctx) {
            lines.push(event.log_line());
        }
    }
    assert_eq!(lines, vec![String::from("WRITE: PID 4242 FD 1")]);
    assert_eq!(c.step(Report::Cancelled).exit_code(), Some(0));
}

#[test]
fn attached_probe_ignores_other_processes_and_descriptors() {
    let c = attached(4242, &[1, 2]);
    assert_eq!(c.observe(&entry(9999, Some(1))), None);
    assert_eq!(c.observe(&entry(4242, Some(3))), None);
    assert_eq!(c.observe(&entry(4242, None)), None);
    assert_eq!(c.observe(&entry(4242, Some(1))), Some(WriteEvent { pid: 4242, fd: 1 }));
    assert_eq!(c.observe(&entry(4242, Some(2))), Some(WriteEvent { pid: 4242, fd: 2 }));
}

#[test]
fn a_full_watch_list_is_attached_whole() {
    let fds: Vec<u32> = (0..1024).collect();
    let c = attached(7, &fds);
    assert_eq!(c.phase(), Phase::Attached);
    assert_eq!(c.watch_list().len(), 1024);
    for fd in [0u32, 1, 512, 1023] {
        assert_eq!(c.observe(&entry(7, Some(fd))), Some(WriteEvent { pid: 7, fd }));
    }
    assert_eq!(c.observe(&entry(7, Some(1024))), None);
}

#[test]
fn a_run_that_was_given_up_is_not_started_over() {
    let given_up = [
        (after(1, &[1], &[Report::Started, Report::LoadRejected]), Phase::Unloaded),
        (after(1, &[1], &[Report::Cancelled]), Phase::Unloaded),
        (loaded_then(1, &[1], Report::Cancelled), Phase::Unloaded),
        (populated_then(1, &[1], Report::AttachFailed), Phase::Unloaded),
        (populated_then(1, &[1], Report::Started), Phase::Unloaded),
    ];
    for (mut c, phase) in given_up {
        assert!(c.has_ended());
        for report in REPORTS {
            assert_eq!(c.step(report), Action::Abort(Failure::OutOfOrder));
            assert_eq!(c.phase(), phase);
            assert!(c.has_ended());
            assert!(!c.tables().is_target_process(1));
            assert_eq!(c.observe(&entry(1, Some(1))), None);
        }
    }
}

#[test]
fn a_run_is_over_exactly_when_the_host_was_told_to_exit() {
    let mut c = controller(1, &[1]);
    assert!(!c.has_ended());
    for report in
        [Report::Started, Report::LoadAccepted, Report::TablesPopulated, Report::AttachSucceeded]
    {
        assert_eq!(c.step(report).exit_code(), None);
        assert!(!c.has_ended());
    }
    assert_eq!(c.step(Report::Cancelled).exit_code(), Some(0));
    assert!(c.has_ended());
}
