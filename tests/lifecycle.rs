use minicontainer::cli::{parse_args, Invocation};
use minicontainer::lifecycle::{Action, Container, Event, Failure, Stage, StepKind};

fn args(words: &[&str]) -> Vec<String> {
    words.iter().map(|w| w.to_string()).collect()
}

fn machine(words: &[&str]) -> Container {
    Container::new(parse_args(args(words)))
}

fn text(s: &str) -> String {
    s.to_string()
}

fn exit_failed(failure: Failure) -> Action {
    Action::Exit { status: 1, failure: Some(failure) }
}

fn step_failed(kind: StepKind, errno: i32) -> Action {
    exit_failed(Failure::Step { kind, errno })
}

fn drive(m: &mut Container, events: &[Event]) -> Vec<Action> {
    events.iter().map(|e| m.step(*e)).collect()
}

fn device_removals() -> Vec<Action> {
    ["/dev/null", "/dev/zero", "/dev/random", "/dev/urandom"]
        .iter()
        .map(|p| Action::RemoveNode { path: text(p) })
        .collect()
}

#[test]
fn unprivileged_run_exits_without_side_effects() {
    let mut m = machine(&["prog", "run", "/bin/true"]);
    let acts = drive(&mut m, &[Event::Start, Event::Answer { yes: false }, Event::Done, Event::Done]);
    assert_eq!(acts[0], Action::CheckRoot);
    for a in &acts[1..] {
        assert_eq!(*a, exit_failed(Failure::Privilege));
    }
}

#[test]
fn unprivileged_exec_exits_without_side_effects() {
    let mut m = machine(&["prog", "exec", "42", "/bin/sh"]);
    let acts = drive(&mut m, &[Event::Start, Event::Failed { errno: 1 }]);
    assert_eq!(acts, vec![Action::CheckRoot, exit_failed(Failure::Privilege)]);
}

#[test]
fn usage_is_reported_after_the_root_check() {
    let mut m = machine(&["prog", "launch", "/bin/true"]);
    let acts = drive(&mut m, &[Event::Start, Event::Answer { yes: true }]);
    assert_eq!(acts, vec![Action::CheckRoot, exit_failed(Failure::Usage)]);
}

#[test]
fn launch_failure_exits_with_status_one() {
    let mut m = machine(&["prog", "exec", "7", "/bin/missing", "-x"]);
    let mut acts = drive(
        &mut m,
        &[
            Event::Start,
            Event::Answer { yes: true },
            Event::Answer { yes: true },
            Event::Done,
            Event::Done,
            Event::Done,
            Event::Done,
            Event::Done,
            Event::Done,
            Event::ForkedChild,
        ],
    );
    assert_eq!(acts.pop(), Some(Action::Exec { argv: args(&["/bin/missing", "-x"]) }));
    assert_eq!(m.stage(), Stage::Launching);
    assert_eq!(m.step(Event::Failed { errno: 2 }), step_failed(StepKind::Exec, 2));
    assert_eq!(m.step(Event::Done), step_failed(StepKind::Exec, 2));
}

#[test]
fn container_id_is_the_fork_child() {
    let mut m = machine(&["prog", "run", "/bin/true"]);
    drive(&mut m, &[Event::Start, Event::Answer { yes: true }, Event::Done, Event::Done]);
    let mut child = m.clone();
    assert_eq!(m.step(Event::ForkedParent { child: 4321 }), Action::ReportContainerId { pid: 4321 });
    assert_eq!(
        child.step(Event::ForkedChild),
        Action::BindMount { source: text("rootfs"), target: text("root") }
    );
}

#[test]
fn devices_are_provisioned_after_isolation_and_removed_after_workload() {
    let mut m = machine(&["prog", "run", "/bin/true"]);
    drive(
        &mut m,
        &[Event::Start, Event::Answer { yes: true }, Event::Done, Event::Done, Event::ForkedChild],
    );
    let isolation = drive(&mut m, &[Event::Done, Event::Done, Event::Failed { errno: 17 }, Event::Done]);
    assert_eq!(
        isolation,
        vec![
            Action::MountProc { target: text("root/proc") },
            Action::MakeDir { path: text("rootfs/oldfs"), mode: 0o700 },
            Action::ChangeRoot { path: text("root") },
            Action::ChangeDir { path: text("/") },
        ]
    );
    let acts = drive(
        &mut m,
        &[
            Event::Done,
            Event::Failed { errno: 2 },
            Event::Failed { errno: 2 },
            Event::Done,
            Event::Failed { errno: 2 },
            Event::Done,
            Event::Done,
            Event::Done,
            Event::Done,
            Event::Done,
        ],
    );
    let mut expected = device_removals();
    expected.push(Action::ResetEnv);
    expected.push(Action::MakeNode { path: text("/dev/null"), mode: 0o666, device: 259 });
    expected.push(Action::MakeNode { path: text("/dev/zero"), mode: 0o666, device: 261 });
    expected.push(Action::MakeNode { path: text("/dev/random"), mode: 0o666, device: 264 });
    expected.push(Action::MakeNode { path: text("/dev/urandom"), mode: 0o666, device: 265 });
    expected.push(Action::ReportOwnPid);
    assert_eq!(acts, expected);
    assert_eq!(m.step(Event::Done), Action::Fork);
    let after = drive(
        &mut m,
        &[
            Event::ForkedParent { child: 2 },
            Event::Failed { errno: 10 },
            Event::Failed { errno: 2 },
            Event::Done,
            Event::Done,
            Event::Done,
        ],
    );
    let mut expected = vec![Action::Wait];
    expected.extend(device_removals());
    expected.push(Action::Exit { status: 0, failure: None });
    assert_eq!(after, expected);
}

#[test]
fn device_failure_aborts_remaining_devices() {
    let mut m = machine(&["prog", "run", "/bin/true"]);
    drive(
        &mut m,
        &[
            Event::Start,
            Event::Answer { yes: true },
            Event::Done,
            Event::Done,
            Event::ForkedChild,
            Event::Done,
            Event::Done,
            Event::Done,
            Event::Done,
            Event::Done,
            Event::Done,
            Event::Done,
            Event::Done,
            Event::Done,
            Event::Done,
            Event::Done,
        ],
    );
    assert!(matches!(m.stage(), Stage::MakingNode { index: 1 }));
    assert_eq!(m.step(Event::Failed { errno: 17 }), step_failed(StepKind::Device, 17));
    assert_eq!(m.step(Event::Done), step_failed(StepKind::Device, 17));
}

#[test]
fn isolation_failure_is_fatal() {
    let mut m = machine(&["prog", "run", "/bin/true"]);
    let acts = drive(
        &mut m,
        &[
            Event::Start,
            Event::Answer { yes: true },
            Event::Done,
            Event::Done,
            Event::ForkedChild,
            Event::Failed { errno: 1 },
        ],
    );
    assert_eq!(acts[5], step_failed(StepKind::Mount, 1));
}

#[test]
fn unshare_failure_is_a_namespace_error() {
    let mut m = machine(&["prog", "run", "/bin/true"]);
    let acts = drive(&mut m, &[Event::Start, Event::Answer { yes: true }, Event::Failed { errno: 22 }]);
    assert_eq!(acts[2], step_failed(StepKind::Namespace, 22));
}

#[test]
fn fork_failure_is_fatal() {
    let mut m = machine(&["prog", "run", "/bin/true"]);
    let acts = drive(
        &mut m,
        &[Event::Start, Event::Answer { yes: true }, Event::Done, Event::Done, Event::Failed { errno: 11 }],
    );
    assert_eq!(acts[4], step_failed(StepKind::Fork, 11));
}

#[test]
fn exec_with_missing_pid_fails_at_once() {
    let mut m = machine(&["prog", "exec", "99999", "/bin/true"]);
    let acts = drive(
        &mut m,
        &[Event::Start, Event::Answer { yes: true }, Event::Answer { yes: false }, Event::Done],
    );
    assert_eq!(
        acts,
        vec![
            Action::CheckRoot,
            Action::CheckExists { path: text("/proc/99999") },
            exit_failed(Failure::MissingPid { pid: 99999 }),
            exit_failed(Failure::MissingPid { pid: 99999 }),
        ]
    );
}

fn supervisor_until_teardown() -> (Container, Vec<Action>) {
    let mut m = machine(&["prog", "run", "/bin/true"]);
    let acts = drive(
        &mut m,
        &[
            Event::Start,
            Event::Answer { yes: true },
            Event::Done,
            Event::Done,
            Event::ForkedParent { child: 77 },
            Event::Done,
            Event::Done,
        ],
    );
    (m, acts)
}

#[test]
fn teardown_order_is_fixed() {
    let (mut m, acts) = supervisor_until_teardown();
    assert_eq!(acts[6], Action::Unmount { path: text("root/proc") });
    let rest = drive(&mut m, &[Event::Done, Event::Done, Event::Done]);
    assert_eq!(
        rest,
        vec![
            Action::Unmount { path: text("root") },
            Action::RemoveDir { path: text("rootfs/oldfs") },
            Action::Exit { status: 0, failure: None },
        ]
    );
}

#[test]
fn teardown_stops_at_first_failure() {
    for failing in 0..3usize {
        let (mut m, _) = supervisor_until_teardown();
        let mut acts = Vec::new();
        for i in 0..3usize {
            let ev = if i == failing { Event::Failed { errno: 16 } } else { Event::Done };
            acts.push(m.step(ev));
        }
        for (i, a) in acts.iter().enumerate() {
            if i >= failing {
                assert_eq!(*a, step_failed(StepKind::Cleanup, 16));
            }
        }
        let unmounts = acts.iter().filter(|a| matches!(a, Action::Unmount { .. })).count();
        assert_eq!(unmounts, failing.min(1));
    }
}

#[test]
fn run_true_scenario() {
    let mut supervisor = machine(&["prog", "run", "/bin/true"]);
    let start = drive(
        &mut supervisor,
        &[Event::Start, Event::Answer { yes: true }, Event::Done, Event::Done],
    );
    assert_eq!(
        start,
        vec![
            Action::CheckRoot,
            Action::Unshare,
            Action::SetHostname { name: text("container") },
            Action::Fork,
        ]
    );
    let mut init = supervisor.clone();
    let host = drive(
        &mut supervisor,
        &[
            Event::ForkedParent { child: 1200 },
            Event::Done,
            Event::Done,
            Event::Done,
            Event::Done,
            Event::Done,
        ],
    );
    assert_eq!(
        host,
        vec![
            Action::ReportContainerId { pid: 1200 },
            Action::Wait,
            Action::Unmount { path: text("root/proc") },
            Action::Unmount { path: text("root") },
            Action::RemoveDir { path: text("rootfs/oldfs") },
            Action::Exit { status: 0, failure: None },
        ]
    );
    let mut events = vec![Event::ForkedChild];
    events.extend(std::iter::repeat(Event::Done).take(15));
    let inside = drive(&mut init, &events);
    assert_eq!(inside[0], Action::BindMount { source: text("rootfs"), target: text("root") });
    assert_eq!(inside[15], Action::Fork);
    let mut workload = init.clone();
    assert_eq!(workload.step(Event::ForkedChild), Action::Exec { argv: args(&["/bin/true"]) });
    assert_eq!(init.step(Event::ForkedParent { child: 1 }), Action::Wait);
}

#[test]
fn exec_true_scenario() {
    let mut m = machine(&["prog", "exec", "1200", "/bin/true"]);
    let acts = drive(
        &mut m,
        &[
            Event::Start,
            Event::Answer { yes: true },
            Event::Answer { yes: true },
            Event::Done,
            Event::Done,
            Event::Done,
            Event::Done,
            Event::Done,
            Event::Done,
        ],
    );
    assert_eq!(
        acts,
        vec![
            Action::CheckRoot,
            Action::CheckExists { path: text("/proc/1200") },
            Action::ResetEnv,
            Action::JoinNamespace { path: text("/proc/1200/ns/pid") },
            Action::JoinNamespace { path: text("/proc/1200/ns/mnt") },
            Action::JoinNamespace { path: text("/proc/1200/ns/uts") },
            Action::ChangeRoot { path: text("/proc/1200/root") },
            Action::ChangeDir { path: text("/") },
            Action::Fork,
        ]
    );
    let mut worker = m.clone();
    assert_eq!(m.step(Event::ForkedParent { child: 5 }), Action::Wait);
    assert_eq!(m.step(Event::Done), Action::Exit { status: 0, failure: None });
    assert_eq!(worker.step(Event::ForkedChild), Action::Exec { argv: args(&["/bin/true"]) });
}

#[test]
fn join_failure_exits_with_status_one() {
    let mut m = machine(&["prog", "exec", "-3", "/bin/true"]);
    let acts = drive(
        &mut m,
        &[
            Event::Start,
            Event::Answer { yes: true },
            Event::Answer { yes: true },
            Event::Done,
            Event::Failed { errno: 1 },
        ],
    );
    assert_eq!(acts[1], Action::CheckExists { path: text("/proc/-3") });
    assert_eq!(acts[4], step_failed(StepKind::Namespace, 1));
}

#[test]
fn parse_args_reads_requests() {
    assert_eq!(
        parse_args(args(&["prog", "run", "/bin/sh", "-c", "ls"])),
        Invocation::Run { command: args(&["/bin/sh", "-c", "ls"]) }
    );
    assert_eq!(
        parse_args(args(&["prog", "exec", "12", "/bin/ls"])),
        Invocation::Exec { pid: 12, command: args(&["/bin/ls"]) }
    );
    assert_eq!(parse_args(args(&["prog"])), Invocation::Usage);
    assert_eq!(parse_args(args(&["prog", "run"])), Invocation::Usage);
    assert_eq!(parse_args(args(&["prog", "exec", "12"])), Invocation::Usage);
    assert_eq!(parse_args(args(&["prog", "exec", "x1", "/bin/ls"])), Invocation::Usage);
    assert_eq!(parse_args(args(&["prog", "stop", "1"])), Invocation::Usage);
}

#[test]
fn chroot_failure_is_a_chroot_error() {
    let mut m = machine(&["prog", "run", "/bin/true"]);
    let acts = drive(
        &mut m,
        &[
            Event::Start,
            Event::Answer { yes: true },
            Event::Done,
            Event::Done,
            Event::ForkedChild,
            Event::Done,
            Event::Done,
            Event::Done,
            Event::Failed { errno: 20 },
        ],
    );
    assert_eq!(acts[7], Action::ChangeRoot { path: text("root") });
    assert_eq!(acts[8], step_failed(StepKind::Chroot, 20));
}
