//! What holds of every run of the lifecycle machine.
use vstd::prelude::*;
use crate::cli::InvocationView;
use crate::devices::{dev_number, NODE_MODE};
use crate::lifecycle::{
    action_of, after, initial, namespace_path, next_stage, proc_dir, run_trace, container_root,
    errno_of, ActionView, ContainerView, Event, Failure, Stage, StepKind,
};

verus! {

/// A machine gives one action for each outcome it is handed.
pub proof fn lemma_trace_len(v: ContainerView, evs: Seq<Event>)
    ensures
        run_trace(v, evs).len() == evs.len(),
    decreases evs.len(),
{
    if evs.len() > 0 {
        lemma_trace_len(after(v, evs[0]), evs.drop_first());
    }
}

/// A process that has exited stays exited: whatever it is handed, it asks
/// only to exit, with the same status and the same failure.
pub proof fn lemma_exited_stays(v: ContainerView, evs: Seq<Event>)
    requires
        v.stage is Exited,
    ensures
        run_trace(v, evs).len() == evs.len(),
        forall|k: int|
            0 <= k < evs.len() ==> #[trigger] run_trace(v, evs)[k] == action_of(v),
    decreases evs.len(),
{
    lemma_trace_len(v, evs);
    if evs.len() > 0 {
        let w = after(v, evs[0]);
        assert(w == v);
        lemma_exited_stays(w, evs.drop_first());
        assert forall|k: int| 0 <= k < evs.len() implies #[trigger] run_trace(v, evs)[k]
            == action_of(v) by {
            if k > 0 {
                assert(run_trace(v, evs)[k] == run_trace(w, evs.drop_first())[k - 1]);
            }
        }
    }
}

/// Without effective root the runtime asks only whether it is root, and then
/// to exit with status 1: no namespace, mount or file is touched, whatever
/// it was asked to do.
pub proof fn law_unprivileged_has_no_effect(
    inv: InvocationView,
    first: Event,
    answer: Event,
    rest: Seq<Event>,
)
    requires
        answer != (Event::Answer { yes: true }),
    ensures
        ({
            let t = run_trace(initial(inv), seq![first, answer] + rest);
            &&& t.len() == rest.len() + 2
            &&& t[0] == ActionView::CheckRoot
            &&& forall|k: int|
                1 <= k < t.len() ==> #[trigger] t[k] == (ActionView::Exit {
                    status: 1,
                    failure: Some(Failure::Privilege),
                })
        }),
{
    let evs = seq![first, answer] + rest;
    let v0 = initial(inv);
    let v1 = after(v0, evs[0]);
    let v2 = after(v1, evs[1]);
    assert(evs.drop_first().drop_first() =~= rest);
    lemma_exited_stays(v2, rest);
    lemma_trace_len(v0, evs);
    let t = run_trace(v0, evs);
    assert forall|k: int| 1 <= k < t.len() implies #[trigger] t[k] == (ActionView::Exit {
        status: 1,
        failure: Some(Failure::Privilege),
    }) by {
        assert(t[k] == run_trace(v1, evs.drop_first())[k - 1]);
        if k > 1 {
            assert(run_trace(v1, evs.drop_first())[k - 1] == run_trace(v2, rest)[k - 2]);
        }
    }
}

/// The process that launches the user's command asks to replace itself with
/// exactly that command, and never gets control back: if the exec returns,
/// it exits with status 1 and nothing else.
pub proof fn law_launch_never_returns(v: ContainerView, ev: Event, rest: Seq<Event>)
    requires
        v.stage == Stage::Launching,
    ensures
        action_of(v) == (ActionView::Exec { argv: v.command }),
        ({
            let t = run_trace(v, seq![ev] + rest);
            &&& t.len() == rest.len() + 1
            &&& forall|k: int|
                0 <= k < t.len() ==> #[trigger] t[k] == (ActionView::Exit {
                    status: 1,
                    failure: Some(Failure::Step { kind: StepKind::Exec, errno: errno_of(ev) }),
                })
        }),
{
    let evs = seq![ev] + rest;
    let w = after(v, ev);
    assert(evs.drop_first() =~= rest);
    lemma_exited_stays(w, rest);
    lemma_trace_len(v, evs);
    let t = run_trace(v, evs);
    assert forall|k: int| 0 <= k < t.len() implies #[trigger] t[k] == (ActionView::Exit {
        status: 1,
        failure: Some(Failure::Step { kind: StepKind::Exec, errno: errno_of(ev) }),
    }) by {
        if k > 0 {
            assert(t[k] == run_trace(w, rest)[k - 1]);
        }
    }
}

/// After the container's fork, the parent reports the child's process id as
/// the container's identifier, and the child starts isolating the
/// filesystem.
pub proof fn law_container_id_is_child(v: ContainerView, child: i32)
    requires
        v.stage == Stage::ForkingContainer,
    ensures
        action_of(after(v, Event::ForkedParent { child })) == (ActionView::ReportContainerId {
            pid: child,
        }),
        action_of(after(v, Event::ForkedChild)) == (ActionView::BindMount {
            source: "rootfs"@,
            target: "root"@,
        }),
{
}

/// A process whose `/proc/<pid>` entry is missing is not joined: after the
/// root check the runtime asks whether `/proc/<pid>` exists, and on any
/// answer but yes it exits with status 1 and asks for nothing else, so no
/// namespace file is ever opened.
pub proof fn law_missing_pid_fails_at_once(
    pid: i32,
    command: Seq<Seq<char>>,
    first: Event,
    answer: Event,
    rest: Seq<Event>,
)
    requires
        answer != (Event::Answer { yes: true }),
    ensures
        ({
            let t = run_trace(
                initial(InvocationView::Exec { pid, command }),
                seq![first, Event::Answer { yes: true }, answer] + rest,
            );
            &&& t.len() == rest.len() + 3
            &&& t[0] == ActionView::CheckRoot
            &&& t[1] == (ActionView::CheckExists { path: proc_dir(pid) })
            &&& forall|k: int|
                2 <= k < t.len() ==> #[trigger] t[k] == (ActionView::Exit {
                    status: 1,
                    failure: Some(Failure::MissingPid { pid }),
                })
        }),
{
    let evs = seq![first, Event::Answer { yes: true }, answer] + rest;
    let v0 = initial(InvocationView::Exec { pid, command });
    let v1 = after(v0, evs[0]);
    let v2 = after(v1, evs[1]);
    let v3 = after(v2, evs[2]);
    assert(evs.drop_first().drop_first().drop_first() =~= rest);
    lemma_exited_stays(v3, rest);
    lemma_trace_len(v0, evs);
    let t = run_trace(v0, evs);
    assert(t[1] == run_trace(v1, evs.drop_first())[0]);
    assert forall|k: int| 2 <= k < t.len() implies #[trigger] t[k] == (ActionView::Exit {
        status: 1,
        failure: Some(Failure::MissingPid { pid }),
    }) by {
        assert(t[k] == run_trace(v1, evs.drop_first())[k - 1]);
        assert(run_trace(v1, evs.drop_first())[k - 1] == run_trace(
            v2,
            evs.drop_first().drop_first(),
        )[k - 2]);
        if k > 2 {
            assert(run_trace(v2, evs.drop_first().drop_first())[k - 2] == run_trace(v3, rest)[k
                - 3]);
        }
    }
}

/// The exit of the failed cleanup step that an outcome stands for.
pub open spec fn cleanup_failed(ev: Event) -> ActionView {
    ActionView::Exit {
        status: 1,
        failure: Some(Failure::Step { kind: StepKind::Cleanup, errno: errno_of(ev) }),
    }
}

/// Teardown, once the container's init has exited, whatever the wait
/// reported: unmount `root/proc`, unmount `root`, remove `rootfs/oldfs`, in
/// that order. The first step that fails ends the supervisor with status 1
/// and that step's error, and no later step is asked for; when all succeed
/// the supervisor exits with status 0.
pub proof fn law_teardown_order(v: ContainerView, waited: Event, e1: Event, e2: Event, e3: Event)
    requires
        v.stage == Stage::WaitingContainer,
    ensures
        ({
            let proc_ = ActionView::Unmount { path: "root/proc"@ };
            let root = ActionView::Unmount { path: "root"@ };
            let staging = ActionView::RemoveDir { path: "rootfs/oldfs"@ };
            run_trace(v, seq![waited, e1, e2, e3]) == if e1 != Event::Done {
                seq![proc_, cleanup_failed(e1), cleanup_failed(e1), cleanup_failed(e1)]
            } else if e2 != Event::Done {
                seq![proc_, root, cleanup_failed(e2), cleanup_failed(e2)]
            } else if e3 != Event::Done {
                seq![proc_, root, staging, cleanup_failed(e3)]
            } else {
                seq![proc_, root, staging, ActionView::Exit { status: 0, failure: None }]
            }
        }),
{
    let evs = seq![waited, e1, e2, e3];
    reveal_with_fuel(run_trace, 5);
    assert(evs.drop_first() =~= seq![e1, e2, e3]);
    assert(evs.drop_first().drop_first() =~= seq![e2, e3]);
    assert(evs.drop_first().drop_first().drop_first() =~= seq![e3]);
    assert(evs.drop_first().drop_first().drop_first().drop_first() =~= Seq::<Event>::empty());
}

/// Whether a stage comes after the filesystem of the container has been
/// isolated: the stages that provision devices, set the environment inside
/// the container, run the workload and remove the devices, and, when
/// joining, those after the root has been changed.
pub open spec fn is_isolated(s: Stage) -> bool {
    match s {
        Stage::RemovingStaleNode { .. } => true,
        Stage::ResettingEnv => true,
        Stage::MakingNode { .. } => true,
        Stage::ReportingInit => true,
        Stage::ForkingWorkload => true,
        Stage::WaitingWorkload => true,
        Stage::RemovingNode { .. } => true,
        Stage::JoinForking => true,
        Stage::JoinWaiting => true,
        Stage::Launching => true,
        _ => false,
    }
}

/// The only ways into the isolated stages are a successful change of the
/// working directory into the new root, at the end of the filesystem
/// isolation of `run` or of the root change of `exec`. No device node, no
/// environment inside the container and no user command is asked for
/// before that.
pub proof fn law_isolation_comes_first(v: ContainerView, ev: Event)
    requires
        !is_isolated(v.stage),
        is_isolated(next_stage(v, ev)),
    ensures
        v.stage == Stage::ChangingDir || v.stage == Stage::JoinChangingDir,
        ev == Event::Done,
{
}

/// The character device node that a device is made as: read and write for
/// everyone, with glibc's encoding of its major and minor numbers.
pub open spec fn make_node(path: Seq<char>, major: u64, minor: u64) -> ActionView {
    ActionView::MakeNode { path, mode: NODE_MODE, device: dev_number(major, minor) }
}

/// Once the filesystem is isolated, the init process first removes any stale
/// node of the four devices, resets the environment, then creates null
/// (1, 3), zero (1, 5), random (1, 8) and urandom (1, 9) under `/dev` with
/// mode 0666, and reports its own id. Stale removals are asked for whatever
/// their outcome.
pub proof fn law_devices_provisioned(v: ContainerView, evs: Seq<Event>)
    requires
        v.stage == Stage::ChangingDir,
        evs.len() == 10,
        evs[0] == Event::Done,
        forall|k: int| 5 <= k < 10 ==> #[trigger] evs[k] == Event::Done,
    ensures
        NODE_MODE == 0o666,
        run_trace(v, evs) == seq![
            ActionView::RemoveNode { path: "/dev/null"@ },
            ActionView::RemoveNode { path: "/dev/zero"@ },
            ActionView::RemoveNode { path: "/dev/random"@ },
            ActionView::RemoveNode { path: "/dev/urandom"@ },
            ActionView::ResetEnv,
            make_node("/dev/null"@, 1, 3),
            make_node("/dev/zero"@, 1, 5),
            make_node("/dev/random"@, 1, 8),
            make_node("/dev/urandom"@, 1, 9),
            ActionView::ReportOwnPid,
        ],
{
    reveal_with_fuel(run_trace, 11);
    assert(evs[5] == Event::Done);
    assert(evs[6] == Event::Done);
    assert(evs[7] == Event::Done);
    assert(evs[8] == Event::Done);
    assert(evs[9] == Event::Done);
}

/// The first device node that cannot be created ends the init process with
/// status 1 and that error; no later node is asked for.
pub proof fn law_device_failure_stops(v: ContainerView, ev: Event)
    requires
        v.stage is MakingNode,
        ev != Event::Done,
    ensures
        action_of(after(v, ev)) == (ActionView::Exit {
            status: 1,
            failure: Some(Failure::Step { kind: StepKind::Device, errno: errno_of(ev) }),
        }),
{
}

/// After the workload has exited, whatever the wait reported, the init
/// process removes the four device nodes, whatever each removal reports,
/// and exits with status 0.
pub proof fn law_devices_removed_after_workload(v: ContainerView, child: i32, evs: Seq<Event>)
    requires
        v.stage == Stage::ForkingWorkload,
        evs.len() == 6,
        evs[0] == (Event::ForkedParent { child }),
    ensures
        run_trace(v, evs) == seq![
            ActionView::Wait,
            ActionView::RemoveNode { path: "/dev/null"@ },
            ActionView::RemoveNode { path: "/dev/zero"@ },
            ActionView::RemoveNode { path: "/dev/random"@ },
            ActionView::RemoveNode { path: "/dev/urandom"@ },
            ActionView::Exit { status: 0, failure: None },
        ],
{
    reveal_with_fuel(run_trace, 7);
}

/// A `run` whose steps all succeed: the supervisor checks for root,
/// unshares the namespaces, names the host, forks, reports the child as the
/// container, waits for it, unmounts `root/proc` and `root`, removes
/// `rootfs/oldfs` and exits with status 0. A failure to name the host and
/// the outcome of the wait change nothing.
pub proof fn law_run_supervisor(command: Seq<Seq<char>>, child: i32, evs: Seq<Event>)
    requires
        evs.len() == 10,
        evs[1] == (Event::Answer { yes: true }),
        evs[2] == Event::Done,
        evs[4] == (Event::ForkedParent { child }),
        evs[7] == Event::Done,
        evs[8] == Event::Done,
        evs[9] == Event::Done,
    ensures
        run_trace(initial(InvocationView::Run { command }), evs) == seq![
            ActionView::CheckRoot,
            ActionView::Unshare,
            ActionView::SetHostname { name: "container"@ },
            ActionView::Fork,
            ActionView::ReportContainerId { pid: child },
            ActionView::Wait,
            ActionView::Unmount { path: "root/proc"@ },
            ActionView::Unmount { path: "root"@ },
            ActionView::RemoveDir { path: "rootfs/oldfs"@ },
            ActionView::Exit { status: 0, failure: None },
        ],
{
    reveal_with_fuel(run_trace, 11);
}

/// The container's init isolates its filesystem in this order: bind-mount
/// `rootfs` onto `root`, mount procfs on `root/proc`, create `rootfs/oldfs`
/// (whatever that reports), change the root to `root` and the working
/// directory to `/`; then it removes stale device nodes.
pub proof fn law_init_isolates_fs(v: ContainerView, evs: Seq<Event>)
    requires
        v.stage == Stage::ForkingContainer,
        evs.len() == 6,
        evs[0] == Event::ForkedChild,
        evs[1] == Event::Done,
        evs[2] == Event::Done,
        evs[4] == Event::Done,
        evs[5] == Event::Done,
    ensures
        run_trace(v, evs) == seq![
            ActionView::BindMount { source: "rootfs"@, target: "root"@ },
            ActionView::MountProc { target: "root/proc"@ },
            ActionView::MakeDir { path: "rootfs/oldfs"@, mode: 0o700 },
            ActionView::ChangeRoot { path: "root"@ },
            ActionView::ChangeDir { path: "/"@ },
            ActionView::RemoveNode { path: "/dev/null"@ },
        ],
{
    reveal_with_fuel(run_trace, 7);
}

/// An `exec` into a running container whose steps all succeed: after the
/// checks and the reset of the environment, the PID, mount and UTS
/// namespaces of `pid` are joined in that order, the root becomes
/// `/proc/<pid>/root`, and the process forks once more. The parent waits for
/// its child and exits with status 0; the child, born into the joined PID
/// namespace, replaces itself with the command.
pub proof fn law_exec_joins_then_forks(
    pid: i32,
    command: Seq<Seq<char>>,
    child: i32,
    evs: Seq<Event>,
    last: Event,
)
    requires
        evs.len() == 9,
        evs[1] == (Event::Answer { yes: true }),
        evs[2] == (Event::Answer { yes: true }),
        evs[4] == Event::Done,
        evs[5] == Event::Done,
        evs[6] == Event::Done,
        evs[7] == Event::Done,
        evs[8] == Event::Done,
    ensures
        ({
            let start = initial(InvocationView::Exec { pid, command });
            let joined = seq![
                ActionView::CheckRoot,
                ActionView::CheckExists { path: proc_dir(pid) },
                ActionView::ResetEnv,
                ActionView::JoinNamespace { path: proc_dir(pid) + "/ns/pid"@ },
                ActionView::JoinNamespace { path: proc_dir(pid) + "/ns/mnt"@ },
                ActionView::JoinNamespace { path: proc_dir(pid) + "/ns/uts"@ },
                ActionView::ChangeRoot { path: proc_dir(pid) + "/root"@ },
                ActionView::ChangeDir { path: "/"@ },
                ActionView::Fork,
            ];
            &&& run_trace(start, evs.push(Event::ForkedParent { child }).push(last)) == joined
                + seq![ActionView::Wait, ActionView::Exit { status: 0, failure: None }]
            &&& run_trace(start, evs.push(Event::ForkedChild)) == joined + seq![
                ActionView::Exec { argv: command },
            ]
        }),
{
    reveal_with_fuel(run_trace, 12);
    lemma_namespace_paths(pid);
    let p = evs.push(Event::ForkedParent { child }).push(last);
    let c = evs.push(Event::ForkedChild);
    assert(p[1] == evs[1] && p[2] == evs[2] && p[4] == evs[4] && p[5] == evs[5]);
    assert(p[6] == evs[6] && p[7] == evs[7] && p[8] == evs[8]);
    assert(c[1] == evs[1] && c[2] == evs[2] && c[4] == evs[4] && c[5] == evs[5]);
    assert(c[6] == evs[6] && c[7] == evs[7] && c[8] == evs[8]);
}

proof fn lemma_namespace_paths(pid: i32)
    ensures
        namespace_path(pid, 0) == proc_dir(pid) + "/ns/pid"@,
        namespace_path(pid, 1) == proc_dir(pid) + "/ns/mnt"@,
        namespace_path(pid, 2) == proc_dir(pid) + "/ns/uts"@,
        container_root(pid) == proc_dir(pid) + "/root"@,
{
    reveal_strlit("/ns/");
    reveal_strlit("pid");
    reveal_strlit("mnt");
    reveal_strlit("uts");
    reveal_strlit("/ns/pid");
    reveal_strlit("/ns/mnt");
    reveal_strlit("/ns/uts");
    assert(namespace_path(pid, 0) =~= proc_dir(pid) + "/ns/pid"@);
    assert(namespace_path(pid, 1) =~= proc_dir(pid) + "/ns/mnt"@);
    assert(namespace_path(pid, 2) =~= proc_dir(pid) + "/ns/uts"@);
}

} // verus!
