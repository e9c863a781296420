//! The lifecycle of a container, as a machine that decides each privileged
//! step.
//!
//! A process drives a [`Container`]: it performs the [`Action`] that `step`
//! returns and hands back what happened as the next [`Event`]. A fork copies
//! the machine with the rest of the process, and parent and child each go on
//! with their own copy. The machine never asks for a step before the steps
//! it depends on have succeeded: devices, the environment and the user's
//! command come only after the filesystem has been isolated (or, when
//! joining, after every namespace has been joined and the root changed).
use vstd::prelude::*;
use crate::cli::{texts, Invocation, InvocationView};
use crate::devices::{
    dev_number, device_number, device_table, device_table_spec, DeviceSpec, NODE_MODE,
};
use crate::text::{int_text, push_int};

verus! {

/// The kind of privileged step that failed.
#[derive(Clone, Copy, PartialEq, Eq, Structural, Debug)]
pub enum StepKind {
    /// Unsharing or joining a namespace.
    Namespace,
    /// The bind mount of the root tree or the mount of `/proc`.
    Mount,
    /// Changing the root or the working directory.
    Chroot,
    /// Creating a device node.
    Device,
    /// Creating a process.
    Fork,
    /// Replacing the process image with the user's command.
    Exec,
    /// Unmounting or removing the staging directory after the container died.
    Cleanup,
}

/// Why a process of the runtime terminates with a non-zero status.
#[derive(Clone, Copy, PartialEq, Eq, Structural, Debug)]
pub enum Failure {
    /// The runtime does not run with effective root privilege.
    Privilege,
    /// The command line asks for nothing the runtime does.
    Usage,
    /// No `/proc` entry exists for the process to join.
    MissingPid { pid: i32 },
    /// A privileged step failed with this error number.
    Step { kind: StepKind, errno: i32 },
}

/// What the driving process reports after performing an action.
#[derive(Clone, Copy, PartialEq, Eq, Structural, Debug)]
pub enum Event {
    /// Nothing has been performed yet.
    Start,
    /// The action succeeded.
    Done,
    /// The action failed with this error number.
    Failed { errno: i32 },
    /// The answer to a question (`CheckRoot`, `CheckExists`).
    Answer { yes: bool },
    /// `Fork` succeeded, and this is the new process.
    ForkedChild,
    /// `Fork` succeeded, and this is the parent of process `child`.
    ForkedParent { child: i32 },
}

/// Which lifecycle a machine runs.
#[derive(Clone, Copy, PartialEq, Eq, Structural, Debug)]
pub enum Request {
    Run,
    Exec,
    Usage,
}

/// Where a machine stands: each stage asks for exactly one action.
#[derive(Clone, Copy, PartialEq, Eq, Structural, Debug)]
pub enum Stage {
    Begin,
    CheckingRoot,
    // The supervisor, on the host side of `run`.
    Unsharing,
    SettingHostname,
    ForkingContainer,
    ReportingContainer { child: i32 },
    WaitingContainer,
    UnmountingProc,
    UnmountingRoot,
    RemovingStaging,
    // The container's init process.
    BindMounting,
    MountingProc,
    MakingStaging,
    ChangingRoot,
    ChangingDir,
    RemovingStaleNode { index: usize },
    ResettingEnv,
    MakingNode { index: usize },
    ReportingInit,
    ForkingWorkload,
    WaitingWorkload,
    RemovingNode { index: usize },
    // Joining a running container, `exec`.
    CheckingPid,
    JoinResettingEnv,
    JoiningNamespace { index: usize },
    JoinChangingRoot,
    JoinChangingDir,
    JoinForking,
    JoinWaiting,
    // The process that replaces itself with the user's command.
    Launching,
    Exited { status: i32, failure: Option<Failure> },
}

/// One privileged operation, or a report, for the driving process to perform.
#[derive(Debug, PartialEq, Eq)]
pub enum Action {
    /// Answer whether the effective user is root.
    CheckRoot,
    /// Answer whether `path` exists.
    CheckExists { path: String },
    /// Unshare the UTS, PID and mount namespaces.
    Unshare,
    /// Set the host name; a failure is ignored.
    SetHostname { name: String },
    /// Fork the process.
    Fork,
    /// Report `pid` as the identifier of the new container.
    ReportContainerId { pid: i32 },
    /// Report the id of the process itself, the container's init.
    ReportOwnPid,
    /// Wait for a child to exit; a failure is reported and ignored.
    Wait,
    /// Bind-mount `source` onto `target` with private propagation.
    BindMount { source: String, target: String },
    /// Mount a fresh procfs on `target`.
    MountProc { target: String },
    /// Create the directory `path` with permission bits `mode`; a failure is
    /// ignored.
    MakeDir { path: String, mode: u32 },
    /// Change the root directory to `path`.
    ChangeRoot { path: String },
    /// Change the working directory to `path`.
    ChangeDir { path: String },
    /// Remove the node `path`; a failure is ignored.
    RemoveNode { path: String },
    /// Clear every environment variable and set those of
    /// `devices::environment`.
    ResetEnv,
    /// Create a character device node `path` with permission bits `mode`
    /// and device number `device`.
    MakeNode { path: String, mode: u32, device: u64 },
    /// Unmount `path`.
    Unmount { path: String },
    /// Remove the empty directory `path`.
    RemoveDir { path: String },
    /// Open `path` read-only, join the namespace it refers to, close it.
    JoinNamespace { path: String },
    /// Replace the process image with `argv[0]`, given `argv`.
    Exec { argv: Vec<String> },
    /// Terminate the process with `status`, reporting `failure` if any.
    Exit { status: i32, failure: Option<Failure> },
}

pub enum ActionView {
    CheckRoot,
    CheckExists { path: Seq<char> },
    Unshare,
    SetHostname { name: Seq<char> },
    Fork,
    ReportContainerId { pid: i32 },
    ReportOwnPid,
    Wait,
    BindMount { source: Seq<char>, target: Seq<char> },
    MountProc { target: Seq<char> },
    MakeDir { path: Seq<char>, mode: u32 },
    ChangeRoot { path: Seq<char> },
    ChangeDir { path: Seq<char> },
    RemoveNode { path: Seq<char> },
    ResetEnv,
    MakeNode { path: Seq<char>, mode: u32, device: u64 },
    Unmount { path: Seq<char> },
    RemoveDir { path: Seq<char> },
    JoinNamespace { path: Seq<char> },
    Exec { argv: Seq<Seq<char>> },
    Exit { status: i32, failure: Option<Failure> },
}

impl View for Action {
    type V = ActionView;

    open spec fn view(&self) -> ActionView {
        match self {
            Action::CheckRoot => ActionView::CheckRoot,
            Action::CheckExists { path } => ActionView::CheckExists { path: path@ },
            Action::Unshare => ActionView::Unshare,
            Action::SetHostname { name } => ActionView::SetHostname { name: name@ },
            Action::Fork => ActionView::Fork,
            Action::ReportContainerId { pid } => ActionView::ReportContainerId { pid: *pid },
            Action::ReportOwnPid => ActionView::ReportOwnPid,
            Action::Wait => ActionView::Wait,
            Action::BindMount { source, target } => ActionView::BindMount {
                source: source@,
                target: target@,
            },
            Action::MountProc { target } => ActionView::MountProc { target: target@ },
            Action::MakeDir { path, mode } => ActionView::MakeDir { path: path@, mode: *mode },
            Action::ChangeRoot { path } => ActionView::ChangeRoot { path: path@ },
            Action::ChangeDir { path } => ActionView::ChangeDir { path: path@ },
            Action::RemoveNode { path } => ActionView::RemoveNode { path: path@ },
            Action::ResetEnv => ActionView::ResetEnv,
            Action::MakeNode { path, mode, device } => ActionView::MakeNode {
                path: path@,
                mode: *mode,
                device: *device,
            },
            Action::Unmount { path } => ActionView::Unmount { path: path@ },
            Action::RemoveDir { path } => ActionView::RemoveDir { path: path@ },
            Action::JoinNamespace { path } => ActionView::JoinNamespace { path: path@ },
            Action::Exec { argv } => ActionView::Exec { argv: texts(argv@) },
            Action::Exit { status, failure } => ActionView::Exit {
                status: *status,
                failure: *failure,
            },
        }
    }
}

/// The host name of every container.
pub open spec fn hostname_spec() -> Seq<char> {
    "container"@
}

/// Permission bits of the staging directory: everything for its owner.
pub const STAGING_MODE: u32 = 0o700;

/// The namespaces joined by `exec`, in the order they are joined.
pub open spec fn namespace_names() -> Seq<Seq<char>> {
    seq!["pid"@, "mnt"@, "uts"@]
}

/// `/proc/<pid>`.
pub open spec fn proc_dir(pid: i32) -> Seq<char> {
    "/proc/"@ + int_text(pid as int)
}

/// `/proc/<pid>/ns/<name>` for the `index`-th namespace joined.
pub open spec fn namespace_path(pid: i32, index: int) -> Seq<char> {
    proc_dir(pid) + "/ns/"@ + namespace_names()[index]
}

/// `/proc/<pid>/root`.
pub open spec fn container_root(pid: i32) -> Seq<char> {
    proc_dir(pid) + "/root"@
}

/// What a machine is: its stage, its lifecycle, the user's command and, for
/// `exec`, the process whose namespaces it joins.
pub struct ContainerView {
    pub stage: Stage,
    pub request: Request,
    pub command: Seq<Seq<char>>,
    pub target: i32,
}

/// A machine before its first step.
pub open spec fn initial(inv: InvocationView) -> ContainerView {
    match inv {
        InvocationView::Run { command } => ContainerView {
            stage: Stage::Begin,
            request: Request::Run,
            command,
            target: 0,
        },
        InvocationView::Exec { pid, command } => ContainerView {
            stage: Stage::Begin,
            request: Request::Exec,
            command,
            target: pid,
        },
        InvocationView::Usage => ContainerView {
            stage: Stage::Begin,
            request: Request::Usage,
            command: seq![],
            target: 0,
        },
    }
}

/// The error number that an event carries; zero for one that carries none.
pub open spec fn errno_of(ev: Event) -> i32 {
    match ev {
        Event::Failed { errno } => errno,
        _ => 0,
    }
}

/// The terminal stage of a process that failed.
pub open spec fn failed(failure: Failure) -> Stage {
    Stage::Exited { status: 1, failure: Some(failure) }
}

/// After a step that must succeed: `next` if it did, else the process fails
/// with `kind` and the error number.
pub open spec fn after_required(ev: Event, next: Stage, kind: StepKind) -> Stage {
    if ev == Event::Done {
        next
    } else {
        failed(Failure::Step { kind, errno: errno_of(ev) })
    }
}

/// After a fork: `child` in the new process, `parent` in the old one; a
/// failed fork is fatal.
pub open spec fn after_fork(ev: Event, child: Stage, parent: Stage) -> Stage {
    match ev {
        Event::ForkedChild => child,
        Event::ForkedParent { .. } => parent,
        _ => failed(Failure::Step { kind: StepKind::Fork, errno: errno_of(ev) }),
    }
}

/// Number of device nodes made in every container.
pub open spec fn device_count() -> int {
    device_table_spec().len() as int
}

/// The stage that follows `v`'s when its action had the outcome `ev`.
pub open spec fn next_stage(v: ContainerView, ev: Event) -> Stage {
    match v.stage {
        Stage::Begin => Stage::CheckingRoot,
        Stage::CheckingRoot => if ev == (Event::Answer { yes: true }) {
            match v.request {
                Request::Run => Stage::Unsharing,
                Request::Exec => Stage::CheckingPid,
                Request::Usage => failed(Failure::Usage),
            }
        } else {
            failed(Failure::Privilege)
        },
        Stage::Unsharing => after_required(ev, Stage::SettingHostname, StepKind::Namespace),
        Stage::SettingHostname => Stage::ForkingContainer,
        Stage::ForkingContainer => match ev {
            Event::ForkedParent { child } => Stage::ReportingContainer { child },
            _ => after_fork(ev, Stage::BindMounting, Stage::BindMounting),
        },
        Stage::ReportingContainer { .. } => Stage::WaitingContainer,
        Stage::WaitingContainer => Stage::UnmountingProc,
        Stage::UnmountingProc => after_required(ev, Stage::UnmountingRoot, StepKind::Cleanup),
        Stage::UnmountingRoot => after_required(ev, Stage::RemovingStaging, StepKind::Cleanup),
        Stage::RemovingStaging => after_required(
            ev,
            Stage::Exited { status: 0, failure: None },
            StepKind::Cleanup,
        ),
        Stage::BindMounting => after_required(ev, Stage::MountingProc, StepKind::Mount),
        Stage::MountingProc => after_required(ev, Stage::MakingStaging, StepKind::Mount),
        Stage::MakingStaging => Stage::ChangingRoot,
        Stage::ChangingRoot => after_required(ev, Stage::ChangingDir, StepKind::Chroot),
        Stage::ChangingDir => after_required(
            ev,
            Stage::RemovingStaleNode { index: 0 },
            StepKind::Chroot,
        ),
        Stage::RemovingStaleNode { index } => if index + 1 < device_count() {
            Stage::RemovingStaleNode { index: (index + 1) as usize }
        } else {
            Stage::ResettingEnv
        },
        Stage::ResettingEnv => Stage::MakingNode { index: 0 },
        Stage::MakingNode { index } => if index + 1 < device_count() {
            after_required(ev, Stage::MakingNode { index: (index + 1) as usize }, StepKind::Device)
        } else {
            after_required(ev, Stage::ReportingInit, StepKind::Device)
        },
        Stage::ReportingInit => Stage::ForkingWorkload,
        Stage::ForkingWorkload => after_fork(ev, Stage::Launching, Stage::WaitingWorkload),
        Stage::WaitingWorkload => Stage::RemovingNode { index: 0 },
        Stage::RemovingNode { index } => if index + 1 < device_count() {
            Stage::RemovingNode { index: (index + 1) as usize }
        } else {
            Stage::Exited { status: 0, failure: None }
        },
        Stage::CheckingPid => if ev == (Event::Answer { yes: true }) {
            Stage::JoinResettingEnv
        } else {
            failed(Failure::MissingPid { pid: v.target })
        },
        Stage::JoinResettingEnv => Stage::JoiningNamespace { index: 0 },
        Stage::JoiningNamespace { index } => if index + 1 < namespace_names().len() {
            after_required(
                ev,
                Stage::JoiningNamespace { index: (index + 1) as usize },
                StepKind::Namespace,
            )
        } else {
            after_required(ev, Stage::JoinChangingRoot, StepKind::Namespace)
        },
        Stage::JoinChangingRoot => after_required(ev, Stage::JoinChangingDir, StepKind::Chroot),
        Stage::JoinChangingDir => after_required(ev, Stage::JoinForking, StepKind::Chroot),
        Stage::JoinForking => after_fork(ev, Stage::Launching, Stage::JoinWaiting),
        Stage::JoinWaiting => Stage::Exited { status: 0, failure: None },
        Stage::Launching => failed(Failure::Step { kind: StepKind::Exec, errno: errno_of(ev) }),
        Stage::Exited { .. } => v.stage,
    }
}

/// The machine after its action had the outcome `ev`.
pub open spec fn after(v: ContainerView, ev: Event) -> ContainerView {
    ContainerView { stage: next_stage(v, ev), ..v }
}

/// The action that a machine in stage `v.stage` asks for.
pub open spec fn action_of(v: ContainerView) -> ActionView {
    match v.stage {
        Stage::Begin => ActionView::CheckRoot,
        Stage::CheckingRoot => ActionView::CheckRoot,
        Stage::Unsharing => ActionView::Unshare,
        Stage::SettingHostname => ActionView::SetHostname { name: hostname_spec() },
        Stage::ForkingContainer => ActionView::Fork,
        Stage::ReportingContainer { child } => ActionView::ReportContainerId { pid: child },
        Stage::WaitingContainer => ActionView::Wait,
        Stage::UnmountingProc => ActionView::Unmount { path: "root/proc"@ },
        Stage::UnmountingRoot => ActionView::Unmount { path: "root"@ },
        Stage::RemovingStaging => ActionView::RemoveDir { path: "rootfs/oldfs"@ },
        Stage::BindMounting => ActionView::BindMount { source: "rootfs"@, target: "root"@ },
        Stage::MountingProc => ActionView::MountProc { target: "root/proc"@ },
        Stage::MakingStaging => ActionView::MakeDir { path: "rootfs/oldfs"@, mode: STAGING_MODE },
        Stage::ChangingRoot => ActionView::ChangeRoot { path: "root"@ },
        Stage::ChangingDir => ActionView::ChangeDir { path: "/"@ },
        Stage::RemovingStaleNode { index } => ActionView::RemoveNode {
            path: device_table_spec()[index as int].0,
        },
        Stage::ResettingEnv => ActionView::ResetEnv,
        Stage::MakingNode { index } => ActionView::MakeNode {
            path: device_table_spec()[index as int].0,
            mode: NODE_MODE,
            device: dev_number(
                device_table_spec()[index as int].1,
                device_table_spec()[index as int].2,
            ),
        },
        Stage::ReportingInit => ActionView::ReportOwnPid,
        Stage::ForkingWorkload => ActionView::Fork,
        Stage::WaitingWorkload => ActionView::Wait,
        Stage::RemovingNode { index } => ActionView::RemoveNode {
            path: device_table_spec()[index as int].0,
        },
        Stage::CheckingPid => ActionView::CheckExists { path: proc_dir(v.target) },
        Stage::JoinResettingEnv => ActionView::ResetEnv,
        Stage::JoiningNamespace { index } => ActionView::JoinNamespace {
            path: namespace_path(v.target, index as int),
        },
        Stage::JoinChangingRoot => ActionView::ChangeRoot { path: container_root(v.target) },
        Stage::JoinChangingDir => ActionView::ChangeDir { path: "/"@ },
        Stage::JoinForking => ActionView::Fork,
        Stage::JoinWaiting => ActionView::Wait,
        Stage::Launching => ActionView::Exec { argv: v.command },
        Stage::Exited { status, failure } => ActionView::Exit { status, failure },
    }
}

/// The actions that a machine asks for when its actions have the outcomes
/// `evs`, one for each.
pub open spec fn run_trace(v: ContainerView, evs: Seq<Event>) -> Seq<ActionView>
    decreases evs.len(),
{
    if evs.len() == 0 {
        seq![]
    } else {
        let w = after(v, evs[0]);
        seq![action_of(w)] + run_trace(w, evs.drop_first())
    }
}

/// A machine that runs one lifecycle of the runtime.
#[derive(Debug)]
pub struct Container {
    stage: Stage,
    request: Request,
    command: Vec<String>,
    target: i32,
    devices: Vec<DeviceSpec>,
}

impl View for Container {
    type V = ContainerView;

    closed spec fn view(&self) -> ContainerView {
        ContainerView {
            stage: self.stage,
            request: self.request,
            command: texts(self.command@),
            target: self.target,
        }
    }
}

/// Whether the indices that a stage holds are in range.
pub open spec fn stage_in_range(s: Stage) -> bool {
    match s {
        Stage::RemovingStaleNode { index } => index < device_count(),
        Stage::MakingNode { index } => index < device_count(),
        Stage::RemovingNode { index } => index < device_count(),
        Stage::JoiningNamespace { index } => index < namespace_names().len(),
        _ => true,
    }
}

fn required(ev: Event, next: Stage, kind: StepKind) -> (s: Stage)
    ensures
        s == after_required(ev, next, kind),
{
    match ev {
        Event::Done => next,
        Event::Failed { errno } => Stage::Exited {
            status: 1,
            failure: Some(Failure::Step { kind, errno }),
        },
        _ => Stage::Exited { status: 1, failure: Some(Failure::Step { kind, errno: 0 }) },
    }
}

fn forked(ev: Event, child: Stage, parent: Stage) -> (s: Stage)
    ensures
        s == after_fork(ev, child, parent),
{
    match ev {
        Event::ForkedChild => child,
        Event::ForkedParent { .. } => parent,
        Event::Failed { errno } => Stage::Exited {
            status: 1,
            failure: Some(Failure::Step { kind: StepKind::Fork, errno }),
        },
        _ => Stage::Exited {
            status: 1,
            failure: Some(Failure::Step { kind: StepKind::Fork, errno: 0 }),
        },
    }
}

fn text(s: &str) -> (r: String)
    ensures
        r@ == s@,
{
    String::from_str(s)
}

fn namespace_name(index: usize) -> (r: &'static str)
    requires
        index < namespace_names().len(),
    ensures
        r@ == namespace_names()[index as int],
{
    if index == 0 {
        "pid"
    } else if index == 1 {
        "mnt"
    } else {
        "uts"
    }
}

fn proc_path(pid: i32) -> (r: String)
    ensures
        r@ == proc_dir(pid),
{
    let mut r = String::from_str("/proc/");
    push_int(&mut r, pid);
    r
}

fn copy_texts(v: &Vec<String>) -> (r: Vec<String>)
    ensures
        texts(r@) == texts(v@),
{
    let mut r: Vec<String> = Vec::new();
    let mut i: usize = 0;
    while i < v.len()
        invariant
            i <= v@.len(),
            texts(r@) == texts(v@).take(i as int),
        decreases v@.len() - i,
    {
        let c = v[i].clone();
        r.push(c);
        proof {
            assert(texts(r@).last() == texts(v@)[i as int]);
            assert(texts(r@).drop_last() =~= texts(v@).take(i as int));
        }
        i = i + 1;
        assert(texts(r@) =~= texts(v@).take(i as int));
    }
    assert(texts(v@).take(v@.len() as int) =~= texts(v@));
    r
}

impl Container {
    #[verifier::type_invariant]
    spec fn well_formed(self) -> bool {
        &&& stage_in_range(self.stage)
        &&& self.devices@.len() == device_count()
        &&& forall|i: int|
            0 <= i < device_count() ==> #[trigger] self.devices@[i]@ == device_table_spec()[i]
    }

    /// A machine for `inv`, before its first step.
    pub fn new(inv: Invocation) -> (c: Container)
        ensures
            c@ == initial(inv@),
    {
        let devices = device_table();
        let (request, command, target) = match inv {
            Invocation::Run { command } => (Request::Run, command, 0i32),
            Invocation::Exec { pid, command } => (Request::Exec, command, pid),
            Invocation::Usage => (Request::Usage, Vec::new(), 0i32),
        };
        let c = Container { stage: Stage::Begin, request, command, target, devices };
        assert(c@.command =~= initial(inv@).command);
        c
    }

    /// The stage the machine stands at.
    pub fn stage(&self) -> (s: Stage)
        ensures
            s == self@.stage,
    {
        self.stage
    }

    fn next(&self, ev: Event) -> (s: Stage)
        ensures
            s == next_stage(self@, ev),
            stage_in_range(s),
    {
        proof { use_type_invariant(self); }
        let n: usize = self.devices.len();
        match self.stage {
            Stage::Begin => Stage::CheckingRoot,
            Stage::CheckingRoot => match ev {
                Event::Answer { yes: true } => match self.request {
                    Request::Run => Stage::Unsharing,
                    Request::Exec => Stage::CheckingPid,
                    Request::Usage => Stage::Exited { status: 1, failure: Some(Failure::Usage) },
                },
                _ => Stage::Exited { status: 1, failure: Some(Failure::Privilege) },
            },
            Stage::Unsharing => required(ev, Stage::SettingHostname, StepKind::Namespace),
            Stage::SettingHostname => Stage::ForkingContainer,
            Stage::ForkingContainer => match ev {
                Event::ForkedParent { child } => Stage::ReportingContainer { child },
                _ => forked(ev, Stage::BindMounting, Stage::BindMounting),
            },
            Stage::ReportingContainer { .. } => Stage::WaitingContainer,
            Stage::WaitingContainer => Stage::UnmountingProc,
            Stage::UnmountingProc => required(ev, Stage::UnmountingRoot, StepKind::Cleanup),
            Stage::UnmountingRoot => required(ev, Stage::RemovingStaging, StepKind::Cleanup),
            Stage::RemovingStaging => required(
                ev,
                Stage::Exited { status: 0, failure: None },
                StepKind::Cleanup,
            ),
            Stage::BindMounting => required(ev, Stage::MountingProc, StepKind::Mount),
            Stage::MountingProc => required(ev, Stage::MakingStaging, StepKind::Mount),
            Stage::MakingStaging => Stage::ChangingRoot,
            Stage::ChangingRoot => required(ev, Stage::ChangingDir, StepKind::Chroot),
            Stage::ChangingDir => required(
                ev,
                Stage::RemovingStaleNode { index: 0 },
                StepKind::Chroot,
            ),
            Stage::RemovingStaleNode { index } => if index + 1 < n {
                Stage::RemovingStaleNode { index: index + 1 }
            } else {
                Stage::ResettingEnv
            },
            Stage::ResettingEnv => Stage::MakingNode { index: 0 },
            Stage::MakingNode { index } => if index + 1 < n {
                required(ev, Stage::MakingNode { index: index + 1 }, StepKind::Device)
            } else {
                required(ev, Stage::ReportingInit, StepKind::Device)
            },
            Stage::ReportingInit => Stage::ForkingWorkload,
            Stage::ForkingWorkload => forked(ev, Stage::Launching, Stage::WaitingWorkload),
            Stage::WaitingWorkload => Stage::RemovingNode { index: 0 },
            Stage::RemovingNode { index } => if index + 1 < n {
                Stage::RemovingNode { index: index + 1 }
            } else {
                Stage::Exited { status: 0, failure: None }
            },
            Stage::CheckingPid => match ev {
                Event::Answer { yes: true } => Stage::JoinResettingEnv,
                _ => Stage::Exited {
                    status: 1,
                    failure: Some(Failure::MissingPid { pid: self.target }),
                },
            },
            Stage::JoinResettingEnv => Stage::JoiningNamespace { index: 0 },
            Stage::JoiningNamespace { index } => if index + 1 < 3 {
                required(ev, Stage::JoiningNamespace { index: index + 1 }, StepKind::Namespace)
            } else {
                required(ev, Stage::JoinChangingRoot, StepKind::Namespace)
            },
            Stage::JoinChangingRoot => required(ev, Stage::JoinChangingDir, StepKind::Chroot),
            Stage::JoinChangingDir => required(ev, Stage::JoinForking, StepKind::Chroot),
            Stage::JoinForking => forked(ev, Stage::Launching, Stage::JoinWaiting),
            Stage::JoinWaiting => Stage::Exited { status: 0, failure: None },
            Stage::Launching => match ev {
                Event::Failed { errno } => Stage::Exited {
                    status: 1,
                    failure: Some(Failure::Step { kind: StepKind::Exec, errno }),
                },
                _ => Stage::Exited {
                    status: 1,
                    failure: Some(Failure::Step { kind: StepKind::Exec, errno: 0 }),
                },
            },
            Stage::Exited { status, failure } => Stage::Exited { status, failure },
        }
    }

    /// The action that the machine asks for in its stage.
    pub fn action(&self) -> (a: Action)
        ensures
            a@ == action_of(self@),
    {
        proof { use_type_invariant(self); }
        match self.stage {
            Stage::Begin => Action::CheckRoot,
            Stage::CheckingRoot => Action::CheckRoot,
            Stage::Unsharing => Action::Unshare,
            Stage::SettingHostname => Action::SetHostname { name: text("container") },
            Stage::ForkingContainer => Action::Fork,
            Stage::ReportingContainer { child } => Action::ReportContainerId { pid: child },
            Stage::WaitingContainer => Action::Wait,
            Stage::UnmountingProc => Action::Unmount { path: text("root/proc") },
            Stage::UnmountingRoot => Action::Unmount { path: text("root") },
            Stage::RemovingStaging => Action::RemoveDir { path: text("rootfs/oldfs") },
            Stage::BindMounting => Action::BindMount {
                source: text("rootfs"),
                target: text("root"),
            },
            Stage::MountingProc => Action::MountProc { target: text("root/proc") },
            Stage::MakingStaging => Action::MakeDir {
                path: text("rootfs/oldfs"),
                mode: STAGING_MODE,
            },
            Stage::ChangingRoot => Action::ChangeRoot { path: text("root") },
            Stage::ChangingDir => Action::ChangeDir { path: text("/") },
            Stage::RemovingStaleNode { index } => {
                assert(self.devices@[index as int]@ == device_table_spec()[index as int]);
                Action::RemoveNode { path: self.devices[index].path.clone() }
            },
            Stage::ResettingEnv => Action::ResetEnv,
            Stage::MakingNode { index } => {
                let d = &self.devices[index];
                assert(self.devices@[index as int]@ == device_table_spec()[index as int]);
                Action::MakeNode {
                    path: d.path.clone(),
                    mode: NODE_MODE,
                    device: device_number(d.major, d.minor),
                }
            },
            Stage::ReportingInit => Action::ReportOwnPid,
            Stage::ForkingWorkload => Action::Fork,
            Stage::WaitingWorkload => Action::Wait,
            Stage::RemovingNode { index } => {
                assert(self.devices@[index as int]@ == device_table_spec()[index as int]);
                Action::RemoveNode { path: self.devices[index].path.clone() }
            },
            Stage::CheckingPid => {
                Action::CheckExists { path: proc_path(self.target) }
            },
            Stage::JoinResettingEnv => Action::ResetEnv,
            Stage::JoiningNamespace { index } => {
                let mut path = proc_path(self.target);
                path.append("/ns/");
                path.append(namespace_name(index));
                assert(path@ =~= namespace_path(self.target, index as int));
                Action::JoinNamespace { path }
            },
            Stage::JoinChangingRoot => {
                let mut path = proc_path(self.target);
                path.append("/root");
                Action::ChangeRoot { path }
            },
            Stage::JoinChangingDir => Action::ChangeDir { path: text("/") },
            Stage::JoinForking => Action::Fork,
            Stage::JoinWaiting => Action::Wait,
            Stage::Launching => {
                let argv = copy_texts(&self.command);
                Action::Exec { argv }
            },
            Stage::Exited { status, failure } => Action::Exit { status, failure },
        }
    }

    /// Moves the machine on by the outcome `ev` of its last action, and
    /// returns the action it asks for next.
    pub fn step(&mut self, ev: Event) -> (a: Action)
        ensures
            final(self)@ == after(old(self)@, ev),
            a@ == action_of(final(self)@),
    {
        proof { use_type_invariant(&*self); }
        let s = self.next(ev);
        self.stage = s;
        self.action()
    }
}

impl Clone for Container {
    /// The same machine: what `fork` makes of it in the child.
    fn clone(&self) -> (c: Self) {
        proof { use_type_invariant(self); }
        Container {
            stage: self.stage,
            request: self.request,
            command: copy_texts(&self.command),
            target: self.target,
            devices: device_table(),
        }
    }
}

} // verus!
