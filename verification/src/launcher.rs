//! The launcher: what to do next, given what just happened.
//!
//! The launcher opens the running executable as an archive, mounts it on a
//! fresh directory, waits until the file system is served, runs the entry
//! point inside the mount with the launcher's own arguments, and leaves with
//! the child's exit status. It goes through its phases in one direction only.
//! Whoever drives it performs each [`Action`] and reports the [`Event`] that
//! came of it.

use vstd::prelude::*;

verus! {

/// How far the launcher has come.
#[derive(Clone, Copy, Debug, PartialEq, Eq, Structural)]
pub enum Phase {
    Start,
    ArchiveOpened,
    MountRequested,
    MountedAndWaiting,
    Ready,
    ChildRunning,
    ChildExited,
    TornDown,
}

/// The startup failures. Each ends the launcher with a code of its own.
#[derive(Clone, Copy, Debug, PartialEq, Eq, Structural)]
pub enum Failure {
    /// The executable holds no readable archive.
    ArchiveUnreadable,
    /// The directory to mount on could not be made.
    NoMountPoint,
    /// The file system could not be mounted.
    MountFailed,
    /// The entry point could not be run.
    ChildNotLaunched,
}

/// What happened when the last action was performed.
#[derive(Clone, Copy, Debug, PartialEq, Eq, Structural)]
pub enum Event {
    ArchiveOpened,
    ArchiveUnreadable,
    MountPointCreated,
    MountPointFailed,
    Mounted,
    MountFailed,
    FileSystemReady,
    ChildLaunched,
    ChildLaunchFailed,
    /// The child ended, with its exit code if it has one.
    ChildExited(Option<i32>),
    /// The mount and its directory are released.
    Released,
}

/// What to do next.
#[derive(Clone, Copy, Debug, PartialEq, Eq, Structural)]
pub enum Action {
    /// Open the running executable as an archive.
    OpenArchive,
    /// Make a fresh directory to mount on.
    CreateMountPoint,
    /// Serve the file system on the mount point, in the background.
    Mount,
    /// Block until the readiness latch is raised.
    WaitUntilReady,
    /// Set the child's environment and run the entry point.
    LaunchChild,
    /// Block until the child ends.
    WaitForChild,
    /// Unmount and remove the mount point.
    Release,
    /// Release whatever is held, report the failure if there is one, and
    /// leave with `code`.
    Exit { code: i32, failure: Option<Failure> },
}

/// The launcher's state: its phase, and the exit code it will leave with.
#[derive(Clone, Copy, Debug, PartialEq, Eq, Structural)]
pub struct Launcher {
    pub phase: Phase,
    pub exit_code: i32,
}

/// The position of a phase in the launcher's course.
pub open spec fn rank(phase: Phase) -> int {
    match phase {
        Phase::Start => 0,
        Phase::ArchiveOpened => 1,
        Phase::MountRequested => 2,
        Phase::MountedAndWaiting => 3,
        Phase::Ready => 4,
        Phase::ChildRunning => 5,
        Phase::ChildExited => 6,
        Phase::TornDown => 7,
    }
}

/// The exit code of a startup failure.
pub open spec fn failure_code(failure: Failure) -> i32 {
    match failure {
        Failure::ArchiveUnreadable => 70,
        Failure::NoMountPoint => 75,
        Failure::MountFailed => 71,
        Failure::ChildNotLaunched => 126,
    }
}

/// The code to leave with after a child that ended with `status`: its exit
/// code, or 0 where it has none.
pub open spec fn child_code(status: Option<i32>) -> i32 {
    match status {
        Some(code) => code,
        None => 0,
    }
}

/// The end of the launcher on a startup failure.
pub open spec fn failed(failure: Failure) -> Option<(Launcher, Action)> {
    Some(
        (
            Launcher { phase: Phase::TornDown, exit_code: failure_code(failure) },
            Action::Exit { code: failure_code(failure), failure: Some(failure) },
        ),
    )
}

/// The next phase with its action, where the exit code stays what it is.
pub open spec fn advance(state: Launcher, phase: Phase, action: Action) -> Option<
    (Launcher, Action),
> {
    Some((Launcher { phase, exit_code: state.exit_code }, action))
}

/// The launcher's transitions: the state and the action that follow `event`
/// in `state`, or nothing where the phase does not expect the event.
pub open spec fn next(state: Launcher, event: Event) -> Option<(Launcher, Action)> {
    match (state.phase, event) {
        (Phase::Start, Event::ArchiveOpened) => advance(
            state,
            Phase::ArchiveOpened,
            Action::CreateMountPoint,
        ),
        (Phase::Start, Event::ArchiveUnreadable) => failed(Failure::ArchiveUnreadable),
        (Phase::ArchiveOpened, Event::MountPointCreated) => advance(
            state,
            Phase::MountRequested,
            Action::Mount,
        ),
        (Phase::ArchiveOpened, Event::MountPointFailed) => failed(Failure::NoMountPoint),
        (Phase::MountRequested, Event::Mounted) => advance(
            state,
            Phase::MountedAndWaiting,
            Action::WaitUntilReady,
        ),
        (Phase::MountRequested, Event::MountFailed) => failed(Failure::MountFailed),
        (Phase::MountedAndWaiting, Event::FileSystemReady) => advance(
            state,
            Phase::Ready,
            Action::LaunchChild,
        ),
        (Phase::Ready, Event::ChildLaunched) => advance(
            state,
            Phase::ChildRunning,
            Action::WaitForChild,
        ),
        (Phase::Ready, Event::ChildLaunchFailed) => failed(Failure::ChildNotLaunched),
        (Phase::ChildRunning, Event::ChildExited(status)) => Some(
            (
                Launcher { phase: Phase::ChildExited, exit_code: child_code(status) },
                Action::Release,
            ),
        ),
        (Phase::ChildExited, Event::Released) => Some(
            (
                Launcher { phase: Phase::TornDown, exit_code: state.exit_code },
                Action::Exit { code: state.exit_code, failure: None },
            ),
        ),
        _ => None,
    }
}

impl Failure {
    /// The code that the process leaves with on this failure.
    pub fn exit_code(&self) -> (code: i32)
        ensures
            code == failure_code(*self),
    {
        match self {
            Failure::ArchiveUnreadable => 70,
            Failure::NoMountPoint => 75,
            Failure::MountFailed => 71,
            Failure::ChildNotLaunched => 126,
        }
    }

    /// The line that tells the user of this failure.
    pub fn message(&self) -> (line: &'static str)
        ensures
            line@ == match *self {
                Failure::ArchiveUnreadable => "Cannot read AppImage filesystem, binary could be corrupt."@,
                Failure::NoMountPoint => "Failed to create mount directory."@,
                Failure::MountFailed => "Failed to mount FUSE file system."@,
                Failure::ChildNotLaunched => "Failed to execute the entry point."@,
            },
    {
        match self {
            Failure::ArchiveUnreadable => "Cannot read AppImage filesystem, binary could be corrupt.",
            Failure::NoMountPoint => "Failed to create mount directory.",
            Failure::MountFailed => "Failed to mount FUSE file system.",
            Failure::ChildNotLaunched => "Failed to execute the entry point.",
        }
    }
}

impl Launcher {
    /// The launcher before anything has happened, with the action to begin
    /// with. A launcher that never runs a child leaves with 0.
    pub fn new() -> (start: (Launcher, Action))
        ensures
            start == (Launcher { phase: Phase::Start, exit_code: 0 }, Action::OpenArchive),
    {
        (Launcher { phase: Phase::Start, exit_code: 0 }, Action::OpenArchive)
    }

    /// The state and the action that follow `event`, or nothing where the
    /// phase does not expect the event.
    pub fn step(&self, event: Event) -> (following: Option<(Launcher, Action)>)
        ensures
            following == next(*self, event),
    {
        let exit_code = self.exit_code;
        match (self.phase, event) {
            (Phase::Start, Event::ArchiveOpened) => Some(
                (Launcher { phase: Phase::ArchiveOpened, exit_code }, Action::CreateMountPoint),
            ),
            (Phase::Start, Event::ArchiveUnreadable) => Self::fail(Failure::ArchiveUnreadable),
            (Phase::ArchiveOpened, Event::MountPointCreated) => Some(
                (Launcher { phase: Phase::MountRequested, exit_code }, Action::Mount),
            ),
            (Phase::ArchiveOpened, Event::MountPointFailed) => Self::fail(Failure::NoMountPoint),
            (Phase::MountRequested, Event::Mounted) => Some(
                (Launcher { phase: Phase::MountedAndWaiting, exit_code }, Action::WaitUntilReady),
            ),
            (Phase::MountRequested, Event::MountFailed) => Self::fail(Failure::MountFailed),
            (Phase::MountedAndWaiting, Event::FileSystemReady) => Some(
                (Launcher { phase: Phase::Ready, exit_code }, Action::LaunchChild),
            ),
            (Phase::Ready, Event::ChildLaunched) => Some(
                (Launcher { phase: Phase::ChildRunning, exit_code }, Action::WaitForChild),
            ),
            (Phase::Ready, Event::ChildLaunchFailed) => Self::fail(Failure::ChildNotLaunched),
            (Phase::ChildRunning, Event::ChildExited(status)) => {
                let code = match status {
                    Some(code) => code,
                    None => 0,
                };
                Some((Launcher { phase: Phase::ChildExited, exit_code: code }, Action::Release))
            },
            (Phase::ChildExited, Event::Released) => Some(
                (
                    Launcher { phase: Phase::TornDown, exit_code },
                    Action::Exit { code: exit_code, failure: None },
                ),
            ),
            _ => None,
        }
    }

    /// The end of the launcher on a startup failure.
    fn fail(failure: Failure) -> (end: Option<(Launcher, Action)>)
        ensures
            end == failed(failure),
    {
        let code = failure.exit_code();
        Some(
            (
                Launcher { phase: Phase::TornDown, exit_code: code },
                Action::Exit { code, failure: Some(failure) },
            ),
        )
    }
}

/// The name of the environment variable that tells the child where the
/// executable lies.
pub fn executable_variable() -> (name: &'static str)
    ensures
        name@ == "APPIMAGE"@,
{
    "APPIMAGE"
}

/// The name of the environment variable that tells the child where the
/// archive is mounted.
pub fn mount_point_variable() -> (name: &'static str)
    ensures
        name@ == "APPDIR"@,
{
    "APPDIR"
}

/// The name of the file inside the mount that is run as the child.
pub fn entry_point() -> (name: &'static str)
    ensures
        name@ == "AppRun"@,
{
    "AppRun"
}

/// Every startup failure has an exit code of its own, and none of them is
/// the code of success.
pub proof fn law_failure_codes_are_distinct(a: Failure, b: Failure)
    ensures
        failure_code(a) != 0,
        a != b ==> failure_code(a) != failure_code(b),
{
}

/// The launcher only moves forward: every event that a phase accepts leads
/// to a later phase, and the last phase accepts none.
pub proof fn law_phases_only_advance(state: Launcher, event: Event)
    ensures
        next(state, event) matches Some((after, _)) ==> rank(after.phase) > rank(state.phase),
        state.phase == Phase::TornDown ==> next(state, event) is None,
{
}

/// The child is launched only once the file system has reported that it is
/// ready, and a child is waited for only after it was launched.
pub proof fn law_child_runs_after_ready(state: Launcher, event: Event)
    ensures
        next(state, event) matches Some((_, Action::LaunchChild)) ==> state.phase
            == Phase::MountedAndWaiting && event == Event::FileSystemReady,
        next(state, event) matches Some((_, Action::WaitForChild)) ==> state.phase == Phase::Ready
            && event == Event::ChildLaunched,
{
}

/// The launcher leaves exactly when it is torn down, and then with the code
/// that its state holds: the code of the failure, or of the child.
pub proof fn law_exit_is_the_end(state: Launcher, event: Event)
    ensures
        next(state, event) matches Some((after, action)) ==> (after.phase == Phase::TornDown
            <==> action is Exit),
        next(state, event) matches Some((after, Action::Exit { code, failure })) ==> code
            == after.exit_code && (failure matches Some(f) ==> code == failure_code(f)),
        forall|status: i32|
            state.phase == Phase::ChildRunning && event == Event::ChildExited(Some(status))
                ==> next(state, event).unwrap().0.exit_code == status,
{
}

} // verus!
