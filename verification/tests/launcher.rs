use appimagezip::launcher::{
    entry_point, executable_variable, mount_point_variable, Action, Event, Failure, Launcher,
    Phase,
};

fn run(events: &[Event]) -> (Launcher, Action) {
    let (mut state, mut action) = Launcher::new();
    for event in events {
        let (next_state, next_action) = state.step(*event).unwrap();
        state = next_state;
        action = next_action;
    }
    (state, action)
}

#[test]
fn launcher_begins_by_opening_the_archive() {
    let (state, action) = Launcher::new();
    assert_eq!(state, Launcher { phase: Phase::Start, exit_code: 0 });
    assert_eq!(action, Action::OpenArchive);
}

#[test]
fn launcher_goes_through_its_phases_in_order() {
    let (state, action) = run(&[Event::ArchiveOpened]);
    assert_eq!((state.phase, action), (Phase::ArchiveOpened, Action::CreateMountPoint));
    let (state, action) = run(&[Event::ArchiveOpened, Event::MountPointCreated]);
    assert_eq!((state.phase, action), (Phase::MountRequested, Action::Mount));
    let (state, action) = run(&[Event::ArchiveOpened, Event::MountPointCreated, Event::Mounted]);
    assert_eq!((state.phase, action), (Phase::MountedAndWaiting, Action::WaitUntilReady));
    let mut events = vec![
        Event::ArchiveOpened,
        Event::MountPointCreated,
        Event::Mounted,
        Event::FileSystemReady,
    ];
    let (state, action) = run(&events);
    assert_eq!((state.phase, action), (Phase::Ready, Action::LaunchChild));
    events.push(Event::ChildLaunched);
    let (state, action) = run(&events);
    assert_eq!((state.phase, action), (Phase::ChildRunning, Action::WaitForChild));
    events.push(Event::ChildExited(Some(3)));
    let (state, action) = run(&events);
    assert_eq!(state, Launcher { phase: Phase::ChildExited, exit_code: 3 });
    assert_eq!(action, Action::Release);
    events.push(Event::Released);
    let (state, action) = run(&events);
    assert_eq!(state, Launcher { phase: Phase::TornDown, exit_code: 3 });
    assert_eq!(action, Action::Exit { code: 3, failure: None });
}

#[test]
fn child_without_exit_code_counts_as_success() {
    let (state, _) = run(&[
        Event::ArchiveOpened,
        Event::MountPointCreated,
        Event::Mounted,
        Event::FileSystemReady,
        Event::ChildLaunched,
        Event::ChildExited(None),
        Event::Released,
    ]);
    assert_eq!(state.exit_code, 0);
}

#[test]
fn unreadable_archive_ends_with_its_code() {
    let (state, action) = run(&[Event::ArchiveUnreadable]);
    assert_eq!(state, Launcher { phase: Phase::TornDown, exit_code: 70 });
    assert_eq!(action, Action::Exit { code: 70, failure: Some(Failure::ArchiveUnreadable) });
}

#[test]
fn missing_mount_point_ends_with_its_code() {
    let (state, action) = run(&[Event::ArchiveOpened, Event::MountPointFailed]);
    assert_eq!(state, Launcher { phase: Phase::TornDown, exit_code: 75 });
    assert_eq!(action, Action::Exit { code: 75, failure: Some(Failure::NoMountPoint) });
}

#[test]
fn failed_mount_ends_with_its_code() {
    let (state, action) =
        run(&[Event::ArchiveOpened, Event::MountPointCreated, Event::MountFailed]);
    assert_eq!(state, Launcher { phase: Phase::TornDown, exit_code: 71 });
    assert_eq!(action, Action::Exit { code: 71, failure: Some(Failure::MountFailed) });
}

#[test]
fn child_that_cannot_be_launched_ends_with_its_code() {
    let (state, action) = run(&[
        Event::ArchiveOpened,
        Event::MountPointCreated,
        Event::Mounted,
        Event::FileSystemReady,
        Event::ChildLaunchFailed,
    ]);
    assert_eq!(state, Launcher { phase: Phase::TornDown, exit_code: 126 });
    assert_eq!(action, Action::Exit { code: 126, failure: Some(Failure::ChildNotLaunched) });
}

#[test]
fn failure_codes_are_distinct_and_not_zero() {
    let all = [
        Failure::ArchiveUnreadable,
        Failure::NoMountPoint,
        Failure::MountFailed,
        Failure::ChildNotLaunched,
    ];
    let codes: Vec<i32> = all.iter().map(|f| f.exit_code()).collect();
    assert_eq!(codes, vec![70, 75, 71, 126]);
    for (i, a) in codes.iter().enumerate() {
        assert_ne!(*a, 0);
        for b in codes.iter().skip(i + 1) {
            assert_ne!(a, b);
        }
    }
}

#[test]
fn events_out_of_turn_are_refused() {
    let (start, _) = Launcher::new();
    assert_eq!(start.step(Event::Mounted), None);
    assert_eq!(start.step(Event::FileSystemReady), None);
    assert_eq!(start.step(Event::ChildExited(Some(0))), None);
    let (waiting, _) = run(&[Event::ArchiveOpened, Event::MountPointCreated, Event::Mounted]);
    assert_eq!(waiting.step(Event::ChildLaunched), None);
    assert_eq!(waiting.step(Event::ArchiveOpened), None);
    let (ended, _) = run(&[Event::ArchiveUnreadable]);
    assert_eq!(ended.step(Event::ArchiveOpened), None);
    assert_eq!(ended.step(Event::Released), None);
}

#[test]
fn child_is_not_launched_before_the_file_system_is_ready() {
    let (mounted, action) = run(&[Event::ArchiveOpened, Event::MountPointCreated, Event::Mounted]);
    assert_ne!(action, Action::LaunchChild);
    assert_eq!(mounted.step(Event::ChildLaunched), None);
    let (_, action) = mounted.step(Event::FileSystemReady).unwrap();
    assert_eq!(action, Action::LaunchChild);
}

#[test]
fn failures_have_their_messages() {
    assert_eq!(
        Failure::ArchiveUnreadable.message(),
        "Cannot read AppImage filesystem, binary could be corrupt."
    );
    assert_eq!(Failure::NoMountPoint.message(), "Failed to create mount directory.");
    assert_eq!(Failure::MountFailed.message(), "Failed to mount FUSE file system.");
    assert_eq!(Failure::ChildNotLaunched.message(), "Failed to execute the entry point.");
}

#[test]
fn child_contract_names() {
    assert_eq!(executable_variable(), "APPIMAGE");
    assert_eq!(mount_point_variable(), "APPDIR");
    assert_eq!(entry_point(), "AppRun");
}
