use std::io::{Error, ErrorKind};
use tmp_postgrust::command::{
    copy_entry_command, create_db_command, create_user_command, postgres_command, CopyFlavor,
};
use tmp_postgrust::errors::{ProcessCapture, TmpPostgrustError};
use tmp_postgrust::factory::TmpPostgrustFactory;
use tmp_postgrust::instance::{InstanceCreation, InstanceStep, Launched, Order};
use tmp_postgrust::lifecycle::{ProcessGuard, ProcessState, Scheduling, TeardownStep};
use tmp_postgrust::process::ProcessOutput;
use tmp_postgrust::protocol::{Event, Request};

const READY: &str = "2024-01-01 00:00:00.000 UTC [17] LOG:  database system is ready to accept connections";

fn factory() -> TmpPostgrustFactory {
    TmpPostgrustFactory::assemble("/tmp/sock.1".to_string(), "/tmp/cache.1".to_string())
}

fn ok() -> Event {
    Event::Ran(Ok(ProcessOutput { success: true, stdout: Vec::new(), stderr: Vec::new() }))
}

fn failed(stdout: &str, stderr: &str) -> Event {
    Event::Ran(Ok(ProcessOutput {
        success: false,
        stdout: stdout.as_bytes().to_vec(),
        stderr: stderr.as_bytes().to_vec(),
    }))
}

fn listing(names: &[&str]) -> Event {
    Event::Listing(Ok(names.iter().map(|n| Ok(n.to_string())).collect()))
}

fn proceed(step: InstanceStep) -> (InstanceCreation, Request) {
    match step {
        InstanceStep::Continue(creation, request) => (creation, request),
        other => panic!("the creation should go on, got {:?}", other),
    }
}

fn fails(step: InstanceStep) -> (TmpPostgrustError, Vec<TeardownStep>) {
    match step {
        InstanceStep::Failed { error, teardown } => (error, teardown),
        other => panic!("the creation should fail, got {:?}", other),
    }
}

fn rm(path: &str) -> TeardownStep {
    TeardownStep::RemoveDirectory(path.to_string())
}

/// Feeds the events of an undisturbed creation up to, and without, `steps`.
fn drive(f: &mut TmpPostgrustFactory, creation: InstanceCreation, steps: usize) -> InstanceCreation {
    let script: Vec<Event> = vec![
        Event::Directory(Ok("/tmp/db.1".to_string())),
        Event::PermissionsCopied(Ok(())),
        listing(&["/tmp/cache.1/PG_VERSION", "/tmp/cache.1/base"]),
        ok(),
        ok(),
        Event::Exists(true),
        Event::Written(Ok(())),
        Event::Spawned(Ok(777)),
        Event::Line(Some(READY.to_string())),
        ok(),
    ];
    let mut creation = creation;
    for event in script.into_iter().take(steps) {
        creation = proceed(creation.advance(f, event)).0;
    }
    creation
}

fn blocking(f: &mut TmpPostgrustFactory, steps: usize) -> InstanceCreation {
    let (creation, _) = f.new_instance("/pg/bin/postgres", CopyFlavor::Reflink);
    drive(f, creation, steps)
}

fn cooperative(f: &mut TmpPostgrustFactory, steps: usize) -> InstanceCreation {
    let (creation, _) = f.new_instance_async("/pg/bin/postgres", CopyFlavor::Reflink);
    let (creation, _) = proceed(creation.advance(f, Event::PermitGranted));
    drive(f, creation, steps)
}

fn finish(f: &mut TmpPostgrustFactory, creation: InstanceCreation) -> ProcessGuard {
    match creation.advance(f, ok()) {
        InstanceStep::Ready(guard) => guard,
        other => panic!("the instance should be ready, got {:?}", other),
    }
}

#[test]
fn a_blocking_creation_asks_for_its_directory_first() {
    let f = factory();
    let (creation, request) = f.new_instance("/pg/bin/postgres", CopyFlavor::Reflink);
    assert_eq!(request, Request::CreateDirectory { prefix: "tmp-postgrust-db".to_string() });
    match creation {
        InstanceCreation::CreatingDirectory(order) => assert_eq!(
            order,
            Order {
                scheduling: Scheduling::Blocking,
                postgres: "/pg/bin/postgres".to_string(),
                flavor: CopyFlavor::Reflink
            }
        ),
        other => panic!("wrong start: {:?}", other),
    }
}

#[test]
fn a_cooperative_creation_asks_for_a_permit_first() {
    let mut f = factory();
    let (creation, request) = f.new_instance_async("/pg/bin/postgres", CopyFlavor::Clonefile);
    assert_eq!(request, Request::AcquirePermit);
    let (_, request) = proceed(creation.advance(&mut f, Event::PermitGranted));
    assert_eq!(request, Request::CreateDirectory { prefix: "tmp-postgrust-db".to_string() });
}

#[test]
fn a_creation_goes_through_every_step_in_order() {
    let mut f = factory();
    let (c, _) = f.new_instance("/pg/bin/postgres", CopyFlavor::Reflink);

    let (c, r) = proceed(c.advance(&mut f, Event::Directory(Ok("/tmp/db.1".to_string()))));
    assert_eq!(
        r,
        Request::CopyPermissions { from: "/tmp/cache.1".to_string(), to: "/tmp/db.1".to_string() }
    );
    let (c, r) = proceed(c.advance(&mut f, Event::PermissionsCopied(Ok(()))));
    assert_eq!(r, Request::ListDirectory { path: "/tmp/cache.1".to_string() });
    let (c, r) = proceed(c.advance(&mut f, listing(&["/tmp/cache.1/PG_VERSION", "/tmp/cache.1/base"])));
    assert_eq!(
        r,
        Request::Run(copy_entry_command("/tmp/cache.1/PG_VERSION", "/tmp/db.1", CopyFlavor::Reflink))
    );
    let (c, r) = proceed(c.advance(&mut f, ok()));
    assert_eq!(
        r,
        Request::Run(copy_entry_command("/tmp/cache.1/base", "/tmp/db.1", CopyFlavor::Reflink))
    );
    let (c, r) = proceed(c.advance(&mut f, ok()));
    assert_eq!(r, Request::CheckExists { path: "/tmp/db.1/PG_VERSION".to_string() });
    let (c, r) = proceed(c.advance(&mut f, Event::Exists(true)));
    assert_eq!(
        r,
        Request::WriteFile {
            path: "/tmp/db.1/postgresql.conf".to_string(),
            contents: "shared_buffers = '12MB'\nlisten_addresses = ''\nunix_socket_directories = '/tmp/sock.1'\n"
                .to_string()
        }
    );
    assert_eq!(f.next_port(), 5432);
    let (c, r) = proceed(c.advance(&mut f, Event::Written(Ok(()))));
    assert_eq!(r, Request::Spawn(postgres_command("/pg/bin/postgres", "/tmp/db.1", 5432)));
    assert_eq!(f.next_port(), 5433);
    let (c, r) = proceed(c.advance(&mut f, Event::Spawned(Ok(777))));
    assert_eq!(r, Request::ReadLine);
    let (c, r) = proceed(c.advance(&mut f, Event::Line(Some("LOG:  starting PostgreSQL".to_string()))));
    assert_eq!(r, Request::ReadLine);
    let (c, r) = proceed(c.advance(&mut f, Event::Line(Some(READY.to_string()))));
    assert_eq!(r, Request::Run(create_user_command("/tmp/sock.1", 5432, "demo")));
    let (c, r) = proceed(c.advance(&mut f, ok()));
    assert_eq!(r, Request::Run(create_db_command("/tmp/sock.1", 5432, "demo", "demo")));
    let guard = finish(&mut f, c);
    assert_eq!(
        guard,
        ProcessGuard::new(
            Scheduling::Blocking,
            777,
            5432,
            "/tmp/db.1".to_string(),
            "postgresql://demo@localhost:5432/demo?host=/tmp/sock.1".to_string()
        )
    );
    assert_eq!(guard.state(), ProcessState::Ready);
    assert_eq!(f.next_port(), 5433);
}

#[test]
fn a_cooperative_instance_gets_a_cooperative_guard() {
    let mut f = factory();
    let c = cooperative(&mut f, 10);
    let mut guard = finish(&mut f, c);
    assert_eq!(guard.scheduling(), Scheduling::Cooperative);
    assert_eq!(guard.connection_string, "postgresql://demo@localhost:5432/demo?host=/tmp/sock.1");
    assert_eq!(
        guard.release(),
        vec![
            TeardownStep::RequestStop,
            TeardownStep::AwaitExit,
            rm("/tmp/db.1"),
            TeardownStep::ReleaseSocketDirectory,
            TeardownStep::ReleasePermit,
        ]
    );
}

#[test]
fn two_instances_of_one_factory_get_successive_ports() {
    let mut f = factory();
    let c1 = blocking(&mut f, 10);
    let c2 = blocking(&mut f, 10);
    let g1 = finish(&mut f, c1);
    let g2 = finish(&mut f, c2);
    assert_eq!(g1.port(), 5432);
    assert_eq!(g2.port(), 5433);
    assert_eq!(g1.connection_string, "postgresql://demo@localhost:5432/demo?host=/tmp/sock.1");
    assert_eq!(g2.connection_string, "postgresql://demo@localhost:5433/demo?host=/tmp/sock.1");
    let c3 = blocking(&mut f, 10);
    assert_eq!(finish(&mut f, c3).port(), 5434);
}

#[test]
fn a_creation_without_a_directory_fails_and_holds_nothing() {
    let mut f = factory();
    let c = blocking(&mut f, 0);
    let (error, teardown) = fails(c.advance(&mut f, Event::Directory(Err(Error::new(ErrorKind::Other, "full")))));
    assert!(matches!(error, TmpPostgrustError::CreateCacheDirFailed(e) if e.to_string() == "full"));
    assert!(teardown.is_empty());
}

#[test]
fn a_cooperative_creation_without_a_directory_returns_its_permit() {
    let mut f = factory();
    let c = cooperative(&mut f, 0);
    let (error, teardown) = fails(c.advance(&mut f, Event::Directory(Err(Error::new(ErrorKind::Other, "full")))));
    assert!(matches!(error, TmpPostgrustError::CreateCacheDirFailed(_)));
    assert_eq!(teardown, vec![TeardownStep::ReleasePermit]);
}

#[test]
fn permissions_that_cannot_be_copied_fail_the_creation() {
    let mut f = factory();
    let c = blocking(&mut f, 1);
    let (error, teardown) =
        fails(c.advance(&mut f, Event::PermissionsCopied(Err(Error::new(ErrorKind::NotFound, "gone")))));
    assert!(matches!(error, TmpPostgrustError::CopyCachedInitDBFailedFileNotFound(e) if e.kind() == ErrorKind::NotFound));
    assert_eq!(teardown, vec![rm("/tmp/db.1")]);
}

#[test]
fn a_template_that_cannot_be_listed_fails_the_creation() {
    let mut f = factory();
    let c = blocking(&mut f, 2);
    let (error, teardown) = fails(c.advance(&mut f, Event::Listing(Err(Error::new(ErrorKind::NotFound, "gone")))));
    assert!(matches!(error, TmpPostgrustError::CopyCachedInitDBFailedFileNotFound(e) if e.to_string() == "gone"));
    assert_eq!(teardown, vec![rm("/tmp/db.1")]);
}

#[test]
fn entries_before_an_unreadable_one_are_copied_then_the_creation_fails() {
    let mut f = factory();
    let c = cooperative(&mut f, 2);
    let entries = vec![
        Ok("/tmp/cache.1/a".to_string()),
        Ok("/tmp/cache.1/b".to_string()),
        Err(Error::new(ErrorKind::Other, "first")),
        Ok("/tmp/cache.1/c".to_string()),
        Err(Error::new(ErrorKind::Other, "second")),
    ];
    let (c, r) = proceed(c.advance(&mut f, Event::Listing(Ok(entries))));
    assert_eq!(r, Request::Run(copy_entry_command("/tmp/cache.1/a", "/tmp/db.1", CopyFlavor::Reflink)));
    let (c, r) = proceed(c.advance(&mut f, ok()));
    assert_eq!(r, Request::Run(copy_entry_command("/tmp/cache.1/b", "/tmp/db.1", CopyFlavor::Reflink)));
    let (error, teardown) = fails(c.advance(&mut f, ok()));
    assert!(matches!(error, TmpPostgrustError::CopyCachedInitDBFailedFileNotFound(e) if e.to_string() == "first"));
    assert_eq!(teardown, vec![rm("/tmp/db.1"), TeardownStep::ReleasePermit]);
}

#[test]
fn a_listing_that_starts_with_an_unreadable_entry_fails_at_once() {
    let mut f = factory();
    let c = blocking(&mut f, 2);
    let entries = vec![Err(Error::new(ErrorKind::Other, "bad")), Ok("/tmp/cache.1/a".to_string())];
    let (error, teardown) = fails(c.advance(&mut f, Event::Listing(Ok(entries))));
    assert!(matches!(error, TmpPostgrustError::CopyCachedInitDBFailedFileNotFound(e) if e.to_string() == "bad"));
    assert_eq!(teardown, vec![rm("/tmp/db.1")]);
}

#[test]
fn an_empty_template_goes_straight_to_the_marker_check() {
    let mut f = factory();
    let c = blocking(&mut f, 2);
    let (c, r) = proceed(c.advance(&mut f, listing(&[])));
    assert_eq!(r, Request::CheckExists { path: "/tmp/db.1/PG_VERSION".to_string() });
    let (error, teardown) = fails(c.advance(&mut f, Event::Exists(false)));
    assert!(matches!(error, TmpPostgrustError::EmptyDataDirectory));
    assert_eq!(teardown, vec![rm("/tmp/db.1")]);
}

#[test]
fn a_copy_that_fails_ends_the_creation() {
    let mut f = factory();
    let c = blocking(&mut f, 3);
    let (error, teardown) = fails(c.advance(&mut f, failed("", "cp: error")));
    match error {
        TmpPostgrustError::CopyCachedInitDBFailed(capture) => assert_eq!(
            capture,
            ProcessCapture { stdout: String::new(), stderr: "cp: error".to_string() }
        ),
        other => panic!("wrong error: {:?}", other),
    }
    assert_eq!(teardown, vec![rm("/tmp/db.1")]);
}

#[test]
fn a_copy_that_cannot_be_launched_names_its_command() {
    let mut f = factory();
    let c = blocking(&mut f, 4);
    let (error, teardown) = fails(c.advance(&mut f, Event::Ran(Err(Error::new(ErrorKind::NotFound, "no cp")))));
    match error {
        TmpPostgrustError::ExecSubprocessFailed { source, command } => {
            assert_eq!(source.to_string(), "no cp");
            assert_eq!(command, "cp -R --reflink=auto /tmp/cache.1/base /tmp/db.1");
        }
        other => panic!("wrong error: {:?}", other),
    }
    assert_eq!(teardown, vec![rm("/tmp/db.1")]);
}

#[test]
fn a_configuration_that_cannot_be_written_fails_before_a_port_is_taken() {
    let mut f = factory();
    let c = blocking(&mut f, 6);
    let (error, teardown) = fails(c.advance(&mut f, Event::Written(Err(Error::new(ErrorKind::Other, "ro")))));
    assert!(matches!(error, TmpPostgrustError::CreateConfigFailed(e) if e.to_string() == "ro"));
    assert_eq!(teardown, vec![rm("/tmp/db.1")]);
    assert_eq!(f.next_port(), 5432);
}

#[test]
fn a_server_that_cannot_be_launched_fails_the_creation() {
    let mut f = factory();
    let c = blocking(&mut f, 7);
    let (error, teardown) = fails(c.advance(&mut f, Event::Spawned(Err(Error::new(ErrorKind::NotFound, "no postgres")))));
    assert!(matches!(error, TmpPostgrustError::SpawnSubprocessFailed(e) if e.to_string() == "no postgres"));
    assert_eq!(teardown, vec![rm("/tmp/db.1")]);
    assert_eq!(f.next_port(), 5433);
}

#[test]
fn a_server_that_ends_before_it_is_ready_is_stopped_and_removed() {
    let mut f = factory();
    let c = blocking(&mut f, 8);
    let (error, teardown) = fails(c.advance(&mut f, Event::Line(None)));
    assert!(matches!(error, TmpPostgrustError::ExitedBeforeReady));
    assert_eq!(
        teardown,
        vec![TeardownStep::Interrupt { pid: 777 }, TeardownStep::AwaitExit, rm("/tmp/db.1")]
    );
}

#[test]
fn a_cooperative_server_that_ends_early_is_stopped_through_its_watcher() {
    let mut f = factory();
    let c = cooperative(&mut f, 8);
    let (error, teardown) = fails(c.advance(&mut f, Event::Line(None)));
    assert!(matches!(error, TmpPostgrustError::ExitedBeforeReady));
    assert_eq!(
        teardown,
        vec![
            TeardownStep::RequestStop,
            TeardownStep::AwaitExit,
            rm("/tmp/db.1"),
            TeardownStep::ReleasePermit
        ]
    );
}

#[test]
fn a_role_that_cannot_be_created_stops_the_server() {
    let mut f = factory();
    let c = blocking(&mut f, 9);
    let (error, teardown) = fails(c.advance(&mut f, failed("", "createuser: error")));
    match error {
        TmpPostgrustError::CreateUserFailed(capture) => assert_eq!(
            capture,
            ProcessCapture { stdout: String::new(), stderr: "createuser: error".to_string() }
        ),
        other => panic!("wrong error: {:?}", other),
    }
    assert_eq!(
        teardown,
        vec![TeardownStep::Interrupt { pid: 777 }, TeardownStep::AwaitExit, rm("/tmp/db.1")]
    );
}

#[test]
fn a_database_that_cannot_be_created_stops_the_server() {
    let mut f = factory();
    let c = blocking(&mut f, 10);
    let (error, teardown) = fails(c.advance(&mut f, Event::Ran(Err(Error::new(ErrorKind::NotFound, "no createdb")))));
    match error {
        TmpPostgrustError::ExecSubprocessFailed { command, .. } => {
            assert_eq!(command, "createdb -h /tmp/sock.1 -p 5432 -U postgres -O demo --echo demo")
        }
        other => panic!("wrong error: {:?}", other),
    }
    assert_eq!(
        teardown,
        vec![TeardownStep::Interrupt { pid: 777 }, TeardownStep::AwaitExit, rm("/tmp/db.1")]
    );
}

#[test]
fn a_database_whose_creation_fails_is_a_createdb_failure() {
    let mut f = factory();
    let c = cooperative(&mut f, 10);
    let (error, teardown) = fails(c.advance(&mut f, failed("out", "createdb: error")));
    match error {
        TmpPostgrustError::CreateDBFailed(capture) => assert_eq!(
            capture,
            ProcessCapture { stdout: "out".to_string(), stderr: "createdb: error".to_string() }
        ),
        other => panic!("wrong error: {:?}", other),
    }
    assert_eq!(
        teardown,
        vec![
            TeardownStep::RequestStop,
            TeardownStep::AwaitExit,
            rm("/tmp/db.1"),
            TeardownStep::ReleasePermit
        ]
    );
}

#[test]
fn a_failed_creation_does_not_spoil_the_factory() {
    let mut f = factory();
    let c = blocking(&mut f, 5);
    fails(c.advance(&mut f, Event::Exists(false)));
    assert_eq!(f.next_port(), 5432);
    assert_eq!(f.cache_dir(), "/tmp/cache.1");
    let c = blocking(&mut f, 10);
    assert_eq!(finish(&mut f, c).port(), 5432);
}

#[test]
fn the_marker_is_found_anywhere_in_a_line() {
    for line in [
        "database system is ready to accept connections",
        "LOG:  database system is ready to accept connections\r",
        "xdatabase system is ready to accept connectionsx",
    ] {
        let mut f = factory();
        let c = blocking(&mut f, 8);
        let (c, r) = proceed(c.advance(&mut f, Event::Line(Some(line.to_string()))));
        assert!(matches!(c, InstanceCreation::CreatingRole(_)));
        assert_eq!(r, Request::Run(create_user_command("/tmp/sock.1", 5432, "demo")));
    }
}

#[test]
fn lines_without_the_marker_are_read_past() {
    for line in [
        "",
        "database system is ready to accept connection",
        "database system was shut down",
        "Database System Is Ready To Accept Connections",
    ] {
        let mut f = factory();
        let c = blocking(&mut f, 8);
        let (c, r) = proceed(c.advance(&mut f, Event::Line(Some(line.to_string()))));
        assert_eq!(r, Request::ReadLine);
        match c {
            InstanceCreation::AwaitingReady(launched) => assert_eq!(
                launched,
                Launched {
                    order: Order {
                        scheduling: Scheduling::Blocking,
                        postgres: "/pg/bin/postgres".to_string(),
                        flavor: CopyFlavor::Reflink
                    },
                    directory: "/tmp/db.1".to_string(),
                    port: 5432,
                    pid: 777
                }
            ),
            other => panic!("wrong state: {:?}", other),
        }
    }
}

#[test]
fn an_event_that_answers_nothing_is_ignored() {
    let mut f = factory();
    let c = blocking(&mut f, 0);
    let c = match c.advance(&mut f, Event::PermitGranted) {
        InstanceStep::Ignored(c) => c,
        other => panic!("the event should be ignored, got {:?}", other),
    };
    let c = match c.advance(&mut f, Event::Written(Ok(()))) {
        InstanceStep::Ignored(c) => c,
        other => panic!("the event should be ignored, got {:?}", other),
    };
    assert_eq!(f.next_port(), 5432);
    assert!(matches!(c, InstanceCreation::CreatingDirectory(_)));

    let c = blocking(&mut f, 6);
    match c.advance(&mut f, Event::Spawned(Ok(1))) {
        InstanceStep::Ignored(InstanceCreation::WritingConfig(_, directory)) => assert_eq!(directory, "/tmp/db.1"),
        other => panic!("the event should be ignored, got {:?}", other),
    }
    assert_eq!(f.next_port(), 5432);
}

#[test]
fn a_copy_with_nothing_left_to_copy_ignores_a_command() {
    let mut f = factory();
    let stuck = InstanceCreation::CopyingEntries {
        order: Order {
            scheduling: Scheduling::Blocking,
            postgres: "postgres".to_string(),
            flavor: CopyFlavor::Reflink,
        },
        directory: "/d".to_string(),
        todo: Vec::new(),
        blocked: None,
    };
    assert!(matches!(stuck.advance(&mut f, ok()), InstanceStep::Ignored(_)));
}

#[test]
fn the_clone_flavor_shows_in_every_copy() {
    let mut f = factory();
    let (c, _) = f.new_instance("/pg/bin/postgres", CopyFlavor::Clonefile);
    let (c, _) = proceed(c.advance(&mut f, Event::Directory(Ok("/d".to_string()))));
    let (c, _) = proceed(c.advance(&mut f, Event::PermissionsCopied(Ok(()))));
    let (c, r) = proceed(c.advance(&mut f, listing(&["/t/x", "/t/y"])));
    assert_eq!(r, Request::Run(copy_entry_command("/t/x", "/d", CopyFlavor::Clonefile)));
    let (_, r) = proceed(c.advance(&mut f, ok()));
    assert_eq!(r, Request::Run(copy_entry_command("/t/y", "/d", CopyFlavor::Clonefile)));
}
