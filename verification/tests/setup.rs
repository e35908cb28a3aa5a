use std::io::{Error, ErrorKind};
use tmp_postgrust::command::init_db_command;
use tmp_postgrust::errors::{ProcessCapture, TmpPostgrustError};
use tmp_postgrust::factory::TmpPostgrustFactory;
use tmp_postgrust::lifecycle::TeardownStep;
use tmp_postgrust::process::ProcessOutput;
use tmp_postgrust::protocol::{Event, Request};
use tmp_postgrust::setup::{FactorySetup, SetupStep};

fn ran(success: bool, stdout: &str, stderr: &str) -> Event {
    Event::Ran(Ok(ProcessOutput {
        success,
        stdout: stdout.as_bytes().to_vec(),
        stderr: stderr.as_bytes().to_vec(),
    }))
}

fn proceed(step: SetupStep) -> (FactorySetup, Request) {
    match step {
        SetupStep::Continue(setup, request) => (setup, request),
        other => panic!("the setup should go on, got {:?}", other),
    }
}

fn initialising() -> FactorySetup {
    let (setup, _) = TmpPostgrustFactory::try_new("/pg/bin/initdb");
    let (setup, _) = proceed(setup.advance(Event::Directory(Ok("/tmp/sock.1".to_string()))));
    let (setup, _) = proceed(setup.advance(Event::Directory(Ok("/tmp/cache.1".to_string()))));
    setup
}

#[test]
fn a_setup_asks_for_the_socket_directory_first() {
    let (_, request) = TmpPostgrustFactory::try_new("/pg/bin/initdb");
    assert_eq!(request, Request::CreateDirectory { prefix: "tmp-postgrust-socket".to_string() });
}

#[test]
fn a_setup_makes_two_directories_and_initialises_the_second() {
    let (setup, _) = TmpPostgrustFactory::try_new("/pg/bin/initdb");
    let (setup, request) = proceed(setup.advance(Event::Directory(Ok("/tmp/sock.1".to_string()))));
    assert_eq!(request, Request::CreateDirectory { prefix: "tmp-postgrust-cache".to_string() });
    let (setup, request) = proceed(setup.advance(Event::Directory(Ok("/tmp/cache.1".to_string()))));
    assert_eq!(request, Request::Run(init_db_command("/pg/bin/initdb", "/tmp/cache.1")));
    match setup.advance(ran(true, "Success.\n", "")) {
        SetupStep::Ready(factory) => {
            assert_eq!(factory.socket_dir(), "/tmp/sock.1");
            assert_eq!(factory.cache_dir(), "/tmp/cache.1");
            assert_eq!(factory.next_port(), 5432);
            assert_eq!(factory.config(), TmpPostgrustFactory::build_config("/tmp/sock.1"));
        }
        other => panic!("the factory should be ready, got {:?}", other),
    }
}

#[test]
fn a_setup_without_a_socket_directory_fails_with_nothing_to_remove() {
    let (setup, _) = TmpPostgrustFactory::try_new("/pg/bin/initdb");
    match setup.advance(Event::Directory(Err(Error::new(ErrorKind::PermissionDenied, "denied")))) {
        SetupStep::Failed { error: TmpPostgrustError::CreateSocketDirFailed(source), teardown } => {
            assert_eq!(source.kind(), ErrorKind::PermissionDenied);
            assert!(teardown.is_empty());
        }
        other => panic!("the setup should fail, got {:?}", other),
    }
}

#[test]
fn a_setup_without_a_template_directory_removes_the_socket_directory() {
    let (setup, _) = TmpPostgrustFactory::try_new("/pg/bin/initdb");
    let (setup, _) = proceed(setup.advance(Event::Directory(Ok("/tmp/sock.1".to_string()))));
    match setup.advance(Event::Directory(Err(Error::new(ErrorKind::Other, "full")))) {
        SetupStep::Failed { error: TmpPostgrustError::CreateCacheDirFailed(source), teardown } => {
            assert_eq!(source.to_string(), "full");
            assert_eq!(teardown, vec![TeardownStep::RemoveDirectory("/tmp/sock.1".to_string())]);
        }
        other => panic!("the setup should fail, got {:?}", other),
    }
}

#[test]
fn a_setup_whose_initialisation_cannot_be_launched_removes_both_directories() {
    match initialising().advance(Event::Ran(Err(Error::new(ErrorKind::NotFound, "no initdb")))) {
        SetupStep::Failed {
            error: TmpPostgrustError::ExecSubprocessFailed { source, command },
            teardown,
        } => {
            assert_eq!(source.kind(), ErrorKind::NotFound);
            assert_eq!(command, "/pg/bin/initdb --username=postgres");
            assert_eq!(
                teardown,
                vec![
                    TeardownStep::RemoveDirectory("/tmp/cache.1".to_string()),
                    TeardownStep::RemoveDirectory("/tmp/sock.1".to_string()),
                ]
            );
        }
        other => panic!("the setup should fail, got {:?}", other),
    }
}

#[test]
fn a_setup_whose_initialisation_fails_removes_both_directories() {
    match initialising().advance(ran(false, "creating", "initdb: error")) {
        SetupStep::Failed { error: TmpPostgrustError::InitDBFailed(capture), teardown } => {
            assert_eq!(
                capture,
                ProcessCapture { stdout: "creating".to_string(), stderr: "initdb: error".to_string() }
            );
            assert_eq!(
                teardown,
                vec![
                    TeardownStep::RemoveDirectory("/tmp/cache.1".to_string()),
                    TeardownStep::RemoveDirectory("/tmp/sock.1".to_string()),
                ]
            );
        }
        other => panic!("the setup should fail, got {:?}", other),
    }
}

#[test]
fn a_setup_ignores_an_event_that_answers_nothing_it_asked() {
    let (setup, _) = TmpPostgrustFactory::try_new("/pg/bin/initdb");
    let setup = match setup.advance(Event::Exists(true)) {
        SetupStep::Ignored(setup) => setup,
        other => panic!("the event should be ignored, got {:?}", other),
    };
    let (setup, _) = proceed(setup.advance(Event::Directory(Ok("/s".to_string()))));
    let setup = match setup.advance(ran(true, "", "")) {
        SetupStep::Ignored(setup) => setup,
        other => panic!("the event should be ignored, got {:?}", other),
    };
    let (setup, _) = proceed(setup.advance(Event::Directory(Ok("/c".to_string()))));
    match setup.advance(Event::Directory(Ok("/x".to_string()))) {
        SetupStep::Ignored(FactorySetup::Initialising { initdb, socket_dir, cache_dir }) => {
            assert_eq!(initdb, "/pg/bin/initdb");
            assert_eq!(socket_dir, "/s");
            assert_eq!(cache_dir, "/c");
        }
        other => panic!("the event should be ignored, got {:?}", other),
    }
}
