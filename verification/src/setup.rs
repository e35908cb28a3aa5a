//! Building a factory: make the socket directory, make the template
//! directory, initialise the template once. Any failure ends the setup
//! and names every directory made so far for removal.

use vstd::prelude::*;
use crate::command::{init_db_command, init_db_line};
use crate::errors::{ErrorView, TmpPostgrustError};
use crate::factory::{FactoryView, TmpPostgrustFactory, FIRST_PORT};
use crate::lifecycle::{plan_view, TeardownStep, TeardownStepView};
use crate::process::{attempted, exec_process, CallSite};
use crate::protocol::{readable, Event, EventView, Request, RequestView};

verus! {

/// The start of the socket directory's name.
pub open spec fn socket_prefix() -> Seq<char> {
    "tmp-postgrust-socket"@
}

/// The start of the template directory's name.
pub open spec fn cache_prefix() -> Seq<char> {
    "tmp-postgrust-cache"@
}

/// A factory in the making.
#[derive(Debug)]
pub enum FactorySetup {
    /// The socket directory has been asked for.
    CreatingSocketDir {
        /// The initialisation program.
        initdb: String,
    },
    /// The template directory has been asked for.
    CreatingCacheDir {
        /// The initialisation program.
        initdb: String,
        /// The socket directory.
        socket_dir: String,
    },
    /// The initialisation of the template has been asked for.
    Initialising {
        /// The initialisation program.
        initdb: String,
        /// The socket directory.
        socket_dir: String,
        /// The template directory.
        cache_dir: String,
    },
}

/// A setup seen through the characters of its paths.
pub enum SetupView {
    CreatingSocketDir { initdb: Seq<char> },
    CreatingCacheDir { initdb: Seq<char>, socket_dir: Seq<char> },
    Initialising { initdb: Seq<char>, socket_dir: Seq<char>, cache_dir: Seq<char> },
}

impl View for FactorySetup {
    type V = SetupView;

    open spec fn view(&self) -> SetupView {
        match *self {
            FactorySetup::CreatingSocketDir { initdb } => SetupView::CreatingSocketDir {
                initdb: initdb@,
            },
            FactorySetup::CreatingCacheDir { initdb, socket_dir } => SetupView::CreatingCacheDir {
                initdb: initdb@,
                socket_dir: socket_dir@,
            },
            FactorySetup::Initialising { initdb, socket_dir, cache_dir } => {
                SetupView::Initialising {
                    initdb: initdb@,
                    socket_dir: socket_dir@,
                    cache_dir: cache_dir@,
                }
            },
        }
    }
}

/// Where a setup stands after one event.
#[derive(Debug)]
pub enum SetupStep {
    /// The setup goes on: do what the request says and report back.
    Continue(FactorySetup, Request),
    /// The factory is ready.
    Ready(TmpPostgrustFactory),
    /// The setup has failed. Take the teardown steps in order, then
    /// report the error.
    Failed {
        /// Why the setup failed.
        error: TmpPostgrustError,
        /// What is to be given back.
        teardown: Vec<TeardownStep>,
    },
    /// The event does not answer what the setup had asked for. The setup
    /// is handed back as it was.
    Ignored(FactorySetup),
}

/// A step of a setup seen through the characters of its texts.
pub enum SetupStepView {
    Continue(SetupView, RequestView),
    Ready(FactoryView),
    Failed { error: ErrorView, teardown: Seq<TeardownStepView> },
    Ignored(SetupView),
}

impl View for SetupStep {
    type V = SetupStepView;

    open spec fn view(&self) -> SetupStepView {
        match *self {
            SetupStep::Continue(setup, request) => SetupStepView::Continue(setup@, request@),
            SetupStep::Ready(factory) => SetupStepView::Ready(factory@),
            SetupStep::Failed { error, teardown } => SetupStepView::Failed {
                error: error@,
                teardown: plan_view(teardown@),
            },
            SetupStep::Ignored(setup) => SetupStepView::Ignored(setup@),
        }
    }
}

/// The directories that a setup has made so far, the latest first.
pub open spec fn directories_made(setup: SetupView) -> Seq<Seq<char>> {
    match setup {
        SetupView::CreatingSocketDir { .. } => Seq::empty(),
        SetupView::CreatingCacheDir { socket_dir, .. } => seq![socket_dir],
        SetupView::Initialising { socket_dir, cache_dir, .. } => seq![cache_dir, socket_dir],
    }
}

/// The plan that removes each of `directories`, in their order.
pub open spec fn removal_of(directories: Seq<Seq<char>>) -> Seq<TeardownStepView> {
    directories.map_values(|path: Seq<char>| TeardownStepView::RemoveDirectory(path))
}

/// The failure of a setup with `error`: everything made so far goes.
pub open spec fn setup_failure(setup: SetupView, error: ErrorView) -> SetupStepView {
    SetupStepView::Failed { error, teardown: removal_of(directories_made(setup)) }
}

/// Where a setup stands after `event`.
pub open spec fn setup_step(setup: SetupView, event: EventView) -> SetupStepView {
    match (setup, event) {
        (SetupView::CreatingSocketDir { initdb }, EventView::Directory(Ok(path))) => {
            SetupStepView::Continue(
                SetupView::CreatingCacheDir { initdb, socket_dir: path },
                RequestView::CreateDirectory { prefix: cache_prefix() },
            )
        },
        (SetupView::CreatingSocketDir { .. }, EventView::Directory(Err(source))) => {
            setup_failure(setup, ErrorView::CreateSocketDirFailed(source))
        },
        (SetupView::CreatingCacheDir { initdb, socket_dir }, EventView::Directory(Ok(path))) => {
            SetupStepView::Continue(
                SetupView::Initialising { initdb, socket_dir, cache_dir: path },
                RequestView::Run(init_db_line(initdb, path)),
            )
        },
        (SetupView::CreatingCacheDir { .. }, EventView::Directory(Err(source))) => {
            setup_failure(setup, ErrorView::CreateCacheDirFailed(source))
        },
        (SetupView::Initialising { initdb, socket_dir, cache_dir }, EventView::Ran(outcome)) => {
            match attempted(outcome, init_db_line(initdb, cache_dir), CallSite::InitDb) {
                Ok(_) => SetupStepView::Ready(
                    FactoryView { socket_dir, cache_dir, next_port: FIRST_PORT },
                ),
                Err(error) => setup_failure(setup, error),
            }
        },
        _ => SetupStepView::Ignored(setup),
    }
}

/// The plan that removes up to two directories, the first one first.
fn plan_removal(first: Option<String>, second: Option<String>) -> (plan: Vec<TeardownStep>)
    ensures
        plan_view(plan@) == removal_of(
            (match first {
                Some(path) => seq![path@],
                None => Seq::empty(),
            }) + (match second {
                Some(path) => seq![path@],
                None => Seq::empty(),
            }),
        ),
{
    let mut plan: Vec<TeardownStep> = Vec::new();
    match first {
        Some(path) => plan.push(TeardownStep::RemoveDirectory(path)),
        None => {},
    }
    match second {
        Some(path) => plan.push(TeardownStep::RemoveDirectory(path)),
        None => {},
    }
    assert(plan_view(plan@) =~= removal_of(
        (match first {
            Some(path) => seq![path@],
            None => Seq::empty(),
        }) + (match second {
            Some(path) => seq![path@],
            None => Seq::empty(),
        }),
    ));
    plan
}

impl TmpPostgrustFactory {
    /// Begins the setup of a factory whose template is initialised by the
    /// program `initdb`. The first thing asked for is the socket
    /// directory.
    pub fn try_new(initdb: &str) -> (start: (FactorySetup, Request))
        ensures
            start.0@ == (SetupView::CreatingSocketDir { initdb: initdb@ }),
            start.1@ == (RequestView::CreateDirectory { prefix: socket_prefix() }),
    {
        (
            FactorySetup::CreatingSocketDir { initdb: String::from_str(initdb) },
            Request::CreateDirectory { prefix: String::from_str("tmp-postgrust-socket") },
        )
    }
}

impl FactorySetup {
    /// Takes the setup one event further.
    ///
    /// Where the setup awaits the initialisation command, the event must
    /// be readable; `is_readable` tells.
    pub fn advance(self, event: Event) -> (step: SetupStep)
        requires
            self@ is Initialising ==> readable(event@),
        ensures
            step@ == setup_step(self@, event@),
    {
        match self {
            FactorySetup::CreatingSocketDir { initdb } => match event {
                Event::Directory(Ok(path)) => SetupStep::Continue(
                    FactorySetup::CreatingCacheDir { initdb, socket_dir: path },
                    Request::CreateDirectory { prefix: String::from_str("tmp-postgrust-cache") },
                ),
                Event::Directory(Err(source)) => {
                    let teardown = plan_removal(None, None);
                    assert(plan_view(teardown@) =~= removal_of(Seq::empty()));
                    SetupStep::Failed {
                        error: TmpPostgrustError::CreateSocketDirFailed(source),
                        teardown,
                    }
                },
                _ => SetupStep::Ignored(FactorySetup::CreatingSocketDir { initdb }),
            },
            FactorySetup::CreatingCacheDir { initdb, socket_dir } => match event {
                Event::Directory(Ok(path)) => {
                    let line = init_db_command(initdb.as_str(), path.as_str());
                    SetupStep::Continue(
                        FactorySetup::Initialising { initdb, socket_dir, cache_dir: path },
                        Request::Run(line),
                    )
                },
                Event::Directory(Err(source)) => {
                    let ghost made = seq![socket_dir@];
                    let teardown = plan_removal(Some(socket_dir), None);
                    assert(plan_view(teardown@) =~= removal_of(made));
                    SetupStep::Failed {
                        error: TmpPostgrustError::CreateCacheDirFailed(source),
                        teardown,
                    }
                },
                _ => SetupStep::Ignored(FactorySetup::CreatingCacheDir { initdb, socket_dir }),
            },
            FactorySetup::Initialising { initdb, socket_dir, cache_dir } => match event {
                Event::Ran(outcome) => {
                    let line = init_db_command(initdb.as_str(), cache_dir.as_str());
                    match exec_process(outcome, &line, CallSite::InitDb) {
                        Ok(_) => SetupStep::Ready(
                            TmpPostgrustFactory::assemble(socket_dir, cache_dir),
                        ),
                        Err(error) => {
                            let ghost made = seq![cache_dir@, socket_dir@];
                            let teardown = plan_removal(Some(cache_dir), Some(socket_dir));
                            assert(plan_view(teardown@) =~= removal_of(made));
                            SetupStep::Failed { error, teardown }
                        },
                    }
                },
                _ => SetupStep::Ignored(
                    FactorySetup::Initialising { initdb, socket_dir, cache_dir },
                ),
            },
        }
    }
}

/// A setup that fails leaves nothing behind: its teardown removes every
/// directory that the setup had made, the latest first, and no factory
/// comes of it.
pub proof fn lemma_failed_setup_leaves_nothing(setup: SetupView, event: EventView)
    requires
        setup_step(setup, event) is Failed,
    ensures
        setup_step(setup, event)->teardown == removal_of(directories_made(setup)),
        forall|i: int|
            0 <= i < directories_made(setup).len() ==> setup_step(setup, event)->teardown[i]
                == TeardownStepView::RemoveDirectory(#[trigger] directories_made(setup)[i]),
        setup_step(setup, event)->teardown.len() == directories_made(setup).len(),
{
}

/// When the initialisation command cannot be launched, or runs and
/// fails, the setup fails with the error that says so, and both
/// directories are removed.
pub proof fn lemma_failed_initialisation(
    initdb: Seq<char>,
    socket_dir: Seq<char>,
    cache_dir: Seq<char>,
    outcome: Result<crate::process::OutputView, std::io::Error>,
)
    requires
        outcome matches Ok(output) ==> !output.success,
    ensures
        ({
            let setup = SetupView::Initialising { initdb, socket_dir, cache_dir };
            let step = setup_step(setup, EventView::Ran(outcome));
            &&& step is Failed
            &&& Err::<Seq<char>, ErrorView>(step->error) == attempted(
                outcome,
                init_db_line(initdb, cache_dir),
                CallSite::InitDb,
            )
            &&& step->teardown == seq![
                TeardownStepView::RemoveDirectory(cache_dir),
                TeardownStepView::RemoveDirectory(socket_dir),
            ]
        }),
{
    let setup = SetupView::Initialising { initdb, socket_dir, cache_dir };
    let step = setup_step(setup, EventView::Ran(outcome));
    assert(step->teardown =~= seq![
        TeardownStepView::RemoveDirectory(cache_dir),
        TeardownStepView::RemoveDirectory(socket_dir),
    ]);
}

/// A factory comes of a setup only when the initialisation command ran
/// and succeeded, and it is the factory over the two directories that
/// the setup made, with its port counter at the first port.
pub proof fn lemma_factory_only_after_initialisation(setup: SetupView, event: EventView)
    requires
        setup_step(setup, event) is Ready,
    ensures
        setup matches SetupView::Initialising { socket_dir, cache_dir, .. } && event
            matches EventView::Ran(Ok(output)) && output.success && setup_step(setup, event)
            == SetupStepView::Ready(FactoryView { socket_dir, cache_dir, next_port: FIRST_PORT }),
{
}

} // verus!
