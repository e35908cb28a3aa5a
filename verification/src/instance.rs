//! Creating one instance: clone the template, configure it, launch the
//! server, wait until it is ready, give it a role and a database. Each
//! step is decided here and carried out by the driver; a failure at any
//! step names everything obtained so far for release.

use vstd::prelude::*;
use crate::command::{
    copy_entry_command, copy_entry_line, create_db_command, create_db_line, create_user_command,
    create_user_line, postgres_command, postgres_line, texts, CopyFlavor,
};
use crate::errors::{ErrorView, TmpPostgrustError};
use crate::factory::{
    child_path, config_text, connection_string, connection_text, default_name, join_path,
    lemma_connection_text_tells_ports_apart, lemma_ports_never_repeat, port_after, port_at,
    FactoryView, TmpPostgrustFactory,
};
use crate::lifecycle::{
    guard_holdings, plan_teardown, plan_view, teardown_plan, GuardView, Holdings, ProcessGuard,
    ProcessState, Scheduling, TeardownStep, TeardownStepView,
};
use crate::process::{attempted, exec_process, CallSite};
use crate::protocol::{entries_view, readable, Event, EventView, Request, RequestView};
use crate::text::{contains, contains_text};

verus! {

/// The start of the name of an instance's private directory.
pub open spec fn instance_prefix() -> Seq<char> {
    "tmp-postgrust-db"@
}

/// The file whose presence shows that a directory holds a cluster.
pub open spec fn version_marker() -> Seq<char> {
    "PG_VERSION"@
}

/// The file from which the server reads its configuration.
pub open spec fn config_file() -> Seq<char> {
    "postgresql.conf"@
}

/// The words with which the server announces that it accepts
/// connections.
pub open spec fn readiness_marker() -> Seq<char> {
    "database system is ready to accept connections"@
}

/// What was asked for when the creation began.
#[derive(Debug, Clone, PartialEq, Eq)]
pub struct Order {
    /// How the caller waits.
    pub scheduling: Scheduling,
    /// The server program.
    pub postgres: String,
    /// How the host's `cp` clones.
    pub flavor: CopyFlavor,
}

/// An order seen through the characters of its path.
pub struct OrderView {
    pub scheduling: Scheduling,
    pub postgres: Seq<char>,
    pub flavor: CopyFlavor,
}

impl View for Order {
    type V = OrderView;

    open spec fn view(&self) -> OrderView {
        OrderView { scheduling: self.scheduling, postgres: self.postgres@, flavor: self.flavor }
    }
}

/// An instance whose server has been launched.
#[derive(Debug, Clone, PartialEq, Eq)]
pub struct Launched {
    /// What was asked for.
    pub order: Order,
    /// The instance's private directory.
    pub directory: String,
    /// The port on which the server listens.
    pub port: u32,
    /// The server's process.
    pub pid: u32,
}

/// A launched instance seen through the characters of its paths.
pub struct LaunchedView {
    pub order: OrderView,
    pub directory: Seq<char>,
    pub port: u32,
    pub pid: u32,
}

impl View for Launched {
    type V = LaunchedView;

    open spec fn view(&self) -> LaunchedView {
        LaunchedView {
            order: self.order@,
            directory: self.directory@,
            port: self.port,
            pid: self.pid,
        }
    }
}

/// An instance in the making. Each variant names the outside work whose
/// outcome is awaited.
#[derive(Debug)]
pub enum InstanceCreation {
    /// A concurrency permit.
    AwaitingPermit(Order),
    /// The private directory.
    CreatingDirectory(Order),
    /// The template's permission bits on the private directory.
    CopyingPermissions(Order, String),
    /// The list of the template's entries.
    ListingTemplate(Order, String),
    /// The copy of the first entry of `todo`.
    CopyingEntries {
        /// What was asked for.
        order: Order,
        /// The private directory.
        directory: String,
        /// The entries still to copy, the next one first.
        todo: Vec<String>,
        /// The failure that the listing met after these entries, if any.
        blocked: Option<std::io::Error>,
    },
    /// Whether the copy holds a version marker.
    CheckingMarker(Order, String),
    /// The configuration file.
    WritingConfig(Order, String),
    /// The launch of the server.
    Spawning {
        /// What was asked for.
        order: Order,
        /// The private directory.
        directory: String,
        /// The port given to this instance.
        port: u32,
    },
    /// The line in which the server announces its readiness.
    AwaitingReady(Launched),
    /// The creation of the default role.
    CreatingRole(Launched),
    /// The creation of the default database.
    CreatingDatabase(Launched),
}

/// A creation seen through the characters of its texts.
pub enum CreationView {
    AwaitingPermit(OrderView),
    CreatingDirectory(OrderView),
    CopyingPermissions(OrderView, Seq<char>),
    ListingTemplate(OrderView, Seq<char>),
    CopyingEntries {
        order: OrderView,
        directory: Seq<char>,
        todo: Seq<Seq<char>>,
        blocked: Option<std::io::Error>,
    },
    CheckingMarker(OrderView, Seq<char>),
    WritingConfig(OrderView, Seq<char>),
    Spawning { order: OrderView, directory: Seq<char>, port: u32 },
    AwaitingReady(LaunchedView),
    CreatingRole(LaunchedView),
    CreatingDatabase(LaunchedView),
}

impl View for InstanceCreation {
    type V = CreationView;

    open spec fn view(&self) -> CreationView {
        match *self {
            InstanceCreation::AwaitingPermit(order) => CreationView::AwaitingPermit(order@),
            InstanceCreation::CreatingDirectory(order) => CreationView::CreatingDirectory(order@),
            InstanceCreation::CopyingPermissions(order, directory) => {
                CreationView::CopyingPermissions(order@, directory@)
            },
            InstanceCreation::ListingTemplate(order, directory) => CreationView::ListingTemplate(
                order@,
                directory@,
            ),
            InstanceCreation::CopyingEntries { order, directory, todo, blocked } => {
                CreationView::CopyingEntries {
                    order: order@,
                    directory: directory@,
                    todo: texts(todo@),
                    blocked,
                }
            },
            InstanceCreation::CheckingMarker(order, directory) => CreationView::CheckingMarker(
                order@,
                directory@,
            ),
            InstanceCreation::WritingConfig(order, directory) => CreationView::WritingConfig(
                order@,
                directory@,
            ),
            InstanceCreation::Spawning { order, directory, port } => CreationView::Spawning {
                order: order@,
                directory: directory@,
                port,
            },
            InstanceCreation::AwaitingReady(launched) => CreationView::AwaitingReady(launched@),
            InstanceCreation::CreatingRole(launched) => CreationView::CreatingRole(launched@),
            InstanceCreation::CreatingDatabase(launched) => CreationView::CreatingDatabase(
                launched@,
            ),
        }
    }
}

/// Where a creation stands after one event.
#[derive(Debug)]
pub enum InstanceStep {
    /// The creation goes on: do what the request says and report back.
    Continue(InstanceCreation, Request),
    /// The instance is up: its server is ready, its role and database
    /// exist.
    Ready(ProcessGuard),
    /// The creation has failed. Take the teardown steps in order, then
    /// report the error.
    Failed {
        /// Why the creation failed.
        error: TmpPostgrustError,
        /// What is to be given back.
        teardown: Vec<TeardownStep>,
    },
    /// The event does not answer what the creation had asked for. The
    /// creation is handed back as it was.
    Ignored(InstanceCreation),
}

/// A step of a creation seen through the characters of its texts.
pub enum InstanceStepView {
    Continue(CreationView, RequestView),
    Ready(GuardView),
    Failed { error: ErrorView, teardown: Seq<TeardownStepView> },
    Ignored(CreationView),
}

impl View for InstanceStep {
    type V = InstanceStepView;

    open spec fn view(&self) -> InstanceStepView {
        match *self {
            InstanceStep::Continue(creation, request) => InstanceStepView::Continue(
                creation@,
                request@,
            ),
            InstanceStep::Ready(guard) => InstanceStepView::Ready(guard@),
            InstanceStep::Failed { error, teardown } => InstanceStepView::Failed {
                error: error@,
                teardown: plan_view(teardown@),
            },
            InstanceStep::Ignored(creation) => InstanceStepView::Ignored(creation@),
        }
    }
}

/// What was asked for when `creation` began.
pub open spec fn order_of(creation: CreationView) -> OrderView {
    match creation {
        CreationView::AwaitingPermit(order) => order,
        CreationView::CreatingDirectory(order) => order,
        CreationView::CopyingPermissions(order, _) => order,
        CreationView::ListingTemplate(order, _) => order,
        CreationView::CopyingEntries { order, .. } => order,
        CreationView::CheckingMarker(order, _) => order,
        CreationView::WritingConfig(order, _) => order,
        CreationView::Spawning { order, .. } => order,
        CreationView::AwaitingReady(launched) => launched.order,
        CreationView::CreatingRole(launched) => launched.order,
        CreationView::CreatingDatabase(launched) => launched.order,
    }
}

/// The private directory of `creation`, once it has been made.
pub open spec fn directory_of(creation: CreationView) -> Option<Seq<char>> {
    match creation {
        CreationView::AwaitingPermit(_) => None,
        CreationView::CreatingDirectory(_) => None,
        CreationView::CopyingPermissions(_, directory) => Some(directory),
        CreationView::ListingTemplate(_, directory) => Some(directory),
        CreationView::CopyingEntries { directory, .. } => Some(directory),
        CreationView::CheckingMarker(_, directory) => Some(directory),
        CreationView::WritingConfig(_, directory) => Some(directory),
        CreationView::Spawning { directory, .. } => Some(directory),
        CreationView::AwaitingReady(launched) => Some(launched.directory),
        CreationView::CreatingRole(launched) => Some(launched.directory),
        CreationView::CreatingDatabase(launched) => Some(launched.directory),
    }
}

/// The server process of `creation`, once it has been launched.
pub open spec fn process_of(creation: CreationView) -> Option<u32> {
    match creation {
        CreationView::AwaitingReady(launched) => Some(launched.pid),
        CreationView::CreatingRole(launched) => Some(launched.pid),
        CreationView::CreatingDatabase(launched) => Some(launched.pid),
        _ => None,
    }
}

/// What `creation` holds: its process and its directory as far as they
/// exist, and a permit once one was granted. It holds no share of the
/// socket directory: that comes with the guard.
pub open spec fn holdings(creation: CreationView) -> Holdings {
    Holdings {
        process: process_of(creation),
        directory: directory_of(creation),
        socket: false,
        permit: order_of(creation).scheduling == Scheduling::Cooperative && !(creation
            is AwaitingPermit),
    }
}

/// The failure of `creation` with `error`: everything it holds goes.
pub open spec fn failure(creation: CreationView, error: ErrorView) -> InstanceStepView {
    InstanceStepView::Failed {
        error,
        teardown: teardown_plan(order_of(creation).scheduling, holdings(creation)),
    }
}

/// The result of reading a listing from its start up to the first entry
/// that failed.
pub struct Scan {
    /// The paths of the entries before the first failure, in order.
    pub names: Seq<Seq<char>>,
    /// The first failure, if there is one.
    pub blocked: Option<std::io::Error>,
}

/// Reads `entries` from the start up to the first one that failed.
pub open spec fn scan(entries: Seq<Result<Seq<char>, std::io::Error>>) -> Scan
    decreases entries.len(),
{
    if entries.len() == 0 {
        Scan { names: Seq::empty(), blocked: None }
    } else {
        let before = scan(entries.drop_last());
        match (before.blocked, entries.last()) {
            (Some(_), _) => before,
            (None, Ok(name)) => Scan { names: before.names.push(name), blocked: None },
            (None, Err(error)) => Scan { names: before.names, blocked: Some(error) },
        }
    }
}

/// What follows once the entries before `todo` have been copied: the copy
/// of the next entry; or, when none is left, the failure that the listing
/// met, or else the check for the version marker.
pub open spec fn copy_on(
    order: OrderView,
    directory: Seq<char>,
    todo: Seq<Seq<char>>,
    blocked: Option<std::io::Error>,
) -> InstanceStepView {
    let here = CreationView::CopyingEntries { order, directory, todo, blocked };
    if todo.len() > 0 {
        InstanceStepView::Continue(
            here,
            RequestView::Run(copy_entry_line(todo[0], directory, order.flavor)),
        )
    } else {
        match blocked {
            Some(error) => failure(here, ErrorView::CopyCachedInitDBFailedFileNotFound(error)),
            None => InstanceStepView::Continue(
                CreationView::CheckingMarker(order, directory),
                RequestView::CheckExists { path: child_path(directory, version_marker()) },
            ),
        }
    }
}

/// Whether `creation` awaits the outcome of a command.
pub open spec fn runs_command(creation: CreationView) -> bool {
    creation is CopyingEntries || creation is CreatingRole || creation is CreatingDatabase
}

/// Where `creation` stands after `event`, and the factory with it.
pub open spec fn creation_step(creation: CreationView, factory: FactoryView, event: EventView) -> (
    InstanceStepView,
    FactoryView,
) {
    match (creation, event) {
        (CreationView::AwaitingPermit(order), EventView::PermitGranted) => (
            InstanceStepView::Continue(
                CreationView::CreatingDirectory(order),
                RequestView::CreateDirectory { prefix: instance_prefix() },
            ),
            factory,
        ),
        (CreationView::CreatingDirectory(order), EventView::Directory(Ok(path))) => (
            InstanceStepView::Continue(
                CreationView::CopyingPermissions(order, path),
                RequestView::CopyPermissions { from: factory.cache_dir, to: path },
            ),
            factory,
        ),
        (CreationView::CreatingDirectory(_), EventView::Directory(Err(source))) => (
            failure(creation, ErrorView::CreateCacheDirFailed(source)),
            factory,
        ),
        (CreationView::CopyingPermissions(order, directory), EventView::PermissionsCopied(Ok(_))) => (
            InstanceStepView::Continue(
                CreationView::ListingTemplate(order, directory),
                RequestView::ListDirectory { path: factory.cache_dir },
            ),
            factory,
        ),
        (CreationView::CopyingPermissions(..), EventView::PermissionsCopied(Err(source))) => (
            failure(creation, ErrorView::CopyCachedInitDBFailedFileNotFound(source)),
            factory,
        ),
        (CreationView::ListingTemplate(order, directory), EventView::Listing(Ok(entries))) => (
            copy_on(order, directory, scan(entries).names, scan(entries).blocked),
            factory,
        ),
        (CreationView::ListingTemplate(..), EventView::Listing(Err(source))) => (
            failure(creation, ErrorView::CopyCachedInitDBFailedFileNotFound(source)),
            factory,
        ),
        (
            CreationView::CopyingEntries { order, directory, todo, blocked },
            EventView::Ran(outcome),
        ) => (
            if todo.len() == 0 {
                InstanceStepView::Ignored(creation)
            } else {
                match attempted(
                    outcome,
                    copy_entry_line(todo[0], directory, order.flavor),
                    CallSite::CopyTemplate,
                ) {
                    Ok(_) => copy_on(order, directory, todo.drop_first(), blocked),
                    Err(error) => failure(creation, error),
                }
            },
            factory,
        ),
        (CreationView::CheckingMarker(order, directory), EventView::Exists(found)) => (
            if found {
                InstanceStepView::Continue(
                    CreationView::WritingConfig(order, directory),
                    RequestView::WriteFile {
                        path: child_path(directory, config_file()),
                        contents: config_text(factory.socket_dir),
                    },
                )
            } else {
                failure(creation, ErrorView::EmptyDataDirectory)
            },
            factory,
        ),
        (CreationView::WritingConfig(order, directory), EventView::Written(Ok(_))) => (
            InstanceStepView::Continue(
                CreationView::Spawning { order, directory, port: factory.next_port },
                RequestView::Spawn(postgres_line(order.postgres, directory, factory.next_port)),
            ),
            FactoryView { next_port: port_after(factory.next_port), ..factory },
        ),
        (CreationView::WritingConfig(..), EventView::Written(Err(source))) => (
            failure(creation, ErrorView::CreateConfigFailed(source)),
            factory,
        ),
        (CreationView::Spawning { order, directory, port }, EventView::Spawned(Ok(pid))) => (
            InstanceStepView::Continue(
                CreationView::AwaitingReady(LaunchedView { order, directory, port, pid }),
                RequestView::ReadLine,
            ),
            factory,
        ),
        (CreationView::Spawning { .. }, EventView::Spawned(Err(source))) => (
            failure(creation, ErrorView::SpawnSubprocessFailed(source)),
            factory,
        ),
        (CreationView::AwaitingReady(launched), EventView::Line(Some(line))) => (
            if contains(line, readiness_marker()) {
                InstanceStepView::Continue(
                    CreationView::CreatingRole(launched),
                    RequestView::Run(
                        create_user_line(factory.socket_dir, launched.port, default_name()),
                    ),
                )
            } else {
                InstanceStepView::Continue(creation, RequestView::ReadLine)
            },
            factory,
        ),
        (CreationView::AwaitingReady(_), EventView::Line(None)) => (
            failure(creation, ErrorView::ExitedBeforeReady),
            factory,
        ),
        (CreationView::CreatingRole(launched), EventView::Ran(outcome)) => (
            match attempted(
                outcome,
                create_user_line(factory.socket_dir, launched.port, default_name()),
                CallSite::CreateRole,
            ) {
                Ok(_) => InstanceStepView::Continue(
                    CreationView::CreatingDatabase(launched),
                    RequestView::Run(
                        create_db_line(
                            factory.socket_dir,
                            launched.port,
                            default_name(),
                            default_name(),
                        ),
                    ),
                ),
                Err(error) => failure(creation, error),
            },
            factory,
        ),
        (CreationView::CreatingDatabase(launched), EventView::Ran(outcome)) => (
            match attempted(
                outcome,
                create_db_line(factory.socket_dir, launched.port, default_name(), default_name()),
                CallSite::CreateDatabase,
            ) {
                Ok(_) => InstanceStepView::Ready(
                    GuardView {
                        connection_string: connection_text(launched.port, factory.socket_dir),
                        scheduling: launched.order.scheduling,
                        pid: launched.pid,
                        port: launched.port,
                        data_directory: launched.directory,
                        state: ProcessState::Ready,
                    },
                ),
                Err(error) => failure(creation, error),
            },
            factory,
        ),
        _ => (InstanceStepView::Ignored(creation), factory),
    }
}


/// Reads a listing from its start up to the first entry that failed.
fn scan_listing(entries: Vec<Result<String, std::io::Error>>) -> (found: (
    Vec<String>,
    Option<std::io::Error>,
))
    ensures
        texts(found.0@) == scan(entries_view(entries@)).names,
        found.1 == scan(entries_view(entries@)).blocked,
{
    let mut names: Vec<String> = Vec::new();
    let mut blocked: Option<std::io::Error> = None;
    let ghost all = entries_view(entries@);
    assert(all.take(0) =~= Seq::empty());
    assert(texts(names@) =~= Seq::empty());
    for entry in it: entries
        invariant
            all == entries_view(it.seq()),
            texts(names@) == scan(all.take(it.index() as int)).names,
            blocked == scan(all.take(it.index() as int)).blocked,
    {
        proof {
            let i = it.index() as int;
            assert(all.take(i + 1).drop_last() =~= all.take(i));
            assert(all.take(i + 1).last() == all[i]);
        }
        if blocked.is_none() {
            match entry {
                Ok(name) => {
                    proof {
                        assert(texts(names@.push(name)) =~= texts(names@).push(name@));
                    }
                    names.push(name);
                },
                Err(error) => {
                    blocked = Some(error);
                },
            }
        }
    }
    assert(all.take(all.len() as int) =~= all);
    (names, blocked)
}

/// The plan that gives back what a creation holds.
fn plan_failure(
    scheduling: Scheduling,
    process: Option<u32>,
    directory: Option<String>,
    awaiting_permit: bool,
) -> (plan: Vec<TeardownStep>)
    ensures
        plan_view(plan@) == teardown_plan(
            scheduling,
            Holdings {
                process,
                directory: match directory {
                    Some(path) => Some(path@),
                    None => None,
                },
                socket: false,
                permit: scheduling == Scheduling::Cooperative && !awaiting_permit,
            },
        ),
{
    let permit = match scheduling {
        Scheduling::Cooperative => !awaiting_permit,
        Scheduling::Blocking => false,
    };
    plan_teardown(scheduling, process, directory, false, permit)
}

/// Goes on with the copy once the entries before `todo` are done.
fn continue_copy(
    order: Order,
    directory: String,
    todo: Vec<String>,
    blocked: Option<std::io::Error>,
) -> (step: InstanceStep)
    ensures
        step@ == copy_on(order@, directory@, texts(todo@), blocked),
{
    if todo.len() > 0 {
        let line = copy_entry_command(todo[0].as_str(), directory.as_str(), order.flavor);
        InstanceStep::Continue(
            InstanceCreation::CopyingEntries { order, directory, todo, blocked },
            Request::Run(line),
        )
    } else {
        assert(texts(todo@) =~= Seq::empty());
        match blocked {
            Some(error) => {
                let teardown = plan_failure(order.scheduling, None, Some(directory), false);
                InstanceStep::Failed {
                    error: TmpPostgrustError::CopyCachedInitDBFailedFileNotFound(error),
                    teardown,
                }
            },
            None => {
                let path = join_path(directory.as_str(), "PG_VERSION");
                InstanceStep::Continue(
                    InstanceCreation::CheckingMarker(order, directory),
                    Request::CheckExists { path },
                )
            },
        }
    }
}

/// The failure of a creation that has launched its server.
fn fail_launched(launched: Launched, error: TmpPostgrustError) -> (step: InstanceStep)
    ensures
        step@ == failure(CreationView::AwaitingReady(launched@), error@),
        step@ == failure(CreationView::CreatingRole(launched@), error@),
        step@ == failure(CreationView::CreatingDatabase(launched@), error@),
{
    let Launched { order, directory, port: _, pid } = launched;
    let teardown = plan_failure(order.scheduling, Some(pid), Some(directory), false);
    InstanceStep::Failed { error, teardown }
}

impl TmpPostgrustFactory {
    /// Begins the creation of an instance for a caller that blocks. The
    /// server program is `postgres`; the template is cloned as `flavor`
    /// says. The first thing asked for is the private directory.
    pub fn new_instance(&self, postgres: &str, flavor: CopyFlavor) -> (start: (
        InstanceCreation,
        Request,
    ))
        ensures
            start.0@ == CreationView::CreatingDirectory(
                OrderView { scheduling: Scheduling::Blocking, postgres: postgres@, flavor },
            ),
            start.1@ == (RequestView::CreateDirectory { prefix: instance_prefix() }),
    {
        let order = Order {
            scheduling: Scheduling::Blocking,
            postgres: String::from_str(postgres),
            flavor,
        };
        (
            InstanceCreation::CreatingDirectory(order),
            Request::CreateDirectory { prefix: String::from_str("tmp-postgrust-db") },
        )
    }

    /// Begins the creation of an instance for a caller that suspends. The
    /// first thing asked for is a concurrency permit, which the instance
    /// keeps until its guard is released.
    pub fn new_instance_async(&self, postgres: &str, flavor: CopyFlavor) -> (start: (
        InstanceCreation,
        Request,
    ))
        ensures
            start.0@ == CreationView::AwaitingPermit(
                OrderView { scheduling: Scheduling::Cooperative, postgres: postgres@, flavor },
            ),
            start.1@ == RequestView::AcquirePermit,
    {
        let order = Order {
            scheduling: Scheduling::Cooperative,
            postgres: String::from_str(postgres),
            flavor,
        };
        (InstanceCreation::AwaitingPermit(order), Request::AcquirePermit)
    }
}

impl InstanceCreation {
    /// Takes the creation one event further.
    ///
    /// Nothing changes in the factory but its port counter, and that only
    /// when the configuration has been written and the server is about to
    /// be launched. Where the creation awaits a command, the event must
    /// be readable; `is_readable` tells.
    pub fn advance(self, factory: &mut TmpPostgrustFactory, event: Event) -> (step: InstanceStep)
        requires
            runs_command(self@) ==> readable(event@),
        ensures
            (step@, final(factory)@) == creation_step(self@, old(factory)@, event@),
    {
        match self {
            InstanceCreation::AwaitingPermit(order) => match event {
                Event::PermitGranted => InstanceStep::Continue(
                    InstanceCreation::CreatingDirectory(order),
                    Request::CreateDirectory { prefix: String::from_str("tmp-postgrust-db") },
                ),
                _ => InstanceStep::Ignored(InstanceCreation::AwaitingPermit(order)),
            },
            InstanceCreation::CreatingDirectory(order) => match event {
                Event::Directory(Ok(path)) => {
                    let from = String::from_str(factory.cache_dir());
                    let to = path.clone();
                    InstanceStep::Continue(
                        InstanceCreation::CopyingPermissions(order, path),
                        Request::CopyPermissions { from, to },
                    )
                },
                Event::Directory(Err(source)) => {
                    let teardown = plan_failure(order.scheduling, None, None, false);
                    InstanceStep::Failed {
                        error: TmpPostgrustError::CreateCacheDirFailed(source),
                        teardown,
                    }
                },
                _ => InstanceStep::Ignored(InstanceCreation::CreatingDirectory(order)),
            },
            InstanceCreation::CopyingPermissions(order, directory) => match event {
                Event::PermissionsCopied(Ok(_)) => {
                    let path = String::from_str(factory.cache_dir());
                    InstanceStep::Continue(
                        InstanceCreation::ListingTemplate(order, directory),
                        Request::ListDirectory { path },
                    )
                },
                Event::PermissionsCopied(Err(source)) => {
                    let teardown = plan_failure(order.scheduling, None, Some(directory), false);
                    InstanceStep::Failed {
                        error: TmpPostgrustError::CopyCachedInitDBFailedFileNotFound(source),
                        teardown,
                    }
                },
                _ => InstanceStep::Ignored(InstanceCreation::CopyingPermissions(order, directory)),
            },
            InstanceCreation::ListingTemplate(order, directory) => match event {
                Event::Listing(Ok(entries)) => {
                    let (todo, blocked) = scan_listing(entries);
                    continue_copy(order, directory, todo, blocked)
                },
                Event::Listing(Err(source)) => {
                    let teardown = plan_failure(order.scheduling, None, Some(directory), false);
                    InstanceStep::Failed {
                        error: TmpPostgrustError::CopyCachedInitDBFailedFileNotFound(source),
                        teardown,
                    }
                },
                _ => InstanceStep::Ignored(InstanceCreation::ListingTemplate(order, directory)),
            },
            InstanceCreation::CopyingEntries { order, directory, todo, blocked } => match event {
                Event::Ran(outcome) => {
                    if todo.len() == 0 {
                        return InstanceStep::Ignored(
                            InstanceCreation::CopyingEntries { order, directory, todo, blocked },
                        );
                    }
                    let line = copy_entry_command(
                        todo[0].as_str(),
                        directory.as_str(),
                        order.flavor,
                    );
                    match exec_process(outcome, &line, CallSite::CopyTemplate) {
                        Ok(_) => {
                            let mut rest = todo;
                            rest.remove(0);
                            assert(texts(rest@) =~= texts(todo@).drop_first());
                            continue_copy(order, directory, rest, blocked)
                        },
                        Err(error) => {
                            let teardown = plan_failure(
                                order.scheduling,
                                None,
                                Some(directory),
                                false,
                            );
                            InstanceStep::Failed { error, teardown }
                        },
                    }
                },
                _ => InstanceStep::Ignored(
                    InstanceCreation::CopyingEntries { order, directory, todo, blocked },
                ),
            },
            InstanceCreation::CheckingMarker(order, directory) => match event {
                Event::Exists(true) => {
                    let path = join_path(directory.as_str(), "postgresql.conf");
                    let contents = String::from_str(factory.config());
                    InstanceStep::Continue(
                        InstanceCreation::WritingConfig(order, directory),
                        Request::WriteFile { path, contents },
                    )
                },
                Event::Exists(false) => {
                    let teardown = plan_failure(order.scheduling, None, Some(directory), false);
                    InstanceStep::Failed { error: TmpPostgrustError::EmptyDataDirectory, teardown }
                },
                _ => InstanceStep::Ignored(InstanceCreation::CheckingMarker(order, directory)),
            },
            InstanceCreation::WritingConfig(order, directory) => match event {
                Event::Written(Ok(_)) => {
                    let port = factory.allocate_port();
                    let line = postgres_command(order.postgres.as_str(), directory.as_str(), port);
                    InstanceStep::Continue(
                        InstanceCreation::Spawning { order, directory, port },
                        Request::Spawn(line),
                    )
                },
                Event::Written(Err(source)) => {
                    let teardown = plan_failure(order.scheduling, None, Some(directory), false);
                    InstanceStep::Failed {
                        error: TmpPostgrustError::CreateConfigFailed(source),
                        teardown,
                    }
                },
                _ => InstanceStep::Ignored(InstanceCreation::WritingConfig(order, directory)),
            },
            InstanceCreation::Spawning { order, directory, port } => match event {
                Event::Spawned(Ok(pid)) => InstanceStep::Continue(
                    InstanceCreation::AwaitingReady(Launched { order, directory, port, pid }),
                    Request::ReadLine,
                ),
                Event::Spawned(Err(source)) => {
                    let teardown = plan_failure(order.scheduling, None, Some(directory), false);
                    InstanceStep::Failed {
                        error: TmpPostgrustError::SpawnSubprocessFailed(source),
                        teardown,
                    }
                },
                _ => InstanceStep::Ignored(InstanceCreation::Spawning { order, directory, port }),
            },
            InstanceCreation::AwaitingReady(launched) => match event {
                Event::Line(Some(line)) => {
                    if contains_text(
                        line.as_str(),
                        "database system is ready to accept connections",
                    ) {
                        let command = create_user_command(
                            factory.socket_dir(),
                            launched.port,
                            "demo",
                        );
                        InstanceStep::Continue(
                            InstanceCreation::CreatingRole(launched),
                            Request::Run(command),
                        )
                    } else {
                        InstanceStep::Continue(
                            InstanceCreation::AwaitingReady(launched),
                            Request::ReadLine,
                        )
                    }
                },
                Event::Line(None) => fail_launched(launched, TmpPostgrustError::ExitedBeforeReady),
                _ => InstanceStep::Ignored(InstanceCreation::AwaitingReady(launched)),
            },
            InstanceCreation::CreatingRole(launched) => match event {
                Event::Ran(outcome) => {
                    let line = create_user_command(factory.socket_dir(), launched.port, "demo");
                    match exec_process(outcome, &line, CallSite::CreateRole) {
                        Ok(_) => {
                            let command = create_db_command(
                                factory.socket_dir(),
                                launched.port,
                                "demo",
                                "demo",
                            );
                            InstanceStep::Continue(
                                InstanceCreation::CreatingDatabase(launched),
                                Request::Run(command),
                            )
                        },
                        Err(error) => fail_launched(launched, error),
                    }
                },
                _ => InstanceStep::Ignored(InstanceCreation::CreatingRole(launched)),
            },
            InstanceCreation::CreatingDatabase(launched) => match event {
                Event::Ran(outcome) => {
                    let line = create_db_command(
                        factory.socket_dir(),
                        launched.port,
                        "demo",
                        "demo",
                    );
                    match exec_process(outcome, &line, CallSite::CreateDatabase) {
                        Ok(_) => {
                            let uri = connection_string(launched.port, factory.socket_dir());
                            let Launched { order, directory, port, pid } = launched;
                            InstanceStep::Ready(
                                ProcessGuard::new(order.scheduling, pid, port, directory, uri),
                            )
                        },
                        Err(error) => fail_launched(launched, error),
                    }
                },
                _ => InstanceStep::Ignored(InstanceCreation::CreatingDatabase(launched)),
            },
        }
    }
}

/// A scan stops at the first entry that failed: the names it gives are
/// the paths of the entries before that one, and all entries when none
/// failed.
pub proof fn lemma_scan_stops_at_first_failure(entries: Seq<Result<Seq<char>, std::io::Error>>)
    ensures
        ({
            let found = scan(entries);
            let k = found.names.len() as int;
            &&& k <= entries.len()
            &&& forall|i: int| 0 <= i < k ==> #[trigger] entries[i] == Ok::<
                Seq<char>,
                std::io::Error,
            >(found.names[i])
            &&& match found.blocked {
                Some(error) => k < entries.len() && entries[k] == Err::<Seq<char>, std::io::Error>(
                    error,
                ),
                None => k == entries.len(),
            }
        }),
    decreases entries.len(),
{
    if entries.len() > 0 {
        let front = entries.drop_last();
        lemma_scan_stops_at_first_failure(front);
        let found = scan(entries);
        let k = found.names.len() as int;
        assert forall|i: int| 0 <= i < k implies #[trigger] entries[i] == Ok::<
            Seq<char>,
            std::io::Error,
        >(found.names[i]) by {
            if i < scan(front).names.len() {
                assert(front[i] == entries[i]);
            }
        }
        if scan(front).blocked is Some {
            assert(front[k] == entries[k]);
        }
    }
}

/// A creation that fails gives back all it holds, in a safe order: the
/// teardown stops and reaps the server if one was launched, then deletes
/// the private directory if one was made, then hands back the permit if
/// one was granted. No server is left running and no directory behind.
pub proof fn lemma_failure_gives_back_all(
    creation: CreationView,
    factory: FactoryView,
    event: EventView,
)
    requires
        creation_step(creation, factory, event).0 is Failed,
    ensures
        ({
            let plan = creation_step(creation, factory, event).0->teardown;
            let held = holdings(creation);
            &&& plan == teardown_plan(order_of(creation).scheduling, held)
            &&& crate::lifecycle::reaps_first(plan)
            &&& held.process is Some ==> plan.contains(TeardownStepView::AwaitExit)
            &&& held.directory matches Some(path) ==> plan.contains(
                TeardownStepView::RemoveDirectory(path),
            )
            &&& held.permit ==> plan.contains(TeardownStepView::ReleasePermit)
        }),
{
    let scheduling = order_of(creation).scheduling;
    crate::lifecycle::lemma_teardown_reaps_first(scheduling, holdings(creation));
    crate::lifecycle::lemma_teardown_covers(scheduling, holdings(creation));
}

/// A creation that goes on keeps what it holds: its order, its directory,
/// its process and its permit stay with it. An ignored event changes
/// nothing at all.
pub proof fn lemma_progress_keeps_holdings(
    creation: CreationView,
    factory: FactoryView,
    event: EventView,
)
    ensures
        match creation_step(creation, factory, event).0 {
            InstanceStepView::Continue(next, _) => {
                &&& order_of(next) == order_of(creation)
                &&& directory_of(creation) is Some ==> directory_of(next) == directory_of(
                    creation,
                )
                &&& process_of(creation) is Some ==> process_of(next) == process_of(creation)
                &&& holdings(creation).permit ==> holdings(next).permit
            },
            InstanceStepView::Ignored(same) => same == creation && creation_step(
                creation,
                factory,
                event,
            ).1 == factory,
            _ => true,
        },
{
}

/// A guard comes of a creation only at its last step, when the default
/// database has been created; that step is reached only after the default
/// role has been created, and that one only after the server wrote the
/// readiness marker. The guard is ready, and it carries the connection
/// URI of the instance's port behind the factory's socket directory.
pub proof fn lemma_ready_means_bootstrapped(
    creation: CreationView,
    factory: FactoryView,
    event: EventView,
)
    ensures
        match creation_step(creation, factory, event).0 {
            InstanceStepView::Ready(guard) => {
                &&& creation matches CreationView::CreatingDatabase(launched)
                &&& event matches EventView::Ran(Ok(output))
                &&& output.success
                &&& guard.state == ProcessState::Ready
                &&& guard.port == launched.port
                &&& guard.pid == launched.pid
                &&& guard.data_directory == launched.directory
                &&& guard.connection_string == connection_text(launched.port, factory.socket_dir)
            },
            InstanceStepView::Continue(CreationView::CreatingDatabase(_), _) => {
                &&& creation is CreatingRole
                &&& event matches EventView::Ran(Ok(output))
                &&& output.success
            },
            InstanceStepView::Continue(CreationView::CreatingRole(_), _) => {
                &&& creation is AwaitingReady
                &&& event matches EventView::Line(Some(line))
                &&& contains(line, readiness_marker())
            },
            _ => true,
        },
{
}

/// A creation takes a port at one step only: when the configuration has
/// been written and the server is launched next. It takes the factory's
/// next port, launches the server on it, and moves the counter on by
/// one. No other step touches the factory.
pub proof fn lemma_one_port_per_launch(
    creation: CreationView,
    factory: FactoryView,
    event: EventView,
)
    ensures
        ({
            let (step, after) = creation_step(creation, factory, event);
            if creation is WritingConfig && event matches EventView::Written(Ok(_)) {
                &&& after == (FactoryView { next_port: port_after(factory.next_port), ..factory })
                &&& step matches InstanceStepView::Continue(
                    CreationView::Spawning { port, order, directory },
                    request,
                )
                &&& port == factory.next_port
                &&& request == RequestView::Spawn(
                    postgres_line(order.postgres, directory, factory.next_port),
                )
            } else {
                after == factory
            }
        }),
{
}

/// The requests that a creation makes while it is fed `events` one after
/// the other, up to the event at which it ends or which it ignores.
pub open spec fn requests_made(
    creation: CreationView,
    factory: FactoryView,
    events: Seq<EventView>,
) -> Seq<RequestView>
    decreases events.len(),
{
    if events.len() == 0 {
        Seq::empty()
    } else {
        match creation_step(creation, factory, events[0]) {
            (InstanceStepView::Continue(next, request), after) => seq![request] + requests_made(
                next,
                after,
                events.drop_first(),
            ),
            _ => Seq::empty(),
        }
    }
}

/// Whether each of `events` reports a command that ran and succeeded.
pub open spec fn all_succeeded(events: Seq<EventView>) -> bool {
    forall|i: int|
        0 <= i < events.len() ==> (#[trigger] events[i] matches EventView::Ran(Ok(output))
            && output.success)
}

/// The copy commands for `names`, in their order.
pub open spec fn copies_of(names: Seq<Seq<char>>, directory: Seq<char>, flavor: CopyFlavor) -> Seq<
    RequestView,
> {
    Seq::new(names.len(), |i: int| RequestView::Run(copy_entry_line(names[i], directory, flavor)))
}

/// While its commands succeed, a creation that copies goes through the
/// entries still to do in their order, one command each, and then asks
/// for the version marker.
pub proof fn lemma_copies_the_rest(
    order: OrderView,
    directory: Seq<char>,
    todo: Seq<Seq<char>>,
    factory: FactoryView,
    events: Seq<EventView>,
)
    requires
        todo.len() > 0,
        events.len() == todo.len(),
        all_succeeded(events),
    ensures
        requests_made(
            CreationView::CopyingEntries { order, directory, todo, blocked: None },
            factory,
            events,
        ) == copies_of(todo.drop_first(), directory, order.flavor).push(
            RequestView::CheckExists { path: child_path(directory, version_marker()) },
        ),
    decreases todo.len(),
{
    let here = CreationView::CopyingEntries { order, directory, todo, blocked: None };
    let rest = todo.drop_first();
    let last = RequestView::CheckExists { path: child_path(directory, version_marker()) };
    let made = requests_made(here, factory, events);
    assert(events[0] matches EventView::Ran(Ok(output)) && output.success);
    let step = creation_step(here, factory, events[0]);
    assert(step.0 == copy_on(order, directory, rest, None));
    if rest.len() == 0 {
        assert(events.drop_first().len() == 0);
        assert(made =~= seq![last]) by {
            reveal_with_fuel(requests_made, 2);
        }
        assert(copies_of(rest, directory, order.flavor).push(last) =~= seq![last]);
    } else {
        let later = events.drop_first();
        assert(all_succeeded(later)) by {
            assert forall|i: int| 0 <= i < later.len() implies (#[trigger] later[i]
                matches EventView::Ran(Ok(output)) && output.success) by {
                assert(later[i] == events[i + 1]);
            }
        }
        lemma_copies_the_rest(order, directory, rest, factory, later);
        let next = CreationView::CopyingEntries { order, directory, todo: rest, blocked: None };
        let first = RequestView::Run(copy_entry_line(rest[0], directory, order.flavor));
        assert(made == seq![first] + requests_made(next, factory, later));
        assert(made =~= copies_of(rest, directory, order.flavor).push(last)) by {
            let inner = copies_of(rest.drop_first(), directory, order.flavor).push(last);
            let outer = copies_of(rest, directory, order.flavor).push(last);
            assert(made.len() == outer.len());
            assert forall|i: int| 0 <= i < outer.len() implies made[i] == outer[i] by {
                if i > 0 {
                    assert(made[i] == inner[i - 1]);
                    if i - 1 < rest.drop_first().len() {
                        assert(rest.drop_first()[i - 1] == rest[i]);
                    }
                }
            }
        }
    }
}

/// A template whose listing is read without failure is copied whole:
/// while the copy commands succeed, a creation asks for one copy of each
/// entry, in the order of the listing and into its private directory,
/// and for nothing else before it asks for the version marker.
pub proof fn lemma_copies_whole_template(
    order: OrderView,
    directory: Seq<char>,
    entries: Seq<Result<Seq<char>, std::io::Error>>,
    factory: FactoryView,
    outcomes: Seq<EventView>,
)
    requires
        scan(entries).blocked is None,
        outcomes.len() == entries.len(),
        all_succeeded(outcomes),
    ensures
        scan(entries).names.len() == entries.len(),
        forall|i: int|
            0 <= i < entries.len() ==> #[trigger] entries[i] == Ok::<Seq<char>, std::io::Error>(
                scan(entries).names[i],
            ),
        requests_made(
            CreationView::ListingTemplate(order, directory),
            factory,
            seq![EventView::Listing(Ok(entries))] + outcomes,
        ) == copies_of(scan(entries).names, directory, order.flavor).push(
            RequestView::CheckExists { path: child_path(directory, version_marker()) },
        ),
{
    lemma_scan_stops_at_first_failure(entries);
    let names = scan(entries).names;
    let start = CreationView::ListingTemplate(order, directory);
    let events = seq![EventView::Listing(Ok(entries))] + outcomes;
    let last = RequestView::CheckExists { path: child_path(directory, version_marker()) };
    let made = requests_made(start, factory, events);
    let wanted = copies_of(names, directory, order.flavor).push(last);
    assert(events[0] == EventView::Listing(Ok(entries)));
    assert(events.drop_first() =~= outcomes);
    assert(creation_step(start, factory, events[0]).0 == copy_on(order, directory, names, None));
    if names.len() == 0 {
        assert(made =~= seq![last]) by {
            reveal_with_fuel(requests_made, 2);
        }
        assert(wanted =~= seq![last]);
    } else {
        lemma_copies_the_rest(order, directory, names, factory, outcomes);
        let here = CreationView::CopyingEntries { order, directory, todo: names, blocked: None };
        let first = RequestView::Run(copy_entry_line(names[0], directory, order.flavor));
        let rest = copies_of(names.drop_first(), directory, order.flavor).push(last);
        assert(made == seq![first] + requests_made(here, factory, outcomes));
        assert(made =~= wanted) by {
            assert(made.len() == wanted.len());
            assert forall|i: int| 0 <= i < wanted.len() implies made[i] == wanted[i] by {
                if i > 0 {
                    assert(made[i] == rest[i - 1]);
                    if i - 1 < names.drop_first().len() {
                        assert(names.drop_first()[i - 1] == names[i]);
                    }
                }
            }
        }
    }
}

/// The launch of an instance over `directory` by a factory whose counter
/// stands at its `n`-th port after `first`.
pub open spec fn launch_at(
    order: OrderView,
    directory: Seq<char>,
    factory: FactoryView,
    first: u32,
    n: nat,
) -> InstanceStepView {
    creation_step(
        CreationView::WritingConfig(order, directory),
        FactoryView { next_port: port_at(first, n), ..factory },
        EventView::Written(Ok(())),
    ).0
}

/// Two instances of one factory are kept apart as far as the factory
/// decides: launched at different allocations, fewer than 2^32 apart,
/// they listen on different ports, are reached under different URIs, and
/// each server is launched on its own instance's directory. That the two
/// directories differ, and that neither is the template, is the driver's
/// to see to; given that, neither server runs on the other's directory
/// nor on the template.
pub proof fn lemma_instances_are_kept_apart(
    factory: FactoryView,
    first: u32,
    one: OrderView,
    one_directory: Seq<char>,
    earlier: nat,
    other: OrderView,
    other_directory: Seq<char>,
    later: nat,
)
    requires
        earlier < later,
        later - earlier < 0x1_0000_0000,
        one_directory != other_directory,
        one_directory != factory.cache_dir,
        other_directory != factory.cache_dir,
    ensures
        ({
            let a = launch_at(one, one_directory, factory, first, earlier);
            let b = launch_at(other, other_directory, factory, first, later);
            &&& a == InstanceStepView::Continue(
                CreationView::Spawning {
                    order: one,
                    directory: one_directory,
                    port: port_at(first, earlier),
                },
                RequestView::Spawn(
                    postgres_line(one.postgres, one_directory, port_at(first, earlier)),
                ),
            )
            &&& b == InstanceStepView::Continue(
                CreationView::Spawning {
                    order: other,
                    directory: other_directory,
                    port: port_at(first, later),
                },
                RequestView::Spawn(
                    postgres_line(other.postgres, other_directory, port_at(first, later)),
                ),
            )
            &&& port_at(first, earlier) != port_at(first, later)
            &&& connection_text(port_at(first, earlier), factory.socket_dir) != connection_text(
                port_at(first, later),
                factory.socket_dir,
            )
            &&& postgres_line(one.postgres, one_directory, port_at(first, earlier)).env[0].1
                != postgres_line(other.postgres, other_directory, port_at(first, later)).env[0].1
            &&& postgres_line(one.postgres, one_directory, port_at(first, earlier)).env[0].1
                != factory.cache_dir
            &&& postgres_line(other.postgres, other_directory, port_at(first, later)).env[0].1
                != factory.cache_dir
        }),
{
    lemma_ports_never_repeat(first, earlier, later);
    lemma_connection_text_tells_ports_apart(
        port_at(first, earlier),
        port_at(first, later),
        factory.socket_dir,
    );
}

/// One instance as it may be found at some instant.
pub enum Snapshot {
    /// Its creation is under way.
    Creating(CreationView),
    /// It is up and its guard has not been released.
    Guarded(GuardView),
    /// Its creation has failed, and the first `done` steps of the
    /// teardown have been taken.
    Failing { creation: CreationView, done: nat },
    /// Its guard has been released, and the first `done` steps of the
    /// teardown have been taken.
    Releasing { guard: GuardView, done: nat },
}

/// Whether the wait for the server's end is still to be taken after the
/// first `done` steps of `plan`.
pub open spec fn still_waits(plan: Seq<TeardownStepView>, done: nat) -> bool {
    exists|i: int| done <= i < plan.len() && #[trigger] plan[i] is AwaitExit
}

/// Whether the permit is still to be handed back after the first `done`
/// steps of `plan`.
pub open spec fn still_holds_permit(plan: Seq<TeardownStepView>, done: nat) -> bool {
    exists|i: int| done <= i < plan.len() && #[trigger] plan[i] is ReleasePermit
}

/// How the caller of the instance waits.
pub open spec fn scheduling_of(instance: Snapshot) -> Scheduling {
    match instance {
        Snapshot::Creating(creation) => order_of(creation).scheduling,
        Snapshot::Guarded(guard) => guard.scheduling,
        Snapshot::Failing { creation, .. } => order_of(creation).scheduling,
        Snapshot::Releasing { guard, .. } => guard.scheduling,
    }
}

/// Whether the instance may have a server process that has not been
/// reaped: one was launched, and no wait for its end has been completed.
pub open spec fn may_run(instance: Snapshot) -> bool {
    match instance {
        Snapshot::Creating(creation) => process_of(creation) is Some,
        Snapshot::Guarded(_) => true,
        Snapshot::Failing { creation, done } => still_waits(
            teardown_plan(order_of(creation).scheduling, holdings(creation)),
            done,
        ),
        Snapshot::Releasing { guard, done } => still_waits(
            teardown_plan(guard.scheduling, guard_holdings(guard)),
            done,
        ),
    }
}

/// Whether the instance holds a permit: one was granted, and the step
/// that hands it back has not been taken.
pub open spec fn has_permit(instance: Snapshot) -> bool {
    match instance {
        Snapshot::Creating(creation) => holdings(creation).permit,
        Snapshot::Guarded(guard) => guard.scheduling == Scheduling::Cooperative,
        Snapshot::Failing { creation, done } => still_holds_permit(
            teardown_plan(order_of(creation).scheduling, holdings(creation)),
            done,
        ),
        Snapshot::Releasing { guard, done } => still_holds_permit(
            teardown_plan(guard.scheduling, guard_holdings(guard)),
            done,
        ),
    }
}

/// The number of `instances` that may have a server running.
pub open spec fn running(instances: Seq<Snapshot>) -> nat
    decreases instances.len(),
{
    if instances.len() == 0 {
        0
    } else {
        running(instances.drop_last()) + if may_run(instances.last()) {
            1nat
        } else {
            0nat
        }
    }
}

/// The number of `instances` that hold a permit.
pub open spec fn permits_held(instances: Seq<Snapshot>) -> nat
    decreases instances.len(),
{
    if instances.len() == 0 {
        0
    } else {
        permits_held(instances.drop_last()) + if has_permit(instances.last()) {
            1nat
        } else {
            0nat
        }
    }
}

/// Where callers suspend, a server runs only under a permit: from its
/// launch until the wait for its end is over, in creation, under its
/// guard and through every step of a teardown, the instance holds the
/// permit it was granted.
pub proof fn lemma_runs_only_under_permit(instance: Snapshot)
    requires
        scheduling_of(instance) == Scheduling::Cooperative,
        may_run(instance),
    ensures
        has_permit(instance),
{
    match instance {
        Snapshot::Failing { creation, done } => {
            let plan = teardown_plan(Scheduling::Cooperative, holdings(creation));
            let i = choose|i: int| done <= i < plan.len() && #[trigger] plan[i] is AwaitExit;
            assert(process_of(creation) is Some);
            assert(plan[plan.len() - 1] is ReleasePermit);
        },
        Snapshot::Releasing { guard, done } => {
            let plan = teardown_plan(Scheduling::Cooperative, guard_holdings(guard));
            let i = choose|i: int| done <= i < plan.len() && #[trigger] plan[i] is AwaitExit;
            assert(plan[plan.len() - 1] is ReleasePermit);
        },
        _ => {},
    }
}

/// Where callers suspend, no more servers run than permits are held, at
/// every instant and whatever the instances are doing. So with a pool
/// that never has more than `capacity` permits out, at most `capacity`
/// servers run at once.
pub proof fn lemma_running_bounded_by_permits(instances: Seq<Snapshot>, capacity: nat)
    requires
        forall|i: int|
            0 <= i < instances.len() ==> scheduling_of(#[trigger] instances[i])
                == Scheduling::Cooperative,
        permits_held(instances) <= capacity,
    ensures
        running(instances) <= permits_held(instances),
        running(instances) <= capacity,
    decreases instances.len(),
{
    if instances.len() > 0 {
        let front = instances.drop_last();
        assert forall|i: int| 0 <= i < front.len() implies scheduling_of(#[trigger] front[i])
            == Scheduling::Cooperative by {
            assert(front[i] == instances[i]);
        }
        lemma_running_bounded_by_permits(front, capacity);
        if may_run(instances.last()) {
            lemma_runs_only_under_permit(instances.last());
        }
    }
}

} // verus!
