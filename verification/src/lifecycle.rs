//! The life of one server process and of the guard that answers for it:
//! starting, ready, stopping, stopped; and the order in which what an
//! instance holds is given back.

use vstd::prelude::*;

verus! {

/// The number of servers that may run at once where callers suspend: the
/// number of permits in the pool from which every cooperative instance
/// takes one.
pub const MAX_CONCURRENT_PROCESSES: usize = 8;

/// How the caller waits for outside work.
#[derive(Debug, Clone, Copy, PartialEq, Eq, Structural)]
pub enum Scheduling {
    /// Every step blocks the calling thread.
    Blocking,
    /// Steps that wait suspend the calling task; a task of its own watches
    /// each server process, and a permit bounds how many run at once.
    Cooperative,
}

/// Where a server process stands in its life.
#[derive(Debug, Clone, Copy, PartialEq, Eq, Structural)]
pub enum ProcessState {
    /// Launched, not yet known to accept connections.
    Starting,
    /// Known to accept connections.
    Ready,
    /// Asked to stop, not yet reaped.
    Stopping,
    /// Reaped.
    Stopped,
}

/// One step of giving back what an instance holds.
#[derive(Debug, Clone, PartialEq, Eq)]
pub enum TeardownStep {
    /// Tell the task that watches the process to stop it.
    RequestStop,
    /// Send the process the interrupt signal, which asks the server for a
    /// fast, clean shutdown.
    Interrupt {
        /// The process to signal.
        pid: u32,
    },
    /// Wait until the process has ended and has been reaped.
    AwaitExit,
    /// Delete the instance's private directory and all below it.
    RemoveDirectory(String),
    /// Give up the instance's share of the socket directory.
    ReleaseSocketDirectory,
    /// Hand the concurrency permit back.
    ReleasePermit,
}

/// A teardown step seen through the characters of its path.
pub enum TeardownStepView {
    RequestStop,
    Interrupt { pid: u32 },
    AwaitExit,
    RemoveDirectory(Seq<char>),
    ReleaseSocketDirectory,
    ReleasePermit,
}

impl View for TeardownStep {
    type V = TeardownStepView;

    open spec fn view(&self) -> TeardownStepView {
        match *self {
            TeardownStep::RequestStop => TeardownStepView::RequestStop,
            TeardownStep::Interrupt { pid } => TeardownStepView::Interrupt { pid },
            TeardownStep::AwaitExit => TeardownStepView::AwaitExit,
            TeardownStep::RemoveDirectory(path) => TeardownStepView::RemoveDirectory(path@),
            TeardownStep::ReleaseSocketDirectory => TeardownStepView::ReleaseSocketDirectory,
            TeardownStep::ReleasePermit => TeardownStepView::ReleasePermit,
        }
    }
}

/// The view of each step of a plan.
pub open spec fn plan_view(plan: Seq<TeardownStep>) -> Seq<TeardownStepView> {
    plan.map_values(|step: TeardownStep| step@)
}

/// What an instance may hold at the moment it is torn down.
pub struct Holdings {
    /// The server process, if one was launched and not yet reaped.
    pub process: Option<u32>,
    /// The private data directory, if one was created.
    pub directory: Option<Seq<char>>,
    /// Whether a share of the socket directory is held.
    pub socket: bool,
    /// Whether a concurrency permit is held.
    pub permit: bool,
}

/// The steps that stop the process `pid` and wait for its end: signal it
/// directly where the caller blocks, ask its watching task where not.
pub open spec fn stop_plan(scheduling: Scheduling, pid: u32) -> Seq<TeardownStepView> {
    match scheduling {
        Scheduling::Blocking => seq![
            TeardownStepView::Interrupt { pid },
            TeardownStepView::AwaitExit,
        ],
        Scheduling::Cooperative => seq![
            TeardownStepView::RequestStop,
            TeardownStepView::AwaitExit,
        ],
    }
}

/// The steps that give back `held`, in the order in which they are to be
/// taken: stop the process and wait for its end, delete the directory,
/// give up the socket directory, hand back the permit.
pub open spec fn teardown_plan(scheduling: Scheduling, held: Holdings) -> Seq<TeardownStepView> {
    (match held.process {
        Some(pid) => stop_plan(scheduling, pid),
        None => Seq::empty(),
    }) + (match held.directory {
        Some(path) => seq![TeardownStepView::RemoveDirectory(path)],
        None => Seq::empty(),
    }) + (if held.socket {
        seq![TeardownStepView::ReleaseSocketDirectory]
    } else {
        Seq::empty()
    }) + (if held.permit {
        seq![TeardownStepView::ReleasePermit]
    } else {
        Seq::empty()
    })
}

/// Whether the step stops a process.
pub open spec fn stops_process(step: TeardownStepView) -> bool {
    step is Interrupt || step is RequestStop
}

/// Whether `plan` takes its steps in a safe order: nothing but the wait
/// for its end follows directly on stopping a process, and no directory
/// is deleted, no share or permit given back, before every process that
/// the plan stops has been waited for.
pub open spec fn reaps_first(plan: Seq<TeardownStepView>) -> bool {
    &&& forall|i: int|
        0 <= i < plan.len() && stops_process(#[trigger] plan[i]) ==> i + 1 < plan.len() && plan[i
            + 1] is AwaitExit
    &&& forall|i: int, j: int|
        0 <= i < j < plan.len() && !stops_process(#[trigger] plan[i]) && !(plan[i] is AwaitExit)
            ==> !stops_process(#[trigger] plan[j]) && !(plan[j] is AwaitExit)
}

/// Every teardown plan reaps first: it stops at most one process, waits
/// for its end at once, and only then deletes, gives up and hands back.
pub proof fn lemma_teardown_reaps_first(scheduling: Scheduling, held: Holdings)
    ensures
        reaps_first(teardown_plan(scheduling, held)),
        held.process is None ==> forall|i: int|
            0 <= i < teardown_plan(scheduling, held).len() ==> !stops_process(
                #[trigger] teardown_plan(scheduling, held)[i],
            ),
{
}

/// A plan names, for each thing held, the step that gives it back, and
/// no step for what is not held.
pub proof fn lemma_teardown_covers(scheduling: Scheduling, held: Holdings)
    ensures
        held.process matches Some(pid) ==> teardown_plan(scheduling, held).contains(
            TeardownStepView::AwaitExit,
        ) && (teardown_plan(scheduling, held).contains(TeardownStepView::Interrupt { pid })
            || teardown_plan(scheduling, held).contains(TeardownStepView::RequestStop)),
        held.directory matches Some(path) ==> teardown_plan(scheduling, held).contains(
            TeardownStepView::RemoveDirectory(path),
        ),
        held.socket <==> teardown_plan(scheduling, held).contains(
            TeardownStepView::ReleaseSocketDirectory,
        ),
        held.permit <==> teardown_plan(scheduling, held).contains(TeardownStepView::ReleasePermit),
{
    let plan = teardown_plan(scheduling, held);
    let stop = match held.process {
        Some(pid) => stop_plan(scheduling, pid),
        None => Seq::empty(),
    };
    let dir = match held.directory {
        Some(path) => seq![TeardownStepView::RemoveDirectory(path)],
        None => Seq::empty(),
    };
    if held.process is Some {
        assert(plan[0] == stop[0]);
        assert(plan[1] == TeardownStepView::AwaitExit);
    }
    if held.directory is Some {
        assert(plan[stop.len() as int] == dir[0]);
    }
    if held.socket {
        assert(plan[(stop.len() + dir.len()) as int] == TeardownStepView::ReleaseSocketDirectory);
    }
    if held.permit {
        assert(plan[plan.len() - 1] == TeardownStepView::ReleasePermit);
    }
}


/// Builds the plan that gives back a process, a directory, a share of
/// the socket directory and a permit, as far as each is held.
pub fn plan_teardown(
    scheduling: Scheduling,
    process: Option<u32>,
    directory: Option<String>,
    socket: bool,
    permit: bool,
) -> (plan: Vec<TeardownStep>)
    ensures
        plan_view(plan@) == teardown_plan(
            scheduling,
            Holdings {
                process,
                directory: match directory {
                    Some(path) => Some(path@),
                    None => None,
                },
                socket,
                permit,
            },
        ),
{
    let mut plan: Vec<TeardownStep> = Vec::new();
    match process {
        Some(pid) => {
            match scheduling {
                Scheduling::Blocking => plan.push(TeardownStep::Interrupt { pid }),
                Scheduling::Cooperative => plan.push(TeardownStep::RequestStop),
            }
            plan.push(TeardownStep::AwaitExit);
        },
        None => {},
    }
    match directory {
        Some(path) => plan.push(TeardownStep::RemoveDirectory(path)),
        None => {},
    }
    if socket {
        plan.push(TeardownStep::ReleaseSocketDirectory);
    }
    if permit {
        plan.push(TeardownStep::ReleasePermit);
    }
    assert(plan_view(plan@) =~= teardown_plan(
        scheduling,
        Holdings {
            process,
            directory: match directory {
                Some(path) => Some(path@),
                None => None,
            },
            socket,
            permit,
        },
    ));
    plan
}

/// The handle on one running instance. While it is `Ready` the server
/// accepts connections under `connection_string`. Releasing it yields the
/// plan that stops the server and deletes its storage.
#[derive(Debug, PartialEq, Eq)]
pub struct ProcessGuard {
    /// The URI under which the instance's default database is reached.
    pub connection_string: String,
    scheduling: Scheduling,
    pid: u32,
    port: u32,
    data_directory: String,
    state: ProcessState,
}

/// A guard seen through the characters of its texts.
pub struct GuardView {
    pub connection_string: Seq<char>,
    pub scheduling: Scheduling,
    pub pid: u32,
    pub port: u32,
    pub data_directory: Seq<char>,
    pub state: ProcessState,
}

impl View for ProcessGuard {
    type V = GuardView;

    closed spec fn view(&self) -> GuardView {
        GuardView {
            connection_string: self.connection_string@,
            scheduling: self.scheduling,
            pid: self.pid,
            port: self.port,
            data_directory: self.data_directory@,
            state: self.state,
        }
    }
}

/// What a guard holds while its server runs: the process, the data
/// directory, a share of the socket directory and, where instances are
/// bounded, a permit.
pub open spec fn guard_holdings(guard: GuardView) -> Holdings {
    Holdings {
        process: Some(guard.pid),
        directory: Some(guard.data_directory),
        socket: true,
        permit: guard.scheduling == Scheduling::Cooperative,
    }
}

/// The guard after `release`: stopping if it was ready, else as it was.
pub open spec fn released(guard: GuardView) -> GuardView {
    if guard.state == ProcessState::Ready {
        GuardView { state: ProcessState::Stopping, ..guard }
    } else {
        guard
    }
}

/// The plan that `release` hands out: the full teardown if the guard was
/// ready, nothing otherwise.
pub open spec fn release_plan(guard: GuardView) -> Seq<TeardownStepView> {
    if guard.state == ProcessState::Ready {
        teardown_plan(guard.scheduling, guard_holdings(guard))
    } else {
        Seq::empty()
    }
}

/// The guard after `reaped`: stopped if it was stopping, else as it was.
pub open spec fn after_reaped(guard: GuardView) -> GuardView {
    if guard.state == ProcessState::Stopping {
        GuardView { state: ProcessState::Stopped, ..guard }
    } else {
        guard
    }
}

impl ProcessGuard {
    /// The guard of a server that was launched as process `pid` on `port`
    /// over `data_directory`, and has been seen to be ready.
    pub fn new(
        scheduling: Scheduling,
        pid: u32,
        port: u32,
        data_directory: String,
        connection_string: String,
    ) -> (guard: ProcessGuard)
        ensures
            guard@ == (GuardView {
                connection_string: connection_string@,
                scheduling,
                pid,
                port,
                data_directory: data_directory@,
                state: ProcessState::Ready,
            }),
    {
        ProcessGuard {
            connection_string,
            scheduling,
            pid,
            port,
            data_directory,
            state: ProcessState::Ready,
        }
    }

    /// The URI under which the instance's default database is reached.
    pub fn uri(&self) -> (uri: &str)
        ensures
            uri@ == self@.connection_string,
    {
        self.connection_string.as_str()
    }

    /// Where the server stands in its life.
    pub fn state(&self) -> (state: ProcessState)
        ensures
            state == self@.state,
    {
        self.state
    }

    /// Whether new connections may be opened: whether the server is ready.
    pub fn is_usable(&self) -> (usable: bool)
        ensures
            usable == (self@.state == ProcessState::Ready),
    {
        match self.state {
            ProcessState::Ready => true,
            _ => false,
        }
    }

    /// The port on which the server listens.
    pub fn port(&self) -> (port: u32)
        ensures
            port == self@.port,
    {
        self.port
    }

    /// The server's process.
    pub fn pid(&self) -> (pid: u32)
        ensures
            pid == self@.pid,
    {
        self.pid
    }

    /// The instance's private data directory.
    pub fn data_directory(&self) -> (path: &str)
        ensures
            path@ == self@.data_directory,
    {
        self.data_directory.as_str()
    }

    /// How the caller of this guard waits.
    pub fn scheduling(&self) -> (scheduling: Scheduling)
        ensures
            scheduling == self@.scheduling,
    {
        self.scheduling
    }

    /// Releases the instance. A ready guard turns to stopping and hands
    /// out the plan for its teardown. Any other guard has been released
    /// before: it stays as it is and hands out an empty plan, so that a
    /// server is stopped once and its directory deleted once.
    pub fn release(&mut self) -> (plan: Vec<TeardownStep>)
        ensures
            final(self)@ == released(old(self)@),
            plan_view(plan@) == release_plan(old(self)@),
    {
        match self.state {
            ProcessState::Ready => {
                self.state = ProcessState::Stopping;
                let cooperative = match self.scheduling {
                    Scheduling::Cooperative => true,
                    Scheduling::Blocking => false,
                };
                plan_teardown(
                    self.scheduling,
                    Some(self.pid),
                    Some(self.data_directory.clone()),
                    true,
                    cooperative,
                )
            },
            _ => {
                let plan: Vec<TeardownStep> = Vec::new();
                assert(plan_view(plan@) =~= Seq::empty());
                plan
            },
        }
    }

    /// Records that the server has ended and has been reaped: a stopping
    /// guard turns to stopped. Any other guard stays as it is.
    pub fn reaped(&mut self)
        ensures
            final(self)@ == after_reaped(old(self)@),
    {
        match self.state {
            ProcessState::Stopping => {
                self.state = ProcessState::Stopped;
            },
            _ => {},
        }
    }
}

/// The process number under which the operating system takes a signal
/// for `pid`: the same number as a signed integer, where it fits.
pub open spec fn signal_number(pid: u32) -> Option<i32> {
    if pid <= i32::MAX {
        Some(pid as i32)
    } else {
        None
    }
}

/// The signed process number for `pid`, or `None` if `pid` is too large
/// to be one.
pub fn signal_target(pid: u32) -> (target: Option<i32>)
    ensures
        target == signal_number(pid),
{
    if pid <= 0x7fff_ffff {
        Some(pid as i32)
    } else {
        None
    }
}

/// How a watched process came to its end.
#[derive(Debug, Clone, Copy, PartialEq, Eq, Structural)]
pub enum Exit {
    /// It ended though nobody had asked it to.
    Unsolicited,
    /// It ended after it had been asked to stop.
    Requested,
    /// It had been seen to end before.
    Repeated,
}

/// The decisions of the task that watches one server process where the
/// caller does not block. It waits for two things at once, the end of the
/// process and a request to stop it, and acts on whichever comes first.
#[derive(Debug, Clone, Copy, PartialEq, Eq, Structural)]
pub struct Supervisor {
    /// The watched process.
    pub pid: u32,
    /// Where the process stands in its life.
    pub state: ProcessState,
}

/// Whether the process is running and has not been asked to stop.
pub open spec fn is_live(state: ProcessState) -> bool {
    state == ProcessState::Starting || state == ProcessState::Ready
}

/// The watcher after the readiness marker was seen.
pub open spec fn after_marker(watch: Supervisor) -> Supervisor {
    if watch.state == ProcessState::Starting {
        Supervisor { state: ProcessState::Ready, ..watch }
    } else {
        watch
    }
}

/// The watcher after a request to stop.
pub open spec fn after_stop_request(watch: Supervisor) -> Supervisor {
    if is_live(watch.state) {
        Supervisor { state: ProcessState::Stopping, ..watch }
    } else {
        watch
    }
}

/// What the watcher does on a request to stop: signal the process and
/// wait for its end if it is live, nothing if it is already stopping or
/// has ended.
pub open spec fn stop_request_plan(watch: Supervisor) -> Seq<TeardownStepView> {
    if is_live(watch.state) {
        stop_plan(Scheduling::Blocking, watch.pid)
    } else {
        Seq::empty()
    }
}

/// How the end of the process counts, given where it stood.
pub open spec fn exit_kind(state: ProcessState) -> Exit {
    match state {
        ProcessState::Starting => Exit::Unsolicited,
        ProcessState::Ready => Exit::Unsolicited,
        ProcessState::Stopping => Exit::Requested,
        ProcessState::Stopped => Exit::Repeated,
    }
}

impl Supervisor {
    /// The watcher of a process that has just been launched.
    pub fn new(pid: u32) -> (watch: Supervisor)
        ensures
            watch == (Supervisor { pid, state: ProcessState::Starting }),
    {
        Supervisor { pid, state: ProcessState::Starting }
    }

    /// Records that the server announced its readiness.
    pub fn marker_seen(&mut self)
        ensures
            *final(self) == after_marker(*old(self)),
    {
        match self.state {
            ProcessState::Starting => {
                self.state = ProcessState::Ready;
            },
            _ => {},
        }
    }

    /// Acts on a request to stop the process.
    pub fn stop_requested(&mut self) -> (plan: Vec<TeardownStep>)
        ensures
            *final(self) == after_stop_request(*old(self)),
            plan_view(plan@) == stop_request_plan(*old(self)),
    {
        match self.state {
            ProcessState::Starting | ProcessState::Ready => {
                self.state = ProcessState::Stopping;
                let plan = plan_teardown(Scheduling::Blocking, Some(self.pid), None, false, false);
                assert(plan_view(plan@) =~= stop_request_plan(*old(self)));
                plan
            },
            _ => {
                let plan: Vec<TeardownStep> = Vec::new();
                assert(plan_view(plan@) =~= Seq::empty());
                plan
            },
        }
    }

    /// Records that the process has ended and says how that counts. The
    /// process is stopped from here on.
    pub fn exited(&mut self) -> (exit: Exit)
        ensures
            exit == exit_kind(old(self).state),
            *final(self) == (Supervisor { state: ProcessState::Stopped, ..*old(self) }),
    {
        let exit = match self.state {
            ProcessState::Starting => Exit::Unsolicited,
            ProcessState::Ready => Exit::Unsolicited,
            ProcessState::Stopping => Exit::Requested,
            ProcessState::Stopped => Exit::Repeated,
        };
        self.state = ProcessState::Stopped;
        exit
    }
}

/// Releasing a ready guard tears its instance down, once: the plan
/// stops the server, waits for its end and only then deletes the private
/// directory; the guard is stopping until the server has been reaped and
/// stopped from then on; and a guard that was released hands out nothing
/// again.
pub proof fn lemma_release_tears_down(guard: GuardView)
    requires
        guard.state == ProcessState::Ready,
    ensures
        released(guard).state == ProcessState::Stopping,
        after_reaped(released(guard)).state == ProcessState::Stopped,
        reaps_first(release_plan(guard)),
        stops_process(release_plan(guard)[0]),
        release_plan(guard)[1] == TeardownStepView::AwaitExit,
        release_plan(guard)[2] == TeardownStepView::RemoveDirectory(guard.data_directory),
        release_plan(guard)[3] == TeardownStepView::ReleaseSocketDirectory,
        guard.scheduling == Scheduling::Cooperative ==> release_plan(guard).last()
            == TeardownStepView::ReleasePermit,
        release_plan(released(guard)) == Seq::<TeardownStepView>::empty(),
        release_plan(after_reaped(released(guard))) == Seq::<TeardownStepView>::empty(),
        released(released(guard)) == released(guard),
{
    lemma_teardown_reaps_first(guard.scheduling, guard_holdings(guard));
}

/// A guard is usable only between its creation and its release: neither
/// release nor the end of the server ever makes a guard ready.
pub proof fn lemma_guard_never_returns(guard: GuardView)
    requires
        guard.state != ProcessState::Ready,
    ensures
        released(guard).state != ProcessState::Ready,
        after_reaped(guard).state != ProcessState::Ready,
{
}

/// Of the two things a watcher waits for, the first to come decides. If
/// the request to stop comes first, the process is signalled once and its
/// end counts as requested. If the process ends first, its end counts as
/// unsolicited and a later request to stop does nothing.
pub proof fn lemma_first_wins(watch: Supervisor)
    requires
        is_live(watch.state),
    ensures
        stop_request_plan(watch) == seq![
            TeardownStepView::Interrupt { pid: watch.pid },
            TeardownStepView::AwaitExit,
        ],
        after_stop_request(watch).state == ProcessState::Stopping,
        exit_kind(after_stop_request(watch).state) == Exit::Requested,
        stop_request_plan(after_stop_request(watch)) == Seq::<TeardownStepView>::empty(),
        exit_kind(watch.state) == Exit::Unsolicited,
        stop_request_plan(Supervisor { state: ProcessState::Stopped, ..watch })
            == Seq::<TeardownStepView>::empty(),
        after_stop_request(Supervisor { state: ProcessState::Stopped, ..watch }).state
            == ProcessState::Stopped,
{
}

} // verus!
