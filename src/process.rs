use vstd::prelude::*;

verus! {

/// Restart budget of a record whose definition names none.
pub const DEFAULT_MAX_RESTART_COUNT: u64 = 5;

/// Lifecycle state of a supervised process. `Stopped` is initial and
/// `Failed` is the only terminal state.
#[derive(Debug, Clone, Copy, PartialEq, Eq, Structural)]
pub enum State {
    Stopped,
    Starting,
    Running,
    Restarting,
    Failed,
}

/// What the supervising loop reports to the record after doing outside work.
#[derive(Debug, Clone, Copy, PartialEq, Eq, Structural)]
pub enum Event {
    /// The OS process was started and has this pid.
    Spawned(u32),
    /// Starting the OS process failed (missing executable, no permission, ...).
    SpawnFailed,
    /// A non-blocking liveness check found the process still alive.
    StillRunning,
    /// A liveness check found the process gone, with its exit code, or with
    /// none when a signal ended it.
    Exited(Option<i32>),
    /// The liveness check itself failed at the OS level.
    PollFailed,
}

/// What the supervising loop does next.
#[derive(Debug, Clone, Copy, PartialEq, Eq, Structural)]
pub enum Action {
    /// Keep the process: relay its stdio and check its liveness again.
    Poll,
    /// Sleep this many milliseconds, then start the process again.
    RestartAfter(u64),
    /// Leave the loop: the record needs no more supervision.
    Stop,
}

/// The lifecycle fields of a record, as mathematical values.
pub struct Lifecycle {
    pub state: State,
    pub exit_status: Option<i32>,
    pub restart_count: nat,
    pub max_restart_count: nat,
    pub pid: Option<u32>,
}

impl Lifecycle {
    /// A freshly defined record: stopped, never run, nothing spent.
    pub open spec fn initial(max_restart_count: nat) -> Lifecycle {
        Lifecycle {
            state: State::Stopped,
            exit_status: None,
            restart_count: 0,
            max_restart_count,
            pid: None,
        }
    }

    /// The budget is never overspent, and a pid is known exactly while the
    /// process runs.
    pub open spec fn wf(self) -> bool {
        &&& self.restart_count <= self.max_restart_count
        &&& (self.pid is Some <==> self.state == State::Running)
    }

    /// Whether a supervising loop may start the OS process now.
    pub open spec fn can_start(self) -> bool {
        self.state == State::Stopped || self.state == State::Restarting
    }

    /// The record after one event.
    pub open spec fn step(self, e: Event) -> Lifecycle {
        match e {
            Event::Spawned(pid) => if self.can_start() {
                Lifecycle { state: State::Running, pid: Some(pid), ..self }
            } else {
                self
            },
            Event::SpawnFailed => if self.can_start() {
                Lifecycle { state: State::Failed, ..self }
            } else {
                self
            },
            Event::StillRunning => self,
            Event::Exited(code) => if self.state != State::Running {
                self
            } else if self.restart_count < self.max_restart_count {
                Lifecycle {
                    state: State::Restarting,
                    exit_status: code,
                    restart_count: self.restart_count + 1,
                    pid: None,
                    ..self
                }
            } else {
                Lifecycle { state: State::Failed, exit_status: code, pid: None, ..self }
            },
            Event::PollFailed => if self.state == State::Running {
                Lifecycle { state: State::Failed, pid: None, ..self }
            } else {
                self
            },
        }
    }

    /// What the loop does after the event, given the record before it and
    /// the record's restart delay.
    pub open spec fn action(self, e: Event, restart_delay: u64) -> Action {
        let next = self.step(e);
        if next.state == State::Running {
            Action::Poll
        } else if next.state == State::Restarting && self.state == State::Running {
            Action::RestartAfter(restart_delay)
        } else {
            Action::Stop
        }
    }

    /// The record after a sequence of events, first to last.
    pub open spec fn run(self, events: Seq<Event>) -> Lifecycle
        decreases events.len(),
    {
        if events.len() == 0 {
            self
        } else {
            self.step(events[0]).run(events.drop_first())
        }
    }
}

/// Whether an event is only an observation, not an attempt to start.
pub open spec fn is_observation(e: Event) -> bool {
    e is StillRunning || e is Exited || e is PollFailed
}

/// However many events arrive, in whatever order, a well-formed record stays
/// well formed: in particular its restart count never exceeds its budget.
pub proof fn lemma_restart_budget_kept(l: Lifecycle, events: Seq<Event>)
    requires
        l.wf(),
    ensures
        l.run(events).wf(),
        l.run(events).restart_count <= l.run(events).max_restart_count,
        l.run(events).max_restart_count == l.max_restart_count,
    decreases events.len(),
{
    if events.len() > 0 {
        lemma_restart_budget_kept(l.step(events[0]), events.drop_first());
    }
}

/// A failed record never changes again, whatever events follow.
pub proof fn lemma_failed_is_terminal(l: Lifecycle, events: Seq<Event>)
    requires
        l.state == State::Failed,
    ensures
        l.run(events) == l,
    decreases events.len(),
{
    if events.len() > 0 {
        lemma_failed_is_terminal(l.step(events[0]), events.drop_first());
    }
}

/// A record that was defined and never launched stays stopped, with no
/// restarts spent and no exit status, whatever observations arrive.
pub proof fn lemma_unlaunched_record_stays_stopped(max_restart_count: nat, events: Seq<Event>)
    requires
        forall|i: int| 0 <= i < events.len() ==> is_observation(#[trigger] events[i]),
    ensures
        Lifecycle::initial(max_restart_count).run(events) == Lifecycle::initial(max_restart_count),
    decreases events.len(),
{
    if events.len() > 0 {
        let rest = events.drop_first();
        assert(is_observation(events[0]));
        assert forall|i: int| 0 <= i < rest.len() implies is_observation(#[trigger] rest[i]) by {
            assert(rest[i] == events[i + 1]);
        }
        lemma_unlaunched_record_stays_stopped(max_restart_count, rest);
    }
}

/// The description and live status of one supervised process.
#[derive(Debug)]
pub struct Process {
    pub name: String,
    pub path: String,
    /// By convention `args[0]` is the program name; the OS receives the rest.
    pub args: Vec<String>,
    /// Milliseconds to wait between a finished run and the next start.
    pub restart_delay: u64,
    pub cwd: Option<String>,
    pub state: State,
    pub exit_status: Option<i32>,
    pub restart_count: u64,
    pub max_restart_count: u64,
    pub pid: Option<u32>,
}

impl View for Process {
    type V = Lifecycle;

    open spec fn view(&self) -> Lifecycle {
        Lifecycle {
            state: self.state,
            exit_status: self.exit_status,
            restart_count: self.restart_count as nat,
            max_restart_count: self.max_restart_count as nat,
            pid: self.pid,
        }
    }
}

impl Process {
    pub open spec fn wf(&self) -> bool {
        self@.wf()
    }

    /// The description fields of `self` and `other` agree.
    pub open spec fn same_description(&self, other: &Process) -> bool {
        &&& self.name == other.name
        &&& self.path == other.path
        &&& self.args == other.args
        &&& self.restart_delay == other.restart_delay
        &&& self.cwd == other.cwd
    }

    /// Defines a record with the given restart budget; nothing is started.
    pub fn define_with_budget(
        name: &str,
        path: &str,
        args: Vec<String>,
        restart_delay: Option<u64>,
        cwd: Option<String>,
        max_restart_count: u64,
    ) -> (r: Process)
        ensures
            r@ == Lifecycle::initial(max_restart_count as nat),
            r.wf(),
            r.name@ == name@,
            r.path@ == path@,
            r.args == args,
            r.restart_delay == restart_delay.unwrap_or(0),
            r.cwd == cwd,
    {
        Process {
            name: name.to_owned(),
            path: path.to_owned(),
            args,
            restart_delay: restart_delay.unwrap_or(0),
            cwd,
            state: State::Stopped,
            exit_status: None,
            restart_count: 0,
            max_restart_count,
            pid: None,
        }
    }

    /// Whether the record is well formed, as `apply` requires.
    pub fn is_well_formed(&self) -> (r: bool)
        ensures
            r == self.wf(),
    {
        self.restart_count <= self.max_restart_count && (self.pid.is_some() == (self.state
            == State::Running))
    }

    /// Whether a supervising loop may start the OS process now.
    pub fn can_start(&self) -> (r: bool)
        ensures
            r == self@.can_start(),
    {
        match self.state {
            State::Stopped | State::Restarting => true,
            _ => false,
        }
    }

    /// Records one event and says what the supervising loop does next.
    pub fn apply(&mut self, e: Event) -> (a: Action)
        requires
            old(self).wf(),
        ensures
            final(self)@ == old(self)@.step(e),
            a == old(self)@.action(e, old(self).restart_delay),
            final(self).wf(),
            final(self).same_description(old(self)),
    {
        let running = self.state == State::Running;
        match e {
            Event::Spawned(pid) => {
                if self.can_start() {
                    self.state = State::Running;
                    self.pid = Some(pid);
                    Action::Poll
                } else if running {
                    Action::Poll
                } else {
                    Action::Stop
                }
            },
            Event::SpawnFailed => {
                if self.can_start() {
                    self.state = State::Failed;
                }
                if running {
                    Action::Poll
                } else {
                    Action::Stop
                }
            },
            Event::StillRunning => {
                if running {
                    Action::Poll
                } else {
                    Action::Stop
                }
            },
            Event::Exited(code) => {
                if !running {
                    Action::Stop
                } else if self.restart_count < self.max_restart_count {
                    self.state = State::Restarting;
                    self.exit_status = code;
                    self.restart_count = self.restart_count + 1;
                    self.pid = None;
                    Action::RestartAfter(self.restart_delay)
                } else {
                    self.state = State::Failed;
                    self.exit_status = code;
                    self.pid = None;
                    Action::Stop
                }
            },
            Event::PollFailed => {
                if running {
                    self.state = State::Failed;
                    self.pid = None;
                }
                Action::Stop
            },
        }
    }

    /// The arguments handed to the OS: all of `args` but the first.
    pub fn invocation_args(&self) -> (r: Vec<String>)
        ensures
            self.args@.len() == 0 ==> r@.len() == 0,
            self.args@.len() > 0 ==> r@ == self.args@.skip(1),
    {
        let mut r: Vec<String> = Vec::new();
        let mut i: usize = 1;
        while i < self.args.len()
            invariant
                1 <= i,
                self.args@.len() > 0 ==> i <= self.args@.len(),
                self.args@.len() > 0 ==> r@ == self.args@.subrange(1, i as int),
                self.args@.len() == 0 ==> r@.len() == 0,
            decreases self.args@.len() - i,
        {
            r.push(self.args[i].clone());
            i = i + 1;
        }
        proof {
            if self.args@.len() > 0 {
                assert(r@ =~= self.args@.skip(1));
            }
        }
        r
    }
}

/// Defining and launching a supervised record.
pub trait Runnable: Sized {
    /// The lifecycle fields of the record.
    spec fn lifecycle(&self) -> Lifecycle;

    /// The record carries this name, path, argument list, restart delay and
    /// working directory.
    spec fn describes(
        &self,
        name: Seq<char>,
        path: Seq<char>,
        args: Seq<String>,
        restart_delay: u64,
        cwd: Option<String>,
    ) -> bool;

    /// Defines a record with the default restart budget; nothing is started.
    fn define_process(
        name: &str,
        path: &str,
        args: Vec<String>,
        restart_delay: Option<u64>,
        cwd: Option<String>,
    ) -> (r: Self)
        ensures
            r.lifecycle() == Lifecycle::initial(DEFAULT_MAX_RESTART_COUNT as nat),
            r.describes(name@, path@, args@, restart_delay.unwrap_or(0), cwd),
    ;
}

impl Runnable for Process {
    open spec fn lifecycle(&self) -> Lifecycle {
        self@
    }

    open spec fn describes(
        &self,
        name: Seq<char>,
        path: Seq<char>,
        args: Seq<String>,
        restart_delay: u64,
        cwd: Option<String>,
    ) -> bool {
        &&& self.name@ == name
        &&& self.path@ == path
        &&& self.args@ == args
        &&& self.restart_delay == restart_delay
        &&& self.cwd == cwd
    }

    fn define_process(
        name: &str,
        path: &str,
        args: Vec<String>,
        restart_delay: Option<u64>,
        cwd: Option<String>,
    ) -> (r: Process) {
        Process::define_with_budget(name, path, args, restart_delay, cwd, DEFAULT_MAX_RESTART_COUNT)
    }
}

} // verus!
