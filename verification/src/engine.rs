//! The collection engine: which module runs when, where its executable
//! lies, what its output means and what is sent on to the server.
//!
//! The engine does no input or output itself. It is a state machine: the
//! caller reports what happened as an `Event`, and is told what to do next
//! as an `Action`.
pub mod dependency;
pub mod equality;
pub mod laws;
pub mod names;
pub mod relay;
pub mod runner;

pub use dependency::Dependency;
pub use names::sanitize_module_name;

use crate::config::Config;
use crate::engine::names::{
    candidate_path, search_module_path, search_step, stays_below_base, PathSearch, PathSearchView,
};
use crate::engine::relay::{
    batch_text, relay_failure, relay_request, send_to_server, unwritable_batch, RelayOutcome,
    RelayRequest,
};
use crate::engine::runner::{run_dependencies, run_failure, run_module, ProcessOutcome};
use crate::error::{Error, ErrorView};
use crate::json::{document_text, members_view, object_of, render, Json};
use vstd::prelude::*;

verus! {

/// The seconds between two ticks.
pub const TICK_SECONDS: u64 = 1;

/// Where the engine stands within its loop: what it waits for. Looking at
/// a module's schedule and noting an attempt take no waiting, so they are
/// part of the step that leads from one phase to the next.
#[derive(Debug, Clone, Copy, PartialEq, Eq)]
pub enum Phase {
    /// Between two ticks: waiting for the next one, or for shutdown.
    Idle,
    /// Looking for the executable of `module`; `tried` base directories did
    /// not hold it.
    Resolving { module: usize, now: u64, tried: usize },
    /// The process of `module` runs.
    Running { module: usize, now: u64 },
    /// The results of `module` are on their way to the server.
    Relaying { module: usize, now: u64 },
    /// The loop has ended.
    Terminated,
}

/// What the caller reports to the engine.
#[derive(Debug, Clone, PartialEq, Eq)]
pub enum Event {
    /// The time between two ticks has passed; `now` is the reading of a
    /// clock that counts seconds and never goes back.
    Tick { now: u64 },
    /// Shutdown was asked for.
    Shutdown,
    /// Whether a file exists at the path that was to be probed.
    Probed { exists: bool },
    /// How the process of the module ended.
    Exited { outcome: ProcessOutcome },
    /// How the request to the server ended.
    Relayed { outcome: RelayOutcome },
}

/// What the engine asks of the caller.
#[derive(Debug, Clone, PartialEq, Eq)]
pub enum Action {
    /// Sleep for `TICK_SECONDS`, or until shutdown is asked for, and report
    /// which of the two came first.
    Wait,
    /// Go on waiting for what was asked before.
    Pending,
    /// Test whether a file exists at `path`.
    Probe { path: String },
    /// Run the executable at `path`. With `args`, write them to a temporary
    /// file first, name that file in the variable `ARGS_FILE` of the
    /// process's environment, and remove it once the process has ended.
    Execute { module: String, path: String, args: Option<String> },
    /// Send the request to the server.
    Relay { request: RelayRequest },
    /// Leave the loop.
    Stop,
}

/// The mathematical value of an `Action`.
pub enum ActionView {
    Wait,
    Pending,
    Probe { path: Seq<char> },
    Execute { module: Seq<char>, path: Seq<char>, args: Option<Seq<char>> },
    Relay { url: Seq<char>, timeout: u64, body: Seq<char> },
    Stop,
}

impl View for Action {
    type V = ActionView;

    open spec fn view(&self) -> ActionView {
        match self {
            Action::Wait => ActionView::Wait,
            Action::Pending => ActionView::Pending,
            Action::Probe { path } => ActionView::Probe { path: path@ },
            Action::Execute { module, path, args } => ActionView::Execute {
                module: module@,
                path: path@,
                args: match args {
                    Some(text) => Some(text@),
                    None => None,
                },
            },
            Action::Relay { request } => ActionView::Relay {
                url: request.url@,
                timeout: request.timeout,
                body: request.body@,
            },
            Action::Stop => ActionView::Stop,
        }
    }
}

/// The answer of the engine to one event.
#[derive(Debug, Clone, PartialEq, Eq)]
pub struct Step {
    /// What to do next.
    pub action: Action,
    /// The failure that this event brought to light, for the caller to log.
    /// A failure never ends the tick.
    pub failure: Option<Error>,
}

impl Step {
    pub open spec fn failure_view(&self) -> Option<ErrorView> {
        match self.failure {
            Some(e) => Some(e@),
            None => None,
        }
    }
}

/// The mathematical value of the engine.
pub struct EngineView {
    pub config: Config,
    /// For each module, when it was last attempted.
    pub last_run: Seq<Option<u64>>,
    pub phase: Phase,
    /// Shutdown was asked for while a tick was under way.
    pub shutdown_requested: bool,
}

impl EngineView {
    pub open spec fn modules(self) -> int {
        self.config.modules@.len() as int
    }

    pub open spec fn name(self, m: int) -> Seq<char> {
        self.config.modules@[m].name@
    }

    pub open spec fn bases(self) -> Seq<String> {
        self.config.agent.module_paths@
    }

    /// When the module of a name was last attempted. The schedule is kept by
    /// position; it is a schedule by name where every module has a name of
    /// its own.
    pub open spec fn last_run_of(self, name: Seq<char>) -> Option<u64> {
        if exists|m: int| 0 <= m < self.modules() && self.name(m) == name {
            self.last_run[choose|m: int| 0 <= m < self.modules() && self.name(m) == name]
        } else {
            None
        }
    }

    /// A module is due when it was never attempted, or when at least its
    /// interval has passed since the last attempt.
    pub open spec fn due(self, m: int, now: u64) -> bool {
        match self.last_run[m] {
            None => true,
            Some(last) => now >= last && now - last >= self.config.spec_interval(m),
        }
    }

    /// What the search for the executable of module `m` does next, given the
    /// answers of the base directories that were asked so far.
    pub open spec fn resolution(self, m: int, probes: Seq<bool>) -> Result<
        PathSearchView,
        ErrorView,
    > {
        search_step(self.bases(), self.name(m), probes)
    }

    /// A module is taken up in a tick when it is due and the search for its
    /// executable can begin: its name keeps the naming rules, and there is a
    /// base directory to ask.
    pub open spec fn runnable(self, m: int, now: u64) -> bool {
        &&& 0 <= m < self.modules()
        &&& self.due(m, now)
        &&& self.resolution(m, Seq::empty()) is Ok
    }

    /// The first module from `from` on that is taken up.
    pub open spec fn next_runnable(self, from: int, now: u64) -> Option<int>
        decreases self.modules() - from,
    {
        if from < 0 || from >= self.modules() {
            None
        } else if self.runnable(from, now) {
            Some(from)
        } else {
            self.next_runnable(from + 1, now)
        }
    }

    /// The schedule holds one entry for each module.
    pub open spec fn sized(self) -> bool {
        self.last_run.len() == self.modules()
    }

    /// What holds of every engine: the schedule fits the configuration, and
    /// a module that is being worked on was due when its tick began.
    pub open spec fn wf(self) -> bool {
        &&& self.sized()
        &&& match self.phase {
            Phase::Idle => !self.shutdown_requested,
            Phase::Terminated => true,
            Phase::Resolving { module, now, tried } => self.runnable(module as int, now) && tried
                < self.bases().len(),
            Phase::Running { module, now } => module < self.modules() && self.due(
                module as int,
                now,
            ),
            Phase::Relaying { module, now } => module < self.modules() && self.due(
                module as int,
                now,
            ),
        }
    }

    pub open spec fn with_phase(self, phase: Phase) -> EngineView {
        EngineView {
            config: self.config,
            last_run: self.last_run,
            phase,
            shutdown_requested: self.shutdown_requested,
        }
    }

    /// The engine after the attempt on module `m` at time `now` is noted.
    pub open spec fn recorded(self, m: int, now: u64) -> EngineView {
        EngineView {
            config: self.config,
            last_run: self.last_run.update(m, Some(now)),
            phase: self.phase,
            shutdown_requested: self.shutdown_requested,
        }
    }

    /// The end of a tick: the loop ends where shutdown was asked for
    /// meanwhile, else the engine waits for the next tick.
    pub open spec fn finish_tick(self) -> (EngineView, ActionView) {
        if self.shutdown_requested {
            (self.with_phase(Phase::Terminated), ActionView::Stop)
        } else {
            (self.with_phase(Phase::Idle), ActionView::Wait)
        }
    }

    /// The tick of time `now` goes on with the modules from `from` on: the
    /// search for the executable of the first one that is taken up begins in
    /// the first base directory; where there is none, the tick ends.
    pub open spec fn iteration(self, from: int, now: u64) -> (EngineView, ActionView) {
        match self.next_runnable(from, now) {
            Some(m) => (
                self.with_phase(Phase::Resolving { module: m as usize, now, tried: 0 }),
                ActionView::Probe { path: candidate_path(self.bases()[0]@, self.name(m)) },
            ),
            None => self.finish_tick(),
        }
    }

    /// The attempt on module `m` is over: it is noted, whatever came of it,
    /// and the tick goes on with the next module.
    pub open spec fn attempted(self, m: int, now: u64, failure: Option<ErrorView>) -> (
        EngineView,
        ActionView,
        Option<ErrorView>,
    ) {
        let (next, action) = self.recorded(m, now).iteration(m + 1, now);
        (next, action, failure)
    }

    /// The text of the arguments of module `m`: `Ok(None)` where it has none,
    /// `Err` where they cannot be written as JSON.
    pub open spec fn args_text(self, m: int) -> Result<Option<Seq<char>>, ErrorView> {
        match self.config.modules@[m].module.args {
            None => Ok(None),
            Some(members) => match document_text(Json::Object(members_view(members@))) {
                Some(text) => Ok(Some(text)),
                None => Err(unwritable_args()),
            },
        }
    }

    /// The engine's answer to an event: its next state, what the caller is
    /// to do, and the failure that came to light.
    pub open spec fn transition(self, event: Event) -> (EngineView, ActionView, Option<ErrorView>) {
        match self.phase {
            Phase::Terminated => (self, ActionView::Stop, None),
            Phase::Idle => match event {
                Event::Tick { now } => {
                    let (next, action) = self.iteration(0, now);
                    (next, action, None)
                },
                Event::Shutdown => (self.with_phase(Phase::Terminated), ActionView::Stop, None),
                _ => (self, ActionView::Wait, None),
            },
            Phase::Resolving { module, now, tried } => match event {
                Event::Probed { exists } => match self.resolution(
                    module as int,
                    answers_so_far(tried as int, exists),
                ) {
                    Ok(PathSearchView::Found(path)) => match self.args_text(module as int) {
                        Ok(args) => (
                            self.with_phase(Phase::Running { module, now }),
                            ActionView::Execute { module: self.name(module as int), path, args },
                            None,
                        ),
                        Err(e) => self.attempted(module as int, now, Some(e)),
                    },
                    Ok(PathSearchView::Probe(path)) => (
                        self.with_phase(
                            Phase::Resolving { module, now, tried: (tried + 1) as usize },
                        ),
                        ActionView::Probe { path },
                        None,
                    ),
                    Err(_) => {
                        let (next, action) = self.iteration(module + 1, now);
                        (next, action, None)
                    },
                },
                Event::Shutdown => (self.deferring_shutdown(), ActionView::Pending, None),
                _ => (self, ActionView::Pending, None),
            },
            Phase::Running { module, now } => match event {
                Event::Exited { outcome } => match run_failure(self.name(module as int), outcome) {
                    Some(e) => self.attempted(module as int, now, Some(e)),
                    None => match batch_text(run_dependencies(outcome)) {
                        Some(body) => (
                            self.with_phase(Phase::Relaying { module, now }),
                            ActionView::Relay {
                                url: self.config.server.url@,
                                timeout: self.config.server.timeout,
                                body,
                            },
                            None,
                        ),
                        None => self.attempted(module as int, now, Some(unwritable_batch())),
                    },
                },
                Event::Shutdown => (self.deferring_shutdown(), ActionView::Pending, None),
                _ => (self, ActionView::Pending, None),
            },
            Phase::Relaying { module, now } => match event {
                Event::Relayed { outcome } => self.attempted(
                    module as int,
                    now,
                    relay_failure(outcome),
                ),
                Event::Shutdown => (self.deferring_shutdown(), ActionView::Pending, None),
                _ => (self, ActionView::Pending, None),
            },
        }
    }

    /// A tick that is under way is finished before shutdown is looked at.
    pub open spec fn deferring_shutdown(self) -> EngineView {
        EngineView {
            config: self.config,
            last_run: self.last_run,
            phase: self.phase,
            shutdown_requested: true,
        }
    }
}

/// The answers of the base directories after `tried` of them did not hold
/// the module and the next one said `exists`.
pub open spec fn answers_so_far(tried: int, exists: bool) -> Seq<bool> {
    Seq::new(tried as nat, |i: int| false).push(exists)
}

/// Why the arguments of a module could not be handed over.
pub open spec fn unwritable_args() -> ErrorView {
    ErrorView::Serialization("the arguments cannot be written as JSON"@)
}

/// Computes `answers_so_far`.
fn answers_after(tried: usize, exists: bool) -> (answers: Vec<bool>)
    ensures
        answers@ == answers_so_far(tried as int, exists),
{
    let mut answers: Vec<bool> = Vec::new();
    let mut i: usize = 0;
    while i < tried
        invariant
            i <= tried,
            answers@ == Seq::new(i as nat, |k: int| false),
        decreases tried - i,
    {
        answers.push(false);
        i += 1;
    }
    answers.push(exists);
    answers
}

/// The scheduler, runner and relay of the collection path as one state
/// machine.
#[derive(Debug, Clone)]
pub struct CollectionEngine {
    config: Config,
    module_last_run: Vec<Option<u64>>,
    phase: Phase,
    shutdown_requested: bool,
}

impl View for CollectionEngine {
    type V = EngineView;

    closed spec fn view(&self) -> EngineView {
        EngineView {
            config: self.config,
            last_run: self.module_last_run@,
            phase: self.phase,
            shutdown_requested: self.shutdown_requested,
        }
    }
}

impl CollectionEngine {
    /// An engine that has attempted no module yet, so that each is due.
    pub fn new(config: Config) -> (engine: Self)
        ensures
            engine@.config == config,
            engine@.last_run == Seq::new(config.modules@.len(), |i: int| None::<u64>),
            engine@.phase == Phase::Idle,
            !engine@.shutdown_requested,
            engine@.wf(),
    {
        let mut module_last_run: Vec<Option<u64>> = Vec::new();
        let mut i: usize = 0;
        while i < config.modules.len()
            invariant
                i <= config.modules.len(),
                module_last_run@.len() == i,
                forall|j: int| 0 <= j < i ==> module_last_run@[j] is None,
            decreases config.modules.len() - i,
        {
            module_last_run.push(None);
            i += 1;
        }
        CollectionEngine { config, module_last_run, phase: Phase::Idle, shutdown_requested: false }
    }

    /// The configuration that the engine was built from.
    pub fn config(&self) -> (config: &Config)
        ensures
            *config == self@.config,
    {
        &self.config
    }

    /// Where the engine stands.
    pub fn phase(&self) -> (phase: Phase)
        ensures
            phase == self@.phase,
    {
        self.phase
    }

    /// When module `index` was last attempted.
    pub fn last_run(&self, index: usize) -> (last: Option<u64>)
        ensures
            last == if index < self@.last_run.len() {
                self@.last_run[index as int]
            } else {
                None
            },
    {
        if index < self.module_last_run.len() {
            self.module_last_run[index]
        } else {
            None
        }
    }

    /// Whether module `index` is due at time `now`.
    pub fn is_due(&self, index: usize, now: u64) -> (due: bool)
        requires
            self@.sized(),
            index < self@.modules(),
        ensures
            due == self@.due(index as int, now),
    {
        match self.module_last_run[index] {
            None => true,
            Some(last) => now >= last && now - last >= self.config.interval(index),
        }
    }

    /// One step of the search for the executable of `module_name` in the
    /// configured base directories, given the answers so far.
    pub fn find_module_path(&self, module_name: &str, probes: &Vec<bool>) -> (r: Result<
        PathSearch,
        Error,
    >)
        ensures
            match search_step(self@.bases(), module_name@, probes@) {
                Ok(step) => r is Ok && r->Ok_0@ == step,
                Err(e) => r is Err && r->Err_0@ == e,
            },
            r is Ok ==> stays_below_base(module_name@),
    {
        search_module_path(&self.config.agent.module_paths, module_name, probes)
    }

    /// Goes on with the tick of time `now` from module `from` on.
    fn run_iteration(&mut self, from: usize, now: u64) -> (action: Action)
        requires
            old(self)@.sized(),
            from <= old(self)@.modules(),
        ensures
            (final(self)@, action@) == old(self)@.iteration(from as int, now),
            final(self)@.wf(),
    {
        let no_answers: Vec<bool> = Vec::new();
        let mut m: usize = from;
        while m < self.config.modules.len()
            invariant
                from <= m <= self@.modules(),
                self@ == old(self)@,
                self@.sized(),
                no_answers@ == Seq::<bool>::empty(),
                self@.next_runnable(from as int, now) == self@.next_runnable(m as int, now),
            decreases self.config.modules.len() - m,
        {
            if self.is_due(m, now) {
                match self.find_module_path(self.config.modules[m].name.as_str(), &no_answers) {
                    Ok(PathSearch::Probe(path)) => {
                        self.phase = Phase::Resolving { module: m, now, tried: 0 };
                        return Action::Probe { path };
                    },
                    // A name that breaks the rules, or no directory to ask.
                    _ => {},
                }
            }
            m += 1;
        }
        if self.shutdown_requested {
            self.phase = Phase::Terminated;
            Action::Stop
        } else {
            self.phase = Phase::Idle;
            Action::Wait
        }
    }

    /// Notes the attempt on `module` and goes on with the tick.
    fn attempted(&mut self, module: usize, now: u64, failure: Option<Error>) -> (step: Step)
        requires
            old(self)@.sized(),
            module < old(self)@.modules(),
        ensures
            (final(self)@, step.action@, step.failure_view()) == old(self)@.attempted(
                module as int,
                now,
                step.failure_view(),
            ),
            step.failure == failure,
            final(self)@.wf(),
    {
        assert(module < self.config.modules.len());
        self.module_last_run.set(module, Some(now));
        let action = self.run_iteration(module + 1, now);
        Step { action, failure }
    }

    /// The arguments of `module` as JSON text.
    fn module_args(&self, module: usize) -> (r: Result<Option<String>, Error>)
        requires
            module < self@.modules(),
        ensures
            match self@.args_text(module as int) {
                Ok(Some(text)) => r is Ok && r->Ok_0 is Some && r->Ok_0->Some_0@ == text,
                Ok(None) => r is Ok && r->Ok_0 is None,
                Err(e) => r is Err && r->Err_0@ == e,
            },
    {
        match &self.config.modules[module].module.args {
            None => Ok(None),
            Some(members) => match render(&object_of(members)) {
                Some(text) => Ok(Some(text)),
                None => Err(
                    Error::Serialization("the arguments cannot be written as JSON".to_owned()),
                ),
            },
        }
    }

    /// Takes one event and says what to do next.
    ///
    /// A tick takes up the due modules one after the other, in the order of
    /// the configuration. A module that fails is noted as attempted like one
    /// that succeeds, and the tick goes on. Shutdown is honoured between
    /// ticks: asked for during a tick, it ends the loop when the tick is
    /// over. Once terminated, the engine answers `Stop` to everything.
    pub fn run(&mut self, event: Event) -> (step: Step)
        requires
            old(self)@.wf(),
        ensures
            (final(self)@, step.action@, step.failure_view()) == old(self)@.transition(event),
            final(self)@.wf(),
    {
        match self.phase {
            Phase::Terminated => Step { action: Action::Stop, failure: None },
            Phase::Idle => match event {
                Event::Tick { now } => {
                    let action = self.run_iteration(0, now);
                    Step { action, failure: None }
                },
                Event::Shutdown => {
                    self.phase = Phase::Terminated;
                    Step { action: Action::Stop, failure: None }
                },
                _ => Step { action: Action::Wait, failure: None },
            },
            Phase::Resolving { module, now, tried } => match event {
                Event::Probed { exists } => {
                    let answers = answers_after(tried, exists);
                    match self.find_module_path(
                        self.config.modules[module].name.as_str(),
                        &answers,
                    ) {
                        Ok(PathSearch::Found(path)) => match self.module_args(module) {
                            Ok(args) => {
                                let name = self.config.modules[module].name.clone();
                                self.phase = Phase::Running { module, now };
                                Step {
                                    action: Action::Execute { module: name, path, args },
                                    failure: None,
                                }
                            },
                            Err(e) => self.attempted(module, now, Some(e)),
                        },
                        Ok(PathSearch::Probe(path)) => {
                            assert(tried + 1 < self.config.agent.module_paths.len());
                            self.phase = Phase::Resolving { module, now, tried: tried + 1 };
                            Step { action: Action::Probe { path }, failure: None }
                        },
                        Err(_) => {
                            assert(module < self.config.modules.len());
                            let action = self.run_iteration(module + 1, now);
                            Step { action, failure: None }
                        },
                    }
                },
                Event::Shutdown => {
                    self.shutdown_requested = true;
                    Step { action: Action::Pending, failure: None }
                },
                _ => Step { action: Action::Pending, failure: None },
            },
            Phase::Running { module, now } => match event {
                Event::Exited { outcome } => {
                    match run_module(self.config.modules[module].name.as_str(), outcome) {
                        Err(e) => self.attempted(module, now, Some(e)),
                        Ok(result) => match relay_request(
                            &self.config.server,
                            &result.dependencies,
                        ) {
                            Ok(request) => {
                                self.phase = Phase::Relaying { module, now };
                                Step { action: Action::Relay { request }, failure: None }
                            },
                            Err(e) => self.attempted(module, now, Some(e)),
                        },
                    }
                },
                Event::Shutdown => {
                    self.shutdown_requested = true;
                    Step { action: Action::Pending, failure: None }
                },
                _ => Step { action: Action::Pending, failure: None },
            },
            Phase::Relaying { module, now } => match event {
                Event::Relayed { outcome } => {
                    let failure = match send_to_server(outcome) {
                        Ok(()) => None,
                        Err(e) => Some(e),
                    };
                    self.attempted(module, now, failure)
                },
                Event::Shutdown => {
                    self.shutdown_requested = true;
                    Step { action: Action::Pending, failure: None }
                },
                _ => Step { action: Action::Pending, failure: None },
            },
        }
    }
}

} // verus!
