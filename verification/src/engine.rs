//! The execution engine: one session of the script engine, from the global
//! initializers to the exit code.
//!
//! The engine itself, its job queue and the host's I/O reactor are outside
//! this library. What is here is the part that decides: a state machine that
//! tells the host what to do next and takes back what happened. The host does
//! exactly what it is told and reports truthfully; in particular it reports an
//! empty queue only when no job is queued, and an idle reactor only when no
//! operation is in flight.
//!
//! A session moves through `Init`, `Loading`, `Evaluating` and `Draining` to
//! `Completed` or `Failed`. Draining alternates between the two schedulers: one
//! poll of the reactor, then every queued job, one by one, each followed by a
//! look at what it threw; and again, until the queue is empty while the reactor
//! is idle. In test mode an exception is recorded instead of ending the
//! session, and two more phases follow the first drain: the registered tests
//! are called, and the promises that some of them returned are settled.

use vstd::prelude::*;
use crate::loader::LoadError;
use crate::resolver::ResolutionError;
use crate::text::{push_str, string_of};
use crate::test_runner::{
    TestDef, TestOutcome, TestResult, PendingTestPromise, selection, select, failures,
    count_failures, result_of, lemma_selection_in_range,
};

verus! {

/// What a session is started with. The values travel with the session; no
/// process-wide state stands behind them.
pub struct SessionConfig {
    /// The arguments of the script, as the script sees them.
    pub script_args: Vec<String>,
    /// The host runs a program that is embedded in its own executable.
    pub standalone: bool,
    /// The session runs a test file.
    pub test_mode: bool,
}

/// An exception that no script caught.
pub struct RuntimeException {
    /// The exception's message.
    pub message: String,
    /// The exception's stack, where it has one.
    pub stack: Option<String>,
}

impl RuntimeException {
    /// What is printed of the exception: `Error: ` and the message, and the
    /// stack on the lines below where there is one.
    pub open spec fn description(&self) -> Seq<char> {
        match self.stack {
            Some(stack) => "Error: "@ + self.message@ + "\n"@ + stack@,
            None => "Error: "@ + self.message@,
        }
    }

    /// The exception that the engine reported with this message and stack; an
    /// exception without message is said to have none.
    pub fn from_engine(message: Option<String>, stack: Option<String>) -> (e: Self)
        ensures
            e.stack == stack,
            e.message@ == match message {
                Some(m) => m@,
                None => "Exception (no message)"@,
            },
    {
        let message = match message {
            Some(m) => m,
            None => "Exception (no message)".to_owned(),
        };
        RuntimeException { message, stack }
    }

    /// The text in which the exception is reported on the diagnostic stream.
    pub fn describe(&self) -> (text: String)
        ensures
            text@ == self.description(),
    {
        let mut out: Vec<char> = Vec::new();
        push_str(&mut out, "Error: ");
        push_str(&mut out, self.message.as_str());
        if let Some(stack) = &self.stack {
            push_str(&mut out, "\n");
            push_str(&mut out, stack.as_str());
        }
        string_of(out.as_slice())
    }
}

/// Why a session failed.
pub enum Failure {
    /// The entry module could not be resolved.
    Resolution(ResolutionError),
    /// The entry module could not be loaded.
    Load(LoadError),
    /// An exception went uncaught.
    Exception(RuntimeException),
    /// The entry module awaits at top level what can no longer happen: its
    /// completion is pending while queue and reactor have nothing left.
    Unsettled,
}

/// The states of a session.
#[derive(Clone, Copy, Debug, PartialEq, Eq, Structural)]
pub enum Phase {
    /// The global initializers are run, in registration order.
    Init,
    /// The entry module is resolved and loaded.
    Loading,
    /// The entry module is evaluated, and its completion awaited.
    Evaluating,
    /// Reactor and job queue are driven until both are quiet.
    Draining,
    /// Test mode: the selected tests are called.
    Testing,
    /// Test mode, second phase: the promises of asynchronous tests are settled.
    Resolving,
    /// The session ended with nothing left to do.
    Completed,
    /// The session ended on a failure.
    Failed,
}

/// Where a session stands within its phase.
#[derive(Clone, Copy, Debug, PartialEq, Eq, Structural)]
pub enum Step {
    /// The phase's own action is due.
    Act,
    /// The reactor is due to be polled: a cycle begins.
    Poll,
    /// The queued jobs are run.
    Jobs,
    /// The completion of the evaluation is due to be looked at.
    Check,
}

/// Which drain of a session is under way. Outside test mode there is one.
#[derive(Clone, Copy, Debug, PartialEq, Eq, Structural)]
pub enum DrainPass {
    /// The drain after the evaluation of the entry module.
    Module,
    /// Test mode: the drain after the tests were called.
    Tests,
    /// Test mode: the drain after the pending promises were settled.
    Pending,
}

/// What the host is told to do.
#[derive(Clone, Copy, Debug, PartialEq, Eq, Structural)]
pub enum Action {
    /// Run the global initializer at this position.
    RunInitializer(usize),
    /// Resolve and load the entry module.
    LoadEntry,
    /// Begin to evaluate the entry module.
    Evaluate,
    /// Look at the completion of the evaluation.
    AwaitEvaluation,
    /// Poll the reactor once and deliver what is ready into the job queue.
    /// With operations in flight, nothing ready and no job queued, the poll
    /// waits.
    PollReactor,
    /// Run the job at the head of the queue, if there is one.
    RunJob,
    /// Call the body of the test registered at this position.
    RunTest(usize),
    /// Look at the promise kept under this handle.
    ResolvePending(u64),
    /// Release the session and leave with this exit code.
    Exit(i32),
}

/// What became of the evaluation of the entry module.
pub enum Evaluation {
    /// The module and all it awaits at top level have run to their end.
    Settled,
    /// A top-level await has yet to settle.
    Pending,
    /// The evaluation threw.
    Threw(RuntimeException),
}

/// What the host reports back.
pub enum Event {
    /// The initializer ran; with an exception if it threw one.
    InitializerDone(Option<RuntimeException>),
    /// The entry module is loaded.
    EntryLoaded,
    /// The entry module could not be resolved.
    EntryUnresolved(ResolutionError),
    /// The entry module could not be loaded.
    EntryUnloaded(LoadError),
    /// The state of the evaluation's completion.
    Evaluated(Evaluation),
    /// The reactor was polled and delivered this many completions.
    ReactorPolled(usize),
    /// A job was run; with an exception if it threw one.
    JobRan(Option<RuntimeException>),
    /// No job is queued; and whether the reactor is idle as well.
    QueueEmpty(bool),
    /// A test body was called.
    TestRan(TestOutcome),
    /// A pending promise was looked at; with an exception if it was rejected.
    PendingSettled(Option<RuntimeException>),
}

/// A session as plain values.
pub struct EngineModel {
    /// The session runs a test file.
    pub test_mode: bool,
    /// The number of global initializers.
    pub initializers: nat,
    /// The state.
    pub phase: Phase,
    /// The place within the state.
    pub step: Step,
    /// The drain under way.
    pub pass: DrainPass,
    /// The position of what is next: an initializer, a selected test, a
    /// pending promise.
    pub cursor: nat,
    /// The cycle under way has delivered a completion or run a job.
    pub worked: bool,
    /// Why the session failed.
    pub failure: Option<Failure>,
    /// Test mode: the failures that were recorded instead of ending the
    /// session.
    pub recorded: Seq<Failure>,
    /// The registered tests.
    pub tests: Seq<TestDef>,
    /// The positions of the tests that are called.
    pub selected: Seq<usize>,
    /// The reports on finished tests.
    pub results: Seq<TestResult>,
    /// The tests that wait for the second phase.
    pub pending: Seq<PendingTestPromise>,
}

impl EngineModel {
    /// The parts of the session fit together.
    pub open spec fn wf(self) -> bool {
        &&& self.tests.len() <= usize::MAX
        &&& self.phase == Phase::Init ==> self.cursor < self.initializers
        &&& self.phase == Phase::Testing ==> self.cursor < self.selected.len()
        &&& self.phase == Phase::Testing ==> forall|k: int|
            0 <= k < self.selected.len() ==> (#[trigger] self.selected[k]) < self.tests.len()
        &&& self.phase == Phase::Resolving ==> self.cursor < self.pending.len()
        &&& self.phase == Phase::Testing || self.phase == Phase::Resolving ==> self.test_mode
        &&& self.phase == Phase::Failed ==> self.failure is Some
        &&& self.phase == Phase::Draining ==> self.step == Step::Poll || self.step == Step::Jobs
        &&& !self.test_mode ==> self.recorded.len() == 0 && self.results.len() == 0
    }

    /// The session has ended.
    pub open spec fn ended(self) -> bool {
        self.phase == Phase::Completed || self.phase == Phase::Failed
    }

    /// The exit code: 0 for a session that completed with no failure
    /// recorded and no test failed, 1 for every other.
    pub open spec fn exit_code(self) -> i32 {
        if self.phase == Phase::Completed && self.recorded.len() == 0 && failures(self.results)
            == 0 {
            0
        } else {
            1
        }
    }

    /// What the host has to do next.
    pub open spec fn action(self) -> Action {
        match self.phase {
            Phase::Init => Action::RunInitializer(self.cursor as usize),
            Phase::Loading => Action::LoadEntry,
            Phase::Evaluating => match self.step {
                Step::Act => Action::Evaluate,
                Step::Poll => Action::PollReactor,
                Step::Jobs => Action::RunJob,
                Step::Check => Action::AwaitEvaluation,
            },
            Phase::Draining => match self.step {
                Step::Jobs => Action::RunJob,
                _ => Action::PollReactor,
            },
            Phase::Testing => Action::RunTest(self.selected[self.cursor as int]),
            Phase::Resolving => Action::ResolvePending(self.pending[self.cursor as int].handle),
            Phase::Completed => Action::Exit(self.exit_code()),
            Phase::Failed => Action::Exit(self.exit_code()),
        }
    }

    /// The session fails.
    pub open spec fn fail(self, failure: Failure) -> EngineModel {
        EngineModel { phase: Phase::Failed, failure: Some(failure), ..self }
    }

    /// The session completes.
    pub open spec fn complete(self) -> EngineModel {
        EngineModel { phase: Phase::Completed, ..self }
    }

    /// A drain begins, with the first poll of the reactor due.
    pub open spec fn start_drain(self, pass: DrainPass) -> EngineModel {
        EngineModel {
            phase: Phase::Draining,
            step: Step::Poll,
            pass,
            cursor: 0,
            worked: false,
            ..self
        }
    }

    /// Something went wrong that no script caught: the session fails, or in
    /// test mode goes on with the failure on record.
    pub open spec fn raise(self, failure: Failure) -> EngineModel {
        if self.test_mode {
            EngineModel { recorded: self.recorded.push(failure), ..self }
        } else {
            self.fail(failure)
        }
    }

    /// Queue and reactor are quiet. Outside test mode the session completes.
    /// In test mode the first drain is followed by the calls of the selected
    /// tests, the drain after those by the second phase where a promise is
    /// pending, and the session completes where nothing of that is left.
    pub open spec fn after_drain(self) -> EngineModel {
        if !self.test_mode {
            self.complete()
        } else {
            match self.pass {
                DrainPass::Module => if selection(self.tests).len() > 0 {
                    EngineModel {
                        phase: Phase::Testing,
                        cursor: 0,
                        selected: selection(self.tests),
                        ..self
                    }
                } else {
                    self.complete()
                },
                DrainPass::Tests => if self.pending.len() > 0 {
                    EngineModel { phase: Phase::Resolving, cursor: 0, ..self }
                } else {
                    self.complete()
                },
                DrainPass::Pending => self.complete(),
            }
        }
    }

    /// A job was run within a cycle.
    pub open spec fn after_job(self, thrown: Option<RuntimeException>) -> EngineModel {
        let ran = EngineModel { worked: true, ..self };
        match thrown {
            Some(exception) => ran.raise(Failure::Exception(exception)),
            None => ran,
        }
    }

    /// The evaluation threw, or can never settle. In test mode the drain
    /// follows all the same.
    pub open spec fn after_throw(self, failure: Failure) -> EngineModel {
        if self.test_mode {
            self.raise(failure).start_drain(DrainPass::Module)
        } else {
            self.raise(failure)
        }
    }

    /// A test body was called: a final outcome is reported, a promise is set
    /// aside, and the next selected test is due whatever the outcome was. After
    /// the last one the registered tests are forgotten and the drain begins.
    pub open spec fn after_test(self, outcome: TestOutcome) -> EngineModel {
        let name = self.tests[self.selected[self.cursor as int] as int].name;
        let noted = match outcome {
            TestOutcome::Pending(handle, started_ms) => EngineModel {
                pending: self.pending.push(PendingTestPromise { name, handle, started_ms }),
                ..self
            },
            _ => EngineModel { results: self.results.push(result_of(name, outcome)), ..self },
        };
        if self.cursor + 1 < self.selected.len() {
            EngineModel { cursor: self.cursor + 1, ..noted }
        } else {
            EngineModel { tests: Seq::empty(), ..noted }.start_drain(DrainPass::Tests)
        }
    }

    /// A pending promise was looked at: its test is reported, and the next
    /// promise is due. After the last one the final drain begins.
    pub open spec fn after_settled(self, rejected: Option<RuntimeException>) -> EngineModel {
        let name = self.pending[self.cursor as int].name;
        let report = match rejected {
            Some(exception) => TestResult {
                name,
                passed: false,
                error: Some(exception.message),
                error_stack: exception.stack,
            },
            None => TestResult { name, passed: true, error: None, error_stack: None },
        };
        let noted = EngineModel { results: self.results.push(report), ..self };
        if self.cursor + 1 < self.pending.len() {
            EngineModel { cursor: self.cursor + 1, ..noted }
        } else {
            EngineModel { pending: Seq::empty(), ..noted }.start_drain(DrainPass::Pending)
        }
    }

    /// A report while the initializers run: the next initializer is due
    /// after one that succeeded, the loading of the entry module after the last;
    /// an initializer that threw fails the session.
    pub open spec fn in_init(self, event: Event) -> EngineModel {
        match event {
            Event::InitializerDone(None) => if self.cursor + 1 < self.initializers {
                EngineModel { cursor: self.cursor + 1, ..self }
            } else {
                EngineModel { phase: Phase::Loading, cursor: 0, ..self }
            },
            Event::InitializerDone(Some(exception)) => self.fail(Failure::Exception(exception)),
            _ => self,
        }
    }

    /// A report while the entry module is loaded: the evaluation is due once
    /// the module is there; a module that did not resolve or load fails the
    /// session with the error that says why.
    pub open spec fn in_loading(self, event: Event) -> EngineModel {
        match event {
            Event::EntryLoaded => EngineModel { phase: Phase::Evaluating, step: Step::Act, ..self },
            Event::EntryUnresolved(e) => self.fail(Failure::Resolution(e)),
            Event::EntryUnloaded(e) => self.fail(Failure::Load(e)),
            _ => self,
        }
    }

    /// The reactor was polled: the jobs are due.
    pub open spec fn polled(self, delivered: usize) -> EngineModel {
        if self.step == Step::Poll {
            EngineModel { step: Step::Jobs, worked: self.worked || delivered > 0, ..self }
        } else {
            self
        }
    }

    /// The state of the evaluation's completion was looked at. A settled
    /// evaluation is followed by the drain. A pending one is driven by one more
    /// cycle of poll and jobs, as long as the cycle before had something to do;
    /// one that is pending while nothing is left that could settle it counts as a
    /// failure.
    pub open spec fn evaluated(self, evaluation: Evaluation) -> EngineModel {
        if self.step == Step::Act || self.step == Step::Check {
            match evaluation {
                Evaluation::Settled => self.start_drain(DrainPass::Module),
                Evaluation::Threw(exception) => self.after_throw(Failure::Exception(exception)),
                Evaluation::Pending => if self.step == Step::Act || self.worked {
                    EngineModel {
                        step: Step::Poll,
                        pass: DrainPass::Module,
                        worked: false,
                        ..self
                    }
                } else {
                    self.after_throw(Failure::Unsettled)
                },
            }
        } else {
            self
        }
    }

    /// A report while the entry module is evaluated. While the completion
    /// of the evaluation is pending the reactor is polled and the jobs are run as
    /// in a drain, and each empty queue is followed by a look at the completion.
    pub open spec fn in_evaluating(self, event: Event) -> EngineModel {
        match event {
            Event::Evaluated(evaluation) => self.evaluated(evaluation),
            Event::ReactorPolled(delivered) => self.polled(delivered),
            Event::JobRan(thrown) => if self.step == Step::Jobs {
                self.after_job(thrown)
            } else {
                self
            },
            Event::QueueEmpty(reactor_idle) => if self.step == Step::Jobs {
                EngineModel { step: Step::Check, worked: self.worked || !reactor_idle, ..self }
            } else {
                self
            },
            _ => self,
        }
    }

    /// A report during a drain. A job that ran is followed by the next job.
    /// An empty queue ends the drain where the reactor is idle as well, and
    /// begins the next cycle, with a poll, where it is not.
    pub open spec fn in_draining(self, event: Event) -> EngineModel {
        match event {
            Event::ReactorPolled(delivered) => self.polled(delivered),
            Event::JobRan(thrown) => if self.step == Step::Jobs {
                self.after_job(thrown)
            } else {
                self
            },
            Event::QueueEmpty(reactor_idle) => if self.step == Step::Jobs {
                if reactor_idle {
                    self.after_drain()
                } else {
                    EngineModel { step: Step::Poll, worked: false, ..self }
                }
            } else {
                self
            },
            _ => self,
        }
    }

    /// The session after the host reported `event`. A report that does not
    /// answer the action that was due changes nothing.
    pub open spec fn advance(self, event: Event) -> EngineModel {
        match self.phase {
            Phase::Init => self.in_init(event),
            Phase::Loading => self.in_loading(event),
            Phase::Evaluating => self.in_evaluating(event),
            Phase::Draining => self.in_draining(event),
            Phase::Testing => match event {
                Event::TestRan(outcome) => self.after_test(outcome),
                _ => self,
            },
            Phase::Resolving => match event {
                Event::PendingSettled(rejected) => self.after_settled(rejected),
                _ => self,
            },
            Phase::Completed => self,
            Phase::Failed => self,
        }
    }
}

/// One session of the script engine.
pub struct Engine {
    config: SessionConfig,
    initializers: usize,
    phase: Phase,
    step: Step,
    pass: DrainPass,
    cursor: usize,
    worked: bool,
    failure: Option<Failure>,
    recorded: Vec<Failure>,
    tests: Vec<TestDef>,
    selected: Vec<usize>,
    results: Vec<TestResult>,
    pending: Vec<PendingTestPromise>,
}

impl Engine {
    /// The session as plain values.
    pub closed spec fn view(&self) -> EngineModel {
        EngineModel {
            test_mode: self.config.test_mode,
            initializers: self.initializers as nat,
            phase: self.phase,
            step: self.step,
            pass: self.pass,
            cursor: self.cursor as nat,
            worked: self.worked,
            failure: self.failure,
            recorded: self.recorded@,
            tests: self.tests@,
            selected: self.selected@,
            results: self.results@,
            pending: self.pending@,
        }
    }

    /// What the session was started with.
    pub closed spec fn session(&self) -> SessionConfig {
        self.config
    }

    /// The parts of the session fit together.
    pub open spec fn wf(&self) -> bool {
        self@.wf() && self@.test_mode == self.session().test_mode
    }

    /// The session as it begins: with the first initializer due, or with
    /// the loading of the entry module where there is no initializer.
    pub open spec fn initial(test_mode: bool, initializers: nat) -> EngineModel {
        EngineModel {
            test_mode,
            initializers,
            phase: if initializers == 0 {
                Phase::Loading
            } else {
                Phase::Init
            },
            step: Step::Act,
            pass: DrainPass::Module,
            cursor: 0,
            worked: false,
            failure: None,
            recorded: Seq::empty(),
            tests: Seq::empty(),
            selected: Seq::empty(),
            results: Seq::empty(),
            pending: Seq::empty(),
        }
    }

    /// A fresh session with the given number of global initializers.
    pub fn new(config: SessionConfig, initializers: usize) -> (engine: Self)
        ensures
            engine.wf(),
            engine.session() == config,
            engine@ == Self::initial(config.test_mode, initializers as nat),
    {
        Engine {
            config,
            initializers,
            phase: if initializers == 0 {
                Phase::Loading
            } else {
                Phase::Init
            },
            step: Step::Act,
            pass: DrainPass::Module,
            cursor: 0,
            worked: false,
            failure: None,
            recorded: Vec::new(),
            tests: Vec::new(),
            selected: Vec::new(),
            results: Vec::new(),
            pending: Vec::new(),
        }
    }

    /// What the session was started with.
    pub fn config(&self) -> (config: &SessionConfig)
        ensures
            *config == self.session(),
    {
        &self.config
    }

    /// The state of the session.
    pub fn phase(&self) -> (phase: Phase)
        ensures
            phase == self@.phase,
    {
        self.phase
    }

    /// Why the session failed.
    pub fn failure(&self) -> (failure: &Option<Failure>)
        ensures
            *failure == self@.failure,
    {
        &self.failure
    }

    /// Test mode: the failures recorded so far.
    pub fn recorded(&self) -> (recorded: &Vec<Failure>)
        ensures
            recorded@ == self@.recorded,
    {
        &self.recorded
    }

    /// Test mode: the reports on the tests that have finished.
    pub fn results(&self) -> (results: &Vec<TestResult>)
        ensures
            results@ == self@.results,
    {
        &self.results
    }

    /// Test mode: the tests that wait for the second phase.
    pub fn pending(&self) -> (pending: &Vec<PendingTestPromise>)
        ensures
            pending@ == self@.pending,
    {
        &self.pending
    }

    /// Registers a test. The script does so while the entry module is
    /// evaluated and drained.
    pub fn register_test(&mut self, test: TestDef)
        requires
            old(self).wf(),
        ensures
            final(self).wf(),
            final(self).session() == old(self).session(),
            final(self)@ == (EngineModel { tests: old(self)@.tests.push(test), ..old(self)@ }),
    {
        self.tests.push(test);
        let count = self.tests.len();
        assert(self@.tests.len() == count);
    }

    /// The exit code of the session as it stands.
    pub fn exit_code(&self) -> (code: i32)
        ensures
            code == self@.exit_code(),
    {
        let completed = match self.phase {
            Phase::Completed => true,
            _ => false,
        };
        if completed && self.recorded.len() == 0 && count_failures(&self.results) == 0 {
            0
        } else {
            1
        }
    }

    /// What the host has to do next.
    pub fn action(&self) -> (action: Action)
        requires
            self.wf(),
        ensures
            action == self@.action(),
    {
        match self.phase {
            Phase::Init => Action::RunInitializer(self.cursor),
            Phase::Loading => Action::LoadEntry,
            Phase::Evaluating => match self.step {
                Step::Act => Action::Evaluate,
                Step::Poll => Action::PollReactor,
                Step::Jobs => Action::RunJob,
                Step::Check => Action::AwaitEvaluation,
            },
            Phase::Draining => match self.step {
                Step::Jobs => Action::RunJob,
                _ => Action::PollReactor,
            },
            Phase::Testing => Action::RunTest(self.selected[self.cursor]),
            Phase::Resolving => Action::ResolvePending(self.pending[self.cursor].handle),
            Phase::Completed => Action::Exit(self.exit_code()),
            Phase::Failed => Action::Exit(self.exit_code()),
        }
    }

    fn fail(&mut self, failure: Failure)
        ensures
            final(self)@ == old(self)@.fail(failure),
            final(self).session() == old(self).session(),
    {
        self.phase = Phase::Failed;
        self.failure = Some(failure);
    }

    fn raise(&mut self, failure: Failure)
        ensures
            final(self)@ == old(self)@.raise(failure),
            final(self).session() == old(self).session(),
    {
        if self.config.test_mode {
            self.recorded.push(failure);
        } else {
            self.fail(failure);
        }
    }

    fn start_drain(&mut self, pass: DrainPass)
        ensures
            final(self)@ == old(self)@.start_drain(pass),
            final(self).session() == old(self).session(),
    {
        self.phase = Phase::Draining;
        self.step = Step::Poll;
        self.pass = pass;
        self.cursor = 0;
        self.worked = false;
    }

    fn after_throw(&mut self, failure: Failure)
        ensures
            final(self)@ == old(self)@.after_throw(failure),
            final(self).session() == old(self).session(),
    {
        self.raise(failure);
        if self.config.test_mode {
            self.start_drain(DrainPass::Module);
        }
    }

    fn after_job(&mut self, thrown: Option<RuntimeException>)
        ensures
            final(self)@ == old(self)@.after_job(thrown),
            final(self).session() == old(self).session(),
    {
        self.worked = true;
        if let Some(exception) = thrown {
            self.raise(Failure::Exception(exception));
        }
    }

    fn after_drain(&mut self)
        ensures
            final(self)@ == old(self)@.after_drain(),
            final(self).session() == old(self).session(),
            final(self)@.phase == Phase::Testing ==> forall|k: int|
                0 <= k < final(self)@.selected.len() ==> (#[trigger] final(self)@.selected[k])
                    < final(self)@.tests.len(),
    {
        if !self.config.test_mode {
            self.phase = Phase::Completed;
            return ;
        }
        match self.pass {
            DrainPass::Module => {
                let chosen = select(&self.tests);
                let count = self.tests.len();
                proof {
                    lemma_selection_in_range(self.tests@, count as int);
                }
                if chosen.len() > 0 {
                    self.phase = Phase::Testing;
                    self.cursor = 0;
                    self.selected = chosen;
                } else {
                    self.phase = Phase::Completed;
                }
            },
            DrainPass::Tests => {
                if self.pending.len() > 0 {
                    self.phase = Phase::Resolving;
                    self.cursor = 0;
                } else {
                    self.phase = Phase::Completed;
                }
            },
            DrainPass::Pending => {
                self.phase = Phase::Completed;
            },
        }
    }

    fn after_test(&mut self, outcome: TestOutcome)
        requires
            old(self).wf(),
            old(self)@.phase == Phase::Testing,
        ensures
            final(self).wf(),
            final(self)@ == old(self)@.after_test(outcome),
            final(self).session() == old(self).session(),
    {
        let count = self.selected.len();
        let next = self.cursor + 1;
        let last = next >= count;
        let name = self.tests[self.selected[self.cursor]].name.clone();
        match outcome {
            TestOutcome::Pending(handle, started_ms) => {
                self.pending.push(PendingTestPromise { name, handle, started_ms });
            },
            TestOutcome::Failed(message, stack) => {
                self.results.push(
                    TestResult { name, passed: false, error: Some(message), error_stack: stack },
                );
            },
            TestOutcome::Passed => {
                self.results.push(
                    TestResult { name, passed: true, error: None, error_stack: None },
                );
            },
        }
        if !last {
            self.cursor = next;
        } else {
            self.tests = Vec::new();
            self.start_drain(DrainPass::Tests);
        }
    }

    fn after_settled(&mut self, rejected: Option<RuntimeException>)
        requires
            old(self).wf(),
            old(self)@.phase == Phase::Resolving,
        ensures
            final(self).wf(),
            final(self)@ == old(self)@.after_settled(rejected),
            final(self).session() == old(self).session(),
    {
        let count = self.pending.len();
        let next = self.cursor + 1;
        let last = next >= count;
        let name = self.pending[self.cursor].name.clone();
        let report = match rejected {
            Some(exception) => TestResult {
                name,
                passed: false,
                error: Some(exception.message),
                error_stack: exception.stack,
            },
            None => TestResult { name, passed: true, error: None, error_stack: None },
        };
        self.results.push(report);
        if !last {
            self.cursor = next;
        } else {
            self.pending = Vec::new();
            self.start_drain(DrainPass::Pending);
        }
    }

    fn polled(&mut self, delivered: usize)
        ensures
            final(self)@ == old(self)@.polled(delivered),
            final(self).session() == old(self).session(),
    {
        if let Step::Poll = self.step {
            self.step = Step::Jobs;
            self.worked = self.worked || delivered > 0;
        }
    }

    fn step_init(&mut self, event: Event)
        requires
            old(self).wf(),
            old(self)@.phase == Phase::Init,
        ensures
            final(self).wf(),
            final(self).session() == old(self).session(),
            final(self)@ == old(self)@.in_init(event),
    {
        match event {
            Event::InitializerDone(None) => {
                if self.cursor + 1 < self.initializers {
                    self.cursor = self.cursor + 1;
                } else {
                    self.phase = Phase::Loading;
                    self.cursor = 0;
                }
            },
            Event::InitializerDone(Some(exception)) => {
                self.fail(Failure::Exception(exception));
            },
            _ => {},
        }
    }

    fn step_loading(&mut self, event: Event)
        requires
            old(self).wf(),
            old(self)@.phase == Phase::Loading,
        ensures
            final(self).wf(),
            final(self).session() == old(self).session(),
            final(self)@ == old(self)@.in_loading(event),
    {
        match event {
            Event::EntryLoaded => {
                self.phase = Phase::Evaluating;
                self.step = Step::Act;
            },
            Event::EntryUnresolved(e) => {
                self.fail(Failure::Resolution(e));
            },
            Event::EntryUnloaded(e) => {
                self.fail(Failure::Load(e));
            },
            _ => {},
        }
    }

    fn evaluated(&mut self, evaluation: Evaluation)
        requires
            old(self).wf(),
            old(self)@.phase == Phase::Evaluating,
        ensures
            final(self).wf(),
            final(self).session() == old(self).session(),
            final(self)@ == old(self)@.evaluated(evaluation),
    {
        let fresh = match self.step {
            Step::Act => true,
            _ => false,
        };
        let due = match self.step {
            Step::Act => true,
            Step::Check => true,
            _ => false,
        };
        if due {
            match evaluation {
                Evaluation::Settled => {
                    self.start_drain(DrainPass::Module);
                },
                Evaluation::Threw(exception) => {
                    self.after_throw(Failure::Exception(exception));
                },
                Evaluation::Pending => {
                    if fresh || self.worked {
                        self.step = Step::Poll;
                        self.pass = DrainPass::Module;
                        self.worked = false;
                    } else {
                        self.after_throw(Failure::Unsettled);
                    }
                },
            }
        }
    }

    fn step_evaluating(&mut self, event: Event)
        requires
            old(self).wf(),
            old(self)@.phase == Phase::Evaluating,
        ensures
            final(self).wf(),
            final(self).session() == old(self).session(),
            final(self)@ == old(self)@.in_evaluating(event),
    {
        match event {
            Event::Evaluated(evaluation) => {
                self.evaluated(evaluation);
            },
            Event::ReactorPolled(delivered) => {
                self.polled(delivered);
            },
            Event::JobRan(thrown) => {
                if let Step::Jobs = self.step {
                    self.after_job(thrown);
                }
            },
            Event::QueueEmpty(reactor_idle) => {
                if let Step::Jobs = self.step {
                    self.step = Step::Check;
                    self.worked = self.worked || !reactor_idle;
                }
            },
            _ => {},
        }
    }

    fn step_draining(&mut self, event: Event)
        requires
            old(self).wf(),
            old(self)@.phase == Phase::Draining,
        ensures
            final(self).wf(),
            final(self).session() == old(self).session(),
            final(self)@ == old(self)@.in_draining(event),
    {
        match event {
            Event::ReactorPolled(delivered) => {
                self.polled(delivered);
            },
            Event::JobRan(thrown) => {
                if let Step::Jobs = self.step {
                    self.after_job(thrown);
                }
            },
            Event::QueueEmpty(reactor_idle) => {
                if let Step::Jobs = self.step {
                    if reactor_idle {
                        self.after_drain();
                    } else {
                        self.step = Step::Poll;
                        self.worked = false;
                    }
                }
            },
            _ => {},
        }
    }

    /// Takes the host's report on the action that was due and answers with the
    /// action that is due next.
    pub fn step(&mut self, event: Event) -> (action: Action)
        requires
            old(self).wf(),
        ensures
            final(self).wf(),
            final(self).session() == old(self).session(),
            final(self)@ == old(self)@.advance(event),
            action == final(self)@.action(),
    {
        match self.phase {
            Phase::Init => {
                self.step_init(event);
            },
            Phase::Loading => {
                self.step_loading(event);
            },
            Phase::Evaluating => {
                self.step_evaluating(event);
            },
            Phase::Draining => {
                self.step_draining(event);
            },
            Phase::Testing => match event {
                Event::TestRan(outcome) => {
                    self.after_test(outcome);
                },
                _ => {},
            },
            Phase::Resolving => match event {
                Event::PendingSettled(rejected) => {
                    self.after_settled(rejected);
                },
                _ => {},
            },
            Phase::Completed => {},
            Phase::Failed => {},
        }
        self.action()
    }

    /// Takes the reports of a host one after the other, and answers with the
    /// action that was due after each.
    pub fn replay(&mut self, events: Vec<Event>) -> (actions: Vec<Action>)
        requires
            old(self).wf(),
        ensures
            final(self).wf(),
            final(self).session() == old(self).session(),
            final(self)@ == run(old(self)@, events@),
            actions@.len() == events@.len(),
            forall|i: int|
                0 <= i < events@.len() ==> #[trigger] actions@[i] == run(
                    old(self)@,
                    events@.take(i + 1),
                ).action(),
    {
        let mut actions: Vec<Action> = Vec::new();
        let mut rest = events;
        let ghost all = rest@;
        let ghost start = self@;
        let mut done: usize = 0;
        let total = rest.len();
        let mut events: Vec<Event> = Vec::new();
        while rest.len() > 0
            invariant
                rest@.len() + events@.len() == total,
                total == all.len(),
                forall|k: int| 0 <= k < rest@.len() ==> rest@[k] == all[k],
                forall|k: int| 0 <= k < events@.len() ==> events@[k] == all[total - 1 - k],
            decreases rest.len(),
        {
            let event = rest.pop().unwrap();
            events.push(event);
        }
        assert(all.take(0) == Seq::<Event>::empty());
        while done < total
            invariant
                done <= total,
                total == all.len(),
                self.wf(),
                self.session() == old(self).session(),
                start == old(self)@,
                self@ == run(start, all.take(done as int)),
                events@.len() == total - done,
                forall|k: int| 0 <= k < events@.len() ==> events@[k] == all[total - 1 - k],
                actions@.len() == done,
                forall|i: int|
                    0 <= i < done ==> #[trigger] actions@[i] == run(start, all.take(i + 1)).action(),
            decreases total - done,
        {
            let event = events.pop().unwrap();
            proof {
                assert(event == all[done as int]);
                assert(all.take(done + 1).drop_last() == all.take(done as int));
                assert(all.take(done + 1).last() == all[done as int]);
            }
            let action = self.step(event);
            actions.push(action);
            done += 1;
        }
        assert(all.take(total as int) == all);
        actions
    }
}

/// The session after the host reported the events one after the other.
pub open spec fn run(start: EngineModel, events: Seq<Event>) -> EngineModel
    decreases events.len(),
{
    if events.len() == 0 {
        start
    } else {
        run(start, events.drop_last()).advance(events.last())
    }
}

/// The reports of a host whose initializers all succeed, `n` of them.
pub open spec fn initializers_done(n: nat) -> Seq<Event> {
    Seq::new(n, |i: int| Event::InitializerDone(None))
}

/// The reports of a host on one quiet cycle so far: the reactor delivered
/// nothing, and `n` jobs ran without throwing.
pub open spec fn quiet_jobs(n: nat) -> Seq<Event>
    decreases n,
{
    if n == 0 {
        seq![Event::ReactorPolled(0)]
    } else {
        quiet_jobs((n - 1) as nat).push(Event::JobRan(None))
    }
}

/// The reports of a host on one whole quiet cycle: the reactor delivered
/// nothing, `n` jobs ran without throwing, then the queue was empty and the
/// reactor idle.
pub open spec fn quiet_cycle(n: nat) -> Seq<Event> {
    quiet_jobs(n).push(Event::QueueEmpty(true))
}

/// The reports of a host on the calls of test bodies with the given outcomes.
pub open spec fn tests_ran(outcomes: Seq<TestOutcome>) -> Seq<Event> {
    Seq::new(outcomes.len(), |i: int| Event::TestRan(outcomes[i]))
}

/// A step keeps a session well formed.
pub proof fn lemma_advance_wf(m: EngineModel, event: Event)
    requires
        m.wf(),
    ensures
        m.advance(event).wf(),
{
    if m.phase == Phase::Draining && m.test_mode && m.pass == DrainPass::Module {
        lemma_selection_in_range(m.tests, m.tests.len() as int);
    }
}

/// The initializers are run exactly once each and in registration order:
/// while they succeed, the initializer due after `k` of them is the one at
/// position `k`, and after the last one the entry module is loaded.
pub proof fn law_initializers_run_in_order(test_mode: bool, count: nat, k: nat)
    requires
        0 < count <= usize::MAX,
        k <= count,
    ensures
        ({
            let after = run(Engine::initial(test_mode, count), initializers_done(k));
            if k < count {
                after.phase == Phase::Init && after.action() == Action::RunInitializer(k as usize)
            } else {
                after.phase == Phase::Loading && after.action() == Action::LoadEntry
            }
        }),
    decreases k,
{
    let start = Engine::initial(test_mode, count);
    if k == 0 {
        assert(initializers_done(0) =~= Seq::<Event>::empty());
    } else {
        law_initializers_run_in_order(test_mode, count, (k - 1) as nat);
        assert(initializers_done(k).drop_last() =~= initializers_done((k - 1) as nat));
        let before = run(start, initializers_done((k - 1) as nat));
        lemma_initial_cursor(test_mode, count, (k - 1) as nat);
        assert(before.cursor == k - 1);
    }
}

proof fn lemma_initial_cursor(test_mode: bool, count: nat, k: nat)
    requires
        0 < count,
        k < count,
    ensures
        run(Engine::initial(test_mode, count), initializers_done(k)).cursor == k,
        run(Engine::initial(test_mode, count), initializers_done(k)).phase == Phase::Init,
        run(Engine::initial(test_mode, count), initializers_done(k)).initializers == count,
    decreases k,
{
    if k == 0 {
        assert(initializers_done(0) =~= Seq::<Event>::empty());
    } else {
        lemma_initial_cursor(test_mode, count, (k - 1) as nat);
        assert(initializers_done(k).drop_last() =~= initializers_done((k - 1) as nat));
    }
}

proof fn lemma_quiet_jobs(drain: EngineModel, n: nat)
    requires
        drain.phase == Phase::Draining,
        drain.step == Step::Poll,
        !drain.worked,
    ensures
        run(drain, quiet_jobs(n)) == (EngineModel { step: Step::Jobs, worked: n > 0, ..drain }),
    decreases n,
{
    if n == 0 {
        assert(quiet_jobs(0).drop_last() =~= Seq::<Event>::empty());
        assert(run(drain, quiet_jobs(0).drop_last()) == drain);
    } else {
        lemma_quiet_jobs(drain, (n - 1) as nat);
        assert(quiet_jobs(n).drop_last() =~= quiet_jobs((n - 1) as nat));
    }
}

/// With no I/O pending and `n` jobs queued by promises that have settled, the
/// drain after the evaluation takes exactly one cycle: the reactor is polled
/// once, each of the `n` reports of a job is answered by the request for the
/// next job, and the report of the empty queue ends the drain. Where no test was
/// registered the session is `Completed` with that, and leaves with exit code 0
/// where nothing went on record.
pub proof fn law_quiet_drain_takes_one_cycle(evaluating: EngineModel, n: nat)
    requires
        evaluating.wf(),
        evaluating.phase == Phase::Evaluating,
        evaluating.step == Step::Act || evaluating.step == Step::Check,
    ensures
        ({
            let drain = evaluating.advance(Event::Evaluated(Evaluation::Settled));
            let end = run(drain, quiet_cycle(n));
            &&& drain.phase == Phase::Draining
            &&& drain.action() == Action::PollReactor
            &&& forall|k: nat| k <= n ==> (#[trigger] run(drain, quiet_jobs(k))).action() == Action::RunJob
            &&& end.phase != Phase::Draining
            &&& end == (EngineModel { step: Step::Jobs, worked: n > 0, ..drain }).after_drain()
            &&& !evaluating.test_mode || selection(evaluating.tests).len() == 0 ==> end.phase
                == Phase::Completed
            &&& end.phase == Phase::Completed && evaluating.recorded.len() == 0 && failures(
                evaluating.results,
            ) == 0 ==> end.action() == Action::Exit(0)
        }),
{
    let drain = evaluating.advance(Event::Evaluated(Evaluation::Settled));
    assert forall|k: nat| k <= n implies (#[trigger] run(drain, quiet_jobs(k))).action()
        == Action::RunJob by {
        lemma_quiet_jobs(drain, k);
    }
    lemma_quiet_jobs(drain, n);
    assert(quiet_cycle(n).drop_last() =~= quiet_jobs(n));
}

/// A session that has ended stays as it is: no report moves it, and the exit
/// that is due remains the same.
pub proof fn law_ended_sessions_stay(m: EngineModel, event: Event)
    requires
        m.ended(),
    ensures
        m.advance(event) == m,
{
}

/// The entry module is evaluated once: after it is loaded the evaluation is
/// due until the host reports on it, and never again after that.
pub proof fn law_entry_is_evaluated_once(m: EngineModel, event: Event)
    requires
        m.wf(),
        m.phase != Phase::Init,
        m.phase != Phase::Loading,
        m.advance(event).action() == Action::Evaluate,
    ensures
        m.action() == Action::Evaluate,
        m.advance(event) == m,
        !(event is Evaluated),
{
    lemma_advance_wf(m, event);
}

/// `Completed` is reported only on the word that the queue is empty and the
/// reactor idle, given while jobs were being drained: no other report moves a
/// session there.
pub proof fn law_completed_only_when_quiet(m: EngineModel, event: Event)
    requires
        m.wf(),
        m.phase != Phase::Completed,
        m.advance(event).phase == Phase::Completed,
    ensures
        m.phase == Phase::Draining,
        m.step == Step::Jobs,
        event == Event::QueueEmpty(true),
{
}

/// A job that ran is followed by the request for the next job. So a job that
/// a job enqueued is asked for, and run, before the queue can be reported empty
/// and with that before `Completed` can be reported. (Outside test mode a job
/// that threw ends the session in `Failed` instead.)
pub proof fn law_job_is_followed_by_job(m: EngineModel, thrown: Option<RuntimeException>)
    requires
        m.wf(),
        m.phase == Phase::Draining || m.phase == Phase::Evaluating,
        m.step == Step::Jobs,
        m.test_mode || thrown is None,
    ensures
        m.advance(Event::JobRan(thrown)).phase == m.phase,
        m.advance(Event::JobRan(thrown)).action() == Action::RunJob,
        forall|next: Event| #[trigger]
            m.advance(Event::JobRan(thrown)).advance(next).phase == Phase::Completed ==> next
                == Event::QueueEmpty(true),
{
    let after = m.advance(Event::JobRan(thrown));
    lemma_advance_wf(m, Event::JobRan(thrown));
    assert forall|next: Event| #[trigger]
        after.advance(next).phase == Phase::Completed implies next == Event::QueueEmpty(true) by {
        law_completed_only_when_quiet(after, next);
    }
}

/// An uncaught exception never passes in silence: outside test mode it ends
/// the session in `Failed` at once, with the exception as the failure; in test
/// mode it goes on record, and the exit code is 1 from then on.
pub proof fn law_exception_is_surfaced(m: EngineModel, exception: RuntimeException)
    requires
        m.wf(),
        m.phase == Phase::Draining || m.phase == Phase::Evaluating,
        m.step == Step::Jobs,
    ensures
        ({
            let after = m.advance(Event::JobRan(Some(exception)));
            &&& !m.test_mode ==> after.phase == Phase::Failed && after.failure == Some(
                Failure::Exception(exception),
            ) && after.action() == Action::Exit(1)
            &&& m.test_mode ==> after.phase == m.phase && after.recorded == m.recorded.push(
                Failure::Exception(exception),
            ) && after.exit_code() == 1
        }),
{
}

/// The selected test at position `i` is on record with its outcome: it has its
/// report where the outcome is final, and stands among the pending where its body
/// returned a promise.
pub open spec fn on_record(m: EngineModel, i: int, outcome: TestOutcome, after: EngineModel) -> bool {
    let name = m.tests[m.selected[i] as int].name;
    match outcome {
        TestOutcome::Pending(handle, started_ms) => after.pending.contains(
            PendingTestPromise { name, handle, started_ms },
        ),
        _ => after.results.contains(result_of(name, outcome)),
    }
}

proof fn lemma_record_stays(m: EngineModel, i: int, outcome: TestOutcome, before: EngineModel, next: TestOutcome)
    requires
        before.phase == Phase::Testing,
        on_record(m, i, outcome, before),
    ensures
        on_record(m, i, outcome, before.after_test(next)),
{
    let after = before.after_test(next);
    let name = m.tests[m.selected[i] as int].name;
    match outcome {
        TestOutcome::Pending(handle, started_ms) => {
            let entry = PendingTestPromise { name, handle, started_ms };
            let k = choose|k: int| 0 <= k < before.pending.len() && before.pending[k] == entry;
            assert(after.pending[k] == entry);
        },
        _ => {
            let entry = result_of(name, outcome);
            let k = choose|k: int| 0 <= k < before.results.len() && before.results[k] == entry;
            assert(after.results[k] == entry);
        },
    }
}

proof fn lemma_tests_ran(m: EngineModel, outcomes: Seq<TestOutcome>)
    requires
        m.wf(),
        m.phase == Phase::Testing,
        m.cursor == 0,
        outcomes.len() < m.selected.len(),
    ensures
        ({
            let after = run(m, tests_ran(outcomes));
            &&& after.wf()
            &&& after.phase == Phase::Testing
            &&& after.cursor == outcomes.len()
            &&& after.selected == m.selected
            &&& after.tests == m.tests
            &&& after.results.len() + after.pending.len() == m.results.len() + m.pending.len()
                + outcomes.len()
            &&& forall|i: int| 0 <= i < outcomes.len() ==> on_record(m, i, #[trigger] outcomes[i], after)
        }),
    decreases outcomes.len(),
{
    if outcomes.len() == 0 {
        assert(tests_ran(outcomes) =~= Seq::<Event>::empty());
    } else {
        let earlier = outcomes.drop_last();
        let before = run(m, tests_ran(earlier));
        let after = run(m, tests_ran(outcomes));
        lemma_tests_ran(m, earlier);
        assert(tests_ran(outcomes).drop_last() =~= tests_ran(earlier));
        assert(tests_ran(outcomes).last() == Event::TestRan(outcomes.last()));
        lemma_advance_wf(before, Event::TestRan(outcomes.last()));
        assert(after == before.after_test(outcomes.last()));
        assert forall|i: int| 0 <= i < outcomes.len() implies on_record(
            m,
            i,
            #[trigger] outcomes[i],
            after,
        ) by {
            if i < earlier.len() {
                assert(outcomes[i] == earlier[i]);
                lemma_record_stays(m, i, outcomes[i], before, outcomes.last());
            } else {
                lemma_last_is_on_record(m, before, outcomes.last());
            }
        }
    }
}

proof fn lemma_last_is_on_record(m: EngineModel, before: EngineModel, outcome: TestOutcome)
    requires
        before.phase == Phase::Testing,
        before.selected == m.selected,
        before.tests == m.tests,
    ensures
        on_record(m, before.cursor as int, outcome, before.after_test(outcome)),
{
    let after = before.after_test(outcome);
    let name = m.tests[m.selected[before.cursor as int] as int].name;
    match outcome {
        TestOutcome::Pending(handle, started_ms) => {
            assert(after.pending[before.pending.len() as int] == (PendingTestPromise {
                name,
                handle,
                started_ms,
            }));
        },
        _ => {
            assert(after.results[before.results.len() as int] == result_of(name, outcome));
        },
    }
}

/// Every selected test is called and accounted for, whatever became of the
/// tests before it: after any outcomes of the first `k` selected tests, a
/// failure among them or not, the test due is the selected test at position
/// `k`, and each of the `k` is on record with its outcome.
pub proof fn law_every_selected_test_is_called(m: EngineModel, outcomes: Seq<TestOutcome>)
    requires
        m.wf(),
        m.phase == Phase::Testing,
        m.cursor == 0,
        outcomes.len() < m.selected.len(),
    ensures
        ({
            let after = run(m, tests_ran(outcomes));
            &&& after.phase == Phase::Testing
            &&& after.action() == Action::RunTest(m.selected[outcomes.len() as int])
            &&& after.results.len() + after.pending.len() == m.results.len() + m.pending.len()
                + outcomes.len()
            &&& forall|i: int| 0 <= i < outcomes.len() ==> on_record(m, i, #[trigger] outcomes[i], after)
        }),
{
    lemma_tests_ran(m, outcomes);
}

/// After the last selected test no test is left out: each of them is on
/// record with its outcome, the reports and the pending together are as many as
/// the tests that were selected, and the session goes on to drain.
pub proof fn law_all_selected_tests_are_reported(m: EngineModel, outcomes: Seq<TestOutcome>)
    requires
        m.wf(),
        m.phase == Phase::Testing,
        m.cursor == 0,
        outcomes.len() == m.selected.len(),
    ensures
        ({
            let after = run(m, tests_ran(outcomes));
            &&& after.phase == Phase::Draining
            &&& after.pass == DrainPass::Tests
            &&& after.results.len() + after.pending.len() == m.results.len() + m.pending.len()
                + m.selected.len()
            &&& forall|i: int| 0 <= i < outcomes.len() ==> on_record(m, i, #[trigger] outcomes[i], after)
        }),
{
    let earlier = outcomes.drop_last();
    let before = run(m, tests_ran(earlier));
    let after = run(m, tests_ran(outcomes));
    lemma_tests_ran(m, earlier);
    assert(tests_ran(outcomes).drop_last() =~= tests_ran(earlier));
    assert(tests_ran(outcomes).last() == Event::TestRan(outcomes.last()));
    assert(after == before.after_test(outcomes.last()));
    assert forall|i: int| 0 <= i < outcomes.len() implies on_record(
        m,
        i,
        #[trigger] outcomes[i],
        after,
    ) by {
        if i < earlier.len() {
            assert(outcomes[i] == earlier[i]);
            lemma_record_stays(m, i, outcomes[i], before, outcomes.last());
        } else {
            lemma_last_is_on_record(m, before, outcomes.last());
        }
    }
}

/// The reports of a host on the pending promises, one after the other.
pub open spec fn promises_settled(verdicts: Seq<Option<RuntimeException>>) -> Seq<Event> {
    Seq::new(verdicts.len(), |i: int| Event::PendingSettled(verdicts[i]))
}

proof fn lemma_promises_settled(m: EngineModel, verdicts: Seq<Option<RuntimeException>>)
    requires
        m.wf(),
        m.phase == Phase::Resolving,
        m.cursor == 0,
        verdicts.len() < m.pending.len(),
    ensures
        ({
            let after = run(m, promises_settled(verdicts));
            &&& after.wf()
            &&& after.phase == Phase::Resolving
            &&& after.cursor == verdicts.len()
            &&& after.pending == m.pending
            &&& after.results.len() == m.results.len() + verdicts.len()
        }),
    decreases verdicts.len(),
{
    if verdicts.len() == 0 {
        assert(promises_settled(verdicts) =~= Seq::<Event>::empty());
    } else {
        let earlier = verdicts.drop_last();
        lemma_promises_settled(m, earlier);
        assert(promises_settled(verdicts).drop_last() =~= promises_settled(earlier));
        assert(promises_settled(verdicts).last() == Event::PendingSettled(verdicts.last()));
        lemma_advance_wf(run(m, promises_settled(earlier)), Event::PendingSettled(verdicts.last()));
    }
}

/// The second phase settles the pending promises one at a time and in their
/// order, each whatever became of the one before: after any verdicts on the
/// first `k` the promise due is the one at position `k`, and each verdict has
/// added one report.
pub proof fn law_every_pending_promise_is_settled(m: EngineModel, verdicts: Seq<Option<RuntimeException>>)
    requires
        m.wf(),
        m.phase == Phase::Resolving,
        m.cursor == 0,
        verdicts.len() < m.pending.len(),
    ensures
        ({
            let after = run(m, promises_settled(verdicts));
            &&& after.phase == Phase::Resolving
            &&& after.action() == Action::ResolvePending(m.pending[verdicts.len() as int].handle)
            &&& after.results.len() == m.results.len() + verdicts.len()
        }),
{
    lemma_promises_settled(m, verdicts);
}

} // verus!
