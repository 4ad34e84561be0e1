use mdeno::engine::{
    Action, Engine, Evaluation, Event, Failure, Phase, RuntimeException, SessionConfig,
};
use mdeno::loader::LoadError;
use mdeno::resolver::ResolutionError;
use mdeno::test_runner::{TestDef, TestOutcome};

fn config(test_mode: bool) -> SessionConfig {
    SessionConfig { script_args: Vec::new(), standalone: false, test_mode }
}

fn boom() -> RuntimeException {
    RuntimeException { message: "boom".to_string(), stack: Some("    at main.js:1".to_string()) }
}

fn test(name: &str, ignore: bool, only: bool) -> TestDef {
    TestDef { name: name.to_string(), ignore, only }
}

fn evaluating(test_mode: bool) -> Engine {
    let mut engine = Engine::new(config(test_mode), 0);
    assert_eq!(engine.action(), Action::LoadEntry);
    assert_eq!(engine.step(Event::EntryLoaded), Action::Evaluate);
    engine
}

#[test]
fn initializers_run_once_each_in_order() {
    let mut engine = Engine::new(config(false), 3);
    assert_eq!(engine.phase(), Phase::Init);
    assert_eq!(engine.action(), Action::RunInitializer(0));
    assert_eq!(engine.step(Event::InitializerDone(None)), Action::RunInitializer(1));
    assert_eq!(engine.step(Event::InitializerDone(None)), Action::RunInitializer(2));
    assert_eq!(engine.step(Event::InitializerDone(None)), Action::LoadEntry);
    assert_eq!(engine.phase(), Phase::Loading);
}

#[test]
fn a_failing_initializer_fails_the_session() {
    let mut engine = Engine::new(config(false), 2);
    assert_eq!(engine.step(Event::InitializerDone(None)), Action::RunInitializer(1));
    assert_eq!(engine.step(Event::InitializerDone(Some(boom()))), Action::Exit(1));
    assert_eq!(engine.phase(), Phase::Failed);
    assert!(matches!(engine.failure(), Some(Failure::Exception(e)) if e.message == "boom"));
}

#[test]
fn load_failures_fail_the_session_with_their_error() {
    let mut engine = Engine::new(config(false), 0);
    assert_eq!(engine.step(Event::EntryUnloaded(LoadError::DisallowedKind)), Action::Exit(1));
    assert!(matches!(engine.failure(), Some(Failure::Load(LoadError::DisallowedKind))));

    let mut engine = Engine::new(config(true), 0);
    assert_eq!(engine.step(Event::EntryUnloaded(LoadError::DeserializeFailure)), Action::Exit(1));
    assert!(matches!(engine.failure(), Some(Failure::Load(LoadError::DeserializeFailure))));

    let mut engine = Engine::new(config(false), 0);
    assert_eq!(
        engine.step(Event::EntryUnresolved(ResolutionError::NotFound)),
        Action::Exit(1)
    );
    assert!(matches!(engine.failure(), Some(Failure::Resolution(ResolutionError::NotFound))));
}

#[test]
fn a_quiet_drain_takes_one_cycle() {
    for jobs in [0usize, 1, 2, 7] {
        let mut engine = evaluating(false);
        assert_eq!(engine.step(Event::Evaluated(Evaluation::Settled)), Action::PollReactor);
        assert_eq!(engine.phase(), Phase::Draining);
        let mut polls = 1;
        assert_eq!(engine.step(Event::ReactorPolled(0)), Action::RunJob);
        for _ in 0..jobs {
            let next = engine.step(Event::JobRan(None));
            assert_eq!(next, Action::RunJob);
            if next == Action::PollReactor {
                polls += 1;
            }
        }
        assert_eq!(engine.step(Event::QueueEmpty(true)), Action::Exit(0));
        assert_eq!(engine.phase(), Phase::Completed);
        assert_eq!(engine.exit_code(), 0);
        assert_eq!(polls, 1);
    }
}

#[test]
fn an_enqueued_job_runs_before_completion() {
    let mut engine = evaluating(false);
    engine.step(Event::Evaluated(Evaluation::Settled));
    assert_eq!(engine.step(Event::ReactorPolled(0)), Action::RunJob);
    // the first job enqueues a second one: the host has it in its queue
    assert_eq!(engine.step(Event::JobRan(None)), Action::RunJob);
    assert_eq!(engine.phase(), Phase::Draining);
    assert_eq!(engine.step(Event::JobRan(None)), Action::RunJob);
    assert_eq!(engine.phase(), Phase::Draining);
    assert_eq!(engine.step(Event::QueueEmpty(true)), Action::Exit(0));
    assert_eq!(engine.phase(), Phase::Completed);
}

#[test]
fn pending_io_keeps_the_drain_going() {
    let mut engine = evaluating(false);
    engine.step(Event::Evaluated(Evaluation::Settled));
    assert_eq!(engine.step(Event::ReactorPolled(0)), Action::RunJob);
    assert_eq!(engine.step(Event::QueueEmpty(false)), Action::PollReactor);
    assert_eq!(engine.step(Event::ReactorPolled(2)), Action::RunJob);
    assert_eq!(engine.step(Event::JobRan(None)), Action::RunJob);
    assert_eq!(engine.step(Event::JobRan(None)), Action::RunJob);
    assert_eq!(engine.step(Event::QueueEmpty(false)), Action::PollReactor);
    assert_eq!(engine.step(Event::ReactorPolled(0)), Action::RunJob);
    assert_eq!(engine.step(Event::QueueEmpty(true)), Action::Exit(0));
}

#[test]
fn an_uncaught_exception_ends_a_normal_session_at_once() {
    let mut engine = evaluating(false);
    engine.step(Event::Evaluated(Evaluation::Settled));
    engine.step(Event::ReactorPolled(1));
    assert_eq!(engine.step(Event::JobRan(None)), Action::RunJob);
    assert_eq!(engine.step(Event::JobRan(Some(boom()))), Action::Exit(1));
    assert_eq!(engine.phase(), Phase::Failed);
    // nothing moves a failed session
    assert_eq!(engine.step(Event::JobRan(None)), Action::Exit(1));
    assert_eq!(engine.step(Event::QueueEmpty(true)), Action::Exit(1));
    assert_eq!(engine.phase(), Phase::Failed);
}

#[test]
fn a_throwing_evaluation_fails() {
    let mut engine = evaluating(false);
    assert_eq!(engine.step(Event::Evaluated(Evaluation::Threw(boom()))), Action::Exit(1));
    assert!(matches!(engine.failure(), Some(Failure::Exception(e)) if e.message == "boom"));
}

#[test]
fn a_timer_then_a_throw_surfaces_before_any_success() {
    // the entry module awaits a zero-delay timer and throws after it
    let mut engine = evaluating(false);
    assert_eq!(engine.step(Event::Evaluated(Evaluation::Pending)), Action::PollReactor);
    assert_eq!(engine.phase(), Phase::Evaluating);
    assert_eq!(engine.step(Event::ReactorPolled(1)), Action::RunJob);
    assert_eq!(engine.step(Event::JobRan(None)), Action::RunJob);
    assert_eq!(engine.step(Event::QueueEmpty(true)), Action::AwaitEvaluation);
    assert_ne!(engine.phase(), Phase::Completed);
    assert_eq!(engine.step(Event::Evaluated(Evaluation::Threw(boom()))), Action::Exit(1));
    assert_eq!(engine.phase(), Phase::Failed);
    assert_eq!(engine.exit_code(), 1);
}

#[test]
fn top_level_await_settles_then_drains() {
    let mut engine = evaluating(false);
    assert_eq!(engine.step(Event::Evaluated(Evaluation::Pending)), Action::PollReactor);
    assert_eq!(engine.step(Event::ReactorPolled(1)), Action::RunJob);
    assert_eq!(engine.step(Event::JobRan(None)), Action::RunJob);
    assert_eq!(engine.step(Event::QueueEmpty(false)), Action::AwaitEvaluation);
    assert_eq!(engine.step(Event::Evaluated(Evaluation::Pending)), Action::PollReactor);
    assert_eq!(engine.step(Event::ReactorPolled(1)), Action::RunJob);
    assert_eq!(engine.step(Event::QueueEmpty(true)), Action::AwaitEvaluation);
    assert_eq!(engine.step(Event::Evaluated(Evaluation::Settled)), Action::PollReactor);
    assert_eq!(engine.phase(), Phase::Draining);
    assert_eq!(engine.step(Event::ReactorPolled(0)), Action::RunJob);
    assert_eq!(engine.step(Event::QueueEmpty(true)), Action::Exit(0));
}

#[test]
fn an_await_that_nothing_can_settle_fails() {
    let mut engine = evaluating(false);
    assert_eq!(engine.step(Event::Evaluated(Evaluation::Pending)), Action::PollReactor);
    assert_eq!(engine.step(Event::ReactorPolled(0)), Action::RunJob);
    assert_eq!(engine.step(Event::QueueEmpty(true)), Action::AwaitEvaluation);
    assert_eq!(engine.step(Event::Evaluated(Evaluation::Pending)), Action::Exit(1));
    assert!(matches!(engine.failure(), Some(Failure::Unsettled)));
}

#[test]
fn reports_that_answer_nothing_change_nothing() {
    let mut engine = Engine::new(config(false), 1);
    assert_eq!(engine.step(Event::EntryLoaded), Action::RunInitializer(0));
    assert_eq!(engine.step(Event::QueueEmpty(true)), Action::RunInitializer(0));
    assert_eq!(engine.step(Event::InitializerDone(None)), Action::LoadEntry);
    assert_eq!(engine.step(Event::JobRan(None)), Action::LoadEntry);
    assert_eq!(engine.step(Event::EntryLoaded), Action::Evaluate);
    assert_eq!(engine.step(Event::ReactorPolled(3)), Action::Evaluate);
    assert_eq!(engine.step(Event::Evaluated(Evaluation::Settled)), Action::PollReactor);
    assert_eq!(engine.step(Event::QueueEmpty(true)), Action::PollReactor);
    assert_eq!(engine.step(Event::TestRan(TestOutcome::Passed)), Action::PollReactor);
}

#[test]
fn test_mode_records_exceptions_and_goes_on() {
    let mut engine = evaluating(true);
    engine.register_test(test("first", false, false));
    assert_eq!(engine.step(Event::Evaluated(Evaluation::Settled)), Action::PollReactor);
    assert_eq!(engine.step(Event::ReactorPolled(0)), Action::RunJob);
    assert_eq!(engine.step(Event::JobRan(Some(boom()))), Action::RunJob);
    assert_eq!(engine.phase(), Phase::Draining);
    assert_eq!(engine.recorded().len(), 1);
    assert_eq!(engine.step(Event::JobRan(None)), Action::RunJob);
    assert_eq!(engine.step(Event::QueueEmpty(true)), Action::RunTest(0));
    assert_eq!(engine.step(Event::TestRan(TestOutcome::Passed)), Action::PollReactor);
    assert_eq!(engine.step(Event::ReactorPolled(0)), Action::RunJob);
    assert_eq!(engine.step(Event::QueueEmpty(true)), Action::Exit(1));
    assert_eq!(engine.phase(), Phase::Completed);
}

#[test]
fn a_throwing_test_does_not_stop_the_rest() {
    let mut engine = evaluating(true);
    engine.register_test(test("one", false, false));
    engine.register_test(test("two", false, false));
    engine.register_test(test("skipped", true, false));
    engine.register_test(test("three", false, false));
    engine.step(Event::Evaluated(Evaluation::Settled));
    engine.step(Event::ReactorPolled(0));
    assert_eq!(engine.step(Event::QueueEmpty(true)), Action::RunTest(0));
    assert_eq!(engine.phase(), Phase::Testing);
    assert_eq!(
        engine.step(Event::TestRan(TestOutcome::Failed("expected 1".to_string(), None))),
        Action::RunTest(1)
    );
    assert_eq!(engine.step(Event::TestRan(TestOutcome::Passed)), Action::RunTest(3));
    assert_eq!(
        engine.step(Event::TestRan(TestOutcome::Failed(
            "expected 3".to_string(),
            Some("    at three".to_string())
        ))),
        Action::PollReactor
    );
    let results = engine.results();
    assert_eq!(results.len(), 3);
    assert_eq!(results[0].name, "one");
    assert!(!results[0].passed);
    assert_eq!(results[0].error, Some("expected 1".to_string()));
    assert_eq!(results[1].name, "two");
    assert!(results[1].passed);
    assert_eq!(results[2].name, "three");
    assert!(!results[2].passed);
    assert_eq!(results[2].error_stack, Some("    at three".to_string()));
    assert_eq!(engine.step(Event::ReactorPolled(0)), Action::RunJob);
    assert_eq!(engine.step(Event::QueueEmpty(true)), Action::Exit(1));
    assert_eq!(engine.phase(), Phase::Completed);
    assert_eq!(engine.exit_code(), 1);
}

#[test]
fn only_marks_narrow_the_selection() {
    let mut engine = evaluating(true);
    engine.register_test(test("a", false, false));
    engine.register_test(test("b", true, true));
    engine.register_test(test("c", false, true));
    engine.step(Event::Evaluated(Evaluation::Settled));
    engine.step(Event::ReactorPolled(0));
    assert_eq!(engine.step(Event::QueueEmpty(true)), Action::RunTest(1));
    assert_eq!(engine.step(Event::TestRan(TestOutcome::Passed)), Action::RunTest(2));
    assert_eq!(engine.step(Event::TestRan(TestOutcome::Passed)), Action::PollReactor);
    engine.step(Event::ReactorPolled(0));
    assert_eq!(engine.step(Event::QueueEmpty(true)), Action::Exit(0));
    assert_eq!(engine.results().len(), 2);
}

#[test]
fn pending_promises_are_settled_one_at_a_time_in_a_second_phase() {
    let mut engine = evaluating(true);
    engine.register_test(test("sync", false, false));
    engine.register_test(test("slow", false, false));
    engine.register_test(test("slower", false, false));
    engine.step(Event::Evaluated(Evaluation::Settled));
    engine.step(Event::ReactorPolled(0));
    assert_eq!(engine.step(Event::QueueEmpty(true)), Action::RunTest(0));
    assert_eq!(engine.step(Event::TestRan(TestOutcome::Passed)), Action::RunTest(1));
    assert_eq!(engine.step(Event::TestRan(TestOutcome::Pending(41, 1000))), Action::RunTest(2));
    assert_eq!(
        engine.step(Event::TestRan(TestOutcome::Pending(42, 1001))),
        Action::PollReactor
    );
    assert_eq!(engine.pending().len(), 2);
    assert_eq!(engine.pending()[0].name, "slow");
    assert_eq!(engine.pending()[0].handle, 41);
    assert_eq!(engine.pending()[0].started_ms, 1000);
    assert_eq!(engine.results().len(), 1);
    // the drain between the two phases drives the promises
    assert_eq!(engine.step(Event::ReactorPolled(2)), Action::RunJob);
    assert_eq!(engine.step(Event::JobRan(None)), Action::RunJob);
    assert_eq!(engine.step(Event::QueueEmpty(true)), Action::ResolvePending(41));
    assert_eq!(engine.phase(), Phase::Resolving);
    assert_eq!(engine.step(Event::PendingSettled(Some(boom()))), Action::ResolvePending(42));
    assert_eq!(engine.step(Event::PendingSettled(None)), Action::PollReactor);
    assert_eq!(engine.pending().len(), 0);
    let results = engine.results();
    assert_eq!(results.len(), 3);
    assert_eq!(results[1].name, "slow");
    assert!(!results[1].passed);
    assert_eq!(results[1].error, Some("boom".to_string()));
    assert_eq!(results[2].name, "slower");
    assert!(results[2].passed);
    assert_eq!(engine.step(Event::ReactorPolled(0)), Action::RunJob);
    assert_eq!(engine.step(Event::QueueEmpty(true)), Action::Exit(1));
    assert_eq!(engine.phase(), Phase::Completed);
}

#[test]
fn a_test_file_without_tests_completes_after_the_first_drain() {
    let mut engine = evaluating(true);
    engine.step(Event::Evaluated(Evaluation::Settled));
    engine.step(Event::ReactorPolled(0));
    assert_eq!(engine.step(Event::QueueEmpty(true)), Action::Exit(0));

    let mut engine = evaluating(true);
    engine.register_test(test("ignored", true, false));
    engine.step(Event::Evaluated(Evaluation::Settled));
    engine.step(Event::ReactorPolled(0));
    assert_eq!(engine.step(Event::QueueEmpty(true)), Action::Exit(0));
}

#[test]
fn a_throwing_test_file_still_drains_in_test_mode() {
    let mut engine = evaluating(true);
    assert_eq!(engine.step(Event::Evaluated(Evaluation::Threw(boom()))), Action::PollReactor);
    assert_eq!(engine.phase(), Phase::Draining);
    engine.step(Event::ReactorPolled(0));
    assert_eq!(engine.step(Event::QueueEmpty(true)), Action::Exit(1));
    assert_eq!(engine.phase(), Phase::Completed);
    assert_eq!(engine.recorded().len(), 1);
}

#[test]
fn replay_answers_each_report() {
    let mut engine = Engine::new(config(false), 1);
    let actions = engine.replay(vec![
        Event::InitializerDone(None),
        Event::EntryLoaded,
        Event::Evaluated(Evaluation::Settled),
        Event::ReactorPolled(0),
        Event::JobRan(None),
        Event::QueueEmpty(true),
    ]);
    assert_eq!(
        actions,
        vec![
            Action::LoadEntry,
            Action::Evaluate,
            Action::PollReactor,
            Action::RunJob,
            Action::RunJob,
            Action::Exit(0),
        ]
    );
    assert_eq!(engine.replay(Vec::new()), Vec::new());
}

#[test]
fn exceptions_are_described_with_their_stack() {
    assert_eq!(boom().describe(), "Error: boom\n    at main.js:1");
    let bare = RuntimeException::from_engine(Some("bare".to_string()), None);
    assert_eq!(bare.describe(), "Error: bare");
    let silent = RuntimeException::from_engine(None, None);
    assert_eq!(silent.describe(), "Error: Exception (no message)");
}

#[test]
fn the_session_carries_its_configuration() {
    let config = SessionConfig {
        script_args: vec!["--flag".to_string(), "value".to_string()],
        standalone: true,
        test_mode: false,
    };
    let engine = Engine::new(config, 0);
    assert_eq!(engine.config().script_args, vec!["--flag".to_string(), "value".to_string()]);
    assert!(engine.config().standalone);
    assert!(!engine.config().test_mode);
}
