use mdeno::bundle::{load, BundleCompiler, EngineDiagnostic, LoadedBytes};
use mdeno::engine::{
    Action, Engine, Evaluation, Event, Failure, Phase, RuntimeException, SessionConfig,
};
use mdeno::loader::{LoadError, ModuleSource, SourceMapLoader};
use mdeno::map::SpecifierMap;
use mdeno::registry::{ModuleBuilder, ModuleRegistry};
use mdeno::resolver::{FileFacts, SourceMapResolver};
use rquickjs::loader::{ImportAttributes, Loader, Resolver};
use rquickjs::module::Declared;
use rquickjs::promise::PromiseState;
use rquickjs::{
    CatchResultExt, CaughtError, Context, Ctx, Module, Persistent, Promise, Runtime, WriteOptions,
};
use std::sync::Arc;

struct HostResolver(SourceMapResolver);

impl Resolver for HostResolver {
    fn resolve<'js>(
        &mut self,
        _ctx: &Ctx<'js>,
        base: &str,
        name: &str,
        _attributes: Option<ImportAttributes<'js>>,
    ) -> rquickjs::Result<String> {
        self.0
            .resolve(base, name, &FileFacts::new(false))
            .map_err(|_| rquickjs::Error::new_resolving(base, name))
    }
}

struct HostLoader(SourceMapLoader);

impl Loader for HostLoader {
    fn load<'js>(
        &mut self,
        ctx: &Ctx<'js>,
        name: &str,
        _attributes: Option<ImportAttributes<'js>>,
    ) -> rquickjs::Result<Module<'js, Declared>> {
        match self.0.load(name) {
            Ok(ModuleSource::Text(source)) => Module::declare(ctx.clone(), name, source),
            _ => Err(rquickjs::Error::new_loading(name)),
        }
    }
}

const TIMERS: &str = "globalThis.__timers = []; \
    globalThis.setTimeout = (callback) => { globalThis.__timers.push(callback); };";

const FIRE_TIMERS: &str = "(() => { const due = globalThis.__timers; globalThis.__timers = []; \
    for (const callback of due) { callback(); } return due.length; })()";

struct Host {
    runtime: Runtime,
    context: Context,
    resolver: SourceMapResolver,
    loader: SourceMapLoader,
}

fn source_map(sources: &[(&str, &str)]) -> SpecifierMap<String> {
    let mut map = SpecifierMap::new();
    for (specifier, source) in sources {
        map.insert(specifier.to_string(), source.to_string());
    }
    map
}

fn host(sources: &[(&str, &str)]) -> Host {
    let (_globals, registry) = ModuleBuilder::new().build();
    let registry: Arc<ModuleRegistry> = Arc::new(registry);
    let map = Arc::new(source_map(sources));
    let runtime = Runtime::new().unwrap();
    runtime.set_loader(
        HostResolver(SourceMapResolver::new(registry.clone(), map.clone())),
        HostLoader(SourceMapLoader::new(registry.clone(), map.clone())),
    );
    let context = Context::full(&runtime).unwrap();
    context.with(|ctx| ctx.eval::<(), _>(TIMERS).unwrap());
    Host {
        runtime,
        context,
        resolver: SourceMapResolver::new(registry.clone(), map.clone()),
        loader: SourceMapLoader::new(registry, map),
    }
}

fn exception(caught: CaughtError<'_>) -> RuntimeException {
    match caught {
        CaughtError::Exception(e) => RuntimeException::from_engine(e.message(), e.stack()),
        CaughtError::Value(v) => RuntimeException::from_engine(Some(format!("{v:?}")), None),
        CaughtError::Error(e) => RuntimeException::from_engine(Some(format!("{e:?}")), None),
    }
}

fn diagnostic(caught: CaughtError<'_>) -> EngineDiagnostic {
    match caught {
        CaughtError::Exception(e) => EngineDiagnostic { message: e.message(), stack: e.stack() },
        CaughtError::Value(v) => EngineDiagnostic { message: Some(format!("{v:?}")), stack: None },
        CaughtError::Error(e) => EngineDiagnostic { message: Some(format!("{e:?}")), stack: None },
    }
}

fn promise_event(ctx: &Ctx<'_>, promise: &Promise<'_>) -> Event {
    match promise.state() {
        PromiseState::Pending => Event::Evaluated(Evaluation::Pending),
        PromiseState::Resolved => Event::Evaluated(Evaluation::Settled),
        PromiseState::Rejected => match promise.result::<()>().unwrap().catch(ctx) {
            Ok(()) => Event::Evaluated(Evaluation::Settled),
            Err(caught) => Event::Evaluated(Evaluation::Threw(exception(caught))),
        },
    }
}

struct Outcome {
    exit_code: i32,
    phase: Phase,
    polls: usize,
    jobs: usize,
    engine: Engine,
}

fn run(host: &Host, entry: &str, test_mode: bool) -> Outcome {
    let config = SessionConfig { script_args: Vec::new(), standalone: false, test_mode };
    let mut engine = Engine::new(config, 0);
    let mut entry_source: Option<(String, String)> = None;
    let mut completion: Option<Persistent<Promise<'static>>> = None;
    let mut polls = 0;
    let mut jobs = 0;
    let mut action = engine.action();
    loop {
        let event = match action {
            Action::Exit(code) => {
                return Outcome { exit_code: code, phase: engine.phase(), polls, jobs, engine };
            }
            Action::RunInitializer(_) => Event::InitializerDone(None),
            Action::LoadEntry => match host.resolver.resolve("", entry, &FileFacts::new(false)) {
                Err(e) => Event::EntryUnresolved(e),
                Ok(specifier) => match host.loader.load(&specifier) {
                    Ok(ModuleSource::Text(source)) => {
                        entry_source = Some((specifier.clone(), source.to_string()));
                        Event::EntryLoaded
                    }
                    Ok(ModuleSource::Bytecode(_)) => Event::EntryUnloaded(LoadError::DisallowedKind),
                    Err(e) => Event::EntryUnloaded(e),
                },
            },
            Action::Evaluate => {
                let (specifier, source) = entry_source.clone().unwrap();
                host.context.with(|ctx| {
                    match Module::evaluate(ctx.clone(), specifier, source).catch(&ctx) {
                        Err(caught) => Event::Evaluated(Evaluation::Threw(exception(caught))),
                        Ok(promise) => {
                            let event = promise_event(&ctx, &promise);
                            completion = Some(Persistent::save(&ctx, promise));
                            event
                        }
                    }
                })
            }
            Action::AwaitEvaluation => host.context.with(|ctx| {
                let promise = completion.clone().unwrap().restore(&ctx).unwrap();
                promise_event(&ctx, &promise)
            }),
            Action::PollReactor => {
                polls += 1;
                let delivered = host.context.with(|ctx| ctx.eval::<usize, _>(FIRE_TIMERS).unwrap());
                Event::ReactorPolled(delivered)
            }
            Action::RunJob => match host.runtime.execute_pending_job() {
                Ok(true) => {
                    jobs += 1;
                    Event::JobRan(None)
                }
                Ok(false) => {
                    let waiting = host
                        .context
                        .with(|ctx| ctx.eval::<usize, _>("globalThis.__timers.length").unwrap());
                    Event::QueueEmpty(waiting == 0)
                }
                Err(job) => {
                    jobs += 1;
                    let thrown = job.0.with(|ctx| {
                        let value = ctx.catch();
                        match value.as_exception() {
                            Some(e) => RuntimeException::from_engine(e.message(), e.stack()),
                            None => RuntimeException::from_engine(Some(format!("{value:?}")), None),
                        }
                    });
                    Event::JobRan(Some(thrown))
                }
            },
            Action::RunTest(_) => Event::TestRan(mdeno::test_runner::TestOutcome::Passed),
            Action::ResolvePending(_) => Event::PendingSettled(None),
        };
        action = engine.step(event);
    }
}

fn global_number(host: &Host, name: &str) -> Option<i32> {
    host.context.with(|ctx| ctx.globals().get::<_, Option<i32>>(name).unwrap())
}

fn compile(host: &Host, sources: &[(&str, &str)], entry: &str) -> BundleCompiler {
    let mut compiler = BundleCompiler::new(source_map(sources), entry.to_string());
    loop {
        let request = match compiler.next() {
            Some((specifier, source)) => (specifier.to_string(), source.to_string()),
            None => break,
        };
        let result = host.context.with(|ctx| {
            match Module::declare(ctx.clone(), request.0, request.1).catch(&ctx) {
                Err(caught) => Err(diagnostic(caught)),
                Ok(module) => match module.write(WriteOptions::default()).catch(&ctx) {
                    Ok(bytes) => Ok(bytes),
                    Err(caught) => Err(diagnostic(caught)),
                },
            }
        });
        compiler.record(result);
    }
    compiler
}

const A_AND_B: [(&str, &str); 2] = [
    ("a.js", "export const x = 1;"),
    ("b.js", "import {x} from './a.js'; globalThis.result = x + 1;"),
];

#[test]
fn two_modules_run_to_completion() {
    let host = host(&A_AND_B);
    let outcome = run(&host, "b.js", false);
    assert_eq!(outcome.exit_code, 0);
    assert_eq!(outcome.phase, Phase::Completed);
    assert_eq!(global_number(&host, "result"), Some(2));
    assert_eq!(outcome.polls, 1);
}

#[test]
fn a_timer_then_a_throw_fails_the_session() {
    let sources = [(
        "main.js",
        "globalThis.before = 1; await new Promise((resolve) => setTimeout(resolve)); \
         globalThis.after = 1; throw new Error('late');",
    )];
    let host = host(&sources);
    let outcome = run(&host, "main.js", false);
    assert_eq!(outcome.exit_code, 1);
    assert_eq!(outcome.phase, Phase::Failed);
    assert_eq!(global_number(&host, "before"), Some(1));
    assert_eq!(global_number(&host, "after"), Some(1));
    match outcome.engine.failure() {
        Some(Failure::Exception(e)) => assert_eq!(e.message, "late"),
        _ => panic!("the exception did not surface"),
    }
}

#[test]
fn settled_promises_drain_in_one_cycle() {
    let sources = [(
        "main.js",
        "globalThis.count = 0; \
         for (let i = 0; i < 5; i++) { Promise.resolve().then(() => { globalThis.count += 1; }); }",
    )];
    let host = host(&sources);
    let outcome = run(&host, "main.js", false);
    assert_eq!(outcome.exit_code, 0);
    assert_eq!(outcome.phase, Phase::Completed);
    assert_eq!(outcome.polls, 1);
    assert_eq!(outcome.jobs, 5);
    assert_eq!(global_number(&host, "count"), Some(5));
}

#[test]
fn a_job_enqueued_by_a_job_runs_before_completion() {
    let sources = [(
        "main.js",
        "globalThis.order = 0; \
         Promise.resolve().then(() => { \
             globalThis.order = 1; \
             Promise.resolve().then(() => { globalThis.order = 2; }); \
         });",
    )];
    let host = host(&sources);
    let outcome = run(&host, "main.js", false);
    assert_eq!(outcome.exit_code, 0);
    assert_eq!(outcome.phase, Phase::Completed);
    assert_eq!(global_number(&host, "order"), Some(2));
    assert_eq!(outcome.jobs, 2);
}

#[test]
fn timers_keep_the_drain_going() {
    let sources = [(
        "main.js",
        "globalThis.fired = 0; \
         setTimeout(() => { globalThis.fired += 1; setTimeout(() => { globalThis.fired += 1; }); });",
    )];
    let host = host(&sources);
    let outcome = run(&host, "main.js", false);
    assert_eq!(outcome.exit_code, 0);
    assert_eq!(global_number(&host, "fired"), Some(2));
    assert_eq!(outcome.polls, 2);
}

#[test]
fn a_missing_entry_module_fails_at_loading() {
    let host = host(&A_AND_B);
    let outcome = run(&host, "./missing.js", false);
    assert_eq!(outcome.exit_code, 1);
    assert_eq!(outcome.phase, Phase::Failed);
    assert!(matches!(outcome.engine.failure(), Some(Failure::Resolution(_))));
}

#[test]
fn a_throwing_module_fails_a_normal_session() {
    let sources = [("main.js", "throw new Error('early');")];
    let host = host(&sources);
    let outcome = run(&host, "main.js", false);
    assert_eq!(outcome.exit_code, 1);
    match outcome.engine.failure() {
        Some(Failure::Exception(e)) => {
            assert_eq!(e.message, "early");
            assert!(e.describe().starts_with("Error: early"));
        }
        _ => panic!("the exception did not surface"),
    }
}

#[test]
fn a_throwing_module_is_recorded_in_test_mode() {
    let sources = [("main.js", "throw new Error('early');")];
    let host = host(&sources);
    let outcome = run(&host, "main.js", true);
    assert_eq!(outcome.phase, Phase::Completed);
    assert_eq!(outcome.exit_code, 1);
    assert_eq!(outcome.engine.recorded().len(), 1);
}

#[test]
fn compiled_bundle_round_trips_with_real_bytecode() {
    let host = host(&A_AND_B);
    let compiler = compile(&host, &A_AND_B, "b.js");
    let bundle = compiler.finish().ok().unwrap();
    let bytes = bundle.to_bytes().unwrap();
    match load(&bytes) {
        Ok(LoadedBytes::Bundle(read)) => {
            assert_eq!(read.entry_point(), "b.js");
            let mut keys: Vec<&str> =
                (0..read.modules().len()).map(|i| read.modules().key_at(i)).collect();
            keys.sort();
            assert_eq!(keys, vec!["a.js", "b.js"]);
            assert_eq!(read.modules().get("a.js"), bundle.modules().get("a.js"));
            assert_eq!(read.modules().get("b.js"), bundle.modules().get("b.js"));
            assert!(!read.entry_bytecode().is_empty());
        }
        _ => panic!("the bytes of a bundle were not read as a bundle"),
    }
}

#[test]
fn raw_bytecode_and_bundles_are_told_apart() {
    let host = host(&A_AND_B);
    let single = compile(&host, &[("a.js", "export const x = 1;")], "a.js");
    let bundle = single.finish().ok().unwrap();
    let raw: Vec<u8> = bundle.entry_bytecode().to_vec();
    match load(&raw) {
        Ok(LoadedBytes::RawModule(bytes)) => assert_eq!(bytes, raw.as_slice()),
        _ => panic!("raw bytecode was not read as a raw module"),
    }
    let bytes = bundle.to_bytes().unwrap();
    assert!(matches!(load(&bytes), Ok(LoadedBytes::Bundle(_))));

    let larger = compile(&host, &A_AND_B, "b.js").finish().ok().unwrap();
    let raw_entry: Vec<u8> = larger.entry_bytecode().to_vec();
    assert!(matches!(load(&raw_entry), Ok(LoadedBytes::RawModule(_))));
}

#[test]
fn a_compile_failure_names_the_module() {
    let sources = [("good.js", "export const x = 1;"), ("bad.js", "export const = ;"), ("late.js", "1")];
    let host = host(&sources);
    let compiler = compile(&host, &sources, "good.js");
    let error = compiler.finish().err().unwrap();
    assert_eq!(error.specifier, "bad.js");
    assert!(!error.message.is_empty());
    assert!(error.describe().starts_with("Error compiling bad.js: Failed to declare module bad.js: "));
}
