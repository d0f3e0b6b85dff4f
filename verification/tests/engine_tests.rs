use agent_manager::config::{AgentConfig, Config, ModuleConfig, ModuleEntry, ServerConfig};
use agent_manager::engine::names::{module_path_under, search_module_path, PathSearch};
use agent_manager::engine::relay::{relay_request, send_to_server, RelayOutcome};
use agent_manager::engine::runner::{run_module, ProcessOutcome, ARGS_FILE};
use agent_manager::engine::{
    sanitize_module_name, Action, CollectionEngine, Dependency, Event, Phase, Step,
};
use agent_manager::error::Error;
use agent_manager::json::{parse, JsonValue, Member};

fn module(name: &str, interval: Option<u64>) -> ModuleEntry {
    ModuleEntry {
        name: name.to_string(),
        module: ModuleConfig { description: None, interval, args: None },
    }
}

fn config(paths: &[&str], modules: Vec<ModuleEntry>) -> Config {
    Config {
        server: ServerConfig { url: "http://localhost:8000/api/v1/collect".to_string(), timeout: 30 },
        agent: AgentConfig {
            module_paths: paths.iter().map(|p| p.to_string()).collect(),
            log_level: "info".to_string(),
            default_interval: 60,
        },
        modules,
    }
}

fn exited(code: i32, stdout: &str, stderr: &str) -> ProcessOutcome {
    ProcessOutcome::Exited {
        code: Some(code),
        stdout: stdout.as_bytes().to_vec(),
        stderr: stderr.to_string(),
    }
}

fn dependency() -> Dependency {
    Dependency {
        local_ip: "10.0.0.1".to_string(),
        local_os: "Linux".to_string(),
        remote_ip: "10.0.0.2".to_string(),
        local_port: 5432,
        remote_port: 443,
        module: "Connections".to_string(),
        description: "TCP connection".to_string(),
    }
}

const EMPTY_OUTPUT: &str = "{\"dependencies\":[],\"changed\":false,\"failed\":false}";

#[test]
fn names_that_keep_the_rules_are_accepted() {
    for name in ["a", "std.modules.connection", "custom_module", "a.b_c.D9", "x_", "_", "m\u{f3}dulo"] {
        assert_eq!(sanitize_module_name(name), Ok(name.to_string()), "{}", name);
    }
}

#[test]
fn names_that_break_the_rules_are_rejected() {
    for name in ["", ".", "..", ".a", "a.", "a..b", "net..scan", "a...b", ".a.b.", "a.b..", "..a"] {
        assert_eq!(
            sanitize_module_name(name),
            Err(Error::InvalidModuleName(name.to_string())),
            "{:?}",
            name
        );
    }
}

#[test]
fn names_with_other_characters_are_rejected() {
    for name in ["net-scan", "a/b", "../etc/passwd", "a b", "a.b;c", "caf\u{e9}!", "a\\b", "a\u{0}b"] {
        assert_eq!(
            sanitize_module_name(name),
            Err(Error::InvalidModuleName(name.to_string())),
            "{:?}",
            name
        );
    }
}

#[test]
fn a_module_lies_below_its_base_with_dots_as_slashes() {
    assert_eq!(module_path_under("/usr/lib/modules", "std.modules.connection"), "/usr/lib/modules/std/modules/connection");
    assert_eq!(module_path_under("/usr/lib/modules/", "std.net"), "/usr/lib/modules/std/net");
    assert_eq!(module_path_under("", "std.net"), "std/net");
    assert_eq!(module_path_under("/", "echo"), "/echo");
    assert_eq!(module_path_under("rel", "a_b"), "rel/a_b");
}

#[test]
fn the_first_base_directory_that_holds_the_module_wins() {
    let bases = vec!["/a".to_string(), "/b".to_string()];
    // Present only under the second directory.
    assert_eq!(
        search_module_path(&bases, "std.net", &vec![false, true]),
        Ok(PathSearch::Found("/b/std/net".to_string()))
    );
    // Present under both: the first one wins.
    assert_eq!(
        search_module_path(&bases, "std.net", &vec![true, true]),
        Ok(PathSearch::Found("/a/std/net".to_string()))
    );
    // The second directory is not consulted once the first holds the module.
    assert_eq!(
        search_module_path(&bases, "std.net", &vec![true]),
        Ok(PathSearch::Found("/a/std/net".to_string()))
    );
    // Absent in both.
    assert_eq!(
        search_module_path(&bases, "std.net", &vec![false, false]),
        Err(Error::ModuleNotFound("std.net".to_string()))
    );
}

#[test]
fn the_search_asks_for_one_directory_after_the_other() {
    let bases = vec!["/a".to_string(), "/b".to_string()];
    assert_eq!(
        search_module_path(&bases, "echo", &vec![]),
        Ok(PathSearch::Probe("/a/echo".to_string()))
    );
    assert_eq!(
        search_module_path(&bases, "echo", &vec![false]),
        Ok(PathSearch::Probe("/b/echo".to_string()))
    );
    // Answers beyond the configured directories do not count.
    assert_eq!(
        search_module_path(&bases, "echo", &vec![false, false, true]),
        Err(Error::ModuleNotFound("echo".to_string()))
    );
    assert_eq!(
        search_module_path(&vec![], "echo", &vec![]),
        Err(Error::ModuleNotFound("echo".to_string()))
    );
}

#[test]
fn an_invalid_name_is_rejected_before_any_probe() {
    let bases = vec!["/a".to_string()];
    assert_eq!(
        search_module_path(&bases, "net..scan", &vec![]),
        Err(Error::InvalidModuleName("net..scan".to_string()))
    );
    assert_eq!(
        search_module_path(&bases, "net..scan", &vec![true]),
        Err(Error::InvalidModuleName("net..scan".to_string()))
    );
    let engine = CollectionEngine::new(config(&["/a"], vec![]));
    assert_eq!(
        engine.find_module_path("../x", &vec![]),
        Err(Error::InvalidModuleName("../x".to_string()))
    );
    assert_eq!(
        engine.find_module_path("x", &vec![]),
        Ok(PathSearch::Probe("/a/x".to_string()))
    );
}

#[test]
fn a_new_engine_is_idle_and_every_module_is_due() {
    let engine = CollectionEngine::new(config(&["/m"], vec![module("a", Some(15)), module("b", None)]));
    assert_eq!(engine.phase(), Phase::Idle);
    assert_eq!(engine.last_run(0), None);
    assert_eq!(engine.last_run(1), None);
    assert_eq!(engine.last_run(2), None);
    assert!(engine.is_due(0, 0));
    assert!(engine.is_due(1, 0));
    assert!(engine.is_due(0, u64::MAX));
    assert_eq!(engine.config().modules.len(), 2);
    assert_eq!(engine.config().interval(0), 15);
    assert_eq!(engine.config().interval(1), 60);
}

/// Drives one successful run of the only module at time `now`.
fn run_once(engine: &mut CollectionEngine, now: u64) {
    let step = engine.run(Event::Tick { now });
    assert!(matches!(step.action, Action::Probe { .. }), "{:?}", step);
    let step = engine.run(Event::Probed { exists: true });
    assert!(matches!(step.action, Action::Execute { .. }), "{:?}", step);
    let step = engine.run(Event::Exited { outcome: exited(0, EMPTY_OUTPUT, "") });
    assert!(matches!(step.action, Action::Relay { .. }), "{:?}", step);
    let step = engine.run(Event::Relayed { outcome: RelayOutcome::Status(200) });
    assert_eq!(step, Step { action: Action::Wait, failure: None });
}

#[test]
fn a_module_is_not_run_again_before_its_interval_has_passed() {
    let t0 = 1000;
    let mut engine = CollectionEngine::new(config(&["/m"], vec![module("scan", Some(15))]));
    run_once(&mut engine, t0);
    assert_eq!(engine.last_run(0), Some(t0));
    assert!(!engine.is_due(0, t0 + 10));
    assert!(!engine.is_due(0, t0 + 14));
    assert!(engine.is_due(0, t0 + 15));
    assert!(engine.is_due(0, t0 + 16));
    // A clock reading before the last run never makes the module due.
    assert!(!engine.is_due(0, t0 - 1));

    assert_eq!(engine.run(Event::Tick { now: t0 + 10 }), Step { action: Action::Wait, failure: None });
    assert_eq!(engine.last_run(0), Some(t0));
    let step = engine.run(Event::Tick { now: t0 + 16 });
    assert_eq!(step, Step { action: Action::Probe { path: "/m/scan".to_string() }, failure: None });
}

#[test]
fn an_interval_of_zero_makes_a_module_due_at_every_tick() {
    let mut engine = CollectionEngine::new(config(&["/m"], vec![module("scan", Some(0))]));
    run_once(&mut engine, 7);
    assert!(engine.is_due(0, 7));
    assert!(matches!(engine.run(Event::Tick { now: 7 }).action, Action::Probe { .. }));
}

#[test]
fn a_module_without_interval_takes_the_default() {
    let mut engine = CollectionEngine::new(config(&["/m"], vec![module("scan", None)]));
    run_once(&mut engine, 100);
    assert!(!engine.is_due(0, 159));
    assert!(engine.is_due(0, 160));
}

#[test]
fn a_successful_module_is_relayed_with_an_empty_batch_and_no_error() {
    let mut engine = CollectionEngine::new(config(&["/m"], vec![module("std.echo", Some(15))]));
    let step = engine.run(Event::Tick { now: 5 });
    assert_eq!(step, Step { action: Action::Probe { path: "/m/std/echo".to_string() }, failure: None });
    assert_eq!(engine.phase(), Phase::Resolving { module: 0, now: 5, tried: 0 });

    let step = engine.run(Event::Probed { exists: true });
    assert_eq!(
        step,
        Step {
            action: Action::Execute {
                module: "std.echo".to_string(),
                path: "/m/std/echo".to_string(),
                args: None,
            },
            failure: None,
        }
    );
    assert_eq!(engine.phase(), Phase::Running { module: 0, now: 5 });

    let step = engine.run(Event::Exited { outcome: exited(0, EMPTY_OUTPUT, "") });
    assert_eq!(step.failure, None);
    match step.action {
        Action::Relay { request } => {
            assert_eq!(request.url, "http://localhost:8000/api/v1/collect");
            assert_eq!(request.timeout, 30);
            assert_eq!(request.body, "[]");
        }
        other => panic!("expected a relay, got {:?}", other),
    }
    assert_eq!(engine.phase(), Phase::Relaying { module: 0, now: 5 });
    assert_eq!(engine.last_run(0), None);

    let step = engine.run(Event::Relayed { outcome: RelayOutcome::Status(200) });
    assert_eq!(step, Step { action: Action::Wait, failure: None });
    assert_eq!(engine.phase(), Phase::Idle);
    assert_eq!(engine.last_run(0), Some(5));
}

#[test]
fn a_module_that_exits_with_status_1_is_not_relayed() {
    let mut engine = CollectionEngine::new(config(&["/m"], vec![module("broken", Some(15))]));
    engine.run(Event::Tick { now: 5 });
    engine.run(Event::Probed { exists: true });
    let step = engine.run(Event::Exited { outcome: exited(1, "", "boom") });
    assert_eq!(
        step,
        Step {
            action: Action::Wait,
            failure: Some(Error::ModuleExecution(
                "Module 'broken' failed with status 1: boom".to_string()
            )),
        }
    );
    assert_eq!(engine.phase(), Phase::Idle);
    // The failed attempt is noted, so that the module waits for its interval.
    assert_eq!(engine.last_run(0), Some(5));
    assert!(!engine.is_due(0, 19));
    assert!(engine.is_due(0, 20));
}

#[test]
fn a_module_with_an_invalid_name_is_never_probed_or_run() {
    let mut engine = CollectionEngine::new(config(
        &["/m"],
        vec![module("net..scan", Some(1)), module("ok", Some(1))],
    ));
    let step = engine.run(Event::Tick { now: 1 });
    assert_eq!(step, Step { action: Action::Probe { path: "/m/ok".to_string() }, failure: None });
    assert_eq!(engine.phase(), Phase::Resolving { module: 1, now: 1, tried: 0 });

    let mut lonely = CollectionEngine::new(config(&["/m"], vec![module("net..scan", Some(1))]));
    for now in 0..5 {
        assert_eq!(lonely.run(Event::Tick { now }), Step { action: Action::Wait, failure: None });
        assert_eq!(lonely.last_run(0), None);
    }
}

#[test]
fn the_modules_of_a_tick_run_one_after_the_other_in_their_order() {
    let mut engine = CollectionEngine::new(config(
        &["/m"],
        vec![module("a", Some(10)), module("b", Some(10)), module("c", Some(10))],
    ));
    let mut executed = Vec::new();
    let mut step = engine.run(Event::Tick { now: 50 });
    loop {
        match step.action {
            Action::Probe { .. } => step = engine.run(Event::Probed { exists: true }),
            Action::Execute { module, .. } => {
                executed.push(module);
                step = engine.run(Event::Exited { outcome: exited(0, EMPTY_OUTPUT, "") });
            }
            Action::Relay { .. } => {
                step = engine.run(Event::Relayed { outcome: RelayOutcome::Status(204) })
            }
            Action::Wait => break,
            other => panic!("unexpected {:?}", other),
        }
    }
    assert_eq!(executed, vec!["a", "b", "c"]);
    assert_eq!(engine.last_run(0), Some(50));
    assert_eq!(engine.last_run(1), Some(50));
    assert_eq!(engine.last_run(2), Some(50));
    assert_eq!(engine.run(Event::Tick { now: 59 }).action, Action::Wait);
}

#[test]
fn a_failure_does_not_end_the_tick() {
    let mut engine = CollectionEngine::new(config(
        &["/m"],
        vec![module("a", Some(10)), module("b", Some(10))],
    ));
    engine.run(Event::Tick { now: 3 });
    engine.run(Event::Probed { exists: true });
    let step = engine.run(Event::Exited { outcome: ProcessOutcome::TimedOut });
    assert_eq!(
        step,
        Step {
            action: Action::Probe { path: "/m/b".to_string() },
            failure: Some(Error::ModuleExecution("Module 'a' timed out".to_string())),
        }
    );
    assert_eq!(engine.last_run(0), Some(3));
    engine.run(Event::Probed { exists: true });
    engine.run(Event::Exited { outcome: exited(0, EMPTY_OUTPUT, "") });
    let step = engine.run(Event::Relayed { outcome: RelayOutcome::Status(500) });
    assert_eq!(
        step,
        Step {
            action: Action::Wait,
            failure: Some(Error::Relay("Server responded with status: 500".to_string())),
        }
    );
    // A relay that failed is not tried again within the tick, and the run is noted.
    assert_eq!(engine.last_run(1), Some(3));
}

#[test]
fn a_module_that_no_directory_holds_is_not_found_and_not_noted() {
    let mut engine = CollectionEngine::new(config(&["/a", "/b"], vec![module("ghost", Some(10))]));
    assert_eq!(
        engine.run(Event::Tick { now: 1 }).action,
        Action::Probe { path: "/a/ghost".to_string() }
    );
    assert_eq!(
        engine.run(Event::Probed { exists: false }),
        Step { action: Action::Probe { path: "/b/ghost".to_string() }, failure: None }
    );
    assert_eq!(engine.phase(), Phase::Resolving { module: 0, now: 1, tried: 1 });
    assert_eq!(
        engine.run(Event::Probed { exists: false }),
        Step { action: Action::Wait, failure: None }
    );
    assert_eq!(engine.find_module_path("ghost", &vec![false, false]), Err(Error::ModuleNotFound("ghost".to_string())));
    assert_eq!(engine.last_run(0), None);
    // Looked for again at the next tick.
    assert_eq!(
        engine.run(Event::Tick { now: 2 }).action,
        Action::Probe { path: "/a/ghost".to_string() }
    );
}

#[test]
fn the_second_directory_is_used_where_the_first_lacks_the_module() {
    let mut engine = CollectionEngine::new(config(&["/a", "/b/"], vec![module("x.y", Some(10))]));
    engine.run(Event::Tick { now: 1 });
    engine.run(Event::Probed { exists: false });
    let step = engine.run(Event::Probed { exists: true });
    assert_eq!(
        step.action,
        Action::Execute { module: "x.y".to_string(), path: "/b/x/y".to_string(), args: None }
    );
}

#[test]
fn without_base_directories_nothing_is_taken_up() {
    let mut engine = CollectionEngine::new(config(&[], vec![module("a", Some(1))]));
    assert_eq!(engine.run(Event::Tick { now: 1 }), Step { action: Action::Wait, failure: None });
}

#[test]
fn arguments_are_handed_over_as_json_text() {
    let mut entry = module("echo", Some(15));
    entry.module.args = Some(vec![
        Member { key: "name".to_string(), value: JsonValue::Text("Test".to_string()) },
        Member { key: "count".to_string(), value: JsonValue::Number("3".to_string()) },
    ]);
    let mut engine = CollectionEngine::new(config(&["/m"], vec![entry]));
    engine.run(Event::Tick { now: 1 });
    let step = engine.run(Event::Probed { exists: true });
    assert_eq!(
        step.action,
        Action::Execute {
            module: "echo".to_string(),
            path: "/m/echo".to_string(),
            args: Some("{\"count\":3,\"name\":\"Test\"}".to_string()),
        }
    );
    assert_eq!(ARGS_FILE, "ARGS_FILE");
}

#[test]
fn arguments_that_cannot_be_written_fail_the_attempt() {
    let mut entry = module("echo", Some(15));
    entry.module.args = Some(vec![Member {
        key: "count".to_string(),
        value: JsonValue::Number("three".to_string()),
    }]);
    let mut engine = CollectionEngine::new(config(&["/m"], vec![entry]));
    engine.run(Event::Tick { now: 9 });
    let step = engine.run(Event::Probed { exists: true });
    assert_eq!(
        step,
        Step {
            action: Action::Wait,
            failure: Some(Error::Serialization(
                "the arguments cannot be written as JSON".to_string()
            )),
        }
    );
    assert_eq!(engine.last_run(0), Some(9));
}

#[test]
fn shutdown_between_ticks_ends_the_loop() {
    let mut engine = CollectionEngine::new(config(&["/m"], vec![module("a", Some(1))]));
    assert_eq!(engine.run(Event::Shutdown), Step { action: Action::Stop, failure: None });
    assert_eq!(engine.phase(), Phase::Terminated);
    for event in [
        Event::Tick { now: 1 },
        Event::Shutdown,
        Event::Probed { exists: true },
        Event::Exited { outcome: ProcessOutcome::TimedOut },
        Event::Relayed { outcome: RelayOutcome::TimedOut },
    ] {
        assert_eq!(engine.run(event), Step { action: Action::Stop, failure: None });
        assert_eq!(engine.phase(), Phase::Terminated);
    }
}

#[test]
fn shutdown_during_a_tick_waits_for_the_tick_to_end() {
    let mut engine = CollectionEngine::new(config(
        &["/m"],
        vec![module("a", Some(1)), module("b", Some(1))],
    ));
    engine.run(Event::Tick { now: 1 });
    assert_eq!(engine.run(Event::Shutdown), Step { action: Action::Pending, failure: None });
    assert_eq!(engine.phase(), Phase::Resolving { module: 0, now: 1, tried: 0 });
    engine.run(Event::Probed { exists: true });
    assert_eq!(engine.run(Event::Shutdown).action, Action::Pending);
    engine.run(Event::Exited { outcome: exited(0, EMPTY_OUTPUT, "") });
    assert_eq!(engine.run(Event::Shutdown).action, Action::Pending);
    // The tick goes on with the second module.
    let step = engine.run(Event::Relayed { outcome: RelayOutcome::Status(200) });
    assert_eq!(step.action, Action::Probe { path: "/m/b".to_string() });
    engine.run(Event::Probed { exists: true });
    let step = engine.run(Event::Exited { outcome: exited(2, "", "") });
    assert_eq!(step.action, Action::Stop);
    assert_eq!(engine.phase(), Phase::Terminated);
    assert_eq!(engine.last_run(0), Some(1));
    assert_eq!(engine.last_run(1), Some(1));
}

#[test]
fn events_that_do_not_fit_change_nothing() {
    let mut engine = CollectionEngine::new(config(&["/m"], vec![module("a", Some(1))]));
    assert_eq!(engine.run(Event::Probed { exists: true }), Step { action: Action::Wait, failure: None });
    assert_eq!(
        engine.run(Event::Exited { outcome: ProcessOutcome::TimedOut }),
        Step { action: Action::Wait, failure: None }
    );
    assert_eq!(engine.phase(), Phase::Idle);
    engine.run(Event::Tick { now: 1 });
    assert_eq!(engine.run(Event::Tick { now: 2 }), Step { action: Action::Pending, failure: None });
    assert_eq!(
        engine.run(Event::Relayed { outcome: RelayOutcome::Status(200) }),
        Step { action: Action::Pending, failure: None }
    );
    assert_eq!(engine.phase(), Phase::Resolving { module: 0, now: 1, tried: 0 });
    assert_eq!(engine.last_run(0), None);
}

#[test]
fn a_run_is_judged_by_how_its_process_ended() {
    assert_eq!(
        run_module("m", ProcessOutcome::Failed("No such file".to_string())),
        Err(Error::Io("No such file".to_string()))
    );
    assert_eq!(
        run_module("m", ProcessOutcome::TimedOut),
        Err(Error::ModuleExecution("Module 'm' timed out".to_string()))
    );
    assert_eq!(
        run_module("std.m", exited(1, EMPTY_OUTPUT, "bad things\n")),
        Err(Error::ModuleExecution(
            "Module 'std.m' failed with status 1: bad things\n".to_string()
        ))
    );
    assert_eq!(
        run_module("m", exited(-3, "", "")),
        Err(Error::ModuleExecution("Module 'm' failed with status -3: ".to_string()))
    );
    assert_eq!(
        run_module(
            "m",
            ProcessOutcome::Exited { code: None, stdout: vec![], stderr: "killed".to_string() }
        ),
        Err(Error::ModuleExecution("Module 'm' was terminated by a signal: killed".to_string()))
    );
    match run_module("m", exited(0, "not json", "")) {
        Err(Error::ModuleExecution(text)) => {
            assert!(text.starts_with("Module 'm' wrote invalid output: "), "{}", text);
            assert!(text.len() > "Module 'm' wrote invalid output: ".len());
        }
        other => panic!("expected a failed execution, got {:?}", other),
    }
    assert!(matches!(run_module("m", exited(0, "", "")), Err(Error::ModuleExecution(_))));
}

#[test]
fn the_output_of_a_module_is_read_leniently() {
    let result = run_module("m", exited(0, EMPTY_OUTPUT, "warn")).unwrap();
    assert_eq!(result.status, 0);
    assert_eq!(result.stdout, EMPTY_OUTPUT.as_bytes());
    assert_eq!(result.stderr, "warn");
    assert!(result.dependencies.is_empty());
    assert!(!result.changed);
    assert!(!result.failed);
    assert!(result.extra.is_empty());

    // No member `dependencies` at all.
    let result = run_module("m", exited(0, "{\"msg\":\"Hello, Test!\",\"failed\":false,\"changed\":true}", "")).unwrap();
    assert!(result.dependencies.is_empty());
    assert!(result.changed);
    assert!(!result.failed);
    assert_eq!(
        result.extra,
        vec![Member { key: "msg".to_string(), value: JsonValue::Text("Hello, Test!".to_string()) }]
    );

    // `dependencies` is no array.
    let result = run_module("m", exited(0, "{\"dependencies\":\"none\",\"failed\":true}", "")).unwrap();
    assert!(result.dependencies.is_empty());
    assert!(result.failed);

    // A document that is no object.
    let result = run_module("m", exited(0, "[1,2,3]", "")).unwrap();
    assert!(result.dependencies.is_empty());
    assert!(result.extra.is_empty());

    // Flags that are no booleans count as not set.
    let result = run_module("m", exited(0, "{\"changed\":1,\"failed\":\"yes\"}", "")).unwrap();
    assert!(!result.changed);
    assert!(!result.failed);
}

const ONE_DEPENDENCY: &str = "{\"module\":\"Connections\",\"local_ip\":\"10.0.0.1\",\"local_os\":\"Linux\",\"local_port\":5432,\"remote_ip\":\"10.0.0.2\",\"remote_port\":443,\"description\":\"TCP connection\",\"pid\":17}";

#[test]
fn dependencies_are_read_from_the_output() {
    let output = format!("{{\"dependencies\":[{}],\"changed\":false,\"failed\":false,\"sum\":8}}", ONE_DEPENDENCY);
    let result = run_module("m", exited(0, &output, "")).unwrap();
    assert_eq!(result.dependencies, vec![dependency()]);
    assert_eq!(
        result.extra,
        vec![Member { key: "sum".to_string(), value: JsonValue::Number("8".to_string()) }]
    );
}

#[test]
fn one_bad_dependency_empties_the_batch() {
    for bad in [
        "{\"module\":\"m\"}",
        "17",
        // A port that is no whole number from 0 to 65535.
        "{\"module\":\"m\",\"local_ip\":\"a\",\"local_os\":\"b\",\"local_port\":65536,\"remote_ip\":\"c\",\"remote_port\":1,\"description\":\"d\"}",
        "{\"module\":\"m\",\"local_ip\":\"a\",\"local_os\":\"b\",\"local_port\":-1,\"remote_ip\":\"c\",\"remote_port\":1,\"description\":\"d\"}",
        "{\"module\":\"m\",\"local_ip\":\"a\",\"local_os\":\"b\",\"local_port\":80.5,\"remote_ip\":\"c\",\"remote_port\":1,\"description\":\"d\"}",
        "{\"module\":\"m\",\"local_ip\":\"a\",\"local_os\":\"b\",\"local_port\":\"80\",\"remote_ip\":\"c\",\"remote_port\":1,\"description\":\"d\"}",
        // A text that is no string.
        "{\"module\":7,\"local_ip\":\"a\",\"local_os\":\"b\",\"local_port\":80,\"remote_ip\":\"c\",\"remote_port\":1,\"description\":\"d\"}",
    ] {
        let output = format!("{{\"dependencies\":[{},{}]}}", ONE_DEPENDENCY, bad);
        let result = run_module("m", exited(0, &output, "")).unwrap();
        assert!(result.dependencies.is_empty(), "{}", bad);
    }
    let output = format!("{{\"dependencies\":[{},{}]}}", ONE_DEPENDENCY, ONE_DEPENDENCY);
    let result = run_module("m", exited(0, &output, "")).unwrap();
    assert_eq!(result.dependencies, vec![dependency(), dependency()]);
}

#[test]
fn the_ends_of_the_port_range_are_read() {
    let output = "{\"dependencies\":[{\"module\":\"m\",\"local_ip\":\"a\",\"local_os\":\"b\",\"local_port\":0,\"remote_ip\":\"c\",\"remote_port\":65535,\"description\":\"d\"}]}";
    let result = run_module("m", exited(0, output, "")).unwrap();
    assert_eq!(result.dependencies.len(), 1);
    assert_eq!(result.dependencies[0].local_port, 0);
    assert_eq!(result.dependencies[0].remote_port, 65535);
}

#[test]
fn a_batch_goes_to_the_server_as_an_array_of_objects() {
    let server = ServerConfig { url: "http://server/collect".to_string(), timeout: 7 };
    let request = relay_request(&server, &vec![dependency()]).unwrap();
    assert_eq!(request.url, "http://server/collect");
    assert_eq!(request.timeout, 7);
    assert_eq!(
        request.body,
        "[{\"Description\":\"TCP connection\",\"LocalIp\":\"10.0.0.1\",\"LocalOs\":\"Linux\",\"LocalPort\":5432,\"Module\":\"Connections\",\"RemoteIp\":\"10.0.0.2\",\"RemotePort\":443}]"
    );
    let doc = parse(request.body.as_bytes()).unwrap();
    assert_eq!(doc, JsonValue::Array(vec![dependency().to_json()]).clone_sorted());
    assert_eq!(relay_request(&server, &vec![]).unwrap().body, "[]");
}

trait Sorted {
    fn clone_sorted(&self) -> JsonValue;
}

impl Sorted for JsonValue {
    fn clone_sorted(&self) -> JsonValue {
        match self {
            JsonValue::Array(items) => JsonValue::Array(items.iter().map(|v| v.clone_sorted()).collect()),
            JsonValue::Object(members) => {
                let mut members: Vec<Member> = members
                    .iter()
                    .map(|m| Member { key: m.key.clone(), value: m.value.clone_sorted() })
                    .collect();
                members.sort_by(|a, b| a.key.cmp(&b.key));
                JsonValue::Object(members)
            }
            other => other.clone(),
        }
    }
}

#[test]
fn only_a_status_from_200_to_299_is_a_successful_relay() {
    for status in [200, 201, 204, 299] {
        assert_eq!(send_to_server(RelayOutcome::Status(status)), Ok(()));
    }
    for status in [0, 100, 199, 300, 301, 404, 500, 65535] {
        assert_eq!(
            send_to_server(RelayOutcome::Status(status)),
            Err(Error::Relay(format!("Server responded with status: {}", status)))
        );
    }
    assert_eq!(
        send_to_server(RelayOutcome::Failed("connection refused".to_string())),
        Err(Error::Relay("connection refused".to_string()))
    );
    assert_eq!(
        send_to_server(RelayOutcome::TimedOut),
        Err(Error::Relay("The request timed out".to_string()))
    );
}

#[test]
fn every_failure_describes_itself() {
    assert_eq!(Error::Io("x".to_string()).message(), "IO error: x");
    assert_eq!(Error::Serialization("x".to_string()).message(), "Serialization error: x");
    assert_eq!(Error::InvalidModuleName("a..b".to_string()).message(), "Invalid module name: a..b");
    assert_eq!(Error::ModuleNotFound("m".to_string()).message(), "Module not found: m");
    assert_eq!(Error::ModuleExecution("x".to_string()).message(), "Module execution error: x");
    assert_eq!(Error::Relay("x".to_string()).message(), "Relay error: x");
}

#[test]
fn engines_are_equal_when_their_configurations_say_the_same() {
    let mut one = CollectionEngine::new(config(&["/m"], vec![module("a", Some(15))]));
    let same = CollectionEngine::new(config(&["/m"], vec![module("a", Some(15))]));
    assert!(one == same);
    // Where an engine stands in its work does not count.
    run_once(&mut one, 5);
    one.run(Event::Tick { now: 100 });
    assert!(one == same);
    assert!(same == one);

    for other in [
        config(&["/m"], vec![module("b", Some(15))]),
        config(&["/m"], vec![module("a", Some(16))]),
        config(&["/m"], vec![module("a", None)]),
        config(&["/n"], vec![module("a", Some(15))]),
        config(&["/m", "/n"], vec![module("a", Some(15))]),
        config(&["/m"], vec![]),
        config(&["/m"], vec![module("a", Some(15)), module("a", Some(15))]),
    ] {
        assert!(one != CollectionEngine::new(other.clone()), "{:?}", other);
        assert!(!one.config().same_as(&other));
    }
    let mut changed = config(&["/m"], vec![module("a", Some(15))]);
    changed.server.timeout = 31;
    assert!(one != CollectionEngine::new(changed));
    let mut with_args = module("a", Some(15));
    with_args.module.args = Some(vec![Member { key: "k".to_string(), value: JsonValue::Null }]);
    assert!(one != CollectionEngine::new(config(&["/m"], vec![with_args.clone()])));
    assert!(
        CollectionEngine::new(config(&["/m"], vec![with_args.clone()]))
            == CollectionEngine::new(config(&["/m"], vec![with_args]))
    );
}

#[test]
fn a_configuration_is_well_formed_when_no_name_stands_twice() {
    assert!(config(&["/m"], vec![]).is_well_formed());
    assert!(config(&["/m"], vec![module("a", None), module("b", None), module("a.b", None)]).is_well_formed());
    assert!(!config(&["/m"], vec![module("a", None), module("b", None), module("a", Some(1))]).is_well_formed());
    let mut entry = module("a", None);
    entry.module.args = Some(vec![
        Member { key: "x".to_string(), value: JsonValue::Null },
        Member { key: "y".to_string(), value: JsonValue::Null },
    ]);
    assert!(config(&["/m"], vec![entry.clone()]).is_well_formed());
    entry.module.args.as_mut().unwrap().push(Member { key: "x".to_string(), value: JsonValue::Bool(true) });
    assert!(!config(&["/m"], vec![module("b", None), entry]).is_well_formed());
}

#[test]
fn an_accepted_name_holds_no_path_separator() {
    for name in ["a/b", "a\\b", "/", "\\", "a.b/c", "..", "a/../b", "./a", "C:\\x"] {
        assert!(sanitize_module_name(name).is_err(), "{:?}", name);
    }
    for name in ["a.b.c", "A9_z", "x"] {
        let path = module_path_under("/base", name);
        assert!(path.starts_with("/base/"));
        assert!(!path["/base/".len()..].contains('.'));
        assert!(!path.contains("//"));
        assert!(!path.contains('\\'));
    }
}
