//! What holds of the engine in every state.
use crate::engine::runner::{exit_text, run_failure, ProcessOutcome};
use crate::engine::names::{answers, candidate_path, lemma_first_hit, lemma_first_match_wins};
use crate::engine::{answers_so_far, EngineView, Event, Phase};
use crate::engine::dependency::{decode_all, decode_dependency, reported_dependencies, DependencyView};
use crate::error::ErrorView;
use crate::json::{lemma_lookup_prefix, lookup_before, Json};
use crate::text::lemma_decimal_round_trip;
use vstd::prelude::*;

verus! {

/// A module that was attempted at `last` is not due before its interval has
/// passed, and is due from then on.
pub proof fn lemma_due_after_interval(engine: EngineView, m: int, last: u64, now: u64)
    requires
        0 <= m < engine.last_run.len(),
        engine.last_run[m] == Some(last),
    ensures
        now < last + engine.config.spec_interval(m) ==> !engine.due(m, now),
        now >= last + engine.config.spec_interval(m) ==> engine.due(m, now),
{
}

/// A module that was never attempted is due at any time: after a start,
/// every module is.
pub proof fn lemma_due_at_cold_start(engine: EngineView, m: int, now: u64)
    requires
        0 <= m < engine.last_run.len(),
        engine.last_run[m] is None,
    ensures
        engine.due(m, now),
{
}

/// The module that a tick takes up next is due, and no module between is.
pub proof fn lemma_next_runnable(engine: EngineView, from: int, now: u64)
    requires
        0 <= from,
    ensures
        match engine.next_runnable(from, now) {
            Some(m) => from <= m < engine.modules() && engine.runnable(m, now) && forall|k: int|
                from <= k < m ==> !engine.runnable(k, now),
            None => forall|k: int| from <= k < engine.modules() ==> !engine.runnable(k, now),
        },
    decreases engine.modules() - from,
{
    if from < engine.modules() && !engine.runnable(from, now) {
        lemma_next_runnable(engine, from + 1, now);
    }
}

/// The engine asks for a module to be run only while it works on that
/// module, and it works only on modules that were due when the tick began:
/// no module is run before its interval has passed since its last attempt.
pub proof fn lemma_runs_only_due_modules(engine: EngineView, event: Event)
    requires
        engine.wf(),
        engine.transition(event).1 is Execute,
    ensures
        engine.phase is Resolving,
        engine.due(engine.phase->Resolving_module as int, engine.phase->Resolving_now),
        engine.transition(event).1->Execute_module == engine.name(
            engine.phase->Resolving_module as int,
        ),
        engine.transition(event).0.phase == (Phase::Running {
            module: engine.phase->Resolving_module,
            now: engine.phase->Resolving_now,
        }),
{
    match engine.phase {
        Phase::Idle => {
            if let Event::Tick { now } = event {
                lemma_iteration_never_executes(engine, 0, now);
            }
        },
        Phase::Resolving { module, now, tried } => {
            lemma_iteration_never_executes(engine, module + 1, now);
            lemma_iteration_never_executes(engine.recorded(module as int, now), module + 1, now);
        },
        Phase::Running { module, now } => {
            lemma_iteration_never_executes(engine.recorded(module as int, now), module + 1, now);
        },
        Phase::Relaying { module, now } => {
            lemma_iteration_never_executes(engine.recorded(module as int, now), module + 1, now);
        },
        Phase::Terminated => {},
    }
}

/// A module is run from the first base directory that holds it, and is not
/// run at all while every directory asked so far lacks it.
pub proof fn lemma_runs_the_first_match(engine: EngineView, exists: bool)
    requires
        engine.wf(),
        engine.phase is Resolving,
    ensures
        ({
            let action = engine.transition(Event::Probed { exists }).1;
            let module = engine.phase->Resolving_module as int;
            let tried = engine.phase->Resolving_tried as int;
            &&& action is Execute ==> exists && action->Execute_path == candidate_path(
                engine.bases()[tried]@,
                engine.name(module),
            )
            &&& exists && engine.args_text(module) is Ok ==> action is Execute
        }),
{
    let module = engine.phase->Resolving_module as int;
    let now = engine.phase->Resolving_now;
    let tried = engine.phase->Resolving_tried as int;
    let probes = answers_so_far(tried, exists);
    lemma_iteration_never_executes(engine, module + 1, now);
    lemma_iteration_never_executes(engine.recorded(module, now), module + 1, now);
    if exists {
        lemma_first_match_wins(engine.bases(), engine.name(module), probes, tried);
    } else {
        lemma_first_hit(answers(probes, engine.bases().len()));
    }
}

/// Going on with a tick asks for a probe, for the wait or for the stop.
pub proof fn lemma_iteration_never_executes(engine: EngineView, from: int, now: u64)
    ensures
        !(engine.iteration(from, now).1 is Execute),
        !(engine.iteration(from, now).1 is Relay),
        !(engine.iteration(from, now).1 is Pending),
{
}

/// Whatever comes of the run of a module, the attempt is noted: after the
/// process failed, and after the relay, be it a success or not, the module's
/// last run is the time of this tick.
pub proof fn lemma_every_attempt_is_noted(engine: EngineView, event: Event)
    requires
        engine.wf(),
    ensures
        engine.phase matches Phase::Running { module, now } ==> (event matches Event::Exited {
            outcome,
        } ==> run_failure(engine.name(module as int), outcome) is Some
            ==> engine.transition(event).0.last_run[module as int] == Some(now)),
        engine.phase matches Phase::Relaying { module, now } ==> (event is Relayed
            ==> engine.transition(event).0.last_run[module as int] == Some(now)),
{
}

/// A module that does not end with status 0 brings no relay about, and its
/// failure is handed to the caller as a failed execution; the tick goes on.
pub proof fn lemma_failed_module_is_not_relayed(
    engine: EngineView,
    code: i32,
    stdout: Vec<u8>,
    stderr: String,
)
    requires
        engine.wf(),
        engine.phase is Running,
        code != 0,
    ensures
        ({
            let event = Event::Exited {
                outcome: ProcessOutcome::Exited { code: Some(code), stdout, stderr },
            };
            let (next, action, failure) = engine.transition(event);
            &&& !(action is Relay)
            &&& failure == Some(
                ErrorView::ModuleExecution(
                    exit_text(
                        engine.name(engine.phase->Running_module as int),
                        Some(code),
                        stderr@,
                    ),
                ),
            )
            &&& !(next.phase is Terminated) || engine.shutdown_requested
        }),
{
    let module = engine.phase->Running_module;
    let now = engine.phase->Running_now;
    lemma_iteration_never_executes(engine.recorded(module as int, now), module + 1, now);
}

/// Shutdown is honoured between ticks only: while a tick is under way it is
/// kept in mind and the work goes on; before a tick it ends the loop. Once
/// the loop has ended, it stays so.
pub proof fn lemma_shutdown_is_cooperative(engine: EngineView, event: Event)
    requires
        engine.wf(),
    ensures
        engine.phase is Idle ==> engine.transition(Event::Shutdown).0.phase is Terminated
            && engine.transition(Event::Shutdown).1 is Stop,
        !(engine.phase is Idle) && !(engine.phase is Terminated) ==> engine.transition(
            Event::Shutdown,
        ).0.phase == engine.phase && engine.transition(Event::Shutdown).1 is Pending
            && engine.transition(Event::Shutdown).0.shutdown_requested,
        engine.phase is Terminated ==> engine.transition(event).0 == engine && engine.transition(
            event,
        ).1 is Stop,
{
}

/// A tick that ends while shutdown is kept in mind ends the loop; any other
/// tick ends in the wait for the next one.
pub proof fn lemma_tick_end(engine: EngineView)
    ensures
        engine.finish_tick().1 is Stop <==> engine.shutdown_requested,
        engine.finish_tick().1 is Wait <==> !engine.shutdown_requested,
        engine.finish_tick().0.phase is Terminated <==> engine.shutdown_requested,
{
}

/// The engine keeps what holds of every engine, whatever it is told.
pub proof fn lemma_transition_keeps_wf(engine: EngineView, event: Event)
    requires
        engine.wf(),
    ensures
        engine.transition(event).0.wf(),
{
    assert(engine.modules() <= usize::MAX) by {
        assert(engine.config.modules.len() == engine.config.modules@.len());
    }
    match engine.phase {
        Phase::Idle => {
            if let Event::Tick { now } = event {
                lemma_next_runnable(engine, 0, now);
            }
        },
        Phase::Resolving { module, now, tried } => {
            lemma_next_runnable(engine, module + 1, now);
            lemma_next_runnable(engine.recorded(module as int, now), module + 1, now);
        },
        Phase::Running { module, now } => {
            lemma_next_runnable(engine.recorded(module as int, now), module + 1, now);
        },
        Phase::Relaying { module, now } => {
            lemma_next_runnable(engine.recorded(module as int, now), module + 1, now);
        },
        Phase::Terminated => {},
    }
}

/// A dependency as the engine reads it from what a module wrote.
pub open spec fn as_read(d: crate::response::DependencyView) -> DependencyView {
    DependencyView {
        local_ip: d.local_ip,
        local_os: d.local_os,
        remote_ip: d.remote_ip,
        local_port: d.local_port as u16,
        remote_port: d.remote_port as u16,
        module: d.module,
        description: d.description,
    }
}

/// Whether both ports of a dependency are ports.
pub open spec fn has_ports(d: crate::response::DependencyView) -> bool {
    0 <= d.local_port <= 65535 && 0 <= d.remote_port <= 65535
}

/// What is known of the names in a module's answer.
proof fn lemma_answer_names()
    ensures
        "dependencies"@.len() == 12 && "dependencies"@[0] == 'd',
        "changed"@.len() == 7,
        "failed"@.len() == 6,
        "module"@.len() == 6 && "module"@[0] == 'm',
        "local_port"@.len() == 10 && "local_port"@[0] == 'l',
        "local_ip"@.len() == 8 && "local_ip"@[6] == 'i',
        "local_os"@.len() == 8 && "local_os"@[6] == 'o',
        "remote_port"@.len() == 11 && "remote_port"@[0] == 'r',
        "remote_ip"@.len() == 9,
        "description"@.len() == 11 && "description"@[0] == 'd',
{
    reveal_strlit("dependencies");
    reveal_strlit("changed");
    reveal_strlit("failed");
    reveal_strlit("module");
    reveal_strlit("local_port");
    reveal_strlit("local_ip");
    reveal_strlit("local_os");
    reveal_strlit("remote_port");
    reveal_strlit("remote_ip");
    reveal_strlit("description");
}

/// The engine reads a dependency as the module wrote it.
pub proof fn lemma_dependency_is_read_as_written(d: crate::response::DependencyView)
    requires
        has_ports(d),
    ensures
        decode_dependency(crate::response::encode_dependency(d)) == Some(as_read(d)),
{
    lemma_answer_names();
    reveal_with_fuel(lookup_before, 8);
    lemma_decimal_round_trip(d.local_port as nat);
    lemma_decimal_round_trip(d.remote_port as nat);
}

/// Members that do not bear a name are passed over when it is looked up.
proof fn lemma_lookup_passes_over(
    head: Seq<(Seq<char>, Json)>,
    extra: Seq<(Seq<char>, Json)>,
    key: Seq<char>,
    n: int,
)
    requires
        0 <= n <= extra.len(),
        forall|i: int| 0 <= i < extra.len() ==> (#[trigger] extra[i]).0 != key,
    ensures
        lookup_before(head + extra, key, head.len() + n) == lookup_before(
            head + extra,
            key,
            head.len() as int,
        ),
    decreases n,
{
    if n > 0 {
        lemma_lookup_passes_over(head, extra, key, n - 1);
        assert((head + extra)[head.len() + n - 1] == extra[n - 1]);
    }
}

/// What a module writes is what the engine reads: the dependencies of an
/// answer whose ports are ports come out as they went in, in their order,
/// as long as no further member of the answer is named `dependencies`.
pub proof fn lemma_answer_is_read_as_written(
    dependencies: Seq<crate::response::DependencyView>,
    changed: bool,
    failed: bool,
    extra: Seq<(Seq<char>, Json)>,
)
    requires
        forall|i: int| 0 <= i < dependencies.len() ==> has_ports(#[trigger] dependencies[i]),
        forall|i: int| 0 <= i < extra.len() ==> (#[trigger] extra[i]).0 != "dependencies"@,
    ensures
        reported_dependencies(
            crate::response::encode_response(dependencies, changed, failed, extra),
        ) == Seq::new(dependencies.len(), |i: int| as_read(dependencies[i])),
{
    let doc = crate::response::encode_response(dependencies, changed, failed, extra);
    let all = doc->Object_0;
    let head = all.take(3);
    let items = Seq::new(
        dependencies.len(),
        |i: int| crate::response::encode_dependency(dependencies[i]),
    );
    lemma_answer_names();
    assert(all =~= head + extra);
    lemma_lookup_passes_over(head, extra, "dependencies"@, extra.len() as int);
    lemma_lookup_prefix(all, head, "dependencies"@, 3);
    reveal_with_fuel(lookup_before, 4);
    assert(head[0] == ("dependencies"@, Json::Array(items)));
    assert(doc.field("dependencies"@) == Some(Json::Array(items)));
    assert forall|i: int| 0 <= i < items.len() implies (#[trigger] decode_dependency(items[i]))
        == Some(as_read(dependencies[i])) by {
        lemma_dependency_is_read_as_written(dependencies[i]);
    }
    assert(decode_all(items)->Some_0 =~= Seq::new(
        dependencies.len(),
        |i: int| as_read(dependencies[i]),
    ));
}

/// Where every module has a name of its own, the schedule is a schedule by
/// name: the entry of a module is the entry of its name.
pub proof fn lemma_schedule_is_by_name(engine: EngineView, m: int)
    requires
        engine.config.well_formed(),
        0 <= m < engine.modules(),
    ensures
        engine.last_run_of(engine.name(m)) == engine.last_run[m],
{
    let found = choose|k: int| 0 <= k < engine.modules() && engine.name(k) == engine.name(m);
    if found < m {
        assert(engine.config.names()[found] != engine.config.names()[m]);
    } else if m < found {
        assert(engine.config.names()[m] != engine.config.names()[found]);
    }
}

/// Where every module has a name of its own, noting an attempt touches the
/// schedule of that one name: it stands at the time of the tick, and the
/// schedule of every other name is as it was.
pub proof fn lemma_attempt_is_noted_by_name(engine: EngineView, m: int, now: u64, other: Seq<char>)
    requires
        engine.sized(),
        engine.config.well_formed(),
        0 <= m < engine.modules(),
    ensures
        engine.recorded(m, now).last_run_of(engine.name(m)) == Some(now),
        other != engine.name(m) ==> engine.recorded(m, now).last_run_of(other)
            == engine.last_run_of(other),
{
    let after = engine.recorded(m, now);
    lemma_schedule_is_by_name(after, m);
    if other != engine.name(m) {
        if exists|k: int| 0 <= k < engine.modules() && engine.name(k) == other {
            let k = choose|k: int| 0 <= k < engine.modules() && engine.name(k) == other;
            lemma_schedule_is_by_name(engine, k);
            lemma_schedule_is_by_name(after, k);
            assert(after.name(k) == other && after.last_run[k] == engine.last_run[k]);
        } else {
            assert forall|k: int| 0 <= k < after.modules() implies after.name(k) != other by {
                assert(engine.name(k) == after.name(k));
            }
        }
    }
}

} // verus!
