//! What the run of a module's process means.
use crate::engine::dependency::{
    dependencies_of, dependency_views, reported_dependencies, Dependency, DependencyView,
};
use crate::error::{Error, ErrorView};
use crate::json::{
    json_document, members_view, members_without, parse, without_keys, Json, Member,
};
use crate::text::{joined, signed_decimal, signed_decimal_string};
use vstd::prelude::*;

verus! {

/// The name of the environment variable through which a module learns where
/// its arguments were written.
pub const ARGS_FILE: &'static str = "ARGS_FILE";

/// How the process of a module ended.
#[derive(Debug, Clone, PartialEq, Eq)]
pub enum ProcessOutcome {
    /// It could not be started or waited for; holds the reason.
    Failed(String),
    /// It ran longer than it may and was terminated.
    TimedOut,
    /// It ended by itself. `code` is `None` where a signal ended it.
    Exited { code: Option<i32>, stdout: Vec<u8>, stderr: String },
}

/// What a successful run of a module gave.
#[derive(Debug, Clone, PartialEq, Eq)]
pub struct ExecutionResult {
    pub status: i32,
    pub stdout: Vec<u8>,
    pub stderr: String,
    pub dependencies: Vec<Dependency>,
    pub changed: bool,
    pub failed: bool,
    /// The members of the output beside `dependencies`, `changed`, `failed`.
    pub extra: Vec<Member>,
}

/// The members of a module's output that are carried along unread.
pub open spec fn extra_members(doc: Json) -> Seq<(Seq<char>, Json)> {
    match doc {
        Json::Object(members) => without_keys(members, "dependencies"@, "changed"@, "failed"@),
        _ => Seq::empty(),
    }
}

/// A flag of a module's output; `false` where it is missing or no boolean.
pub open spec fn flag(doc: Json, key: Seq<char>) -> bool {
    match doc.bool_field(key) {
        Some(b) => b,
        None => false,
    }
}

impl ExecutionResult {
    /// Whether the result is what a run gives that ended with status 0 and
    /// wrote `stdout`, which spells `doc`, and `stderr`.
    pub open spec fn describes(&self, doc: Json, stdout: Seq<u8>, stderr: Seq<char>) -> bool {
        &&& self.status == 0
        &&& self.stdout@ == stdout
        &&& self.stderr@ == stderr
        &&& dependency_views(self.dependencies@) == reported_dependencies(doc)
        &&& self.changed == flag(doc, "changed"@)
        &&& self.failed == flag(doc, "failed"@)
        &&& members_view(self.extra@) == extra_members(doc)
    }
}

/// The complaint about a module that ran too long.
pub open spec fn timeout_text(name: Seq<char>) -> Seq<char> {
    "Module '"@ + name + "' timed out"@
}

/// The complaint about a module that did not end with status 0; it carries
/// what the module wrote to its error stream.
pub open spec fn exit_text(name: Seq<char>, code: Option<i32>, stderr: Seq<char>) -> Seq<char> {
    match code {
        Some(c) => "Module '"@ + name + "' failed with status "@ + signed_decimal(c as int)
            + ": "@ + stderr,
        None => "Module '"@ + name + "' was terminated by a signal: "@ + stderr,
    }
}

/// The complaint about a module whose output is no structured document.
pub open spec fn invalid_output_text(name: Seq<char>, reason: Seq<char>) -> Seq<char> {
    "Module '"@ + name + "' wrote invalid output: "@ + reason
}

/// Why a run counts as failed, if it does: it could not be started (an I/O
/// failure), it timed out, it did not end with status 0, or what it wrote is
/// no JSON document (failed executions).
pub open spec fn run_failure(name: Seq<char>, outcome: ProcessOutcome) -> Option<ErrorView> {
    match outcome {
        ProcessOutcome::Failed(reason) => Some(ErrorView::Io(reason@)),
        ProcessOutcome::TimedOut => Some(ErrorView::ModuleExecution(timeout_text(name))),
        ProcessOutcome::Exited { code, stdout, stderr } => if code != Some(0i32) {
            Some(ErrorView::ModuleExecution(exit_text(name, code, stderr@)))
        } else {
            match json_document(stdout@) {
                Err(reason) => Some(
                    ErrorView::ModuleExecution(invalid_output_text(name, reason)),
                ),
                Ok(_) => None,
            }
        },
    }
}

/// The dependencies that a successful run reported.
pub open spec fn run_dependencies(outcome: ProcessOutcome) -> Seq<DependencyView> {
    match outcome {
        ProcessOutcome::Exited { code, stdout, stderr } => match json_document(stdout@) {
            Ok(doc) => reported_dependencies(doc),
            Err(_) => Seq::empty(),
        },
        _ => Seq::empty(),
    }
}

/// Judges the run of module `name`: the failure that `run_failure` names, or
/// the result read from what the module wrote. A document that lacks
/// `dependencies` still is a success, with no dependencies.
pub fn run_module(name: &str, outcome: ProcessOutcome) -> (r: Result<ExecutionResult, Error>)
    ensures
        match run_failure(name@, outcome) {
            Some(e) => r is Err && r->Err_0@ == e,
            None => r is Ok && r->Ok_0.describes(
                json_document(outcome->stdout@)->Ok_0,
                outcome->stdout@,
                outcome->stderr@,
            ) && dependency_views(r->Ok_0.dependencies@) == run_dependencies(outcome),
        },
{
    let subject = joined("Module '", name);
    match outcome {
        ProcessOutcome::Failed(reason) => Err(Error::Io(reason)),
        ProcessOutcome::TimedOut => Err(
            Error::ModuleExecution(joined(subject.as_str(), "' timed out")),
        ),
        ProcessOutcome::Exited { code, stdout, stderr } => {
            match code {
                Some(0) => {},
                Some(c) => {
                    let mut text = joined(subject.as_str(), "' failed with status ");
                    text.append(signed_decimal_string(c).as_str());
                    text.append(": ");
                    text.append(stderr.as_str());
                    return Err(Error::ModuleExecution(text));
                },
                None => {
                    let mut text = joined(subject.as_str(), "' was terminated by a signal: ");
                    text.append(stderr.as_str());
                    return Err(Error::ModuleExecution(text));
                },
            }
            let doc = match parse(stdout.as_slice()) {
                Ok(doc) => doc,
                Err(reason) => {
                    let mut text = joined(subject.as_str(), "' wrote invalid output: ");
                    text.append(reason.as_str());
                    return Err(Error::ModuleExecution(text));
                },
            };
            let dependencies = dependencies_of(&doc);
            let changed = match doc.bool_field("changed") {
                Some(b) => b,
                None => false,
            };
            let failed = match doc.bool_field("failed") {
                Some(b) => b,
                None => false,
            };
            let extra = match doc.as_object() {
                Some(members) => members_without(members, "dependencies", "changed", "failed"),
                None => {
                    assert(members_view(Seq::<Member>::empty()) =~= Seq::empty());
                    Vec::new()
                },
            };
            Ok(ExecutionResult { status: 0, stdout, stderr, dependencies, changed, failed, extra })
        },
    }
}

} // verus!
