//! What a module hands back to the agent that ran it: one JSON document on
//! its standard output, and its exit status.
use crate::json::{
    distinct_keys, json_document, document_text, keys, lemma_array_view, lemma_lookup_among_distinct,
    lemma_object_view, lookup, lookup_before, members_view, parse, render, values_view, Json,
    JsonValue, Member,
};
use crate::text::{joined, same_text, signed_decimal, signed_decimal_string};
use vstd::prelude::*;

verus! {

/// A dependency as a module reports it.
#[derive(Debug, Clone, PartialEq, Eq)]
pub struct Dependency {
    pub module: String,
    pub local_port: i32,
    pub local_ip: String,
    pub local_os: String,
    pub remote_port: i32,
    pub remote_ip: String,
    pub description: String,
}

/// The mathematical value of a `Dependency`.
pub struct DependencyView {
    pub module: Seq<char>,
    pub local_port: i32,
    pub local_ip: Seq<char>,
    pub local_os: Seq<char>,
    pub remote_port: i32,
    pub remote_ip: Seq<char>,
    pub description: Seq<char>,
}

impl View for Dependency {
    type V = DependencyView;

    open spec fn view(&self) -> DependencyView {
        DependencyView {
            module: self.module@,
            local_port: self.local_port,
            local_ip: self.local_ip@,
            local_os: self.local_os@,
            remote_port: self.remote_port,
            remote_ip: self.remote_ip@,
            description: self.description@,
        }
    }
}

/// The values of a run of dependencies.
pub open spec fn dependency_views(ds: Seq<Dependency>) -> Seq<DependencyView> {
    Seq::new(ds.len(), |i: int| ds[i]@)
}

/// A dependency as an object.
pub open spec fn encode_dependency(d: DependencyView) -> Json {
    Json::Object(
        seq![
            ("module"@, Json::Text(d.module)),
            ("local_port"@, Json::Number(signed_decimal(d.local_port as int))),
            ("local_ip"@, Json::Text(d.local_ip)),
            ("local_os"@, Json::Text(d.local_os)),
            ("remote_port"@, Json::Number(signed_decimal(d.remote_port as int))),
            ("remote_ip"@, Json::Text(d.remote_ip)),
            ("description"@, Json::Text(d.description)),
        ],
    )
}

impl Dependency {
    /// Writes the dependency as an object.
    pub fn to_json(&self) -> (doc: JsonValue)
        ensures
            doc@ == encode_dependency(self@),
    {
        let mut members: Vec<Member> = Vec::new();
        members.push(Member { key: "module".to_owned(), value: JsonValue::Text(self.module.clone()) });
        members.push(
            Member {
                key: "local_port".to_owned(),
                value: JsonValue::Number(signed_decimal_string(self.local_port)),
            },
        );
        members.push(
            Member { key: "local_ip".to_owned(), value: JsonValue::Text(self.local_ip.clone()) },
        );
        members.push(
            Member { key: "local_os".to_owned(), value: JsonValue::Text(self.local_os.clone()) },
        );
        members.push(
            Member {
                key: "remote_port".to_owned(),
                value: JsonValue::Number(signed_decimal_string(self.remote_port)),
            },
        );
        members.push(
            Member { key: "remote_ip".to_owned(), value: JsonValue::Text(self.remote_ip.clone()) },
        );
        members.push(
            Member {
                key: "description".to_owned(),
                value: JsonValue::Text(self.description.clone()),
            },
        );
        proof {
            lemma_object_view(members);
            assert(members_view(members@) =~= encode_dependency(self@)->Object_0);
        }
        JsonValue::Object(members)
    }
}

/// The answer of a module.
#[derive(Debug, Clone, PartialEq, Eq)]
pub struct Response {
    pub dependencies: Vec<Dependency>,
    pub changed: bool,
    pub failed: bool,
    /// Further members of the answer, each name once.
    pub extra: Vec<Member>,
}

/// The first position from `from` on at which `members` holds the name `key`.
pub open spec fn position_from(members: Seq<(Seq<char>, Json)>, key: Seq<char>, from: int) -> Option<
    int,
>
    decreases members.len() - from,
{
    if from < 0 || from >= members.len() {
        None
    } else if members[from].0 == key {
        Some(from)
    } else {
        position_from(members, key, from + 1)
    }
}

/// `members` with `key` standing for `value`: in the place of the first
/// member of that name, or at the end where there is none.
pub open spec fn with_member(members: Seq<(Seq<char>, Json)>, key: Seq<char>, value: Json) -> Seq<
    (Seq<char>, Json),
> {
    match position_from(members, key, 0) {
        Some(k) => members.update(k, (key, value)),
        None => members.push((key, value)),
    }
}

/// The document of an answer: `dependencies`, `changed` and `failed`, then
/// the further members side by side with them.
pub open spec fn encode_response(
    dependencies: Seq<DependencyView>,
    changed: bool,
    failed: bool,
    extra: Seq<(Seq<char>, Json)>,
) -> Json {
    Json::Object(
        seq![
            (
                "dependencies"@,
                Json::Array(
                    Seq::new(dependencies.len(), |i: int| encode_dependency(dependencies[i])),
                ),
            ),
            ("changed"@, Json::Bool(changed)),
            ("failed"@, Json::Bool(failed)),
        ] + extra,
    )
}

/// The answer that stands for a failure that cannot be told any better.
pub open spec fn fallback_text() -> Seq<char> {
    "{\"dependencies\":[],\"changed\":false,\"failed\":true}"@
}

impl Response {
    /// The document of the answer.
    pub open spec fn document(&self) -> Json {
        encode_response(
            dependency_views(self.dependencies@),
            self.changed,
            self.failed,
            members_view(self.extra@),
        )
    }

    /// The text that is written for the answer: that of its document, or,
    /// where the document cannot be written, the text of an empty answer
    /// that has failed.
    pub open spec fn text(&self) -> Seq<char> {
        match document_text(self.document()) {
            Some(text) => text,
            None => fallback_text(),
        }
    }

    /// Whether no name stands twice among the further members.
    pub open spec fn well_formed(&self) -> bool {
        distinct_keys(members_view(self.extra@))
    }

    /// The further member of a name, if there is one.
    pub open spec fn extra_member(&self, key: Seq<char>) -> Option<Json> {
        lookup(members_view(self.extra@), key)
    }

    /// An answer without further members.
    pub fn new(dependencies: Vec<Dependency>, changed: bool, failed: bool) -> (r: Response)
        ensures
            r.dependencies == dependencies,
            r.changed == changed,
            r.failed == failed,
            r.extra@.len() == 0,
            r.well_formed(),
    {
        Response { dependencies, changed, failed, extra: Vec::new() }
    }

    /// Adds a member to the answer; a member of the same name is replaced.
    /// In an answer in which no name stands twice, none does afterwards, the
    /// name stands for the new value, and every other name for what it stood
    /// for.
    pub fn add_extra(&mut self, key: &str, value: JsonValue)
        ensures
            members_view(final(self).extra@) == with_member(
                members_view(old(self).extra@),
                key@,
                value@,
            ),
            final(self).dependencies == old(self).dependencies,
            final(self).changed == old(self).changed,
            final(self).failed == old(self).failed,
            old(self).well_formed() ==> final(self).well_formed(),
            old(self).well_formed() ==> final(self).extra_member(key@) == Some(value@),
            forall|other: Seq<char>|
                other != key@ ==> (#[trigger] final(self).extra_member(other)) == old(
                    self,
                ).extra_member(other),
    {
        let ghost all = members_view(self.extra@);
        let ghost added = value@;
        let mut i: usize = 0;
        while i < self.extra.len()
            invariant
                i <= self.extra.len(),
                *self == *old(self),
                all == members_view(self.extra@),
                added == value@,
                position_from(all, key@, 0) == position_from(all, key@, i as int),
            decreases self.extra.len() - i,
        {
            if same_text(self.extra[i].key.as_str(), key) {
                self.extra.set(i, Member { key: key.to_owned(), value });
                proof {
                    assert(members_view(self.extra@) =~= all.update(i as int, (key@, added)));
                    lemma_with_member(all, key@, added);
                }
                return ;
            }
            i += 1;
        }
        self.extra.push(Member { key: key.to_owned(), value });
        proof {
            assert(position_from(all, key@, all.len() as int) is None);
            assert(members_view(self.extra@) =~= all.push((key@, added)));
            lemma_with_member(all, key@, added);
        }
    }

    /// The answer of a module that failed: no dependencies, and the reason
    /// as the member `error`.
    pub fn fail(error_msg: &str) -> (r: Response)
        ensures
            r.dependencies@.len() == 0,
            !r.changed,
            r.failed,
            members_view(r.extra@) == seq![("error"@, Json::Text(error_msg@))],
            r.well_formed(),
    {
        let mut extra: Vec<Member> = Vec::new();
        extra.push(Member { key: "error".to_owned(), value: JsonValue::Text(error_msg.to_owned()) });
        Response { dependencies: Vec::new(), changed: false, failed: true, extra }
    }

    /// Writes the answer as a document.
    pub fn to_json(&self) -> (doc: JsonValue)
        ensures
            doc@ == self.document(),
    {
        let mut items: Vec<JsonValue> = Vec::new();
        let mut i: usize = 0;
        while i < self.dependencies.len()
            invariant
                i <= self.dependencies.len(),
                items@.len() == i,
                forall|j: int|
                    0 <= j < i ==> (#[trigger] items@[j])@ == encode_dependency(
                        self.dependencies@[j]@,
                    ),
            decreases self.dependencies.len() - i,
        {
            items.push(self.dependencies[i].to_json());
            i += 1;
        }
        proof {
            lemma_array_view(items);
            assert(values_view(items@) =~= Seq::new(
                self.dependencies@.len(),
                |i: int| encode_dependency(dependency_views(self.dependencies@)[i]),
            ));
        }
        let mut members: Vec<Member> = Vec::new();
        members.push(Member { key: "dependencies".to_owned(), value: JsonValue::Array(items) });
        members.push(Member { key: "changed".to_owned(), value: JsonValue::Bool(self.changed) });
        members.push(Member { key: "failed".to_owned(), value: JsonValue::Bool(self.failed) });
        let mut k: usize = 0;
        let ghost head = members_view(members@);
        while k < self.extra.len()
            invariant
                k <= self.extra.len(),
                members_view(members@) == head + members_view(self.extra@).take(k as int),
            decreases self.extra.len() - k,
        {
            let ghost before = members_view(members@);
            let copy = self.extra[k].clone();
            members.push(copy);
            assert(members_view(members@) =~= before.push(self.extra@[k as int]@));
            assert(members_view(self.extra@).take(k + 1) =~= members_view(self.extra@).take(
                k as int,
            ).push(self.extra@[k as int]@));
            k += 1;
        }
        proof {
            lemma_object_view(members);
            assert(members_view(members@) =~= self.document()->Object_0);
        }
        JsonValue::Object(members)
    }
}

/// What a module's process ends with: the text for its standard output,
/// and its exit status.
#[derive(Debug, Clone, PartialEq, Eq)]
pub struct ProcessExit {
    pub output: String,
    pub code: i32,
}

/// The text that is written for an answer.
pub fn return_response(response_body: &Response) -> (text: String)
    ensures
        text@ == response_body.text(),
{
    match render(&response_body.to_json()) {
        Some(text) => text,
        None => "{\"dependencies\":[],\"changed\":false,\"failed\":true}".to_owned(),
    }
}

/// The end of a module that succeeded: its answer, and status 0.
pub fn exit_json(response_body: Response) -> (exit: ProcessExit)
    ensures
        exit.code == 0,
        exit.output@ == response_body.text(),
{
    ProcessExit { output: return_response(&response_body), code: 0 }
}

/// The document of the answer after a failure with the reason `error_msg`.
pub open spec fn failure_document(error_msg: Seq<char>) -> Json {
    encode_response(Seq::empty(), false, true, seq![("error"@, Json::Text(error_msg))])
}

/// The text that is written after a failure.
pub open spec fn failure_text(error_msg: Seq<char>) -> Seq<char> {
    match document_text(failure_document(error_msg)) {
        Some(text) => text,
        None => fallback_text(),
    }
}

/// The end of a module that failed: the answer that tells why, and status 1.
pub fn fail_json(error_msg: &str) -> (exit: ProcessExit)
    ensures
        exit.code == 1,
        exit.output@ == failure_text(error_msg@),
{
    let response = Response::fail(error_msg);
    assert(dependency_views(response.dependencies@) =~= Seq::empty());
    ProcessExit { output: return_response(&response), code: 1 }
}

/// Where the arguments of a module come from: the file that the variable
/// `ARGS_FILE` of the environment names.
#[derive(Debug, Clone, PartialEq, Eq)]
pub enum ArgsSource {
    /// The variable is not set.
    Missing,
    /// The file cannot be read.
    Unreadable,
    /// What the file holds.
    Content(String),
}

/// A module: it takes arguments and gives an answer.
///
/// A module may say what its three operations can come to, and is then
/// held to it. One that says nothing may come to anything, and nothing is
/// taken for granted of it.
pub trait Module {
    type Args;

    /// Whether `args` may be the arguments of a run that was given none it
    /// could use.
    open spec fn may_default(args: Self::Args) -> bool {
        true
    }

    /// Whether reading the arguments from `doc` may come to `args`.
    open spec fn may_parse(doc: Json, args: Option<Self::Args>) -> bool {
        true
    }

    /// Whether a run with `args` may come to `result`.
    open spec fn may_run(args: Self::Args, result: Result<Response, String>) -> bool {
        true
    }

    /// The arguments of a run that was given none it could use.
    fn default_args() -> (args: Self::Args)
        ensures
            Self::may_default(args),
    ;

    /// The arguments that a document spells, if it spells any.
    fn parse_args(doc: &JsonValue) -> (args: Option<Self::Args>)
        ensures
            Self::may_parse(doc@, args),
    ;

    /// Runs the module. An error is the reason of the failure.
    fn run(args: Self::Args) -> (result: Result<Response, String>)
        ensures
            Self::may_run(args, result),
    ;
}

/// The text of the complaint about a module that failed for `reason`.
pub open spec fn failed_run_text(reason: Seq<char>) -> Seq<char> {
    "Module execution failed: "@ + reason
}

/// The end of a module, given what its run came to.
pub fn finish(result: Result<Response, String>) -> (exit: ProcessExit)
    ensures
        match result {
            Ok(response) => exit.code == 0 && exit.output@ == response.text(),
            Err(reason) => exit.code == 1 && exit.output@ == failure_text(
                failed_run_text(reason@),
            ),
        },
{
    match result {
        Ok(response) => exit_json(response),
        Err(reason) => fail_json(joined("Module execution failed: ", reason.as_str()).as_str()),
    }
}

/// Runs a module from start to end: with the arguments that it reads from
/// the source, or with its default where the source gives none that it can
/// use, the module runs, and the process ends as `ends_as` says of that run.
pub fn run_module<T: Module>(source: ArgsSource) -> (exit: ProcessExit)
    ensures
        exists|args: T::Args, result: Result<Response, String>|
            #![auto]
            may_take::<T>(source, args) && T::may_run(args, result) && ends_as(exit, result),
{
    let args = match read_args(&source) {
        Some(doc) => match T::parse_args(&doc) {
            Some(args) => args,
            None => T::default_args(),
        },
        None => T::default_args(),
    };
    let ghost taken = args;
    let result = T::run(args);
    let ghost came = result;
    let exit = finish(result);
    assert(may_take::<T>(source, taken) && T::may_run(taken, came) && ends_as(exit, came));
    exit
}

/// Whether `exit` is the end of a module whose run came to `result`: its
/// answer and status 0 after a success, the answer that tells why and
/// status 1 after a failure.
pub open spec fn ends_as(exit: ProcessExit, result: Result<Response, String>) -> bool {
    match result {
        Ok(response) => exit.code == 0 && exit.output@ == response.text(),
        Err(reason) => exit.code == 1 && exit.output@ == failure_text(failed_run_text(reason@)),
    }
}

/// Whether module `T` may run with `args` when its arguments come from
/// `source`: with what it reads from the document that the source gives, or
/// with its default where the source gives no document or the module reads
/// nothing from it.
pub open spec fn may_take<T: Module>(source: ArgsSource, args: T::Args) -> bool {
    match args_document(source) {
        Some(doc) => T::may_parse(doc, Some(args)) || (T::may_parse(doc, None::<T::Args>)
            && T::may_default(args)),
        None => T::may_default(args),
    }
}

/// The document that holds the arguments, if the source gives one: the
/// file must be there and hold JSON.
pub open spec fn args_document(source: ArgsSource) -> Option<Json> {
    match source {
        ArgsSource::Content(text) => match json_document(vstd::utf8::encode_utf8(text@)) {
            Ok(doc) => Some(doc),
            Err(_) => None,
        },
        _ => None,
    }
}

/// Reads the document that holds the arguments.
pub fn read_args(source: &ArgsSource) -> (r: Option<JsonValue>)
    ensures
        match args_document(*source) {
            Some(doc) => r is Some && r->Some_0@ == doc,
            None => r is None,
        },
{
    match source {
        ArgsSource::Content(text) => match parse(text.as_str().as_bytes()) {
            Ok(doc) => Some(doc),
            Err(_) => None,
        },
        _ => None,
    }
}

/// Where a name is first found from `from` on, it is borne there and
/// nowhere between; where it is not found, no member from `from` on bears it.
pub proof fn lemma_position(members: Seq<(Seq<char>, Json)>, key: Seq<char>, from: int)
    requires
        0 <= from,
    ensures
        match position_from(members, key, from) {
            Some(at) => from <= at < members.len() && members[at].0 == key && forall|i: int|
                from <= i < at ==> (#[trigger] members[i]).0 != key,
            None => forall|i: int| from <= i < members.len() ==> (#[trigger] members[i]).0 != key,
        },
    decreases members.len() - from,
{
    if from < members.len() && members[from].0 != key {
        lemma_position(members, key, from + 1);
    }
}

/// Looking a name up gives the same in two runs of members that bear it at
/// the same places with the same values.
pub proof fn lemma_lookup_agrees(
    a: Seq<(Seq<char>, Json)>,
    b: Seq<(Seq<char>, Json)>,
    key: Seq<char>,
    n: int,
)
    requires
        0 <= n <= a.len(),
        n <= b.len(),
        forall|i: int| 0 <= i < n ==> ((#[trigger] a[i]).0 == key <==> b[i].0 == key),
        forall|i: int| 0 <= i < n && (#[trigger] a[i]).0 == key ==> a[i].1 == b[i].1,
    ensures
        lookup_before(a, key, n) == lookup_before(b, key, n),
    decreases n,
{
    if n > 0 {
        lemma_lookup_agrees(a, b, key, n - 1);
    }
}

/// Adding a member leaves every other name as it was.
pub proof fn lemma_with_member_other(
    members: Seq<(Seq<char>, Json)>,
    key: Seq<char>,
    value: Json,
    other: Seq<char>,
)
    requires
        other != key,
    ensures
        lookup(with_member(members, key, value), other) == lookup(members, other),
{
    lemma_position(members, key, 0);
    let after = with_member(members, key, value);
    match position_from(members, key, 0) {
        Some(at) => {
            lemma_lookup_agrees(after, members, other, members.len() as int);
        },
        None => {
            lemma_lookup_agrees(after, members, other, members.len() as int);
        },
    }
}

/// Adding a member to members of distinct names leaves the names distinct,
/// and the name stands for the value that was added. Every other name stands
/// for what it stood for, whatever the names were.
pub proof fn lemma_with_member(members: Seq<(Seq<char>, Json)>, key: Seq<char>, value: Json)
    ensures
        distinct_keys(members) ==> distinct_keys(with_member(members, key, value)),
        distinct_keys(members) ==> lookup(with_member(members, key, value), key) == Some(value),
        forall|other: Seq<char>|
            other != key ==> lookup(with_member(members, key, value), other) == lookup(
                members,
                other,
            ),
{
    assert forall|other: Seq<char>| other != key implies lookup(
        with_member(members, key, value),
        other,
    ) == lookup(members, other) by {
        lemma_with_member_other(members, key, value, other);
    }
    if distinct_keys(members) {
        lemma_position(members, key, 0);
        let after = with_member(members, key, value);
        match position_from(members, key, 0) {
            Some(at) => {
                assert forall|i: int, j: int| 0 <= i < j < after.len() implies keys(after)[i]
                    != keys(after)[j] by {
                    assert(keys(members)[i] != keys(members)[j]);
                }
                lemma_lookup_among_distinct(after, key, at, after.len() as int);
            },
            None => {
                assert forall|i: int, j: int| 0 <= i < j < after.len() implies keys(after)[i]
                    != keys(after)[j] by {
                    if j < members.len() {
                        assert(keys(members)[i] != keys(members)[j]);
                    }
                }
            },
        }
    }
}

} // verus!
