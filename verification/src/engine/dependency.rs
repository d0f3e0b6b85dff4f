//! The normalized fact that modules report, and its forms on the wire.
use crate::json::{lemma_array_view, lemma_object_view, members_view, values_view, Json, JsonValue, Member};
use crate::text::{decimal, decimal_string};
use vstd::prelude::*;

verus! {

/// A relationship between a local and a remote endpoint, found by a module.
#[derive(Debug, Clone, PartialEq, Eq)]
pub struct Dependency {
    pub local_ip: String,
    pub local_os: String,
    pub remote_ip: String,
    pub local_port: u16,
    pub remote_port: u16,
    pub module: String,
    pub description: String,
}

/// The mathematical value of a `Dependency`.
pub struct DependencyView {
    pub local_ip: Seq<char>,
    pub local_os: Seq<char>,
    pub remote_ip: Seq<char>,
    pub local_port: u16,
    pub remote_port: u16,
    pub module: Seq<char>,
    pub description: Seq<char>,
}

impl View for Dependency {
    type V = DependencyView;

    open spec fn view(&self) -> DependencyView {
        DependencyView {
            local_ip: self.local_ip@,
            local_os: self.local_os@,
            remote_ip: self.remote_ip@,
            local_port: self.local_port,
            remote_port: self.remote_port,
            module: self.module@,
            description: self.description@,
        }
    }
}

/// The values of a run of dependencies.
pub open spec fn dependency_views(ds: Seq<Dependency>) -> Seq<DependencyView> {
    Seq::new(ds.len(), |i: int| ds[i]@)
}

/// The dependency that a module wrote as one object: every field must be
/// there, the texts as strings and the ports as whole numbers from 0 to
/// 65535. Members of other names are passed over.
pub open spec fn decode_dependency(doc: Json) -> Option<DependencyView> {
    match (
        doc.text_field("local_ip"@),
        doc.text_field("local_os"@),
        doc.text_field("remote_ip"@),
        doc.port_field("local_port"@),
        doc.port_field("remote_port"@),
        doc.text_field("module"@),
        doc.text_field("description"@),
    ) {
        (
            Some(local_ip),
            Some(local_os),
            Some(remote_ip),
            Some(local_port),
            Some(remote_port),
            Some(module),
            Some(description),
        ) => Some(
            DependencyView {
                local_ip,
                local_os,
                remote_ip,
                local_port,
                remote_port,
                module,
                description,
            },
        ),
        _ => None,
    }
}

/// The dependencies that an array spells, where every item is one.
pub open spec fn decode_all(items: Seq<Json>) -> Option<Seq<DependencyView>> {
    if forall|i: int| 0 <= i < items.len() ==> (#[trigger] decode_dependency(items[i])) is Some {
        Some(Seq::new(items.len(), |i: int| decode_dependency(items[i])->Some_0))
    } else {
        None
    }
}

/// The dependencies in a module's output. The policy is lenient: where the
/// member `dependencies` is missing, is no array, or holds an item that is no
/// dependency, the module is taken to have reported none.
pub open spec fn reported_dependencies(doc: Json) -> Seq<DependencyView> {
    match doc.field("dependencies"@) {
        Some(Json::Array(items)) => match decode_all(items) {
            Some(ds) => ds,
            None => Seq::empty(),
        },
        _ => Seq::empty(),
    }
}

/// A dependency as the server takes it: one object, its members named in
/// Pascal case.
pub open spec fn encode_dependency(d: DependencyView) -> Json {
    Json::Object(
        seq![
            ("LocalIp"@, Json::Text(d.local_ip)),
            ("LocalOs"@, Json::Text(d.local_os)),
            ("RemoteIp"@, Json::Text(d.remote_ip)),
            ("LocalPort"@, Json::Number(decimal(d.local_port as nat))),
            ("RemotePort"@, Json::Number(decimal(d.remote_port as nat))),
            ("Module"@, Json::Text(d.module)),
            ("Description"@, Json::Text(d.description)),
        ],
    )
}

/// A batch of dependencies as the server takes it: an array of objects.
pub open spec fn encode_batch(ds: Seq<DependencyView>) -> Json {
    Json::Array(Seq::new(ds.len(), |i: int| encode_dependency(ds[i])))
}

/// A member that holds a string.
pub fn text_member(key: &str, value: &String) -> (m: Member)
    ensures
        m@ == (key@, Json::Text(value@)),
{
    Member { key: key.to_owned(), value: JsonValue::Text(value.clone()) }
}

/// A member that holds a whole number.
pub fn number_member(key: &str, value: u64) -> (m: Member)
    ensures
        m@ == (key@, Json::Number(decimal(value as nat))),
{
    Member { key: key.to_owned(), value: JsonValue::Number(decimal_string(value)) }
}

impl Dependency {
    /// Reads a dependency from the object that a module wrote.
    pub fn from_json(doc: &JsonValue) -> (r: Option<Dependency>)
        ensures
            match r {
                Some(d) => decode_dependency(doc@) == Some(d@),
                None => decode_dependency(doc@) is None,
            },
    {
        let local_ip = match doc.text_field("local_ip") {
            Some(s) => s.clone(),
            None => { return None; },
        };
        let local_os = match doc.text_field("local_os") {
            Some(s) => s.clone(),
            None => { return None; },
        };
        let remote_ip = match doc.text_field("remote_ip") {
            Some(s) => s.clone(),
            None => { return None; },
        };
        let local_port = match doc.port_field("local_port") {
            Some(p) => p,
            None => { return None; },
        };
        let remote_port = match doc.port_field("remote_port") {
            Some(p) => p,
            None => { return None; },
        };
        let module = match doc.text_field("module") {
            Some(s) => s.clone(),
            None => { return None; },
        };
        let description = match doc.text_field("description") {
            Some(s) => s.clone(),
            None => { return None; },
        };
        Some(
            Dependency {
                local_ip,
                local_os,
                remote_ip,
                local_port,
                remote_port,
                module,
                description,
            },
        )
    }

    /// Writes the dependency as the server takes it.
    pub fn to_json(&self) -> (doc: JsonValue)
        ensures
            doc@ == encode_dependency(self@),
    {
        let mut members: Vec<Member> = Vec::new();
        members.push(text_member("LocalIp", &self.local_ip));
        members.push(text_member("LocalOs", &self.local_os));
        members.push(text_member("RemoteIp", &self.remote_ip));
        members.push(number_member("LocalPort", self.local_port as u64));
        members.push(number_member("RemotePort", self.remote_port as u64));
        members.push(text_member("Module", &self.module));
        members.push(text_member("Description", &self.description));
        proof {
            lemma_object_view(members);
            assert(members_view(members@) =~= encode_dependency(self@)->Object_0);
        }
        JsonValue::Object(members)
    }
}

/// Reads the dependencies out of a module's output, leniently.
pub fn dependencies_of(doc: &JsonValue) -> (r: Vec<Dependency>)
    ensures
        dependency_views(r@) == reported_dependencies(doc@),
{
    let items = match doc.get("dependencies") {
        Some(v) => match v.as_array() {
            Some(items) => items,
            None => {
                return Vec::new();
            },
        },
        None => {
            return Vec::new();
        },
    };
    let ghost models = values_view(items@);
    let mut out: Vec<Dependency> = Vec::new();
    let mut i: usize = 0;
    while i < items.len()
        invariant
            i <= items.len(),
            models == values_view(items@),
            doc@.field("dependencies"@) == Some(Json::Array(models)),
            out@.len() == i,
            forall|j: int| 0 <= j < i ==> decode_dependency(models[j]) == Some(#[trigger] out@[j]@),
        decreases items.len() - i,
    {
        match Dependency::from_json(&items[i]) {
            Some(d) => {
                out.push(d);
            },
            None => {
                assert(decode_dependency(models[i as int]) is None);
                return Vec::new();
            },
        }
        i += 1;
    }
    assert(decode_all(models) is Some) by {
        assert forall|j: int| 0 <= j < models.len() implies (#[trigger] decode_dependency(
            models[j],
        )) is Some by {
            assert(decode_dependency(models[j]) == Some(out@[j]@));
        }
    }
    out
}

/// Writes a batch of dependencies as the server takes it.
pub fn batch_to_json(ds: &Vec<Dependency>) -> (doc: JsonValue)
    ensures
        doc@ == encode_batch(dependency_views(ds@)),
{
    let mut items: Vec<JsonValue> = Vec::new();
    let mut i: usize = 0;
    while i < ds.len()
        invariant
            i <= ds.len(),
            items@.len() == i,
            forall|j: int| 0 <= j < i ==> (#[trigger] items@[j]@) == encode_dependency(ds@[j]@),
        decreases ds.len() - i,
    {
        items.push(ds[i].to_json());
        i += 1;
    }
    proof {
        lemma_array_view(items);
        assert(values_view(items@) =~= encode_batch(dependency_views(ds@))->Array_0);
    }
    JsonValue::Array(items)
}

} // verus!
