//! The messages that agents send, and their form on the wire: one JSON
//! object per message, which holds the envelope and the fields of the
//! payload side by side.
use crate::engine::dependency::{number_member, text_member};
use crate::json::{
    json_document, document_text, lemma_object_view, members_view, members_without, parse, render,
    without_keys, Json, JsonValue, Member,
};
use crate::text::{decimal, same_text};
use vstd::prelude::*;

verus! {

/// An operating system.
#[derive(Debug, Clone, Copy, PartialEq, Eq)]
pub enum OS {
    Windows,
    Linux,
    MacOS,
    Unknown,
}

impl OS {
    /// The name under which the system goes on the wire.
    pub open spec fn name(self) -> Seq<char> {
        match self {
            OS::Windows => "Windows"@,
            OS::Linux => "Linux"@,
            OS::MacOS => "MacOS"@,
            OS::Unknown => "Unknown"@,
        }
    }

    /// The system of a name.
    pub open spec fn named(name: Seq<char>) -> Option<OS> {
        if name == "Windows"@ {
            Some(OS::Windows)
        } else if name == "Linux"@ {
            Some(OS::Linux)
        } else if name == "MacOS"@ {
            Some(OS::MacOS)
        } else if name == "Unknown"@ {
            Some(OS::Unknown)
        } else {
            None
        }
    }

    /// The name under which the system goes on the wire.
    pub fn as_str(&self) -> (name: &'static str)
        ensures
            name@ == self.name(),
    {
        match self {
            OS::Windows => "Windows",
            OS::Linux => "Linux",
            OS::MacOS => "MacOS",
            OS::Unknown => "Unknown",
        }
    }

    /// The system of a name.
    pub fn from_name(name: &str) -> (os: Option<OS>)
        ensures
            os == OS::named(name@),
    {
        if same_text(name, "Windows") {
            Some(OS::Windows)
        } else if same_text(name, "Linux") {
            Some(OS::Linux)
        } else if same_text(name, "MacOS") {
            Some(OS::MacOS)
        } else if same_text(name, "Unknown") {
            Some(OS::Unknown)
        } else {
            None
        }
    }
}

/// The identity of an agent: an opaque, unique string.
#[derive(Debug, Clone, PartialEq, Eq, Hash)]
pub struct AgentID(pub String);

impl View for AgentID {
    type V = Seq<char>;

    open spec fn view(&self) -> Seq<char> {
        self.0@
    }
}

impl AgentID {
    /// The identity as text.
    pub fn to_string(&self) -> (s: String)
        ensures
            s@ == self@,
    {
        self.0.clone()
    }
}

/// One entry of the context of a log line.
#[derive(Debug, Clone, PartialEq, Eq)]
pub struct ContextEntry {
    pub key: String,
    pub value: String,
}

impl View for ContextEntry {
    type V = (Seq<char>, Seq<char>);

    open spec fn view(&self) -> (Seq<char>, Seq<char>) {
        (self.key@, self.value@)
    }
}

/// The values of a run of context entries.
pub open spec fn context_view(entries: Seq<ContextEntry>) -> Seq<(Seq<char>, Seq<char>)> {
    Seq::new(entries.len(), |i: int| entries[i]@)
}

/// What a message carries. A measurement is held as the decimal text of its
/// number.
#[derive(Debug, Clone, PartialEq, Eq)]
pub enum MessageType {
    HealthCheck { status: String, cpu_usage: String, memory_usage: String, storage_usage: String },
    Dependency {
        module: String,
        local_port: u16,
        local_ip: String,
        local_os: OS,
        remote_port: u16,
        remote_ip: String,
        description: String,
    },
    Node { src_ip: String, os: OS },
    Log { log_level: String, message: String, context: Vec<ContextEntry> },
    /// Anything else: the members of the message beside the envelope.
    Custom(JsonValue),
}

/// The mathematical value of a `MessageType`.
pub enum MessageTypeView {
    HealthCheck {
        status: Seq<char>,
        cpu_usage: Seq<char>,
        memory_usage: Seq<char>,
        storage_usage: Seq<char>,
    },
    Dependency {
        module: Seq<char>,
        local_port: u16,
        local_ip: Seq<char>,
        local_os: OS,
        remote_port: u16,
        remote_ip: Seq<char>,
        description: Seq<char>,
    },
    Node { src_ip: Seq<char>, os: OS },
    Log { log_level: Seq<char>, message: Seq<char>, context: Seq<(Seq<char>, Seq<char>)> },
    Custom(Json),
}

impl View for MessageType {
    type V = MessageTypeView;

    open spec fn view(&self) -> MessageTypeView {
        match self {
            MessageType::HealthCheck { status, cpu_usage, memory_usage, storage_usage } =>
                MessageTypeView::HealthCheck {
                status: status@,
                cpu_usage: cpu_usage@,
                memory_usage: memory_usage@,
                storage_usage: storage_usage@,
            },
            MessageType::Dependency {
                module,
                local_port,
                local_ip,
                local_os,
                remote_port,
                remote_ip,
                description,
            } => MessageTypeView::Dependency {
                module: module@,
                local_port: *local_port,
                local_ip: local_ip@,
                local_os: *local_os,
                remote_port: *remote_port,
                remote_ip: remote_ip@,
                description: description@,
            },
            MessageType::Node { src_ip, os } => MessageTypeView::Node { src_ip: src_ip@, os: *os },
            MessageType::Log { log_level, message, context } => MessageTypeView::Log {
                log_level: log_level@,
                message: message@,
                context: context_view(context@),
            },
            MessageType::Custom(payload) => MessageTypeView::Custom(payload@),
        }
    }
}

/// A message of an agent: who sent it, when, and what it carries.
#[derive(Debug, Clone, PartialEq, Eq)]
pub struct Message {
    pub agent_id: AgentID,
    pub timestamp: String,
    pub request: MessageType,
}

/// The mathematical value of a `Message`.
pub struct MessageView {
    pub agent_id: Seq<char>,
    pub timestamp: Seq<char>,
    pub request: MessageTypeView,
}

impl View for Message {
    type V = MessageView;

    open spec fn view(&self) -> MessageView {
        MessageView {
            agent_id: self.agent_id@,
            timestamp: self.timestamp@,
            request: self.request@,
        }
    }
}

/// Whether `key` names a member of the envelope.
pub open spec fn is_envelope_key(key: Seq<char>) -> bool {
    key == "agent_id"@ || key == "timestamp"@ || key == "request_type"@
}

/// The system that the string member `key` names.
pub open spec fn os_field(doc: Json, key: Seq<char>) -> Option<OS> {
    match doc.text_field(key) {
        Some(name) => OS::named(name),
        None => None,
    }
}

/// The context of a log line: an object whose members all hold strings.
pub open spec fn decode_context(doc: Option<Json>) -> Option<Seq<(Seq<char>, Seq<char>)>> {
    match doc {
        Some(Json::Object(members)) => if forall|i: int|
            0 <= i < members.len() ==> (#[trigger] members[i]).1 is Text {
            Some(Seq::new(members.len(), |i: int| (members[i].0, members[i].1->Text_0)))
        } else {
            None
        },
        _ => None,
    }
}

/// The payload of kind `tag` among the members of `doc`.
pub open spec fn decode_request(tag: Seq<char>, doc: Json) -> Option<MessageTypeView> {
    if tag == "HealthCheck"@ {
        match (
            doc.text_field("status"@),
            doc.number_field("cpu_usage"@),
            doc.number_field("memory_usage"@),
            doc.number_field("storage_usage"@),
        ) {
            (Some(status), Some(cpu_usage), Some(memory_usage), Some(storage_usage)) => Some(
                MessageTypeView::HealthCheck { status, cpu_usage, memory_usage, storage_usage },
            ),
            _ => None,
        }
    } else if tag == "Dependency"@ {
        match (
            doc.text_field("module"@),
            doc.port_field("local_port"@),
            doc.text_field("local_ip"@),
            os_field(doc, "local_os"@),
            doc.port_field("remote_port"@),
            doc.text_field("remote_ip"@),
            doc.text_field("description"@),
        ) {
            (
                Some(module),
                Some(local_port),
                Some(local_ip),
                Some(local_os),
                Some(remote_port),
                Some(remote_ip),
                Some(description),
            ) => Some(
                MessageTypeView::Dependency {
                    module,
                    local_port,
                    local_ip,
                    local_os,
                    remote_port,
                    remote_ip,
                    description,
                },
            ),
            _ => None,
        }
    } else if tag == "Node"@ {
        match (doc.text_field("src_ip"@), os_field(doc, "os"@)) {
            (Some(src_ip), Some(os)) => Some(MessageTypeView::Node { src_ip, os }),
            _ => None,
        }
    } else if tag == "Log"@ {
        match (
            doc.text_field("log_level"@),
            doc.text_field("message"@),
            decode_context(doc.field("context"@)),
        ) {
            (Some(log_level), Some(message), Some(context)) => Some(
                MessageTypeView::Log { log_level, message, context },
            ),
            _ => None,
        }
    } else if tag == "Custom"@ {
        match doc {
            Json::Object(members) => Some(
                MessageTypeView::Custom(
                    Json::Object(
                        without_keys(members, "agent_id"@, "timestamp"@, "request_type"@),
                    ),
                ),
            ),
            _ => None,
        }
    } else {
        None
    }
}

/// The message that a document spells: an object with the string members
/// `agent_id`, `timestamp` and `request_type`, and with the members that the
/// payload of that type asks for. `None` for every other document.
pub open spec fn decode_message(doc: Json) -> Option<MessageView> {
    match (doc.text_field("agent_id"@), doc.text_field("timestamp"@), doc.text_field(
        "request_type"@,
    )) {
        (Some(agent_id), Some(timestamp), Some(tag)) => match decode_request(tag, doc) {
            Some(request) => Some(MessageView { agent_id, timestamp, request }),
            None => None,
        },
        _ => None,
    }
}

/// The context of a log line as an object.
pub open spec fn encode_context(context: Seq<(Seq<char>, Seq<char>)>) -> Json {
    Json::Object(Seq::new(context.len(), |i: int| (context[i].0, Json::Text(context[i].1))))
}

/// The name of a payload's type on the wire.
pub open spec fn request_tag(request: MessageTypeView) -> Seq<char> {
    match request {
        MessageTypeView::HealthCheck { .. } => "HealthCheck"@,
        MessageTypeView::Dependency { .. } => "Dependency"@,
        MessageTypeView::Node { .. } => "Node"@,
        MessageTypeView::Log { .. } => "Log"@,
        MessageTypeView::Custom(_) => "Custom"@,
    }
}

/// The members that a payload adds to the envelope; `None` for a custom
/// payload that is no object.
pub open spec fn request_members(request: MessageTypeView) -> Option<Seq<(Seq<char>, Json)>> {
    match request {
        MessageTypeView::HealthCheck { status, cpu_usage, memory_usage, storage_usage } => Some(
            seq![
                ("status"@, Json::Text(status)),
                ("cpu_usage"@, Json::Number(cpu_usage)),
                ("memory_usage"@, Json::Number(memory_usage)),
                ("storage_usage"@, Json::Number(storage_usage)),
            ],
        ),
        MessageTypeView::Dependency {
            module,
            local_port,
            local_ip,
            local_os,
            remote_port,
            remote_ip,
            description,
        } => Some(
            seq![
                ("module"@, Json::Text(module)),
                ("local_port"@, Json::Number(decimal(local_port as nat))),
                ("local_ip"@, Json::Text(local_ip)),
                ("local_os"@, Json::Text(local_os.name())),
                ("remote_port"@, Json::Number(decimal(remote_port as nat))),
                ("remote_ip"@, Json::Text(remote_ip)),
                ("description"@, Json::Text(description)),
            ],
        ),
        MessageTypeView::Node { src_ip, os } => Some(
            seq![("src_ip"@, Json::Text(src_ip)), ("os"@, Json::Text(os.name()))],
        ),
        MessageTypeView::Log { log_level, message, context } => Some(
            seq![
                ("log_level"@, Json::Text(log_level)),
                ("message"@, Json::Text(message)),
                ("context"@, encode_context(context)),
            ],
        ),
        MessageTypeView::Custom(payload) => match payload {
            Json::Object(members) => Some(members),
            _ => None,
        },
    }
}

/// Whether none of `members` bears a name of the envelope.
pub open spec fn free_of_envelope_keys(members: Seq<(Seq<char>, Json)>) -> bool {
    forall|i: int| 0 <= i < members.len() ==> !is_envelope_key((#[trigger] members[i]).0)
}

/// The document that spells a message: the members of the payload, then the
/// envelope. `None` for a custom payload that is no object or that bears a
/// name of the envelope.
pub open spec fn encode_message(m: MessageView) -> Option<Json> {
    match request_members(m.request) {
        Some(members) => if free_of_envelope_keys(members) {
            Some(
                Json::Object(
                    members + seq![
                        ("agent_id"@, Json::Text(m.agent_id)),
                        ("timestamp"@, Json::Text(m.timestamp)),
                        ("request_type"@, Json::Text(request_tag(m.request))),
                    ],
                ),
            )
        } else {
            None
        },
        None => None,
    }
}

/// The text of the complaint about a document that spells no message.
pub open spec fn malformed_text() -> Seq<char> {
    "unrecognized or malformed payload"@
}

/// The message that a run of bytes spells: the bytes must be a JSON document,
/// and the document a message. Else the complaint.
pub open spec fn message_of_bytes(bytes: Seq<u8>) -> Result<MessageView, Seq<char>> {
    match json_document(bytes) {
        Err(text) => Err(text),
        Ok(doc) => match decode_message(doc) {
            Some(m) => Ok(m),
            None => Err(malformed_text()),
        },
    }
}

/// The JSON text of a message, where it can be written.
pub open spec fn message_text(m: MessageView) -> Option<Seq<char>> {
    match encode_message(m) {
        Some(doc) => document_text(doc),
        None => None,
    }
}

/// Reads the system that the string member `key` names.
fn read_os(doc: &JsonValue, key: &str) -> (os: Option<OS>)
    ensures
        os == os_field(doc@, key@),
{
    match doc.text_field(key) {
        Some(name) => OS::from_name(name.as_str()),
        None => None,
    }
}

/// Reads the context of a log line.
fn read_context(doc: Option<&JsonValue>) -> (r: Option<Vec<ContextEntry>>)
    ensures
        match r {
            Some(entries) => decode_context(
                match doc {
                    Some(d) => Some(d@),
                    None => None,
                },
            ) == Some(context_view(entries@)),
            None => decode_context(
                match doc {
                    Some(d) => Some(d@),
                    None => None,
                },
            ) is None,
        },
{
    let members = match doc {
        Some(d) => match d.as_object() {
            Some(members) => members,
            None => {
                return None;
            },
        },
        None => {
            return None;
        },
    };
    let ghost all = members_view(members@);
    let mut entries: Vec<ContextEntry> = Vec::new();
    let mut i: usize = 0;
    while i < members.len()
        invariant
            i <= members.len(),
            all == members_view(members@),
            doc is Some,
            doc->Some_0@ == Json::Object(all),
            entries@.len() == i,
            forall|j: int| 0 <= j < i ==> (#[trigger] all[j]).1 is Text,
            forall|j: int|
                0 <= j < i ==> (#[trigger] entries@[j])@ == (all[j].0, all[j].1->Text_0),
        decreases members.len() - i,
    {
        match members[i].value.as_text() {
            Some(text) => {
                entries.push(ContextEntry { key: members[i].key.clone(), value: text.clone() });
            },
            None => {
                assert(all[i as int] == members@[i as int]@);
                return None;
            },
        }
        i += 1;
    }
    Some(entries)
}

/// Reads the payload of kind `tag` from the members of `doc`.
fn read_request(tag: &str, doc: &JsonValue) -> (r: Option<MessageType>)
    ensures
        match r {
            Some(request) => decode_request(tag@, doc@) == Some(request@),
            None => decode_request(tag@, doc@) is None,
        },
{
    if same_text(tag, "HealthCheck") {
        let status = match doc.text_field("status") {
            Some(s) => s.clone(),
            None => { return None; },
        };
        let cpu_usage = match doc.number_field("cpu_usage") {
            Some(s) => s.clone(),
            None => { return None; },
        };
        let memory_usage = match doc.number_field("memory_usage") {
            Some(s) => s.clone(),
            None => { return None; },
        };
        let storage_usage = match doc.number_field("storage_usage") {
            Some(s) => s.clone(),
            None => { return None; },
        };
        Some(MessageType::HealthCheck { status, cpu_usage, memory_usage, storage_usage })
    } else if same_text(tag, "Dependency") {
        let module = match doc.text_field("module") {
            Some(s) => s.clone(),
            None => { return None; },
        };
        let local_port = match doc.port_field("local_port") {
            Some(p) => p,
            None => { return None; },
        };
        let local_ip = match doc.text_field("local_ip") {
            Some(s) => s.clone(),
            None => { return None; },
        };
        let local_os = match read_os(doc, "local_os") {
            Some(os) => os,
            None => { return None; },
        };
        let remote_port = match doc.port_field("remote_port") {
            Some(p) => p,
            None => { return None; },
        };
        let remote_ip = match doc.text_field("remote_ip") {
            Some(s) => s.clone(),
            None => { return None; },
        };
        let description = match doc.text_field("description") {
            Some(s) => s.clone(),
            None => { return None; },
        };
        Some(
            MessageType::Dependency {
                module,
                local_port,
                local_ip,
                local_os,
                remote_port,
                remote_ip,
                description,
            },
        )
    } else if same_text(tag, "Node") {
        let src_ip = match doc.text_field("src_ip") {
            Some(s) => s.clone(),
            None => { return None; },
        };
        let os = match read_os(doc, "os") {
            Some(os) => os,
            None => { return None; },
        };
        Some(MessageType::Node { src_ip, os })
    } else if same_text(tag, "Log") {
        let log_level = match doc.text_field("log_level") {
            Some(s) => s.clone(),
            None => { return None; },
        };
        let message = match doc.text_field("message") {
            Some(s) => s.clone(),
            None => { return None; },
        };
        let context = match read_context(doc.get("context")) {
            Some(c) => c,
            None => { return None; },
        };
        Some(MessageType::Log { log_level, message, context })
    } else if same_text(tag, "Custom") {
        match doc.as_object() {
            Some(members) => {
                let payload = members_without(members, "agent_id", "timestamp", "request_type");
                proof {
                    lemma_object_view(payload);
                }
                Some(MessageType::Custom(JsonValue::Object(payload)))
            },
            None => None,
        }
    } else {
        None
    }
}

/// Whether none of `members` bears a name of the envelope.
fn has_no_envelope_key(members: &Vec<Member>) -> (r: bool)
    ensures
        r == free_of_envelope_keys(members_view(members@)),
{
    let ghost all = members_view(members@);
    let mut i: usize = 0;
    while i < members.len()
        invariant
            i <= members.len(),
            all == members_view(members@),
            forall|j: int| 0 <= j < i ==> !is_envelope_key((#[trigger] all[j]).0),
        decreases members.len() - i,
    {
        let key = members[i].key.as_str();
        if same_text(key, "agent_id") || same_text(key, "timestamp") || same_text(
            key,
            "request_type",
        ) {
            assert(is_envelope_key(all[i as int].0));
            return false;
        }
        i += 1;
    }
    true
}

impl MessageType {
    /// The name of the payload's type on the wire.
    pub fn tag(&self) -> (tag: &'static str)
        ensures
            tag@ == request_tag(self@),
    {
        match self {
            MessageType::HealthCheck { .. } => "HealthCheck",
            MessageType::Dependency { .. } => "Dependency",
            MessageType::Node { .. } => "Node",
            MessageType::Log { .. } => "Log",
            MessageType::Custom(_) => "Custom",
        }
    }

    /// The members that the payload adds to the envelope.
    fn members(&self) -> (r: Option<Vec<Member>>)
        ensures
            match request_members(self@) {
                Some(members) => r is Some && members_view(r->Some_0@) == members,
                None => r is None,
            },
    {
        let mut out: Vec<Member> = Vec::new();
        match self {
            MessageType::HealthCheck { status, cpu_usage, memory_usage, storage_usage } => {
                out.push(text_member("status", status));
                out.push(measurement_member("cpu_usage", cpu_usage));
                out.push(measurement_member("memory_usage", memory_usage));
                out.push(measurement_member("storage_usage", storage_usage));
            },
            MessageType::Dependency {
                module,
                local_port,
                local_ip,
                local_os,
                remote_port,
                remote_ip,
                description,
            } => {
                out.push(text_member("module", module));
                out.push(number_member("local_port", *local_port as u64));
                out.push(text_member("local_ip", local_ip));
                out.push(os_member("local_os", *local_os));
                out.push(number_member("remote_port", *remote_port as u64));
                out.push(text_member("remote_ip", remote_ip));
                out.push(text_member("description", description));
            },
            MessageType::Node { src_ip, os } => {
                out.push(text_member("src_ip", src_ip));
                out.push(os_member("os", *os));
            },
            MessageType::Log { log_level, message, context } => {
                out.push(text_member("log_level", log_level));
                out.push(text_member("message", message));
                out.push(Member { key: "context".to_owned(), value: write_context(context) });
            },
            MessageType::Custom(payload) => {
                match payload.as_object() {
                    Some(members) => {
                        let mut i: usize = 0;
                        while i < members.len()
                            invariant
                                i <= members.len(),
                                out@.len() == i,
                                forall|j: int| 0 <= j < i ==> (#[trigger] out@[j])@ == members@[j]@,
                            decreases members.len() - i,
                        {
                            let copy = members[i].clone();
                            out.push(copy);
                            i += 1;
                        }
                        return Some(out);
                    },
                    None => {
                        return None;
                    },
                }
            },
        }
        Some(out)
    }
}

/// A member that holds a measurement.
fn measurement_member(key: &str, value: &String) -> (m: Member)
    ensures
        m@ == (key@, Json::Number(value@)),
{
    Member { key: key.to_owned(), value: JsonValue::Number(value.clone()) }
}

/// A member that names a system.
fn os_member(key: &str, os: OS) -> (m: Member)
    ensures
        m@ == (key@, Json::Text(os.name())),
{
    Member { key: key.to_owned(), value: JsonValue::Text(os.as_str().to_owned()) }
}

/// Writes the context of a log line as an object.
fn write_context(context: &Vec<ContextEntry>) -> (doc: JsonValue)
    ensures
        doc@ == encode_context(context_view(context@)),
{
    let mut out: Vec<Member> = Vec::new();
    let mut i: usize = 0;
    while i < context.len()
        invariant
            i <= context.len(),
            out@.len() == i,
            forall|j: int|
                0 <= j < i ==> (#[trigger] out@[j])@ == (
                    context@[j].key@,
                    Json::Text(context@[j].value@),
                ),
        decreases context.len() - i,
    {
        out.push(text_member(context[i].key.as_str(), &context[i].value));
        i += 1;
    }
    proof {
        lemma_object_view(out);
        assert(members_view(out@) =~= encode_context(context_view(context@))->Object_0);
    }
    JsonValue::Object(out)
}

impl Message {
    /// Reads a message from a document.
    pub fn from_json(doc: &JsonValue) -> (r: Option<Message>)
        ensures
            match r {
                Some(m) => decode_message(doc@) == Some(m@),
                None => decode_message(doc@) is None,
            },
    {
        let agent_id = match doc.text_field("agent_id") {
            Some(s) => s.clone(),
            None => { return None; },
        };
        let timestamp = match doc.text_field("timestamp") {
            Some(s) => s.clone(),
            None => { return None; },
        };
        let request = match doc.text_field("request_type") {
            Some(tag) => match read_request(tag.as_str(), doc) {
                Some(request) => request,
                None => { return None; },
            },
            None => { return None; },
        };
        Some(Message { agent_id: AgentID(agent_id), timestamp, request })
    }

    /// Reads a message from the bytes of one transport operation. The error
    /// is the text of the complaint.
    pub fn try_from_bytes(bytes: &[u8]) -> (r: Result<Message, String>)
        ensures
            match message_of_bytes(bytes@) {
                Ok(m) => r is Ok && r->Ok_0@ == m,
                Err(text) => r is Err && r->Err_0@ == text,
            },
    {
        match parse(bytes) {
            Err(text) => Err(text),
            Ok(doc) => match Message::from_json(&doc) {
                Some(m) => Ok(m),
                None => Err("unrecognized or malformed payload".to_owned()),
            },
        }
    }

    /// Writes the message as a document.
    pub fn to_json(&self) -> (r: Option<JsonValue>)
        ensures
            match encode_message(self@) {
                Some(doc) => r is Some && r->Some_0@ == doc,
                None => r is None,
            },
    {
        let mut members = match self.request.members() {
            Some(members) => members,
            None => { return None; },
        };
        if !has_no_envelope_key(&members) {
            return None;
        }
        members.push(text_member("agent_id", &self.agent_id.0));
        members.push(text_member("timestamp", &self.timestamp));
        members.push(
            Member {
                key: "request_type".to_owned(),
                value: JsonValue::Text(self.request.tag().to_owned()),
            },
        );
        proof {
            lemma_object_view(members);
            assert(members_view(members@) =~= encode_message(self@)->Some_0->Object_0);
        }
        Some(JsonValue::Object(members))
    }

    /// Writes the message as the bytes of one transport operation.
    pub fn to_bytes(&self) -> (r: Option<Vec<u8>>)
        ensures
            match message_text(self@) {
                Some(text) => r is Some && r->Some_0@ == vstd::utf8::encode_utf8(text),
                None => r is None,
            },
    {
        match self.to_json() {
            Some(doc) => match render(&doc) {
                Some(text) => Some(text.as_str().as_bytes_vec()),
                None => None,
            },
            None => None,
        }
    }
}

} // verus!
