//! What holds of the wire form of messages: writing and reading are
//! inverse to each other.
use crate::ipc::communicator::{
    counted, first_failure, receive_result, send_result, AgentError, AgentErrorView, Handler,
    TaskResult, TransportOutcome,
};
use crate::ipc::handler::DefaultAgentHandler;
use crate::ipc::message::{
    decode_context, decode_message, decode_request, encode_context, encode_message,
    free_of_envelope_keys, is_envelope_key, request_members, request_tag, MessageTypeView,
    MessageView, OS,
};
use crate::json::{
    distinct, distinct_keys, keys, lemma_lookup_prefix, lookup, lookup_before, without_keys,
    without_keys_before, Json,
};
use crate::text::{decimal, lemma_decimal_round_trip, unsigned_value};
use vstd::prelude::*;

verus! {

/// What is known of the names that stand in a message.
pub proof fn lemma_wire_names()
    ensures
        "agent_id"@.len() == 8,
        "timestamp"@.len() == 9,
        "request_type"@.len() == 12,
        "HealthCheck"@.len() == 11,
        "Dependency"@.len() == 10,
        "Node"@.len() == 4,
        "Log"@.len() == 3,
        "Custom"@.len() == 6,
        "Windows"@.len() == 7,
        "Linux"@.len() == 5,
        "MacOS"@.len() == 5,
        "Unknown"@.len() == 7,
        "Linux"@[0] == 'L',
        "MacOS"@[0] == 'M',
        "Windows"@[0] == 'W',
        "Unknown"@[0] == 'U',
{
    reveal_strlit("agent_id");
    reveal_strlit("timestamp");
    reveal_strlit("request_type");
    reveal_strlit("HealthCheck");
    reveal_strlit("Dependency");
    reveal_strlit("Node");
    reveal_strlit("Log");
    reveal_strlit("Custom");
    reveal_strlit("Windows");
    reveal_strlit("Linux");
    reveal_strlit("MacOS");
    reveal_strlit("Unknown");
}

/// The name of a system names that system.
pub proof fn lemma_os_round_trip(os: OS)
    ensures
        OS::named(os.name()) == Some(os),
{
    lemma_wire_names();
}

/// A port written in decimal is read back as the same port.
pub proof fn lemma_port_round_trip(port: u16)
    ensures
        unsigned_value(decimal(port as nat), 65535) == Some(port as nat),
{
    lemma_decimal_round_trip(port as nat);
}

/// The names of a context, in their order.
pub open spec fn context_names(context: Seq<(Seq<char>, Seq<char>)>) -> Seq<Seq<char>> {
    Seq::new(context.len(), |i: int| context[i].0)
}

/// A context goes on the wire under its own names: no name stands twice in
/// the object exactly when none stands twice in the context.
pub proof fn lemma_context_keeps_names(context: Seq<(Seq<char>, Seq<char>)>)
    ensures
        keys(encode_context(context)->Object_0) == context_names(context),
        distinct_keys(encode_context(context)->Object_0) == distinct(context_names(context)),
{
    assert(keys(encode_context(context)->Object_0) =~= context_names(context));
}

/// A context is read under the names that stand in the object: no name
/// stands twice in it exactly when none stands twice in the object.
pub proof fn lemma_read_context_keeps_names(members: Seq<(Seq<char>, Json)>)
    requires
        decode_context(Some(Json::Object(members))) is Some,
    ensures
        context_names(decode_context(Some(Json::Object(members)))->Some_0) == keys(members),
        distinct(context_names(decode_context(Some(Json::Object(members)))->Some_0))
            == distinct_keys(members),
{
    assert(context_names(decode_context(Some(Json::Object(members)))->Some_0) =~= keys(members));
}

/// A context written as an object is read back as the same context.
pub proof fn lemma_context_round_trip(context: Seq<(Seq<char>, Seq<char>)>)
    ensures
        decode_context(Some(encode_context(context))) == Some(context),
{
}

/// The envelope stands last in the document of a message, so that its three
/// members are found whatever the payload holds.
pub proof fn lemma_envelope_found(m: MessageView)
    requires
        encode_message(m) is Some,
    ensures
        encode_message(m)->Some_0.text_field("agent_id"@) == Some(m.agent_id),
        encode_message(m)->Some_0.text_field("timestamp"@) == Some(m.timestamp),
        encode_message(m)->Some_0.text_field("request_type"@) == Some(request_tag(m.request)),
{
    lemma_wire_names();
    reveal_with_fuel(lookup_before, 4);
}

/// Below the envelope, a name that is not of the envelope is looked up among
/// the members of the payload.
pub proof fn lemma_lookup_below_envelope(m: MessageView, key: Seq<char>)
    requires
        encode_message(m) is Some,
        !is_envelope_key(key),
    ensures
        encode_message(m)->Some_0.field(key) == lookup(request_members(m.request)->Some_0, key),
{
    reveal_with_fuel(lookup_before, 4);
    let members = request_members(m.request)->Some_0;
    let all = encode_message(m)->Some_0->Object_0;
    let n = members.len() as int;
    lemma_lookup_prefix(all, members, key, n);
}

/// Taking the envelope out of the first `n` members of a document leaves
/// the first `n` members of a payload that bears no name of the envelope.
pub proof fn lemma_without_envelope_prefix(
    all: Seq<(Seq<char>, Json)>,
    members: Seq<(Seq<char>, Json)>,
    n: int,
)
    requires
        0 <= n <= members.len() <= all.len(),
        forall|i: int| 0 <= i < members.len() ==> all[i] == members[i],
        free_of_envelope_keys(members),
    ensures
        without_keys_before(all, "agent_id"@, "timestamp"@, "request_type"@, n) == members.take(n),
    decreases n,
{
    if n > 0 {
        lemma_without_envelope_prefix(all, members, n - 1);
    }
}

/// Taking the envelope out of a message's document leaves the payload.
pub proof fn lemma_without_envelope(m: MessageView)
    requires
        encode_message(m) is Some,
    ensures
        without_keys(
            encode_message(m)->Some_0->Object_0,
            "agent_id"@,
            "timestamp"@,
            "request_type"@,
        ) == request_members(m.request)->Some_0,
{
    reveal_with_fuel(without_keys_before, 4);
    let members = request_members(m.request)->Some_0;
    let all = encode_message(m)->Some_0->Object_0;
    let n = members.len() as int;
    lemma_without_envelope_prefix(all, members, n);
}

/// What is known of the names of the members of a payload.
pub proof fn lemma_field_names()
    ensures
        "status"@.len() == 6,
        "cpu_usage"@.len() == 9 && "cpu_usage"@[0] == 'c',
        "memory_usage"@.len() == 12 && "memory_usage"@[0] == 'm',
        "storage_usage"@.len() == 13,
        "module"@.len() == 6,
        "local_port"@.len() == 10,
        "local_ip"@.len() == 8 && "local_ip"@[0] == 'l' && "local_ip"@[6] == 'i',
        "local_os"@.len() == 8 && "local_os"@[0] == 'l' && "local_os"@[6] == 'o',
        "remote_port"@.len() == 11 && "remote_port"@[0] == 'r',
        "remote_ip"@.len() == 9 && "remote_ip"@[0] == 'r',
        "description"@.len() == 11 && "description"@[0] == 'd',
        "src_ip"@.len() == 6,
        "os"@.len() == 2,
        "log_level"@.len() == 9 && "log_level"@[0] == 'l',
        "message"@.len() == 7 && "message"@[0] == 'm',
        "context"@.len() == 7 && "context"@[0] == 'c',
        "agent_id"@.len() == 8 && "agent_id"@[0] == 'a',
        "timestamp"@.len() == 9 && "timestamp"@[0] == 't',
        "request_type"@.len() == 12 && "request_type"@[0] == 'r',
{
    reveal_strlit("status");
    reveal_strlit("cpu_usage");
    reveal_strlit("memory_usage");
    reveal_strlit("storage_usage");
    reveal_strlit("module");
    reveal_strlit("local_port");
    reveal_strlit("local_ip");
    reveal_strlit("local_os");
    reveal_strlit("remote_port");
    reveal_strlit("remote_ip");
    reveal_strlit("description");
    reveal_strlit("src_ip");
    reveal_strlit("os");
    reveal_strlit("log_level");
    reveal_strlit("message");
    reveal_strlit("context");
    reveal_strlit("agent_id");
    reveal_strlit("timestamp");
    reveal_strlit("request_type");
}

/// No payload of a type of its own bears a name of the envelope.
pub proof fn lemma_payload_names_are_free(request: MessageTypeView)
    requires
        !(request is Custom),
    ensures
        request_members(request) is Some,
        free_of_envelope_keys(request_members(request)->Some_0),
{
    lemma_field_names();
}

proof fn lemma_health_check_round_trip(m: MessageView)
    requires
        m.request is HealthCheck,
        encode_message(m) is Some,
    ensures
        decode_request("HealthCheck"@, encode_message(m)->Some_0) == Some(m.request),
{
    lemma_field_names();
    reveal_with_fuel(lookup_before, 5);
    lemma_lookup_below_envelope(m, "status"@);
    lemma_lookup_below_envelope(m, "cpu_usage"@);
    lemma_lookup_below_envelope(m, "memory_usage"@);
    lemma_lookup_below_envelope(m, "storage_usage"@);
}

proof fn lemma_dependency_round_trip(m: MessageView)
    requires
        m.request is Dependency,
        encode_message(m) is Some,
    ensures
        decode_request("Dependency"@, encode_message(m)->Some_0) == Some(m.request),
{
    lemma_field_names();
    lemma_wire_names();
    reveal_with_fuel(lookup_before, 8);
    lemma_lookup_below_envelope(m, "module"@);
    lemma_lookup_below_envelope(m, "local_port"@);
    lemma_lookup_below_envelope(m, "local_ip"@);
    lemma_lookup_below_envelope(m, "local_os"@);
    lemma_lookup_below_envelope(m, "remote_port"@);
    lemma_lookup_below_envelope(m, "remote_ip"@);
    lemma_lookup_below_envelope(m, "description"@);
    lemma_port_round_trip(m.request->Dependency_local_port);
    lemma_port_round_trip(m.request->Dependency_remote_port);
    lemma_os_round_trip(m.request->local_os);
}

proof fn lemma_node_round_trip(m: MessageView)
    requires
        m.request is Node,
        encode_message(m) is Some,
    ensures
        decode_request("Node"@, encode_message(m)->Some_0) == Some(m.request),
{
    lemma_field_names();
    lemma_wire_names();
    reveal_with_fuel(lookup_before, 3);
    lemma_lookup_below_envelope(m, "src_ip"@);
    lemma_lookup_below_envelope(m, "os"@);
    lemma_os_round_trip(m.request->os);
}

proof fn lemma_log_round_trip(m: MessageView)
    requires
        m.request is Log,
        encode_message(m) is Some,
    ensures
        decode_request("Log"@, encode_message(m)->Some_0) == Some(m.request),
{
    lemma_field_names();
    lemma_wire_names();
    reveal_with_fuel(lookup_before, 4);
    lemma_lookup_below_envelope(m, "log_level"@);
    lemma_lookup_below_envelope(m, "message"@);
    lemma_lookup_below_envelope(m, "context"@);
    lemma_context_round_trip(m.request->context);
}

/// Reading undoes writing: a message that can be written is read back from
/// its document as it was, whatever its payload.
pub proof fn lemma_read_after_write(m: MessageView)
    requires
        encode_message(m) is Some,
    ensures
        decode_message(encode_message(m)->Some_0) == Some(m),
{
    lemma_envelope_found(m);
    lemma_wire_names();
    match m.request {
        MessageTypeView::HealthCheck { .. } => lemma_health_check_round_trip(m),
        MessageTypeView::Dependency { .. } => lemma_dependency_round_trip(m),
        MessageTypeView::Node { .. } => lemma_node_round_trip(m),
        MessageTypeView::Log { .. } => lemma_log_round_trip(m),
        MessageTypeView::Custom(payload) => {
            lemma_without_envelope(m);
        },
    }
}

/// What is left when the envelope is taken out bears no name of it.
pub proof fn lemma_without_keys_is_free(members: Seq<(Seq<char>, Json)>, n: int)
    requires
        0 <= n <= members.len(),
    ensures
        free_of_envelope_keys(
            without_keys_before(members, "agent_id"@, "timestamp"@, "request_type"@, n),
        ),
    decreases n,
{
    if n > 0 {
        lemma_without_keys_is_free(members, n - 1);
    }
}

/// Writing undoes reading, up to what a reader can tell: a message that was
/// read from a document can be written, and the document that is written
/// spells the same message.
pub proof fn lemma_write_after_read(doc: Json)
    requires
        decode_message(doc) is Some,
    ensures
        encode_message(decode_message(doc)->Some_0) is Some,
        decode_message(encode_message(decode_message(doc)->Some_0)->Some_0) == decode_message(doc),
{
    let m = decode_message(doc)->Some_0;
    match m.request {
        MessageTypeView::Custom(payload) => {
            lemma_wire_names();
            lemma_without_keys_is_free(doc->Object_0, doc->Object_0.len() as int);
        },
        _ => {
            lemma_payload_names_are_free(m.request);
        },
    }
    lemma_read_after_write(m);
}

/// With the default handler, every message that is accepted is received
/// with success.
pub proof fn lemma_default_handler_accepts(message: MessageView, result: Result<(), AgentError>)
    requires
        DefaultAgentHandler.may_handle(message, result),
    ensures
        result is Ok,
{
}

/// The count of messages sent never goes back, whatever a send comes to.
pub proof fn lemma_count_never_goes_back(
    count: usize,
    registered: bool,
    outcome: TransportOutcome<()>,
)
    ensures
        counted(count) >= count,
        send_result(registered, outcome) is Ok ==> counted(count) == count + 1 || count
            == usize::MAX,
{
}

/// A transport operation that takes longer than the timeout yields
/// `Timeout`, whatever it would have given, and never a success.
pub proof fn lemma_late_operation_times_out(
    latency: u64,
    timeout: u64,
    sent: Result<(), String>,
    received: Result<Vec<u8>, String>,
)
    requires
        latency > timeout,
    ensures
        send_result(true, TransportOutcome::race(latency, timeout, sent)) == Err::<
            (),
            AgentErrorView,
        >(AgentErrorView::Timeout),
        receive_result(true, TransportOutcome::race(latency, timeout, received)) == Err::<
            MessageView,
            AgentErrorView,
        >(AgentErrorView::Timeout),
{
}

/// The result of a fan-out is the failure of the first task that failed:
/// before it stand only tasks that succeeded. It is a success only where
/// every task succeeded.
pub proof fn lemma_first_failure(results: Seq<TaskResult>, n: int)
    requires
        0 <= n <= results.len(),
    ensures
        match first_failure(results, n) {
            Some(e) => exists|k: int|
                0 <= k < n && (#[trigger] results[k]).failure() == Some(e) && forall|j: int|
                    0 <= j < k ==> (#[trigger] results[j]).failure() is None,
            None => forall|j: int| 0 <= j < n ==> (#[trigger] results[j]).failure() is None,
        },
    decreases n,
{
    if n > 0 {
        lemma_first_failure(results, n - 1);
        match first_failure(results, n - 1) {
            Some(e) => {
                let k = choose|k: int|
                    0 <= k < n - 1 && (#[trigger] results[k]).failure() == Some(e) && forall|
                        j: int,
                    |
                        0 <= j < k ==> (#[trigger] results[j]).failure() is None;
            },
            None => {
                if results[n - 1].failure() is Some {
                    assert(0 <= n - 1 < n && results[n - 1].failure() == first_failure(
                        results,
                        n,
                    ));
                }
            },
        }
    }
}

/// Fan-out over agents of which some never produce a message and the others
/// do: the call fails with `Timeout` as soon as one agent timed out, however
/// many succeeded, and succeeds where none did.
pub proof fn lemma_fan_out_fails_fast(results: Seq<TaskResult>)
    requires
        forall|i: int|
            0 <= i < results.len() ==> (#[trigger] results[i]).failure() is None
                || results[i].failure() == Some(AgentErrorView::Timeout),
    ensures
        (exists|i: int| 0 <= i < results.len() && (#[trigger] results[i]).failure() is Some)
            ==> first_failure(results, results.len() as int) == Some(AgentErrorView::Timeout),
        (forall|i: int| 0 <= i < results.len() ==> (#[trigger] results[i]).failure() is None)
            ==> first_failure(results, results.len() as int) is None,
{
    lemma_first_failure(results, results.len() as int);
}

} // verus!
