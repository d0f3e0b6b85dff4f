//! What holds of a message that is read from a document and written again:
//! the document that comes out holds the same names with the same values.
use crate::ipc::laws::{
    lemma_envelope_found, lemma_field_names, lemma_lookup_below_envelope,
    lemma_payload_names_are_free, lemma_wire_names, lemma_without_keys_is_free,
};
use crate::ipc::message::{
    decode_message, encode_message, is_envelope_key, request_members, MessageTypeView,
    MessageView, OS,
};
use crate::json::{
    keys, lemma_lookup_of_absent, lemma_lookup_prefix, lookup, lookup_before,
    without_keys_before, Json,
};
use crate::text::{decimal, unsigned_value};
use vstd::prelude::*;

verus! {

/// Whether a document holds nothing beside what its message is made of: the
/// envelope, and the members of the payload. A custom payload is whatever
/// stands beside the envelope, so that nothing is beside it.
pub open spec fn exact_fields(doc: Json, m: MessageView) -> bool {
    match doc {
        Json::Object(members) => m.request is Custom || forall|i: int|
            0 <= i < members.len() ==> is_envelope_key((#[trigger] members[i]).0) || keys(
                request_members(m.request)->Some_0,
            ).contains(members[i].0),
        _ => false,
    }
}

/// Whether the number member `key`, where it is a port, is written as a
/// port is written: in decimal without leading zeros.
pub open spec fn canonical_port(doc: Json, key: Seq<char>) -> bool {
    match doc.number_field(key) {
        Some(text) => match unsigned_value(text, 65535) {
            Some(port) => text == decimal(port),
            None => true,
        },
        None => true,
    }
}

/// Whether the ports of a document are written as ports are written.
pub open spec fn canonical_ports(doc: Json) -> bool {
    canonical_port(doc, "local_port"@) && canonical_port(doc, "remote_port"@)
}

/// A system is named by its own name only.
pub proof fn lemma_named_by_its_name(name: Seq<char>)
    ensures
        OS::named(name) matches Some(os) ==> os.name() == name,
{
}

/// A name that is neither of the envelope nor of the payload is not in a
/// document that holds nothing beside its message.
proof fn lemma_foreign_key_is_absent(doc: Json, m: MessageView, key: Seq<char>)
    requires
        exact_fields(doc, m),
        !(m.request is Custom),
        !is_envelope_key(key),
        !keys(request_members(m.request)->Some_0).contains(key),
    ensures
        doc.field(key) is None,
{
    let members = doc->Object_0;
    lemma_lookup_of_absent(members, key, members.len() as int);
}

/// Leaving the envelope out does not touch the other names.
proof fn lemma_lookup_without_envelope(members: Seq<(Seq<char>, Json)>, key: Seq<char>, n: int)
    requires
        0 <= n <= members.len(),
        !is_envelope_key(key),
    ensures
        lookup(without_keys_before(members, "agent_id"@, "timestamp"@, "request_type"@, n), key)
            == lookup_before(members, key, n),
    decreases n,
{
    if n > 0 {
        lemma_lookup_without_envelope(members, key, n - 1);
        let rest = without_keys_before(members, "agent_id"@, "timestamp"@, "request_type"@, n - 1);
        if !is_envelope_key(members[n - 1].0) {
            let all = rest.push(members[n - 1]);
            assert(all.len() == rest.len() + 1);
            if members[n - 1].0 != key {
                lemma_lookup_prefix(all, rest, key, rest.len() as int);
            }
        }
    }
}

proof fn lemma_health_check_is_rewritten(doc: Json, key: Seq<char>)
    requires
        decode_message(doc) is Some,
        decode_message(doc)->Some_0.request is HealthCheck,
        exact_fields(doc, decode_message(doc)->Some_0),
        !is_envelope_key(key),
    ensures
        lookup(request_members(decode_message(doc)->Some_0.request)->Some_0, key) == doc.field(
            key,
        ),
{
    let m = decode_message(doc)->Some_0;
    let members = request_members(m.request)->Some_0;
    lemma_field_names();
    lemma_wire_names();
    reveal_with_fuel(lookup_before, 5);
    if key != "status"@ && key != "cpu_usage"@ && key != "memory_usage"@ && key
        != "storage_usage"@ {
        assert forall|j: int| 0 <= j < members.len() implies keys(members)[j] != key by {}
        lemma_foreign_key_is_absent(doc, m, key);
    }
}

proof fn lemma_dependency_is_rewritten(doc: Json, key: Seq<char>)
    requires
        decode_message(doc) is Some,
        decode_message(doc)->Some_0.request is Dependency,
        exact_fields(doc, decode_message(doc)->Some_0),
        canonical_ports(doc),
        !is_envelope_key(key),
    ensures
        lookup(request_members(decode_message(doc)->Some_0.request)->Some_0, key) == doc.field(
            key,
        ),
{
    let m = decode_message(doc)->Some_0;
    let members = request_members(m.request)->Some_0;
    lemma_field_names();
    lemma_wire_names();
    reveal_with_fuel(lookup_before, 8);
    lemma_named_by_its_name(doc.text_field("local_os"@)->Some_0);
    if key != "module"@ && key != "local_port"@ && key != "local_ip"@ && key != "local_os"@ && key
        != "remote_port"@ && key != "remote_ip"@ && key != "description"@ {
        assert forall|j: int| 0 <= j < members.len() implies keys(members)[j] != key by {}
        lemma_foreign_key_is_absent(doc, m, key);
    }
}

proof fn lemma_node_is_rewritten(doc: Json, key: Seq<char>)
    requires
        decode_message(doc) is Some,
        decode_message(doc)->Some_0.request is Node,
        exact_fields(doc, decode_message(doc)->Some_0),
        !is_envelope_key(key),
    ensures
        lookup(request_members(decode_message(doc)->Some_0.request)->Some_0, key) == doc.field(
            key,
        ),
{
    let m = decode_message(doc)->Some_0;
    let members = request_members(m.request)->Some_0;
    lemma_field_names();
    lemma_wire_names();
    reveal_with_fuel(lookup_before, 3);
    lemma_named_by_its_name(doc.text_field("os"@)->Some_0);
    if key != "src_ip"@ && key != "os"@ {
        assert forall|j: int| 0 <= j < members.len() implies keys(members)[j] != key by {}
        lemma_foreign_key_is_absent(doc, m, key);
    }
}

proof fn lemma_log_is_rewritten(doc: Json, key: Seq<char>)
    requires
        decode_message(doc) is Some,
        decode_message(doc)->Some_0.request is Log,
        exact_fields(doc, decode_message(doc)->Some_0),
        !is_envelope_key(key),
    ensures
        lookup(request_members(decode_message(doc)->Some_0.request)->Some_0, key) == doc.field(
            key,
        ),
{
    let m = decode_message(doc)->Some_0;
    let members = request_members(m.request)->Some_0;
    lemma_field_names();
    lemma_wire_names();
    reveal_with_fuel(lookup_before, 4);
    let written = doc.field("context"@)->Some_0->Object_0;
    assert(members[2].1->Object_0 =~= written);
    if key != "log_level"@ && key != "message"@ && key != "context"@ {
        assert forall|j: int| 0 <= j < members.len() implies keys(members)[j] != key by {}
        lemma_foreign_key_is_absent(doc, m, key);
    }
}

/// Writing undoes reading, name by name: a message that was read from a
/// document which holds nothing beside it, and whose ports are written as
/// ports are written, is written as a document in which every name stands
/// for what it stood for, and in which no other name stands. The two
/// documents differ at most in the order of their members.
pub proof fn lemma_rewritten_document_is_equivalent(doc: Json, key: Seq<char>)
    requires
        decode_message(doc) is Some,
        exact_fields(doc, decode_message(doc)->Some_0),
        canonical_ports(doc),
    ensures
        encode_message(decode_message(doc)->Some_0) is Some,
        encode_message(decode_message(doc)->Some_0)->Some_0.field(key) == doc.field(key),
{
    let m = decode_message(doc)->Some_0;
    lemma_wire_names();
    match m.request {
        MessageTypeView::Custom(payload) => {
            lemma_without_keys_is_free(doc->Object_0, doc->Object_0.len() as int);
        },
        _ => {
            lemma_payload_names_are_free(m.request);
        },
    }
    lemma_envelope_found(m);
    if !is_envelope_key(key) {
        lemma_lookup_below_envelope(m, key);
        match m.request {
            MessageTypeView::HealthCheck { .. } => lemma_health_check_is_rewritten(doc, key),
            MessageTypeView::Dependency { .. } => lemma_dependency_is_rewritten(doc, key),
            MessageTypeView::Node { .. } => lemma_node_is_rewritten(doc, key),
            MessageTypeView::Log { .. } => lemma_log_is_rewritten(doc, key),
            MessageTypeView::Custom(payload) => {
                lemma_lookup_without_envelope(doc->Object_0, key, doc->Object_0.len() as int);
            },
        }
    }
}

} // verus!
