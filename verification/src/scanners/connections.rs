//! The network connections of a host, as the tables of the kernel list them.
use crate::json::{lemma_array_view, lemma_object_view, members_view, values_view, Json, JsonValue, Member};
use crate::text::{decimal, decimal_string};
use std::collections::HashMap;
use vstd::prelude::*;

verus! {

/// The state of a network connection.
#[derive(Debug, Clone, Copy, PartialEq, Eq, Hash)]
pub enum ConnectionState {
    Established,
    SynSent,
    SynRecv,
    FinWait1,
    FinWait2,
    TimeWait,
    Closed,
    CloseWait,
    LastAck,
    Listen,
    Closing,
    Unknown,
}

impl Default for ConnectionState {
    fn default() -> (state: Self)
        ensures
            state == ConnectionState::Unknown,
    {
        ConnectionState::Unknown
    }
}

impl ConnectionState {
    /// Whether the connection is closed.
    pub fn is_closed(&self) -> (closed: bool)
        ensures
            closed == (*self == ConnectionState::Closed),
    {
        matches!(self, ConnectionState::Closed)
    }

    /// The name of the state in documents.
    pub open spec fn name(self) -> Seq<char> {
        match self {
            ConnectionState::Established => "established"@,
            ConnectionState::SynSent => "synSent"@,
            ConnectionState::SynRecv => "synRecv"@,
            ConnectionState::FinWait1 => "finWait1"@,
            ConnectionState::FinWait2 => "finWait2"@,
            ConnectionState::TimeWait => "timeWait"@,
            ConnectionState::Closed => "closed"@,
            ConnectionState::CloseWait => "closeWait"@,
            ConnectionState::LastAck => "lastAck"@,
            ConnectionState::Listen => "listen"@,
            ConnectionState::Closing => "closing"@,
            ConnectionState::Unknown => "unknown"@,
        }
    }

    /// The name of the state in documents.
    pub fn as_str(&self) -> (name: &'static str)
        ensures
            name@ == self.name(),
    {
        match self {
            ConnectionState::Established => "established",
            ConnectionState::SynSent => "synSent",
            ConnectionState::SynRecv => "synRecv",
            ConnectionState::FinWait1 => "finWait1",
            ConnectionState::FinWait2 => "finWait2",
            ConnectionState::TimeWait => "timeWait",
            ConnectionState::Closed => "closed",
            ConnectionState::CloseWait => "closeWait",
            ConnectionState::LastAck => "lastAck",
            ConnectionState::Listen => "listen",
            ConnectionState::Closing => "closing",
            ConnectionState::Unknown => "unknown",
        }
    }
}

/// A process that owns a socket.
#[derive(Debug, Clone, PartialEq, Eq, Hash)]
pub struct Process {
    pub pid: u32,
    pub name: String,
}

/// One network connection.
#[derive(Debug, Clone, PartialEq, Eq)]
pub struct NetworkConnection {
    pub local_address: String,
    pub remote_address: Option<String>,
    pub state: Option<ConnectionState>,
    pub protocol: String,
    pub process: Option<Process>,
}

/// One line of a socket table of the kernel.
#[derive(Debug, Clone, PartialEq, Eq)]
pub struct SocketEntry {
    pub local_address: String,
    pub remote_address: String,
    pub inode: u64,
    pub state: ConnectionState,
    /// `TCP` or `UDP`.
    pub protocol: String,
}

/// The sockets that a process holds open.
#[derive(Debug, Clone, PartialEq, Eq)]
pub struct ProcessSockets {
    pub process: Process,
    /// The inodes of its sockets.
    pub inodes: Vec<u64>,
}

/// Whether `connection` says of `entry` what there is to say, given the
/// process that owns each socket.
pub open spec fn describes(
    connection: NetworkConnection,
    entry: SocketEntry,
    owners: Map<u64, Process>,
) -> bool {
    &&& connection.local_address@ == entry.local_address@
    &&& connection.remote_address is Some
    &&& connection.remote_address->Some_0@ == entry.remote_address@
    &&& connection.state == Some(entry.state)
    &&& connection.protocol@ == entry.protocol@
    &&& if owners.contains_key(entry.inode) {
        connection.process is Some && connection.process->Some_0.pid == owners[entry.inode].pid
            && connection.process->Some_0.name@ == owners[entry.inode].name@
    } else {
        connection.process is None
    }
}

/// The positions among the first `n` entries of those that are not closed.
pub open spec fn open_entries(entries: Seq<SocketEntry>, n: int) -> Seq<int>
    decreases n,
{
    if n <= 0 {
        Seq::empty()
    } else if entries[n - 1].state == ConnectionState::Closed {
        open_entries(entries, n - 1)
    } else {
        open_entries(entries, n - 1).push(n - 1)
    }
}

/// The connections of one socket table: one for each entry that is not
/// closed, in the order of the table, each with the process that owns its
/// socket where that is known.
pub fn process_network_entries(entries: &Vec<SocketEntry>, owners: &HashMap<u64, Process>) -> (out:
    Vec<NetworkConnection>)
    ensures
        out@.len() == open_entries(entries@, entries@.len() as int).len(),
        forall|k: int|
            0 <= k < out@.len() ==> describes(
                #[trigger] out@[k],
                entries@[open_entries(entries@, entries@.len() as int)[k]],
                owners@,
            ),
{
    broadcast use vstd::std_specs::hash::group_hash_axioms;

    let mut out: Vec<NetworkConnection> = Vec::new();
    let mut i: usize = 0;
    while i < entries.len()
        invariant
            i <= entries.len(),
            out@.len() == open_entries(entries@, i as int).len(),
            forall|k: int|
                0 <= k < out@.len() ==> describes(
                    #[trigger] out@[k],
                    entries@[open_entries(entries@, i as int)[k]],
                    owners@,
                ),
        decreases entries.len() - i,
    {
        let entry = &entries[i];
        if !entry.state.is_closed() {
            let process = match owners.get(&entry.inode) {
                Some(p) => Some(Process { pid: p.pid, name: p.name.clone() }),
                None => None,
            };
            out.push(
                NetworkConnection {
                    local_address: entry.local_address.clone(),
                    remote_address: Some(entry.remote_address.clone()),
                    state: Some(entry.state),
                    protocol: entry.protocol.clone(),
                    process,
                },
            );
        }
        i += 1;
    }
    out
}

/// The process that owns each socket, by the socket's inode. Where two
/// processes hold the same socket, the later one in `processes` counts.
pub open spec fn owners_before(processes: Seq<ProcessSockets>, n: int) -> Map<u64, Process>
    decreases n,
{
    if n <= 0 {
        Map::empty()
    } else {
        sockets_before(
            owners_before(processes, n - 1),
            processes[n - 1],
            processes[n - 1].inodes@.len() as int,
        )
    }
}

/// `owners` with the first `n` sockets of `holder` added.
pub open spec fn sockets_before(owners: Map<u64, Process>, holder: ProcessSockets, n: int) -> Map<
    u64,
    Process,
>
    decreases n,
{
    if n <= 0 {
        owners
    } else {
        sockets_before(owners, holder, n - 1).insert(holder.inodes@[n - 1], holder.process)
    }
}

/// Builds the table from a socket's inode to the process that owns it.
pub fn socket_owners(processes: &Vec<ProcessSockets>) -> (owners: HashMap<u64, Process>)
    ensures
        owners@.dom() == owners_before(processes@, processes@.len() as int).dom(),
        forall|inode: u64|
            owners@.contains_key(inode) ==> owners@[inode].pid == owners_before(
                processes@,
                processes@.len() as int,
            )[inode].pid && owners@[inode].name@ == owners_before(
                processes@,
                processes@.len() as int,
            )[inode].name@,
{
    broadcast use vstd::std_specs::hash::group_hash_axioms;

    let mut owners: HashMap<u64, Process> = HashMap::new();
    let mut i: usize = 0;
    while i < processes.len()
        invariant
            i <= processes.len(),
            owners@.dom() == owners_before(processes@, i as int).dom(),
            forall|inode: u64|
                owners@.contains_key(inode) ==> owners@[inode].pid == owners_before(
                    processes@,
                    i as int,
                )[inode].pid && owners@[inode].name@ == owners_before(
                    processes@,
                    i as int,
                )[inode].name@,
        decreases processes.len() - i,
    {
        let holder = &processes[i];
        let ghost base = owners_before(processes@, i as int);
        let mut k: usize = 0;
        while k < holder.inodes.len()
            invariant
                k <= holder.inodes.len(),
                owners@.dom() == sockets_before(base, *holder, k as int).dom(),
                forall|inode: u64|
                    owners@.contains_key(inode) ==> owners@[inode].pid == sockets_before(
                        base,
                        *holder,
                        k as int,
                    )[inode].pid && owners@[inode].name@ == sockets_before(
                        base,
                        *holder,
                        k as int,
                    )[inode].name@,
            decreases holder.inodes.len() - k,
        {
            owners.insert(
                holder.inodes[k],
                Process { pid: holder.process.pid, name: holder.process.name.clone() },
            );
            k += 1;
        }
        i += 1;
    }
    owners
}

/// A connection as an object, its members named in camel case.
pub open spec fn encode_connection(c: NetworkConnection) -> Json {
    Json::Object(
        seq![
            ("localAddress"@, Json::Text(c.local_address@)),
            (
                "remoteAddress"@,
                match c.remote_address {
                    Some(a) => Json::Text(a@),
                    None => Json::Null,
                },
            ),
            (
                "state"@,
                match c.state {
                    Some(s) => Json::Text(s.name()),
                    None => Json::Null,
                },
            ),
            ("protocol"@, Json::Text(c.protocol@)),
            (
                "process"@,
                match c.process {
                    Some(p) => Json::Object(
                        seq![
                            ("pid"@, Json::Number(decimal(p.pid as nat))),
                            ("name"@, Json::Text(p.name@)),
                        ],
                    ),
                    None => Json::Null,
                },
            ),
        ],
    )
}

impl NetworkConnection {
    /// Writes the connection as an object.
    pub fn to_json(&self) -> (doc: JsonValue)
        ensures
            doc@ == encode_connection(*self),
    {
        let remote = match &self.remote_address {
            Some(a) => JsonValue::Text(a.clone()),
            None => JsonValue::Null,
        };
        let state = match &self.state {
            Some(s) => JsonValue::Text(s.as_str().to_owned()),
            None => JsonValue::Null,
        };
        let process = match &self.process {
            Some(p) => {
                let mut fields: Vec<Member> = Vec::new();
                fields.push(
                    Member {
                        key: "pid".to_owned(),
                        value: JsonValue::Number(decimal_string(p.pid as u64)),
                    },
                );
                fields.push(Member { key: "name".to_owned(), value: JsonValue::Text(p.name.clone()) });
                proof {
                    lemma_object_view(fields);
                    assert(members_view(fields@) =~= seq![
                        ("pid"@, Json::Number(decimal(p.pid as nat))),
                        ("name"@, Json::Text(p.name@)),
                    ]);
                }
                JsonValue::Object(fields)
            },
            None => JsonValue::Null,
        };
        let mut members: Vec<Member> = Vec::new();
        members.push(
            Member {
                key: "localAddress".to_owned(),
                value: JsonValue::Text(self.local_address.clone()),
            },
        );
        members.push(Member { key: "remoteAddress".to_owned(), value: remote });
        members.push(Member { key: "state".to_owned(), value: state });
        members.push(
            Member { key: "protocol".to_owned(), value: JsonValue::Text(self.protocol.clone()) },
        );
        members.push(Member { key: "process".to_owned(), value: process });
        proof {
            lemma_object_view(members);
            assert(members_view(members@) =~= encode_connection(*self)->Object_0);
        }
        JsonValue::Object(members)
    }
}

/// The connections of the four socket tables as one array: TCP, UDP, then
/// the two over IPv6, each table in its order.
pub open spec fn encode_connections(
    tcp: Seq<NetworkConnection>,
    udp: Seq<NetworkConnection>,
    tcp6: Seq<NetworkConnection>,
    udp6: Seq<NetworkConnection>,
) -> Json {
    Json::Array((tcp + udp + tcp6 + udp6).map_values(|c: NetworkConnection| encode_connection(c)))
}

/// Appends the documents of `connections` to `items`.
fn push_connections(items: &mut Vec<JsonValue>, connections: &Vec<NetworkConnection>)
    ensures
        values_view(final(items)@) == values_view(old(items)@) + connections@.map_values(
            |c: NetworkConnection| encode_connection(c),
        ),
{
    let ghost start = values_view(items@);
    let ghost docs = connections@.map_values(|c: NetworkConnection| encode_connection(c));
    let mut i: usize = 0;
    while i < connections.len()
        invariant
            i <= connections.len(),
            docs == connections@.map_values(|c: NetworkConnection| encode_connection(c)),
            values_view(items@) == start + docs.take(i as int),
        decreases connections.len() - i,
    {
        let ghost before = values_view(items@);
        items.push(connections[i].to_json());
        assert(values_view(items@) =~= before.push(encode_connection(connections@[i as int])));
        i += 1;
    }
}

/// The connections of the four socket tables as one JSON array.
pub fn conn_info(
    tcp: &Vec<NetworkConnection>,
    udp: &Vec<NetworkConnection>,
    tcp6: &Vec<NetworkConnection>,
    udp6: &Vec<NetworkConnection>,
) -> (doc: JsonValue)
    ensures
        doc@ == encode_connections(tcp@, udp@, tcp6@, udp6@),
{
    let mut items: Vec<JsonValue> = Vec::new();
    push_connections(&mut items, tcp);
    push_connections(&mut items, udp);
    push_connections(&mut items, tcp6);
    push_connections(&mut items, udp6);
    proof {
        lemma_array_view(items);
        assert(values_view(items@) =~= encode_connections(tcp@, udp@, tcp6@, udp6@)->Array_0);
    }
    JsonValue::Array(items)
}

} // verus!
