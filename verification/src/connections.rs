//! The module that reports the network connections of a host as
//! dependencies.
use crate::response::{Dependency, DependencyView, Response};
use crate::scanners::connections::{ConnectionState, SocketEntry};
use crate::text::{
    chars_of, contains, contains_text, find_from, find_last, is_first_occurrence,
    is_last_occurrence, joined, occurs_at, parse_i32, signed_value,
};
use crate::json::JsonValue;
use vstd::prelude::*;
use vstd::string::StrSliceExecFns;

verus! {

/// The arguments of the module.
#[derive(Debug, Clone, Copy, PartialEq, Eq, Default)]
pub struct ConnectionArgs {
    /// Leave out the connections of the host with itself.
    pub omit_local_connections: bool,
}

impl ConnectionArgs {
    /// The arguments that a document spells: an object whose member
    /// `omit_local_connections` is a boolean.
    pub fn from_json(doc: &JsonValue) -> (r: Option<ConnectionArgs>)
        ensures
            r == match doc@.bool_field("omit_local_connections"@) {
                Some(b) => Some(ConnectionArgs { omit_local_connections: b }),
                None => None,
            },
    {
        match doc.bool_field("omit_local_connections") {
            Some(b) => Some(ConnectionArgs { omit_local_connections: b }),
            None => None,
        }
    }
}

/// What stands before the first and what stands after the last occurrence
/// of the separator `sep` in `s`; `None` where `sep` does not occur.
pub open spec fn split_ends(s: Seq<char>, sep: Seq<char>) -> Option<(Seq<char>, Seq<char>)> {
    if exists|k: int| occurs_at(s, sep, k) {
        let first = choose|k: int| is_first_occurrence(s, sep, k);
        let last = choose|k: int| is_last_occurrence(s, sep, k);
        Some((s.subrange(0, first), s.subrange(last + sep.len(), s.len() as int)))
    } else {
        None
    }
}

/// Computes `split_ends` on `text`, whose characters are `chars`.
fn split_text<'a>(text: &'a str, chars: &Vec<char>, sep: &Vec<char>) -> (r: Option<
    (&'a str, &'a str),
>)
    requires
        chars@ == text@,
        sep@.len() > 0,
    ensures
        match split_ends(text@, sep@) {
            Some((head, tail)) => r is Some && r->Some_0.0@ == head && r->Some_0.1@ == tail,
            None => r is None,
        },
{
    match find_from(chars, sep, 0) {
        None => None,
        Some(first) => {
            match find_last(chars, sep) {
                None => None,
                Some(last) => {
                    let n = chars.len();
                    let width = sep.len();
                    proof {
                        assert(is_first_occurrence(text@, sep@, first as int));
                        let f = choose|k: int| is_first_occurrence(text@, sep@, k);
                        let l = choose|k: int| is_last_occurrence(text@, sep@, k);
                        assert(f == first);
                        assert(l == last);
                    }
                    Some(
                        (
                            text.substring_char(0, first),
                            text.substring_char(last + width, n),
                        ),
                    )
                },
            }
        },
    }
}

/// The address and the port of an IPv4 endpoint `address:port`.
pub open spec fn ipv4_parts(address: Seq<char>) -> Option<(Seq<char>, Seq<char>)> {
    split_ends(address, seq![':'])
}

/// The address and the port of an IPv6 endpoint `[address]:port`.
pub open spec fn ipv6_parts(address: Seq<char>) -> Option<(Seq<char>, Seq<char>)> {
    if address.len() > 0 && address[0] == '[' {
        split_ends(address.subrange(1, address.len() as int), seq![']', ':'])
    } else {
        None
    }
}

/// The address and the port of an endpoint: read as IPv6 where it holds an
/// opening bracket, as IPv4 else.
pub open spec fn address_parts(address: Seq<char>) -> Option<(Seq<char>, Seq<char>)> {
    if address.contains('[') {
        ipv6_parts(address)
    } else {
        ipv4_parts(address)
    }
}

/// Splits `[address]:port` into the address and the port.
pub fn parse_ipv6_address(address: &str) -> (r: Option<(&str, &str)>)
    ensures
        match ipv6_parts(address@) {
            Some((ip, port)) => r is Some && r->Some_0.0@ == ip && r->Some_0.1@ == port,
            None => r is None,
        },
{
    let chars = chars_of(address);
    if chars.len() == 0 || chars[0] != '[' {
        return None;
    }
    let rest = address.substring_char(1, chars.len());
    let rest_chars = chars_of(rest);
    let mut sep: Vec<char> = Vec::new();
    sep.push(']');
    sep.push(':');
    assert(sep@ =~= seq![']', ':']);
    split_text(rest, &rest_chars, &sep)
}

/// Splits `address:port` into the address and the port.
pub fn parse_ipv4_address(address: &str) -> (r: Option<(&str, &str)>)
    ensures
        match ipv4_parts(address@) {
            Some((ip, port)) => r is Some && r->Some_0.0@ == ip && r->Some_0.1@ == port,
            None => r is None,
        },
{
    let chars = chars_of(address);
    let mut sep: Vec<char> = Vec::new();
    sep.push(':');
    split_text(address, &chars, &sep)
}

/// Splits an endpoint into the address and the port.
pub fn parse_address(address: &str) -> (r: Option<(&str, &str)>)
    ensures
        match address_parts(address@) {
            Some((ip, port)) => r is Some && r->Some_0.0@ == ip && r->Some_0.1@ == port,
            None => r is None,
        },
{
    let chars = chars_of(address);
    let mut i: usize = 0;
    while i < chars.len()
        invariant
            i <= chars.len(),
            chars@ == address@,
            forall|j: int| 0 <= j < i ==> address@[j] != '[',
        decreases chars.len() - i,
    {
        if chars[i] == '[' {
            return parse_ipv6_address(address);
        }
        i += 1;
    }
    parse_ipv4_address(address)
}

/// Whether an address is one of the host itself.
pub open spec fn is_local(ip: Seq<char>) -> bool {
    contains_text(ip, "127.0.0."@) || contains_text(ip, "::1"@)
}

/// The dependency that a line of a socket table stands for, if any: the
/// connection must not be closed, both endpoints must split into address and
/// port, with `omit_local` neither address may be one of the host itself,
/// and both ports must be numbers.
pub open spec fn entry_dependency(entry: SocketEntry, omit_local: bool) -> Option<DependencyView> {
    if entry.state == ConnectionState::Closed {
        None
    } else {
        match (address_parts(entry.local_address@), address_parts(entry.remote_address@)) {
            (Some((local_ip, local_port)), Some((remote_ip, remote_port))) => if omit_local && (
            is_local(local_ip) || is_local(remote_ip)) {
                None
            } else {
                match (signed_value(local_port), signed_value(remote_port)) {
                    (Some(lp), Some(rp)) => Some(
                        DependencyView {
                            module: "Connections"@,
                            local_port: lp as i32,
                            local_ip,
                            local_os: "Linux"@,
                            remote_port: rp as i32,
                            remote_ip,
                            description: entry.protocol@ + " connection"@,
                        },
                    ),
                    _ => None,
                }
            },
            _ => None,
        }
    }
}

/// The dependencies of the first `n` lines of a socket table, in the order
/// of the table.
pub open spec fn dependencies_before(entries: Seq<SocketEntry>, omit_local: bool, n: int) -> Seq<
    DependencyView,
>
    decreases n,
{
    if n <= 0 {
        Seq::empty()
    } else {
        match entry_dependency(entries[n - 1], omit_local) {
            Some(d) => dependencies_before(entries, omit_local, n - 1).push(d),
            None => dependencies_before(entries, omit_local, n - 1),
        }
    }
}

/// The dependencies of a socket table.
pub open spec fn table_dependencies(entries: Seq<SocketEntry>, omit_local: bool) -> Seq<
    DependencyView,
> {
    dependencies_before(entries, omit_local, entries.len() as int)
}

/// Computes `is_local`.
fn local_address(ip: &str) -> (r: bool)
    ensures
        r == is_local(ip@),
{
    contains(ip, "127.0.0.") || contains(ip, "::1")
}

/// Computes `entry_dependency`.
fn dependency_of(entry: &SocketEntry, omit_local: bool) -> (r: Option<Dependency>)
    ensures
        match entry_dependency(*entry, omit_local) {
            Some(d) => r is Some && r->Some_0@ == d,
            None => r is None,
        },
{
    if entry.state.is_closed() {
        return None;
    }
    let (local_ip, local_port) = match parse_address(entry.local_address.as_str()) {
        Some(parts) => parts,
        None => { return None; },
    };
    let (remote_ip, remote_port) = match parse_address(entry.remote_address.as_str()) {
        Some(parts) => parts,
        None => { return None; },
    };
    if omit_local && (local_address(local_ip) || local_address(remote_ip)) {
        return None;
    }
    let lp = match parse_i32(local_port) {
        Some(p) => p,
        None => { return None; },
    };
    let rp = match parse_i32(remote_port) {
        Some(p) => p,
        None => { return None; },
    };
    Some(
        Dependency {
            module: "Connections".to_owned(),
            local_port: lp,
            local_ip: local_ip.to_owned(),
            local_os: "Linux".to_owned(),
            remote_port: rp,
            remote_ip: remote_ip.to_owned(),
            description: joined(entry.protocol.as_str(), " connection"),
        },
    )
}

/// The values of a run of dependencies.
pub open spec fn views(ds: Seq<Dependency>) -> Seq<DependencyView> {
    Seq::new(ds.len(), |i: int| ds[i]@)
}

/// Appends the dependencies of a socket table to `out`.
fn push_table(out: &mut Vec<Dependency>, entries: &Vec<SocketEntry>, omit_local: bool)
    ensures
        views(final(out)@) == views(old(out)@) + table_dependencies(entries@, omit_local),
{
    let ghost start = views(out@);
    let mut i: usize = 0;
    while i < entries.len()
        invariant
            i <= entries.len(),
            views(out@) == start + dependencies_before(entries@, omit_local, i as int),
        decreases entries.len() - i,
    {
        let ghost before = views(out@);
        match dependency_of(&entries[i], omit_local) {
            Some(d) => {
                out.push(d);
                assert(views(out@) =~= before.push(d@));
            },
            None => {},
        }
        i += 1;
    }
}

/// The dependencies of one socket table.
pub fn process_network_entries(entries: &Vec<SocketEntry>, omit_local_connections: bool) -> (out:
    Vec<Dependency>)
    ensures
        views(out@) == table_dependencies(entries@, omit_local_connections),
{
    let mut out: Vec<Dependency> = Vec::new();
    push_table(&mut out, entries, omit_local_connections);
    assert(views(Seq::<Dependency>::empty()) + table_dependencies(
        entries@,
        omit_local_connections,
    ) =~= table_dependencies(entries@, omit_local_connections));
    out
}

/// The dependencies of the four socket tables: TCP, UDP, then the two over
/// IPv6.
pub fn conn_info(
    tcp: &Vec<SocketEntry>,
    udp: &Vec<SocketEntry>,
    tcp6: &Vec<SocketEntry>,
    udp6: &Vec<SocketEntry>,
    omit_local_connections: bool,
) -> (out: Vec<Dependency>)
    ensures
        views(out@) == table_dependencies(tcp@, omit_local_connections) + table_dependencies(
            udp@,
            omit_local_connections,
        ) + table_dependencies(tcp6@, omit_local_connections) + table_dependencies(
            udp6@,
            omit_local_connections,
        ),
{
    let mut out: Vec<Dependency> = Vec::new();
    push_table(&mut out, tcp, omit_local_connections);
    push_table(&mut out, udp, omit_local_connections);
    push_table(&mut out, tcp6, omit_local_connections);
    push_table(&mut out, udp6, omit_local_connections);
    assert(views(out@) =~= table_dependencies(tcp@, omit_local_connections) + table_dependencies(
        udp@,
        omit_local_connections,
    ) + table_dependencies(tcp6@, omit_local_connections) + table_dependencies(
        udp6@,
        omit_local_connections,
    ));
    out
}

/// The answer of the module for the four socket tables: their dependencies,
/// nothing changed, nothing failed.
pub fn run_connections(
    args: ConnectionArgs,
    tcp: &Vec<SocketEntry>,
    udp: &Vec<SocketEntry>,
    tcp6: &Vec<SocketEntry>,
    udp6: &Vec<SocketEntry>,
) -> (r: Response)
    ensures
        views(r.dependencies@) == table_dependencies(tcp@, args.omit_local_connections)
            + table_dependencies(udp@, args.omit_local_connections) + table_dependencies(
            tcp6@,
            args.omit_local_connections,
        ) + table_dependencies(udp6@, args.omit_local_connections),
        !r.changed,
        !r.failed,
        r.extra@.len() == 0,
{
    Response::new(conn_info(tcp, udp, tcp6, udp6, args.omit_local_connections), false, false)
}

} // verus!
