//! A client that drives the `docker` command line, and the port section of the
//! `docker inspect` output it reads back.
use std::collections::HashMap;
use vstd::prelude::*;

use crate::api;
use crate::text::{find_char, parse_u32_range, parse_u32_seq, strings_view};

verus! {

broadcast use vstd::std_specs::hash::group_hash_axioms;

/// A client that runs containers through the `docker` command line.
#[derive(Debug, Copy, Clone)]
pub struct Cli;

impl Cli {
    /// The arguments of `docker run` for an image: always detached, always publishing
    /// every exposed port, followed by the image's own arguments.
    pub fn run_args(descriptor: &str, args: Vec<String>) -> (r: Vec<String>)
        ensures
            strings_view(r@) == seq!["run"@, "-d"@, "-P"@, descriptor@] + strings_view(args@),
    {
        let mut r: Vec<String> = Vec::new();
        r.push("run".to_owned());
        r.push("-d".to_owned());
        r.push("-P".to_owned());
        r.push(descriptor.to_owned());
        let ghost head = strings_view(r@);
        let mut i: usize = 0;
        while i < args.len()
            invariant
                0 <= i <= args@.len(),
                r@.len() == 4 + i,
                strings_view(r@) == head + strings_view(args@.take(i as int)),
            decreases args.len() - i,
        {
            let ghost old_r = r@;
            r.push(args[i].clone());
            i = i + 1;
            proof {
                assert(strings_view(r@) =~= strings_view(old_r).push(args@[i - 1]@));
                assert(strings_view(args@.take(i as int)) =~= strings_view(args@.take(i - 1)).push(args@[i - 1]@));
                assert(strings_view(r@) =~= head + strings_view(args@.take(i as int)));
            }
        }
        proof {
            assert(args@.take(args@.len() as int) =~= args@);
            assert(head =~= seq!["run"@, "-d"@, "-P"@, descriptor@]);
        }
        r
    }

    /// The arguments of `docker logs` following the logs of container `id`.
    pub fn logs_args(id: &str) -> (r: Vec<String>)
        ensures
            strings_view(r@) == seq!["logs"@, "-f"@, id@],
    {
        let r = vec!["logs".to_owned(), "-f".to_owned(), id.to_owned()];
        assert(strings_view(r@) =~= seq!["logs"@, "-f"@, id@]);
        r
    }

    /// The arguments of `docker inspect` for container `id`.
    pub fn inspect_args(id: &str) -> (r: Vec<String>)
        ensures
            strings_view(r@) == seq!["inspect"@, id@],
    {
        let r = vec!["inspect".to_owned(), id.to_owned()];
        assert(strings_view(r@) =~= seq!["inspect"@, id@]);
        r
    }

    /// The arguments of `docker rm` that force-removes container `id` with its volumes.
    pub fn rm_args(id: &str) -> (r: Vec<String>)
        ensures
            strings_view(r@) == seq!["rm"@, "-f"@, "-v"@, id@],
    {
        let r = vec!["rm".to_owned(), "-f".to_owned(), "-v".to_owned(), id.to_owned()];
        assert(strings_view(r@) =~= seq!["rm"@, "-f"@, "-v"@, id@]);
        r
    }

    /// The arguments of `docker stop` for container `id`.
    pub fn stop_args(id: &str) -> (r: Vec<String>)
        ensures
            strings_view(r@) == seq!["stop"@, id@],
    {
        let r = vec!["stop".to_owned(), id.to_owned()];
        assert(strings_view(r@) =~= seq!["stop"@, id@]);
        r
    }
}

/// A host binding of a container port, as `docker inspect` reports it.
#[derive(Debug, Clone)]
pub struct PortMapping {
    pub ip: String,
    pub port: String,
}

/// The `NetworkSettings.Ports` section of `docker inspect`: each internal port
/// (`"<port>/<protocol>"`) with the host bindings it has, if any.
#[derive(Debug)]
pub struct Ports(pub Vec<(String, Option<Vec<PortMapping>>)>);

/// The port number part of a key such as `"8080/tcp"`: what comes before the first `/`.
pub open spec fn internal_port_text(key: Seq<char>) -> Seq<char> {
    match key.index_of_first('/') {
        Some(i) => key.subrange(0, i),
        None => key,
    }
}

/// The host port of the last binding of an internal port, if it has one.
pub open spec fn published_port_text(bindings: Option<Vec<PortMapping>>) -> Option<Seq<char>> {
    match bindings {
        Some(v) => if v@.len() > 0 {
            Some(v@.last().port@)
        } else {
            None
        },
        None => None,
    }
}

/// Both port numbers of a published entry are decimal `u32` values.
pub open spec fn entry_parses(entry: (String, Option<Vec<PortMapping>>)) -> bool {
    published_port_text(entry.1) matches Some(p) ==> parse_u32_seq(internal_port_text(entry.0@))
        is Some && parse_u32_seq(p) is Some
}

/// The mapping that a list of inspected ports stands for: unpublished ports are skipped,
/// and a later entry for the same internal port replaces an earlier one.
pub open spec fn ports_map(entries: Seq<(String, Option<Vec<PortMapping>>)>) -> Map<u32, u32>
    decreases entries.len(),
{
    if entries.len() == 0 {
        Map::empty()
    } else {
        let m = ports_map(entries.drop_last());
        let e = entries.last();
        match published_port_text(e.1) {
            None => m,
            Some(p) => m.insert(
                parse_u32_seq(internal_port_text(e.0@))->0 as u32,
                parse_u32_seq(p)->0 as u32,
            ),
        }
    }
}

impl Ports {
    /// Converts the inspected ports into the mapping from internal to host ports.
    ///
    /// Every published entry must hold decimal port numbers.
    pub fn into_ports(self) -> (r: api::Ports)
        requires
            forall|i: int| 0 <= i < self.0@.len() ==> entry_parses(#[trigger] self.0@[i]),
        ensures
            r@ == ports_map(self.0@),
    {
        let entries = self.0;
        let mut mapping: HashMap<u32, u32> = HashMap::new();
        let mut i: usize = 0;
        while i < entries.len()
            invariant
                0 <= i <= entries@.len(),
                forall|j: int| 0 <= j < entries@.len() ==> entry_parses(#[trigger] entries@[j]),
                mapping@ == ports_map(entries@.take(i as int)),
            decreases entries.len() - i,
        {
            let ghost e = entries@[i as int];
            proof {
                assert(entries@.take(i + 1).drop_last() =~= entries@.take(i as int));
                assert(entries@.take(i + 1).last() == e);
                assert(entry_parses(e));
            }
            let published: Option<&String> = match &entries[i].1 {
                Some(v) => if v.len() > 0 {
                    Some(&v[v.len() - 1].port)
                } else {
                    None
                },
                None => None,
            };
            match published {
                None => {},
                Some(external) => {
                    let key = entries[i].0.as_str();
                    let n = key.unicode_len();
                    let end = match find_char(key, '/', 0, n) {
                        Some(j) => j,
                        None => n,
                    };
                    proof {
                        assert(key@.subrange(0, n as int) =~= key@);
                    }
                    let internal = Self::parse_port_range(key, end);
                    let ext_n = external.as_str().unicode_len();
                    proof {
                        assert(external@.subrange(0, ext_n as int) =~= external@);
                    }
                    let host = Self::parse_port_range(external.as_str(), ext_n);
                    mapping.insert(internal, host);
                }
            }
            i = i + 1;
        }
        assert(entries@.take(entries@.len() as int) =~= entries@);
        api::Ports::new(mapping)
    }

    fn parse_port_range(port: &str, end: usize) -> (r: u32)
        requires
            end <= port@.len(),
            parse_u32_seq(port@.subrange(0, end as int)) is Some,
        ensures
            Some(r as int) == parse_u32_seq(port@.subrange(0, end as int)),
    {
        match parse_u32_range(port, 0, end) {
            Some(v) => v,
            None => {
                proof {
                    assert(false);
                }
                0
            },
        }
    }

    /// Reads a port number; the text must be a decimal `u32`.
    pub fn parse_port(port: &str) -> (r: u32)
        requires
            parse_u32_seq(port@) is Some,
        ensures
            Some(r as int) == parse_u32_seq(port@),
    {
        let n = port.unicode_len();
        proof {
            assert(port@.subrange(0, n as int) =~= port@);
        }
        Self::parse_port_range(port, n)
    }
}

} // verus!
