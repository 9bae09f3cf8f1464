//! Runtime inspection data and the port mapping resolver.
//!
//! Inspection of a running container reports, for each container port
//! specification such as `"5432/tcp"`, a list of host bindings.  The resolver
//! keeps only bindings published on the wildcard address `0.0.0.0` with a
//! readable decimal port, and keeps the last such binding per port
//! specification.

use vstd::prelude::*;
use crate::dec::spec_parse_u16;
use crate::dec::parse_u16;
use crate::kv::kv_map;
use crate::kv::kv_insert;
use crate::kv::unique_keys;

verus! {

/// One host binding reported for a container port.
pub struct PortBindingData {
    /// The host address the port is bound on, when reported.
    pub host_ip: Option<String>,
    /// The bound host port as decimal text, when reported.
    pub host_port: Option<String>,
}

/// The network settings part of an inspection response.
pub struct NetworkSettingsData {
    /// Host bindings per container port specification; `None` per entry when
    /// the runtime reports a port with no bindings.
    pub ports: Option<Vec<(String, Option<Vec<PortBindingData>>)>>,
}

/// What an inspection of one container reports.
pub struct InspectData {
    /// The container identity, when reported.
    pub id: Option<String>,
    /// The container name, when reported.
    pub name: Option<String>,
    /// The health status string, when the image defines a health check and a
    /// status has been reported.
    pub health_status: Option<String>,
    /// Network settings, when reported.
    pub network_settings: Option<NetworkSettingsData>,
}

/// The host port a single binding resolves to: only a binding on `0.0.0.0`
/// with a readable decimal port resolves.
pub open spec fn binding_resolves(b: PortBindingData) -> Option<u16> {
    if b.host_ip matches Some(ip) && ip@ == "0.0.0.0"@ {
        match b.host_port {
            Some(p) => spec_parse_u16(p@),
            None => None,
        }
    } else {
        None
    }
}

/// Folds one port's bindings into the mapping, in order; later bindings win.
pub open spec fn apply_bindings(
    m: Map<Seq<char>, u16>,
    key: Seq<char>,
    bs: Seq<PortBindingData>,
) -> Map<Seq<char>, u16>
    decreases bs.len(),
{
    if bs.len() == 0 {
        m
    } else {
        let m2 = apply_bindings(m, key, bs.drop_last());
        match binding_resolves(bs.last()) {
            Some(p) => m2.insert(key, p),
            None => m2,
        }
    }
}

/// The resolved mapping over all reported port entries, in order.
pub open spec fn resolved_ports(
    entries: Seq<(String, Option<Vec<PortBindingData>>)>,
) -> Map<Seq<char>, u16>
    decreases entries.len(),
{
    if entries.len() == 0 {
        Map::empty()
    } else {
        let m = resolved_ports(entries.drop_last());
        match entries.last().1 {
            Some(bs) => apply_bindings(m, entries.last().0@, bs@),
            None => m,
        }
    }
}

/// The mapping a whole inspection response resolves to: empty when network
/// settings or port data are absent.
pub open spec fn spec_running_ports(inspect: InspectData) -> Map<Seq<char>, u16> {
    match inspect.network_settings {
        Some(ns) => match ns.ports {
            Some(ps) => resolved_ports(ps@),
            None => Map::empty(),
        },
        None => Map::empty(),
    }
}

/// Extracts the published host ports from network settings.
///
/// `None` exactly when the settings or their port data are absent; otherwise
/// the resolved mapping of `resolved_ports`.
pub fn extract_port_mapping(network_settings: &Option<NetworkSettingsData>) -> (r: Option<
    Vec<(String, u16)>,
>)
    ensures
        match r {
            Some(v) => {
                &&& network_settings matches Some(ns)
                &&& ns.ports matches Some(ps)
                &&& unique_keys(v@)
                &&& kv_map(v@) == resolved_ports(ps@)
            },
            None => match network_settings {
                Some(ns) => ns.ports is None,
                None => true,
            },
        },
{
    let entries: &Vec<(String, Option<Vec<PortBindingData>>)> = match network_settings {
        Some(ns) => match &ns.ports {
            Some(ps) => ps,
            None => {
                return None;
            },
        },
        None => {
            return None;
        },
    };
    let wildcard: String = "0.0.0.0".to_owned();
    let mut out: Vec<(String, u16)> = Vec::new();
    proof {
        assert(out@ =~= Seq::<(String, u16)>::empty());
        assert(kv_map(out@) =~= resolved_ports(entries@.take(0)));
    }
    let n = entries.len();
    let mut i: usize = 0;
    while i < n
        invariant
            n == entries@.len(),
            i <= n,
            wildcard@ == "0.0.0.0"@,
            unique_keys(out@),
            kv_map(out@) == resolved_ports(entries@.take(i as int)),
        decreases n - i,
    {
        let ghost before = kv_map(out@);
        match &entries[i].1 {
            Some(bs) => {
                let m = bs.len();
                let mut j: usize = 0;
                while j < m
                    invariant
                        n == entries@.len(),
                        i < n,
                        m == bs@.len(),
                        j <= m,
                        bs@ == entries@[i as int].1.unwrap()@,
                        wildcard@ == "0.0.0.0"@,
                        unique_keys(out@),
                        kv_map(out@) == apply_bindings(before, entries@[i as int].0@, bs@.take(
                            j as int,
                        )),
                        before == resolved_ports(entries@.take(i as int)),
                    decreases m - j,
                {
                    proof {
                        assert(bs@.take(j + 1).drop_last() =~= bs@.take(j as int));
                        assert(bs@.take(j + 1).last() == bs@[j as int]);
                    }
                    let b = &bs[j];
                    match &b.host_ip {
                        Some(ip) => {
                            if *ip == wildcard {
                                match &b.host_port {
                                    Some(p) => match parse_u16(p.as_str()) {
                                        Some(v) => {
                                            out = kv_insert(out, entries[i].0.clone(), v);
                                        },
                                        None => {},
                                    },
                                    None => {},
                                }
                            }
                        },
                        None => {},
                    }
                    j += 1;
                }
                proof {
                    assert(bs@.take(m as int) =~= bs@);
                }
            },
            None => {},
        }
        proof {
            assert(entries@.take(i + 1).drop_last() =~= entries@.take(i as int));
            assert(entries@.take(i + 1).last() == entries@[i as int]);
        }
        i += 1;
    }
    proof {
        assert(entries@.take(n as int) =~= entries@);
    }
    Some(out)
}

/// The live identity and published ports of a started container.
pub struct RunningState {
    /// The runtime identity of the container.
    pub id: String,
    /// The runtime name of the container.
    pub name: String,
    /// Resolved host ports by container port specification.
    pub ports: Vec<(String, u16)>,
}

impl RunningState {
    /// The ports vector binds each key once.
    pub open spec fn wf(self) -> bool {
        unique_keys(self.ports@)
    }

    /// Derives the running state from an inspection response; absent port
    /// data yields an empty mapping, not an error.
    pub fn from_inspect(inspect: &InspectData) -> (r: RunningState)
        requires
            inspect.id is Some,
            inspect.name is Some,
        ensures
            r.wf(),
            r.id@ == inspect.id.unwrap()@,
            r.name@ == inspect.name.unwrap()@,
            kv_map(r.ports@) == spec_running_ports(*inspect),
    {
        let ports: Vec<(String, u16)> = match extract_port_mapping(
            match inspect {
                InspectData { network_settings, .. } => network_settings,
            },
        ) {
            Some(v) => v,
            None => {
                let empty: Vec<(String, u16)> = Vec::new();
                proof {
                    assert(empty@ =~= Seq::<(String, u16)>::empty());
                    assert(kv_map(empty@) =~= Map::<Seq<char>, u16>::empty());
                }
                empty
            },
        };
        let id: String = match &inspect.id {
            Some(s) => s.clone(),
            None => unreached(),
        };
        let name: String = match &inspect.name {
            Some(s) => s.clone(),
            None => unreached(),
        };
        RunningState { id, name, ports }
    }
}

} // verus!
