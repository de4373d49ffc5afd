use vstd::prelude::*;

use crate::ports::{collected_mappings, PortMappings};
use crate::scenario::Service;
use crate::text::text;

verus! {

/// The plain part of a started service: the container's id, where its ports
/// are reached on the host, and the service it was started for.
#[derive(Debug, Clone)]
pub struct ServiceRecord {
    pub container_id: String,
    pub port_mappings: PortMappings,
    pub service: Service,
}

impl ServiceRecord {
    /// The record of the container `container_id` started for `service`, when
    /// looking up the host port of each of the service's ports gave `found`
    /// (`found[i]` for `service.ports[i]`): a port whose lookup failed is left
    /// out of the mappings, and is no error.
    pub fn from_lookups(container_id: String, service: Service, found: &Vec<Option<u16>>) -> (r: ServiceRecord)
        requires
            found@.len() == service.ports@.len(),
        ensures
            r.container_id == container_id,
            r.service == service,
            r.port_mappings@ == collected_mappings(service.ports@, found@, service.ports@.len()),
    {
        let port_mappings = PortMappings::from_lookups(&service.ports, found);
        ServiceRecord { container_id, port_mappings, service }
    }
}

/// The tag of a service's image: the one it names, else `latest`.
pub open spec fn tag_of(service: Service) -> Seq<char> {
    match service.tag {
        Some(t) => t@,
        None => "latest"@,
    }
}

/// The log line awaited before a service counts as started (empty when none is named).
pub open spec fn wait_line_of(service: Service) -> Seq<char> {
    match service.wait_for_log {
        Some(w) => w@,
        None => Seq::empty(),
    }
}

/// The environment of a service's container: a fixed placeholder variable
/// `XXX=XXX` first, then the service's own variables in order.
pub open spec fn container_env_of(service: Service) -> Seq<(Seq<char>, Seq<char>)> {
    seq![("XXX"@, "XXX"@)] + service.env@.map_values(|p: (String, String)| (p.0@, p.1@))
}

/// How to start the container of a service.
#[derive(Debug, Clone)]
pub struct ContainerPlan {
    pub image: String,
    pub tag: String,
    pub exposed_ports: Vec<u16>,
    pub wait_line: String,
    pub env: Vec<(String, String)>,
}

/// The container to start for `service`: its image and tag (see [`tag_of`]),
/// its ports exposed in order, the awaited log line (see [`wait_line_of`]) and
/// its environment (see [`container_env_of`]).
pub fn container_plan(service: &Service) -> (p: ContainerPlan)
    ensures
        p.image@ == service.image@,
        p.tag@ == tag_of(*service),
        p.exposed_ports@ == service.ports@,
        p.wait_line@ == wait_line_of(*service),
        p.env@.map_values(|q: (String, String)| (q.0@, q.1@)) == container_env_of(*service),
{
    let tag = match &service.tag {
        Some(t) => t.clone(),
        None => text("latest"),
    };
    let wait_line = match &service.wait_for_log {
        Some(w) => w.clone(),
        None => String::new(),
    };
    let exposed_ports = copy_ports(&service.ports);
    let mut env: Vec<(String, String)> = Vec::new();
    env.push((text("XXX"), text("XXX")));
    let mut j: usize = 0;
    while j < service.env.len()
        invariant
            j <= service.env@.len(),
            env@.len() == j + 1,
            env@[0].0@ == "XXX"@,
            env@[0].1@ == "XXX"@,
            forall|i: int| 0 <= i < j ==> #[trigger] env@[i + 1].0@ == service.env@[i].0@
                && env@[i + 1].1@ == service.env@[i].1@,
        decreases service.env@.len() - j,
    {
        let k = service.env[j].0.clone();
        let v = service.env[j].1.clone();
        env.push((k, v));
        j = j + 1;
    }
    assert(env@.map_values(|q: (String, String)| (q.0@, q.1@)) =~= container_env_of(*service)) by {
        assert forall|i: int| 0 < i < env@.len() implies #[trigger] env@[i].0@ == service.env@[i - 1].0@
            && env@[i].1@ == service.env@[i - 1].1@ by {
            assert(env@[(i - 1) + 1] == env@[i]);
        }
    }
    ContainerPlan { image: service.image.clone(), tag, exposed_ports, wait_line, env }
}

/// The container to start for a service that names its image's tag: its
/// image and that tag, its ports exposed in order, the awaited log line (see
/// [`wait_line_of`]) and no environment variable.
pub fn tagged_container_plan(service: &Service) -> (p: ContainerPlan)
    requires
        service.tag is Some,
    ensures
        p.image@ == service.image@,
        p.tag@ == service.tag->0@,
        p.exposed_ports@ == service.ports@,
        p.wait_line@ == wait_line_of(*service),
        p.env@.len() == 0,
{
    let tag = match &service.tag {
        Some(t) => t.clone(),
        None => String::new(),
    };
    let wait_line = match &service.wait_for_log {
        Some(w) => w.clone(),
        None => String::new(),
    };
    let exposed_ports = copy_ports(&service.ports);
    ContainerPlan { image: service.image.clone(), tag, exposed_ports, wait_line, env: Vec::new() }
}

/// A copy of `ports`.
fn copy_ports(ports: &Vec<u16>) -> (r: Vec<u16>)
    ensures
        r@ == ports@,
{
    let mut r: Vec<u16> = Vec::new();
    let mut i: usize = 0;
    while i < ports.len()
        invariant
            i <= ports@.len(),
            r@ == ports@.take(i as int),
        decreases ports@.len() - i,
    {
        r.push(ports[i]);
        assert(r@ =~= ports@.take(i + 1));
        i = i + 1;
    }
    assert(r@ =~= ports@);
    r
}

/// The ports a Kafka service exposes, whatever the scenario says.
pub open spec fn kafka_ports() -> Seq<u16> {
    seq![9092u16, 9093u16]
}

/// The service as a Kafka container is started for it: the same, exposing
/// ports 9092 and 9093.
pub fn kafka_service(service: Service) -> (s: Service)
    ensures
        s == (Service { ports: s.ports, ..service }),
        s.ports@ == kafka_ports(),
{
    let mut s = service;
    s.ports = vec![9092u16, 9093u16];
    s
}

} // verus!
