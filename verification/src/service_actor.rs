use vstd::prelude::*;

use crate::actor::{ActorInfo, ActorStatus, HealthStatus};
use crate::containers::ServiceRecord;
use crate::ports::connection_text;
use crate::scenario::{service_type_name, Service, ServiceType};
use crate::text::{
    bool_text, concat, decimal, decimal_string, lemma_decimal_digits, lemma_split_at_separator,
    text,
};

verus! {

/// Messages understood by the generic service container actor.
#[derive(Debug, Clone)]
pub enum ServiceContainerMessage {
    Start(Box<Service>),
    Stop,
    GetConnectionString { port: u16 },
    WaitReady { duration_secs: u64 },
}

/// The outside work the generic service actor asks for.
#[derive(Debug, Clone)]
pub enum ServiceAction {
    /// The actor is paused and leaves the message aside.
    Ignored,
    /// Start a container for this service; report the result to `start_completed`.
    StartContainer(Box<Service>),
    /// Stop this container; report success to `stop_completed`.
    StopContainer(ServiceRecord),
    /// There was no container to stop.
    NothingToStop,
    /// Report the connection string of a port (none when the port is not mapped).
    ReportConnection { port: u16, connection: Option<String> },
    /// There is no container to ask about.
    NoContainer,
    /// Wait this many seconds for the service to become ready.
    WaitReady { duration_secs: u64 },
}

/// The generic service container actor: the service it runs, if any, and
/// whether it is paused.
#[derive(Debug, Clone)]
pub struct ServiceActorState {
    pub record: Option<ServiceRecord>,
    pub is_paused: bool,
}

/// The state the actor moves to on a message: while paused only `Stop` is served.
pub open spec fn service_next(s: ServiceActorState, msg: ServiceContainerMessage) -> ServiceActorState {
    if s.is_paused && !(msg is Stop) {
        s
    } else {
        match msg {
            ServiceContainerMessage::Stop => match s.record {
                Some(_) => ServiceActorState { record: None, ..s },
                None => ServiceActorState { record: None, is_paused: false },
            },
            _ => s,
        }
    }
}

/// The outside work the actor asks for on a message.
pub open spec fn service_action(s: ServiceActorState, msg: ServiceContainerMessage, a: ServiceAction) -> bool {
    if s.is_paused && !(msg is Stop) {
        a == ServiceAction::Ignored
    } else {
        match msg {
            ServiceContainerMessage::Start(svc) => a == ServiceAction::StartContainer(svc),
            ServiceContainerMessage::Stop => match s.record {
                Some(r) => a == ServiceAction::StopContainer(r),
                None => a == ServiceAction::NothingToStop,
            },
            ServiceContainerMessage::GetConnectionString { port } => match s.record {
                Some(r) => a matches ServiceAction::ReportConnection { port: q, connection: c } && q == port
                    && match c {
                    Some(x) => r.port_mappings@.contains_key(port) && x@ == connection_text(
                        r.port_mappings@[port],
                    ),
                    None => !r.port_mappings@.contains_key(port),
                },
                None => a == ServiceAction::NoContainer,
            },
            ServiceContainerMessage::WaitReady { duration_secs } => match s.record {
                Some(_) => a == ServiceAction::WaitReady { duration_secs },
                None => a == ServiceAction::NoContainer,
            },
        }
    }
}

/// The metadata key naming the mapping of container port `c` to host port `h`.
pub open spec fn port_mapping_key(c: u16, h: u16) -> Seq<char> {
    "port_mapping_"@ + decimal(c as nat) + "_"@ + decimal(h as nat)
}

/// The metadata value of the mapping of container port `c` to host port `h`.
pub open spec fn port_mapping_value(c: u16, h: u16) -> Seq<char> {
    decimal(c as nat) + ":"@ + decimal(h as nat)
}

/// The metadata that describes a running service, besides its port mappings.
pub open spec fn service_info_base(r: ServiceRecord) -> Map<Seq<char>, Seq<char>> {
    let m = Map::<Seq<char>, Seq<char>>::empty().insert("type"@, "generic_container_actor"@).insert(
        "container_id"@,
        r.container_id@,
    ).insert("service_type"@, service_type_name(r.service.service_type)).insert(
        "image"@,
        r.service.image@,
    );
    match r.service.tag {
        Some(t) => m.insert("tag"@, t@),
        None => m,
    }
}

/// The messages of validation for the first `n` of the service's ports that have
/// no mapping, in order.
pub open spec fn unmapped_port_problems(ports: Seq<u16>, mappings: Map<u16, u16>, n: nat) -> Seq<Seq<char>>
    decreases n,
{
    if n == 0 {
        Seq::empty()
    } else {
        let prev = unmapped_port_problems(ports, mappings, (n - 1) as nat);
        let p = ports[n - 1];
        if mappings.contains_key(p) {
            prev
        } else {
            prev.push("Port "@ + decimal(p as nat) + " is not mapped"@)
        }
    }
}

/// The problems validation reports: an empty container id, then each of the
/// service's ports that has no mapping.
pub open spec fn service_problems(s: ServiceActorState) -> Seq<Seq<char>> {
    match s.record {
        Some(r) => (if r.container_id@.len() == 0 {
            seq!["Container ID is empty"@]
        } else {
            Seq::empty()
        }) + unmapped_port_problems(r.service.ports@, r.port_mappings@, r.service.ports@.len()),
        None => Seq::empty(),
    }
}

/// Keys of two port mappings are equal only when their values are.
proof fn lemma_port_mapping_key_injective(c1: u16, h1: u16, c2: u16, h2: u16)
    requires
        port_mapping_key(c1, h1) == port_mapping_key(c2, h2),
    ensures
        port_mapping_value(c1, h1) == port_mapping_value(c2, h2),
{
    let pre = "port_mapping_"@;
    let x = decimal(c1 as nat) + "_"@ + decimal(h1 as nat);
    let y = decimal(c2 as nat) + "_"@ + decimal(h2 as nat);
    assert(port_mapping_key(c1, h1) =~= pre + x);
    assert(port_mapping_key(c2, h2) =~= pre + y);
    assert(x =~= (pre + x).subrange(pre.len() as int, (pre + x).len() as int));
    assert(y =~= (pre + y).subrange(pre.len() as int, (pre + y).len() as int));
    lemma_decimal_digits(c1 as nat);
    lemma_decimal_digits(c2 as nat);
    reveal_strlit("_");
    assert("_"@ =~= seq!['_']);
    lemma_split_at_separator(decimal(c1 as nat), decimal(h1 as nat), decimal(c2 as nat), decimal(h2 as nat), '_');
}

/// A port mapping key is none of the keys of the base metadata.
proof fn lemma_port_mapping_key_not_base(c: u16, h: u16, r: ServiceRecord)
    ensures
        !service_info_base(r).contains_key(port_mapping_key(c, h)),
{
    reveal_strlit("port_mapping_");
    reveal_strlit("type");
    reveal_strlit("container_id");
    reveal_strlit("service_type");
    reveal_strlit("image");
    reveal_strlit("tag");
    let k = port_mapping_key(c, h);
    assert(k[0] == 'p');
    assert("type"@[0] == 't');
    assert("container_id"@[0] == 'c');
    assert("service_type"@[0] == 's');
    assert("image"@[0] == 'i');
    assert("tag"@[0] == 't');
}

impl ServiceActorState {
    /// A fresh actor: no container, not paused.
    pub fn new() -> (s: ServiceActorState)
        ensures
            s.record.is_none(),
            !s.is_paused,
    {
        ServiceActorState { record: None, is_paused: false }
    }

    /// Answers a message (see [`service_next`] and [`service_action`]).
    pub fn handle(&mut self, msg: ServiceContainerMessage) -> (a: ServiceAction)
        ensures
            *final(self) == service_next(*old(self), msg),
            service_action(*old(self), msg, a),
    {
        if self.is_paused {
            match msg {
                ServiceContainerMessage::Stop => {},
                _ => {
                    return ServiceAction::Ignored;
                },
            }
        }
        match msg {
            ServiceContainerMessage::Start(svc) => ServiceAction::StartContainer(svc),
            ServiceContainerMessage::Stop => match self.record.take() {
                Some(r) => ServiceAction::StopContainer(r),
                None => {
                    self.is_paused = false;
                    ServiceAction::NothingToStop
                },
            },
            ServiceContainerMessage::GetConnectionString { port } => match &self.record {
                Some(r) => ServiceAction::ReportConnection {
                    port,
                    connection: r.port_mappings.get_connection_string(port),
                },
                None => ServiceAction::NoContainer,
            },
            ServiceContainerMessage::WaitReady { duration_secs } => match &self.record {
                Some(_) => ServiceAction::WaitReady { duration_secs },
                None => ServiceAction::NoContainer,
            },
        }
    }

    /// A container was started: the actor now runs it.
    pub fn start_completed(&mut self, record: ServiceRecord)
        ensures
            final(self).record == Some(record),
            final(self).is_paused == old(self).is_paused,
    {
        self.record = Some(record);
    }

    /// The container given to stop has stopped: the actor is no longer paused.
    pub fn stop_completed(&mut self)
        ensures
            final(self).record == old(self).record,
            !final(self).is_paused,
    {
        self.is_paused = false;
    }

    /// Shutting down: hands out the running container to stop, if any.
    pub fn shutdown(&mut self) -> (r: Option<ServiceRecord>)
        ensures
            r == old(self).record,
            final(self).record.is_none(),
            final(self).is_paused == old(self).is_paused,
    {
        self.record.take()
    }

    /// Pauses the actor (the container keeps running).
    pub fn pause(&mut self)
        ensures
            final(self).is_paused,
            final(self).record == old(self).record,
    {
        self.is_paused = true;
    }

    /// Resumes the actor.
    pub fn resume(&mut self)
        ensures
            !final(self).is_paused,
            final(self).record == old(self).record,
    {
        self.is_paused = false;
    }

    /// Running with a container, paused with a paused one, stopped without one.
    pub fn status(&self) -> (s: ActorStatus)
        ensures
            s == (match self.record {
                Some(_) => if self.is_paused { ActorStatus::Paused } else { ActorStatus::Running },
                None => ActorStatus::Stopped,
            }),
    {
        match (&self.record, self.is_paused) {
            (Some(_), false) => ActorStatus::Running,
            (Some(_), true) => ActorStatus::Paused,
            (None, _) => ActorStatus::Stopped,
        }
    }

    /// Healthy while a container runs, with its id, its service type and whether
    /// the actor is paused; unhealthy without one.
    pub fn health_check(&self) -> (h: HealthStatus)
        ensures
            match self.record {
                Some(r) => h.healthy && h.message@ == "Generic service container is running"@
                    && h.details@ == Map::<Seq<char>, Seq<char>>::empty().insert(
                    "container_id"@,
                    r.container_id@,
                ).insert("service_type"@, service_type_name(r.service.service_type)).insert(
                    "paused"@,
                    bool_text(self.is_paused),
                ),
                None => !h.healthy && h.message@ == "No service container running"@ && h.details@
                    == Map::<Seq<char>, Seq<char>>::empty(),
            },
    {
        match &self.record {
            Some(r) => {
                let st = r.service.service_type.to_display_string();
                let paused = crate::text::bool_string(self.is_paused);
                HealthStatus::healthy("Generic service container is running").with_detail(
                    "container_id",
                    r.container_id.as_str(),
                ).with_detail("service_type", st.as_str()).with_detail("paused", paused.as_str())
            },
            None => HealthStatus::unhealthy("No service container running"),
        }
    }

    /// The actor's information: its type and, while a container runs, the
    /// container's id, service type, image, tag and every port mapping.
    pub fn get_info(&self) -> (info: ActorInfo)
        ensures
            info.name@ == "ServiceContainerActor"@,
            info.version@ == "1.0.0"@,
            info.uptime_seconds.is_none(),
            info.messages_processed.is_none(),
            match self.record {
                None => info.metadata@ == Map::<Seq<char>, Seq<char>>::empty().insert(
                    "type"@,
                    "generic_container_actor"@,
                ),
                Some(r) => {
                    let m = r.port_mappings@;
                    let base = service_info_base(r);
                    &&& forall|k: Seq<char>| #[trigger]
                        base.contains_key(k) ==> info.metadata@.contains_key(k) && info.metadata@[k]
                            == base[k]
                    &&& forall|c: u16| #[trigger]
                        m.contains_key(c) ==> info.metadata@.contains_key(port_mapping_key(c, m[c]))
                            && info.metadata@[port_mapping_key(c, m[c])] == port_mapping_value(
                            c,
                            m[c],
                        )
                    &&& forall|k: Seq<char>| #[trigger]
                        info.metadata@.contains_key(k) ==> base.contains_key(k) || exists|c: u16|
                            m.contains_key(c) && k == port_mapping_key(c, m[c])
                },
            },
    {
        let mut info = ActorInfo::new("ServiceContainerActor").with_metadata("type", "generic_container_actor");
        match &self.record {
            Some(r) => {
                let st = r.service.service_type.to_display_string();
                info = info.with_metadata("container_id", r.container_id.as_str()).with_metadata(
                    "service_type",
                    st.as_str(),
                ).with_metadata("image", r.service.image.as_str());
                match &r.service.tag {
                    Some(t) => {
                        info = info.with_metadata("tag", t.as_str());
                    },
                    None => {},
                }
                let ghost base = service_info_base(*r);
                assert(info.metadata@ == base);
                let pairs = r.port_mappings.pairs();
                let mut i: usize = 0;
                while i < pairs.len()
                    invariant
                        i <= pairs@.len(),
                        base == service_info_base(*r),
                        info.name@ == "ServiceContainerActor"@,
                        info.version@ == "1.0.0"@,
                        info.uptime_seconds.is_none(),
                        info.messages_processed.is_none(),
                        forall|j: int|
                            0 <= j < pairs@.len() ==> r.port_mappings@.contains_key(#[trigger] pairs@[j].0)
                                && r.port_mappings@[pairs@[j].0] == pairs@[j].1,
                        forall|k: Seq<char>| #[trigger]
                            base.contains_key(k) ==> info.metadata@.contains_key(k) && info.metadata@[k]
                                == base[k],
                        forall|j: int|
                            0 <= j < i ==> info.metadata@.contains_key(
                                #[trigger] port_mapping_key(pairs@[j].0, pairs@[j].1),
                            ) && info.metadata@[port_mapping_key(pairs@[j].0, pairs@[j].1)]
                                == port_mapping_value(pairs@[j].0, pairs@[j].1),
                        forall|k: Seq<char>| #[trigger]
                            info.metadata@.contains_key(k) ==> base.contains_key(k) || exists|j: int|
                                0 <= j < i && k == port_mapping_key(pairs@[j].0, pairs@[j].1),
                    decreases pairs@.len() - i,
                {
                    let (c, h) = pairs[i];
                    let mut key = concat("port_mapping_", decimal_string(c as u64).as_str());
                    key.append("_");
                    key.append(decimal_string(h as u64).as_str());
                    let mut value = decimal_string(c as u64);
                    value.append(":");
                    value.append(decimal_string(h as u64).as_str());
                    let ghost before = info.metadata@;
                    proof {
                        assert(key@ =~= port_mapping_key(c, h));
                        assert(value@ =~= port_mapping_value(c, h));
                        lemma_port_mapping_key_not_base(c, h, *r);
                    }
                    info = info.with_metadata(key.as_str(), value.as_str());
                    proof {
                        assert forall|j: int| 0 <= j < i + 1 implies info.metadata@.contains_key(
                            #[trigger] port_mapping_key(pairs@[j].0, pairs@[j].1),
                        ) && info.metadata@[port_mapping_key(pairs@[j].0, pairs@[j].1)]
                            == port_mapping_value(pairs@[j].0, pairs@[j].1) by {
                            if j < i && port_mapping_key(pairs@[j].0, pairs@[j].1) == port_mapping_key(c, h) {
                                lemma_port_mapping_key_injective(pairs@[j].0, pairs@[j].1, c, h);
                            }
                        }
                        assert forall|k: Seq<char>| #[trigger] info.metadata@.contains_key(k) implies
                            base.contains_key(k) || exists|j: int|
                                0 <= j < i + 1 && k == port_mapping_key(pairs@[j].0, pairs@[j].1) by {
                            if k != port_mapping_key(c, h) {
                                assert(before.contains_key(k));
                            } else {
                                assert(pairs@[i as int] == (c, h));
                            }
                        }
                    }
                    i = i + 1;
                }
                proof {
                    let m = r.port_mappings@;
                    assert forall|c: u16| #[trigger] m.contains_key(c) implies info.metadata@.contains_key(
                        port_mapping_key(c, m[c]),
                    ) && info.metadata@[port_mapping_key(c, m[c])] == port_mapping_value(c, m[c]) by {
                        let j = choose|j: int| 0 <= j < pairs@.len() && pairs@[j] == (c, m[c]);
                        assert(info.metadata@.contains_key(port_mapping_key(pairs@[j].0, pairs@[j].1)));
                    }
                    assert forall|k: Seq<char>| #[trigger] info.metadata@.contains_key(k) implies base.contains_key(k)
                        || exists|c: u16| m.contains_key(c) && k == port_mapping_key(c, m[c]) by {
                        if !base.contains_key(k) {
                            let j = choose|j: int| 0 <= j < pairs@.len() && k == port_mapping_key(pairs@[j].0, pairs@[j].1);
                            assert(m.contains_key(pairs@[j].0));
                        }
                    }
                }
            },
            None => {},
        }
        info
    }

    /// The problems validation reports (see [`service_problems`]).
    pub fn validate(&self) -> (errors: Vec<String>)
        ensures
            errors@.map_values(|e: String| e@) == service_problems(*self),
    {
        let mut errors: Vec<String> = Vec::new();
        match &self.record {
            Some(r) => {
                if r.container_id.as_str().is_empty() {
                    errors.push(text("Container ID is empty"));
                }
                let ghost head = errors@.map_values(|e: String| e@);
                proof {
                    assert(head =~= (if r.container_id@.len() == 0 {
                        seq!["Container ID is empty"@]
                    } else {
                        Seq::<Seq<char>>::empty()
                    }));
                }
                let mut i: usize = 0;
                while i < r.service.ports.len()
                    invariant
                        i <= r.service.ports@.len(),
                        errors@.map_values(|e: String| e@) == head + unmapped_port_problems(
                            r.service.ports@,
                            r.port_mappings@,
                            i as nat,
                        ),
                    decreases r.service.ports@.len() - i,
                {
                    let p = r.service.ports[i];
                    let ghost prev = errors@;
                    if !r.port_mappings.contains(p) {
                        let mut m = concat("Port ", decimal_string(p as u64).as_str());
                        m.append(" is not mapped");
                        errors.push(m);
                        proof {
                            assert(errors@.map_values(|e: String| e@) =~= prev.map_values(|e: String| e@).push(
                                "Port "@ + decimal(p as nat) + " is not mapped"@,
                            ));
                        }
                    }
                    proof {
                        assert(errors@.map_values(|e: String| e@) =~= head + unmapped_port_problems(
                            r.service.ports@,
                            r.port_mappings@,
                            (i + 1) as nat,
                        ));
                    }
                    i = i + 1;
                }
            },
            None => {},
        }
        proof {
            assert(errors@.map_values(|e: String| e@) =~= service_problems(*self));
        }
        errors
    }
}

/// A paused service actor leaves every message but `Stop` aside: its state does
/// not change and it asks for no work.
pub proof fn lemma_paused_service_actor_ignores(s: ServiceActorState, msg: ServiceContainerMessage)
    requires
        s.is_paused,
        !(msg is Stop),
    ensures
        service_next(s, msg) == s,
        forall|a: ServiceAction| service_action(s, msg, a) <==> a == ServiceAction::Ignored,
{
}

/// `Stop` is served in every state and leaves the actor without a container; an
/// actor that had none is no longer paused.
pub proof fn lemma_service_stop(s: ServiceActorState)
    ensures
        service_next(s, ServiceContainerMessage::Stop).record is None,
        s.record is None ==> !service_next(s, ServiceContainerMessage::Stop).is_paused,
{
}

/// While a container runs, the information's `service_type` entry names the
/// service's type (`redis_cluster`, `kafka`, `ccs`, or a custom type's own
/// name), as the health check does, whatever the image, tag, container or
/// ports: two records of services of the same type give the same entry.
pub proof fn lemma_service_info_type(r: ServiceRecord, other: ServiceRecord)
    ensures
        service_info_base(r).contains_key("service_type"@),
        service_info_base(r)["service_type"@] == match r.service.service_type {
            ServiceType::RedisCluster => "redis_cluster"@,
            ServiceType::Kafka => "kafka"@,
            ServiceType::Ccs => "ccs"@,
            ServiceType::Custom(name) => name@,
        },
        other.service.service_type == r.service.service_type ==> service_info_base(other)["service_type"@]
            == service_info_base(r)["service_type"@],
{
    reveal_strlit("service_type");
    reveal_strlit("image");
    reveal_strlit("tag");
    assert("service_type"@[0] == 's' && "image"@[0] == 'i' && "tag"@[0] == 't');
    assert("service_type"@ != "image"@ && "service_type"@ != "tag"@);
}

} // verus!
