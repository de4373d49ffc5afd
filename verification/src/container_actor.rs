use vstd::prelude::*;

use crate::actor::{ActorInfo, ActorStatus, HealthStatus};
use crate::containers::ServiceRecord;
use crate::ports::connection_text;
use crate::scenario::Service;
use crate::text::{bool_text, concat, decimal, decimal_string, text};

verus! {

/// Which service a container actor manages.
#[derive(Debug, Clone, Copy, PartialEq, Eq)]
pub enum ContainerKind {
    Kafka,
    Redis,
}

/// The service's name as it appears in messages (`Kafka`, `Redis`).
pub open spec fn kind_label(k: ContainerKind) -> Seq<char> {
    match k {
        ContainerKind::Kafka => "Kafka"@,
        ContainerKind::Redis => "Redis"@,
    }
}

/// The actor's name in its information.
pub open spec fn kind_actor_name(k: ContainerKind) -> Seq<char> {
    match k {
        ContainerKind::Kafka => "KafkaContainerActor"@,
        ContainerKind::Redis => "RedisContainerActor"@,
    }
}

/// The service named in the actor's information.
pub open spec fn kind_service_name(k: ContainerKind) -> Seq<char> {
    match k {
        ContainerKind::Kafka => "kafka"@,
        ContainerKind::Redis => "redis_cluster"@,
    }
}

/// The container ports whose connection strings the actor's information lists.
pub open spec fn kind_info_ports(k: ContainerKind) -> Seq<u16> {
    match k {
        ContainerKind::Kafka => seq![9092u16, 9093u16],
        ContainerKind::Redis => seq![7000u16, 7001u16, 7002u16, 7003u16, 7004u16, 7005u16],
    }
}

impl ContainerKind {
    fn label(&self) -> (s: &'static str)
        ensures
            s@ == kind_label(*self),
    {
        match self {
            ContainerKind::Kafka => "Kafka",
            ContainerKind::Redis => "Redis",
        }
    }

    fn info_ports(&self) -> (v: Vec<u16>)
        ensures
            v@ == kind_info_ports(*self),
    {
        match self {
            ContainerKind::Kafka => vec![9092u16, 9093u16],
            ContainerKind::Redis => vec![7000u16, 7001u16, 7002u16, 7003u16, 7004u16, 7005u16],
        }
    }
}

/// A request to a Kafka or Redis container actor.
#[derive(Debug, Clone)]
pub enum ContainerCommand {
    Start(Box<Service>),
    Stop,
    GetConnectionString { port: u16 },
    Pause,
    Resume,
    Status,
}

/// Messages understood by the Kafka container actor.
#[derive(Debug, Clone)]
pub enum KafkaContainerMessage {
    Start(Box<Service>),
    Stop,
    GetConnectionString { port: u16 },
    Pause,
    Resume,
    Status,
}

/// Messages understood by the Redis container actor.
#[derive(Debug, Clone)]
pub enum RedisContainerMessage {
    Start(Box<Service>),
    Stop,
    GetConnectionString { port: u16 },
    Pause,
    Resume,
    Status,
}

impl KafkaContainerMessage {
    /// The same request, as a command.
    pub fn into_command(self) -> (c: ContainerCommand)
        ensures
            c == (match self {
                KafkaContainerMessage::Start(s) => ContainerCommand::Start(s),
                KafkaContainerMessage::Stop => ContainerCommand::Stop,
                KafkaContainerMessage::GetConnectionString { port } => ContainerCommand::GetConnectionString { port },
                KafkaContainerMessage::Pause => ContainerCommand::Pause,
                KafkaContainerMessage::Resume => ContainerCommand::Resume,
                KafkaContainerMessage::Status => ContainerCommand::Status,
            }),
    {
        match self {
            KafkaContainerMessage::Start(s) => ContainerCommand::Start(s),
            KafkaContainerMessage::Stop => ContainerCommand::Stop,
            KafkaContainerMessage::GetConnectionString { port } => ContainerCommand::GetConnectionString { port },
            KafkaContainerMessage::Pause => ContainerCommand::Pause,
            KafkaContainerMessage::Resume => ContainerCommand::Resume,
            KafkaContainerMessage::Status => ContainerCommand::Status,
        }
    }
}

impl RedisContainerMessage {
    /// The same request, as a command.
    pub fn into_command(self) -> (c: ContainerCommand)
        ensures
            c == (match self {
                RedisContainerMessage::Start(s) => ContainerCommand::Start(s),
                RedisContainerMessage::Stop => ContainerCommand::Stop,
                RedisContainerMessage::GetConnectionString { port } => ContainerCommand::GetConnectionString { port },
                RedisContainerMessage::Pause => ContainerCommand::Pause,
                RedisContainerMessage::Resume => ContainerCommand::Resume,
                RedisContainerMessage::Status => ContainerCommand::Status,
            }),
    {
        match self {
            RedisContainerMessage::Start(s) => ContainerCommand::Start(s),
            RedisContainerMessage::Stop => ContainerCommand::Stop,
            RedisContainerMessage::GetConnectionString { port } => ContainerCommand::GetConnectionString { port },
            RedisContainerMessage::Pause => ContainerCommand::Pause,
            RedisContainerMessage::Resume => ContainerCommand::Resume,
            RedisContainerMessage::Status => ContainerCommand::Status,
        }
    }
}

/// The outside work a container actor has to do for a request.
#[derive(Debug, Clone)]
pub enum ContainerAction {
    /// The actor is paused and leaves the request aside.
    Ignored,
    /// Start a container for this service; report the result to `start_completed`.
    StartContainer(Box<Service>),
    /// Stop this container; report success to `stop_completed`.
    StopContainer(ServiceRecord),
    /// There was no container to stop.
    NothingToStop,
    /// Report the connection string of a port (none when the port is not mapped).
    ReportConnection { port: u16, connection: Option<String> },
    /// There is no container to ask about.
    NoContainer,
    /// Pause this container in Docker.
    PauseContainer(String),
    /// Resume this container in Docker.
    ResumeContainer(String),
    /// Nothing to pause or resume in Docker; only the actor changes.
    NoContainerToControl,
    /// Inspect this container in Docker and report its state.
    InspectContainer(String),
}

/// A container actor: the service it runs, if any, and whether it is paused.
#[derive(Debug, Clone)]
pub struct ContainerActorState {
    pub record: Option<ServiceRecord>,
    pub is_paused: bool,
}

/// Requests a paused container actor still serves.
pub open spec fn allowed_while_paused(cmd: ContainerCommand) -> bool {
    matches!(cmd, ContainerCommand::Stop | ContainerCommand::Resume | ContainerCommand::Status)
}

/// The id of the running container, if any.
pub open spec fn running_id(s: ContainerActorState) -> Option<String> {
    match s.record {
        Some(r) => Some(r.container_id),
        None => None,
    }
}

/// The state a container actor moves to when answering a request.
pub open spec fn container_next(s: ContainerActorState, cmd: ContainerCommand) -> ContainerActorState {
    if s.is_paused && !allowed_while_paused(cmd) {
        s
    } else {
        match cmd {
            ContainerCommand::Stop => match s.record {
                Some(_) => ContainerActorState { record: None, ..s },
                None => ContainerActorState { record: None, is_paused: false },
            },
            ContainerCommand::Pause => ContainerActorState { is_paused: true, ..s },
            ContainerCommand::Resume => ContainerActorState { is_paused: false, ..s },
            _ => s,
        }
    }
}

/// The outside work a container actor asks for when answering a request.
pub open spec fn container_action(s: ContainerActorState, cmd: ContainerCommand, a: ContainerAction) -> bool {
    if s.is_paused && !allowed_while_paused(cmd) {
        a == ContainerAction::Ignored
    } else {
        match cmd {
            ContainerCommand::Start(svc) => a == ContainerAction::StartContainer(svc),
            ContainerCommand::Stop => match s.record {
                Some(r) => a == ContainerAction::StopContainer(r),
                None => a == ContainerAction::NothingToStop,
            },
            ContainerCommand::GetConnectionString { port } => match s.record {
                Some(r) => a matches ContainerAction::ReportConnection { port: q, connection: c } && q == port
                    && match c {
                    Some(x) => r.port_mappings@.contains_key(port) && x@ == connection_text(
                        r.port_mappings@[port],
                    ),
                    None => !r.port_mappings@.contains_key(port),
                },
                None => a == ContainerAction::NoContainer,
            },
            ContainerCommand::Pause => a == match s.record {
                Some(r) => ContainerAction::PauseContainer(r.container_id),
                None => ContainerAction::NoContainerToControl,
            },
            ContainerCommand::Resume => a == match s.record {
                Some(r) => ContainerAction::ResumeContainer(r.container_id),
                None => ContainerAction::NoContainerToControl,
            },
            ContainerCommand::Status => a == match s.record {
                Some(r) => ContainerAction::InspectContainer(r.container_id),
                None => ContainerAction::NoContainer,
            },
        }
    }
}

/// What Docker says of a container's state; absent fields count as `false`.
#[derive(Debug, Clone, Copy, PartialEq, Eq)]
pub struct DockerState {
    pub running: Option<bool>,
    pub paused: Option<bool>,
}

pub open spec fn flag(b: Option<bool>) -> bool {
    match b {
        Some(v) => v,
        None => false,
    }
}

/// The health a container actor reports for the container `id` of kind `k`,
/// from Docker's answer to an inspection.
pub open spec fn container_health_spec(k: ContainerKind, id: Seq<char>, inspection: Result<DockerState, String>) -> (
    bool,
    Seq<char>,
    Map<Seq<char>, Seq<char>>,
) {
    let base = Map::<Seq<char>, Seq<char>>::empty().insert("container_id"@, id);
    match inspection {
        Ok(st) => if flag(st.running) && !flag(st.paused) {
            (true, kind_label(k) + " container is running normally"@, base.insert("paused"@, "false"@))
        } else if flag(st.paused) {
            (true, kind_label(k) + " container is paused"@, base.insert("paused"@, "true"@))
        } else {
            (false, kind_label(k) + " container is not running"@, base.insert("running"@, bool_text(flag(st.running))))
        },
        Err(e) => (false, "Failed to inspect container: "@ + e@, base),
    }
}

/// The metadata entries listing the connection strings of the first `n` of `ports`
/// that are mapped.
pub open spec fn connection_entries(
    m: Map<Seq<char>, Seq<char>>,
    ports: Seq<u16>,
    mappings: Map<u16, u16>,
    n: nat,
) -> Map<Seq<char>, Seq<char>>
    decreases n,
{
    if n == 0 {
        m
    } else {
        let prev = connection_entries(m, ports, mappings, (n - 1) as nat);
        let p = ports[n - 1];
        if mappings.contains_key(p) {
            prev.insert("connection_"@ + decimal(p as nat), connection_text(mappings[p]))
        } else {
            prev
        }
    }
}

/// The metadata of a container actor's information.
pub open spec fn container_info_metadata(k: ContainerKind, s: ContainerActorState) -> Map<Seq<char>, Seq<char>> {
    let base = Map::<Seq<char>, Seq<char>>::empty().insert("type"@, "container_actor"@).insert(
        "service"@,
        kind_service_name(k),
    );
    match s.record {
        Some(r) => connection_entries(
            base.insert("container_id"@, r.container_id@),
            kind_info_ports(k),
            r.port_mappings@,
            kind_info_ports(k).len(),
        ),
        None => base,
    }
}

/// The problems a container actor's validation reports, given Docker's answer to
/// a ping and, when a container runs, to its inspection.
pub open spec fn container_problems(
    s: ContainerActorState,
    ping: Result<(), String>,
    inspection: Option<Result<DockerState, String>>,
) -> Seq<Seq<char>> {
    (match ping {
        Ok(_) => Seq::empty(),
        Err(e) => seq!["Docker client not accessible: "@ + e@],
    }) + (match (s.record, inspection) {
        (Some(r), Some(Ok(st))) => if !flag(st.running) && !s.is_paused {
            seq!["Container is not running but actor is not paused"@]
        } else {
            Seq::empty()
        },
        (Some(r), Some(Err(e))) => seq!["Cannot inspect container "@ + r.container_id@ + ": "@ + e@],
        _ => Seq::empty(),
    })
}

impl ContainerActorState {
    /// A fresh actor: no container, not paused.
    pub fn new() -> (s: ContainerActorState)
        ensures
            s.record.is_none(),
            !s.is_paused,
    {
        ContainerActorState { record: None, is_paused: false }
    }

    /// The id of the running container, if any.
    pub fn container_id(&self) -> (id: Option<String>)
        ensures
            id == running_id(*self),
    {
        match &self.record {
            Some(r) => Some(r.container_id.clone()),
            None => None,
        }
    }

    /// Answers a request (see [`container_next`] and [`container_action`]).
    pub fn handle(&mut self, cmd: ContainerCommand) -> (a: ContainerAction)
        ensures
            *final(self) == container_next(*old(self), cmd),
            container_action(*old(self), cmd, a),
    {
        if self.is_paused {
            match cmd {
                ContainerCommand::Stop | ContainerCommand::Resume | ContainerCommand::Status => {},
                _ => {
                    return ContainerAction::Ignored;
                },
            }
        }
        match cmd {
            ContainerCommand::Start(svc) => ContainerAction::StartContainer(svc),
            ContainerCommand::Stop => {
                let taken = self.record.take();
                match taken {
                    Some(r) => ContainerAction::StopContainer(r),
                    None => {
                        self.is_paused = false;
                        ContainerAction::NothingToStop
                    },
                }
            },
            ContainerCommand::GetConnectionString { port } => match &self.record {
                Some(r) => ContainerAction::ReportConnection {
                    port,
                    connection: r.port_mappings.get_connection_string(port),
                },
                None => ContainerAction::NoContainer,
            },
            ContainerCommand::Pause => match self.pause() {
                Some(id) => ContainerAction::PauseContainer(id),
                None => ContainerAction::NoContainerToControl,
            },
            ContainerCommand::Resume => match self.resume() {
                Some(id) => ContainerAction::ResumeContainer(id),
                None => ContainerAction::NoContainerToControl,
            },
            ContainerCommand::Status => match self.container_id() {
                Some(id) => ContainerAction::InspectContainer(id),
                None => ContainerAction::NoContainer,
            },
        }
    }

    /// A container was started for the service: the actor now runs it.
    pub fn start_completed(&mut self, record: ServiceRecord)
        ensures
            final(self).record == Some(record),
            final(self).is_paused == old(self).is_paused,
    {
        self.record = Some(record);
    }

    /// The container given to stop has stopped: the actor is no longer paused.
    pub fn stop_completed(&mut self)
        ensures
            final(self).record == old(self).record,
            !final(self).is_paused,
    {
        self.is_paused = false;
    }

    /// Shutting down: hands out the running container to stop, if any.
    pub fn shutdown(&mut self) -> (r: Option<ServiceRecord>)
        ensures
            r == old(self).record,
            final(self).record.is_none(),
            final(self).is_paused == old(self).is_paused,
    {
        self.record.take()
    }

    /// Pauses the actor; returns the container to pause in Docker, if any.
    /// Whatever Docker answers, the actor counts as paused.
    pub fn pause(&mut self) -> (id: Option<String>)
        ensures
            final(self).is_paused,
            final(self).record == old(self).record,
            id == running_id(*old(self)),
    {
        self.is_paused = true;
        self.container_id()
    }

    /// Resumes the actor; returns the container to resume in Docker, if any.
    /// Whatever Docker answers, the actor counts as resumed.
    pub fn resume(&mut self) -> (id: Option<String>)
        ensures
            !final(self).is_paused,
            final(self).record == old(self).record,
            id == running_id(*old(self)),
    {
        self.is_paused = false;
        self.container_id()
    }

    /// Running with a container, paused with a paused one, stopped without one.
    pub fn status(&self) -> (s: ActorStatus)
        ensures
            s == (match self.record {
                Some(_) => if self.is_paused { ActorStatus::Paused } else { ActorStatus::Running },
                None => ActorStatus::Stopped,
            }),
    {
        match (&self.record, self.is_paused) {
            (Some(_), false) => ActorStatus::Running,
            (Some(_), true) => ActorStatus::Paused,
            (None, _) => ActorStatus::Stopped,
        }
    }

    /// The actor's health: without a container, unhealthy `No <kind> container
    /// running`; with one, what Docker's inspection of it shows (see
    /// [`container_health_spec`]).
    pub fn health_check(&self, kind: ContainerKind, inspection: Option<Result<DockerState, String>>) -> (h: HealthStatus)
        requires
            self.record.is_some() ==> inspection.is_some(),
        ensures
            match self.record {
                None => !h.healthy && h.message@ == "No "@ + kind_label(kind) + " container running"@
                    && h.details@ == Map::<Seq<char>, Seq<char>>::empty(),
                Some(r) => {
                    let expected = container_health_spec(kind, r.container_id@, inspection->0);
                    &&& h.healthy == expected.0
                    &&& h.message@ == expected.1
                    &&& h.details@ == expected.2
                },
            },
    {
        match &self.record {
            None => {
                let mut m = concat("No ", kind.label());
                m.append(" container running");
                HealthStatus::unhealthy(m.as_str())
            },
            Some(r) => {
                let id = r.container_id.as_str();
                match inspection {
                    Some(Ok(st)) => {
                        let running = match st.running { Some(v) => v, None => false };
                        let paused = match st.paused { Some(v) => v, None => false };
                        if running && !paused {
                            let m = concat(kind.label(), " container is running normally");
                            HealthStatus::healthy(m.as_str()).with_detail("container_id", id).with_detail("paused", "false")
                        } else if paused {
                            let m = concat(kind.label(), " container is paused");
                            HealthStatus::healthy(m.as_str()).with_detail("container_id", id).with_detail("paused", "true")
                        } else {
                            let m = concat(kind.label(), " container is not running");
                            let running_text = crate::text::bool_string(running);
                            HealthStatus::unhealthy(m.as_str()).with_detail("container_id", id).with_detail(
                                "running",
                                running_text.as_str(),
                            )
                        }
                    },
                    Some(Err(e)) => {
                        let m = concat("Failed to inspect container: ", e.as_str());
                        HealthStatus::unhealthy(m.as_str()).with_detail("container_id", id)
                    },
                    None => HealthStatus::unhealthy(""),
                }
            },
        }
    }

    /// The actor's information (see [`container_info_metadata`]).
    pub fn get_info(&self, kind: ContainerKind) -> (info: ActorInfo)
        ensures
            info.name@ == kind_actor_name(kind),
            info.version@ == "1.0.0"@,
            info.uptime_seconds.is_none(),
            info.messages_processed.is_none(),
            info.metadata@ == container_info_metadata(kind, *self),
    {
        let name = match kind {
            ContainerKind::Kafka => "KafkaContainerActor",
            ContainerKind::Redis => "RedisContainerActor",
        };
        let service = match kind {
            ContainerKind::Kafka => "kafka",
            ContainerKind::Redis => "redis_cluster",
        };
        let mut info = ActorInfo::new(name).with_metadata("type", "container_actor").with_metadata("service", service);
        match &self.record {
            Some(r) => {
                info = info.with_metadata("container_id", r.container_id.as_str());
                let ports = kind.info_ports();
                let ghost base = info.metadata@;
                let mut i: usize = 0;
                while i < ports.len()
                    invariant
                        i <= ports@.len(),
                        ports@ == kind_info_ports(kind),
                        info.name@ == kind_actor_name(kind),
                        info.version@ == "1.0.0"@,
                        info.uptime_seconds.is_none(),
                        info.messages_processed.is_none(),
                        info.metadata@ == connection_entries(base, ports@, r.port_mappings@, i as nat),
                    decreases ports@.len() - i,
                {
                    let p = ports[i];
                    match r.port_mappings.get_connection_string(p) {
                        Some(conn) => {
                            let key = concat("connection_", decimal_string(p as u64).as_str());
                            info = info.with_metadata(key.as_str(), conn.as_str());
                        },
                        None => {},
                    }
                    i = i + 1;
                }
            },
            None => {},
        }
        info
    }

    /// The problems validation reports (see [`container_problems`]).
    pub fn validate(&self, ping: Result<(), String>, inspection: Option<Result<DockerState, String>>) -> (errors: Vec<String>)
        ensures
            errors@.map_values(|e: String| e@) == container_problems(*self, ping, inspection),
    {
        let mut errors: Vec<String> = Vec::new();
        match &ping {
            Ok(_) => {},
            Err(e) => {
                errors.push(concat("Docker client not accessible: ", e.as_str()));
            },
        }
        match (&self.record, &inspection) {
            (Some(_), Some(Ok(st))) => {
                let running = match st.running { Some(v) => v, None => false };
                if !running && !self.is_paused {
                    errors.push(text("Container is not running but actor is not paused"));
                }
            },
            (Some(r), Some(Err(e))) => {
                let mut m = concat("Cannot inspect container ", r.container_id.as_str());
                m.append(": ");
                m.append(e.as_str());
                errors.push(m);
            },
            _ => {},
        }
        proof {
            assert(errors@.map_values(|e: String| e@) =~= container_problems(*self, ping, inspection));
        }
        errors
    }
}

/// A paused Kafka or Redis actor leaves every request but `Stop`, `Resume` and
/// `Status` aside: its state does not change and it asks for no work.
pub proof fn lemma_paused_container_actor_ignores(s: ContainerActorState, cmd: ContainerCommand)
    requires
        s.is_paused,
        !allowed_while_paused(cmd),
    ensures
        container_next(s, cmd) == s,
        forall|a: ContainerAction| container_action(s, cmd, a) <==> a == ContainerAction::Ignored,
{
}

/// `Stop` is served in every state and leaves the actor without a container; an
/// actor that had none is no longer paused, and one that had one is no longer
/// paused once the stop succeeds.
pub proof fn lemma_container_stop(s: ContainerActorState)
    ensures
        container_next(s, ContainerCommand::Stop).record is None,
        s.record is None ==> !container_next(s, ContainerCommand::Stop).is_paused,
        forall|a: ContainerAction| #[trigger] container_action(s, ContainerCommand::Stop, a) ==> (match s.record {
            Some(r) => a == ContainerAction::StopContainer(r),
            None => a == ContainerAction::NothingToStop,
        }),
{
}

/// Pausing and then resuming a container actor gives back the actor it was,
/// unpaused; when it was running, both requests address the same container.
pub proof fn lemma_container_pause_then_resume(s: ContainerActorState)
    ensures
        container_next(container_next(s, ContainerCommand::Pause), ContainerCommand::Resume)
            == (ContainerActorState { is_paused: false, ..s }),
        container_next(s, ContainerCommand::Pause).is_paused,
        !s.is_paused ==> forall|a: ContainerAction, b: ContainerAction|
            container_action(s, ContainerCommand::Pause, a) && container_action(
                container_next(s, ContainerCommand::Pause),
                ContainerCommand::Resume,
                b,
            ) ==> match s.record {
                Some(r) => a == ContainerAction::PauseContainer(r.container_id) && b
                    == ContainerAction::ResumeContainer(r.container_id),
                None => a == ContainerAction::NoContainerToControl && b == ContainerAction::NoContainerToControl,
            },
{
}

/// What an inspection adds to validation: nothing while the container runs
/// (`running` is `Some(true)`) or while the actor is paused; otherwise, for a
/// running container whose `running` flag is false or absent, exactly the
/// problem "Container is not running but actor is not paused" after the
/// problems found without an inspection; and a failed inspection adds the
/// error, naming the container.
pub proof fn lemma_container_problems_inspection(
    s: ContainerActorState,
    ping: Result<(), String>,
    st: DockerState,
    e: String,
)
    ensures
        container_problems(s, ping, None) == (match ping {
            Ok(_) => Seq::<Seq<char>>::empty(),
            Err(m) => seq!["Docker client not accessible: "@ + m@],
        }),
        st.running == Some(true) ==> container_problems(s, ping, Some(Ok(st))) == container_problems(
            s,
            ping,
            None,
        ),
        s.is_paused ==> container_problems(s, ping, Some(Ok(st))) == container_problems(s, ping, None),
        s.record is Some && !s.is_paused && st.running != Some(true) ==> container_problems(
            s,
            ping,
            Some(Ok(st)),
        ) == container_problems(s, ping, None).push("Container is not running but actor is not paused"@),
        s.record is None ==> container_problems(s, ping, Some(Ok(st))) == container_problems(s, ping, None),
        s.record is Some ==> container_problems(s, ping, Some(Err(e))) == container_problems(s, ping, None).push(
            "Cannot inspect container "@ + s.record->0.container_id@ + ": "@ + e@,
        ),
{
    let base = container_problems(s, ping, None);
    assert(base + Seq::<Seq<char>>::empty() =~= base);
    assert(base + seq!["Container is not running but actor is not paused"@] =~= base.push(
        "Container is not running but actor is not paused"@,
    ));
    if s.record is Some {
        assert(base + seq!["Cannot inspect container "@ + s.record->0.container_id@ + ": "@ + e@] =~= base.push(
            "Cannot inspect container "@ + s.record->0.container_id@ + ": "@ + e@,
        ));
    }
    assert(Seq::<Seq<char>>::empty() + Seq::<Seq<char>>::empty() =~= Seq::<Seq<char>>::empty());
    match ping {
        Ok(_) => {},
        Err(m) => {
            assert(seq!["Docker client not accessible: "@ + m@] + Seq::<Seq<char>>::empty() =~= seq![
                "Docker client not accessible: "@ + m@,
            ]);
        },
    }
}

/// The metadata key of the connection string of container port `p`.
pub open spec fn connection_key(p: u16) -> Seq<char> {
    "connection_"@ + decimal(p as nat)
}

/// Connection keys of different ports differ.
proof fn lemma_connection_key_injective(p: u16, q: u16)
    requires
        connection_key(p) == connection_key(q),
    ensures
        p == q,
{
    let pre = "connection_"@;
    assert(decimal(p as nat) =~= connection_key(p).subrange(pre.len() as int, connection_key(p).len() as int));
    assert(decimal(q as nat) =~= connection_key(q).subrange(pre.len() as int, connection_key(q).len() as int));
    crate::text::lemma_decimal_injective(p as nat, q as nat);
}

/// The connection entries of the first `n` of `ports` hold the connection
/// string of port `p` exactly when `p` is one of them and is mapped; otherwise
/// the entry under its key is the one `m` had.
proof fn lemma_connection_entries(
    m: Map<Seq<char>, Seq<char>>,
    ports: Seq<u16>,
    mappings: Map<u16, u16>,
    n: nat,
    p: u16,
)
    requires
        n <= ports.len(),
    ensures
        ((exists|i: int| 0 <= i < n && #[trigger] ports[i] == p) && mappings.contains_key(p)) ==> connection_entries(
            m,
            ports,
            mappings,
            n,
        ).contains_key(connection_key(p)) && connection_entries(m, ports, mappings, n)[connection_key(p)]
            == connection_text(mappings[p]),
        !((exists|i: int| 0 <= i < n && #[trigger] ports[i] == p) && mappings.contains_key(p)) ==> (
        connection_entries(m, ports, mappings, n).contains_key(connection_key(p)) <==> m.contains_key(
            connection_key(p),
        )) && (m.contains_key(connection_key(p)) ==> connection_entries(m, ports, mappings, n)[connection_key(p)]
            == m[connection_key(p)]),
    decreases n,
{
    if n > 0 {
        let k = (n - 1) as nat;
        lemma_connection_entries(m, ports, mappings, k, p);
        let q = ports[k as int];
        if q != p && mappings.contains_key(q) {
            if connection_key(q) == connection_key(p) {
                lemma_connection_key_injective(q, p);
            }
        }
        if exists|i: int| 0 <= i < n && #[trigger] ports[i] == p {
            let i = choose|i: int| 0 <= i < n && #[trigger] ports[i] == p;
            if i < k {
                assert(exists|j: int| 0 <= j < k && #[trigger] ports[j] == p);
            }
        } else {
            assert(!exists|j: int| 0 <= j < k && #[trigger] ports[j] == p);
        }
    }
}

/// The cluster ports of an actor kind: 9092 and 9093 for Kafka, 7000 to 7005
/// for Redis.
proof fn lemma_kind_info_ports(k: ContainerKind, p: u16)
    ensures
        (exists|i: int| 0 <= i < kind_info_ports(k).len() && #[trigger] kind_info_ports(k)[i] == p) <==> (match k {
            ContainerKind::Kafka => p == 9092 || p == 9093,
            ContainerKind::Redis => 7000 <= p <= 7005,
        }),
{
    let ps = kind_info_ports(k);
    match k {
        ContainerKind::Kafka => {
            if p == 9092 {
                assert(ps[0] == p);
            }
            if p == 9093 {
                assert(ps[1] == p);
            }
        },
        ContainerKind::Redis => {
            if 7000 <= p <= 7005 {
                assert(ps[p - 7000] == p);
            }
            assert forall|i: int| 0 <= i < ps.len() implies 7000 <= #[trigger] ps[i] <= 7005 by {
                assert(ps[0] == 7000 && ps[1] == 7001 && ps[2] == 7002 && ps[3] == 7003 && ps[4] == 7004
                    && ps[5] == 7005);
            }
        },
    }
}

/// While a container runs, the information of a container actor lists, under
/// `connection_<p>`, the address `localhost:<host port>` of each cluster port
/// `p` that is mapped (9092 and 9093 for Kafka, 7000 to 7005 for Redis), and
/// no other connection; without a container it lists none.
pub proof fn lemma_container_info_connections(k: ContainerKind, s: ContainerActorState, p: u16)
    ensures
        s.record is None ==> !container_info_metadata(k, s).contains_key(connection_key(p)),
        s.record is Some ==> (container_info_metadata(k, s).contains_key(connection_key(p)) <==> (match k {
            ContainerKind::Kafka => p == 9092 || p == 9093,
            ContainerKind::Redis => 7000 <= p <= 7005,
        }) && s.record->0.port_mappings@.contains_key(p)),
        s.record is Some && container_info_metadata(k, s).contains_key(connection_key(p)) ==> container_info_metadata(
            k,
            s,
        )[connection_key(p)] == connection_text(s.record->0.port_mappings@[p]),
{
    reveal_strlit("connection_");
    reveal_strlit("type");
    reveal_strlit("service");
    reveal_strlit("container_id");
    let key = connection_key(p);
    assert(key[0] == 'c' && key[3] == 'n');
    assert("type"@[0] == 't' && "service"@[0] == 's' && "container_id"@[3] == 't');
    assert(key != "type"@ && key != "service"@ && key != "container_id"@);
    lemma_kind_info_ports(k, p);
    match s.record {
        Some(r) => {
            let base = Map::<Seq<char>, Seq<char>>::empty().insert("type"@, "container_actor"@).insert(
                "service"@,
                kind_service_name(k),
            ).insert("container_id"@, r.container_id@);
            lemma_connection_entries(base, kind_info_ports(k), r.port_mappings@, kind_info_ports(k).len(), p);
        },
        None => {},
    }
}

} // verus!
