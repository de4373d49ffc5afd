use vstd::prelude::*;

use crate::actor::{ActorInfo, ActorStatus, HealthStatus};
use crate::scenario::{MockRoute, MockServer};
use crate::text::{bool_text, concat, decimal, decimal_string, text};

verus! {

/// What `str::to_uppercase` gives for a string.
pub uninterp spec fn upper_case(s: Seq<char>) -> Seq<char>;

/// Calls `str::to_uppercase`; the result is named [`upper_case`] of the input
/// and nothing more is claimed of it.
#[verifier::external_body]
fn to_upper(s: &str) -> (r: String)
    ensures
        r@ == upper_case(s@),
{
    s.to_uppercase()
}

/// How a mock route is served: the method (in upper case) and path it answers,
/// and the response with its status, delay, body, content type and headers.
#[derive(Debug, Clone, PartialEq)]
pub struct RouteSpec {
    pub method: String,
    pub path: String,
    pub status: u16,
    pub delay_ms: u64,
    pub body: String,
    pub mime_type: String,
    pub headers: Vec<(String, String)>,
}

/// The way a route is served: no delay unless one is given, and
/// `application/json` unless another content type is given.
pub open spec fn serves(route: MockRoute, spec: RouteSpec) -> bool {
    &&& spec.method@ == upper_case(route.method@)
    &&& spec.path@ == route.path@
    &&& spec.status == route.response.status
    &&& spec.delay_ms == (match route.delay_ms {
        Some(d) => d,
        None => 0,
    })
    &&& spec.body@ == route.response.body@
    &&& spec.mime_type@ == (match route.response.mime_type {
        Some(m) => m@,
        None => "application/json"@,
    })
    &&& spec.headers@.map_values(|p: (String, String)| (p.0@, p.1@))
        == route.response.headers@.map_values(|p: (String, String)| (p.0@, p.1@))
}

fn copy_pairs(v: &Vec<(String, String)>) -> (r: Vec<(String, String)>)
    ensures
        r@.map_values(|p: (String, String)| (p.0@, p.1@)) == v@.map_values(|p: (String, String)| (p.0@, p.1@)),
{
    let mut r: Vec<(String, String)> = Vec::new();
    let mut i: usize = 0;
    while i < v.len()
        invariant
            i <= v@.len(),
            r@.len() == i,
            forall|j: int| 0 <= j < i ==> #[trigger] r@[j].0@ == v@[j].0@ && r@[j].1@ == v@[j].1@,
        decreases v@.len() - i,
    {
        r.push((v[i].0.clone(), v[i].1.clone()));
        i = i + 1;
    }
    assert(r@.map_values(|p: (String, String)| (p.0@, p.1@)) =~= v@.map_values(|p: (String, String)| (p.0@, p.1@)));
    r
}

/// How a route is served (see [`serves`]).
pub fn route_spec(route: &MockRoute) -> (spec: RouteSpec)
    ensures
        serves(*route, spec),
{
    let delay_ms = match route.delay_ms {
        Some(d) => d,
        None => 0,
    };
    let mime_type = match &route.response.mime_type {
        Some(m) => m.clone(),
        None => text("application/json"),
    };
    RouteSpec {
        method: to_upper(route.method.as_str()),
        path: route.path.clone(),
        status: route.response.status,
        delay_ms,
        body: route.response.body.clone(),
        mime_type,
        headers: copy_pairs(&route.response.headers),
    }
}

/// How each route is served, in order.
pub fn route_specs(routes: &Vec<MockRoute>) -> (specs: Vec<RouteSpec>)
    ensures
        specs@.len() == routes@.len(),
        forall|i: int| 0 <= i < routes@.len() ==> serves(#[trigger] routes@[i], specs@[i]),
{
    let mut specs: Vec<RouteSpec> = Vec::new();
    let mut i: usize = 0;
    while i < routes.len()
        invariant
            i <= routes@.len(),
            specs@.len() == i,
            forall|j: int| 0 <= j < i ==> serves(#[trigger] routes@[j], specs@[j]),
        decreases routes@.len() - i,
    {
        specs.push(route_spec(&routes[i]));
        i = i + 1;
    }
    specs
}

/// The local address a mock server listens on.
pub open spec fn bind_text(port: u16) -> Seq<char> {
    "127.0.0.1:"@ + decimal(port as nat)
}

/// `127.0.0.1:` followed by the port.
pub fn bind_address(port: u16) -> (s: String)
    ensures
        s@ == bind_text(port),
{
    concat("127.0.0.1:", decimal_string(port as u64).as_str())
}

/// Messages understood by the mock server actor.
#[derive(Debug, Clone)]
pub enum MockServerMessage {
    Start(Box<MockServer>),
    Stop,
    GetUri,
    Pause,
    Resume,
    Status,
    Reset,
}

/// The outside work the mock server actor asks for.
#[derive(Debug, Clone)]
pub enum MockAction {
    /// The actor is paused and leaves the message aside.
    Ignored,
    /// Start a server with this configuration; report it to `start_completed`.
    StartServer(Box<MockServer>),
    /// Drop the running server.
    StopServer,
    /// There was no server to stop.
    NothingToStop,
    /// Report the server's address.
    ReportUri(String),
    /// There is no server to ask about.
    NoServer,
    /// Remove every route from the server.
    ClearRoutes,
    /// Serve these routes again.
    RestoreRoutes(Vec<RouteSpec>),
    /// Nothing to change on a server.
    NoServerChange,
    /// Report the status (`Running`, `Paused`, `Stopped`) and the address (`N/A` without server).
    ReportStatus { status: String, uri: String },
}

/// The mock server actor: the address of its server, whether it is paused, and
/// the configuration the server was started with.
#[derive(Debug, Clone)]
pub struct MockActorState {
    pub server_uri: Option<String>,
    pub is_paused: bool,
    pub server_config: Option<MockServer>,
}

/// Messages a paused mock server actor still serves.
pub open spec fn mock_allowed_while_paused(msg: MockServerMessage) -> bool {
    matches!(msg, MockServerMessage::Stop | MockServerMessage::Resume | MockServerMessage::Status)
}

/// The status of the server: `Running`, `Paused` or `Stopped`.
pub open spec fn server_status_text(s: MockActorState) -> Seq<char> {
    match s.server_uri {
        Some(_) => if s.is_paused { "Paused"@ } else { "Running"@ },
        None => "Stopped"@,
    }
}

/// The state the actor moves to on a message.
pub open spec fn mock_next(s: MockActorState, msg: MockServerMessage) -> MockActorState {
    if s.is_paused && !mock_allowed_while_paused(msg) {
        s
    } else {
        match msg {
            MockServerMessage::Stop => MockActorState { server_uri: None, is_paused: false, server_config: None },
            MockServerMessage::Pause => MockActorState { is_paused: true, ..s },
            MockServerMessage::Resume => MockActorState { is_paused: false, ..s },
            _ => s,
        }
    }
}

/// The routes a resumed server serves again.
pub open spec fn restores(config: MockServer, specs: Seq<RouteSpec>) -> bool {
    &&& specs.len() == config.routes@.len()
    &&& forall|i: int| 0 <= i < specs.len() ==> serves(#[trigger] config.routes@[i], specs[i])
}

/// The outside work the actor asks for on a message.
pub open spec fn mock_action(s: MockActorState, msg: MockServerMessage, a: MockAction) -> bool {
    if s.is_paused && !mock_allowed_while_paused(msg) {
        a == MockAction::Ignored
    } else {
        match msg {
            MockServerMessage::Start(config) => a == MockAction::StartServer(config),
            MockServerMessage::Stop => a == if s.server_uri is Some {
                MockAction::StopServer
            } else {
                MockAction::NothingToStop
            },
            MockServerMessage::GetUri => a == match s.server_uri {
                Some(u) => MockAction::ReportUri(u),
                None => MockAction::NoServer,
            },
            MockServerMessage::Pause | MockServerMessage::Reset => a == if s.server_uri is Some {
                MockAction::ClearRoutes
            } else {
                MockAction::NoServerChange
            },
            MockServerMessage::Resume => match (s.server_uri, s.server_config) {
                (Some(_), Some(config)) => a matches MockAction::RestoreRoutes(specs) && restores(config, specs@),
                _ => a == MockAction::NoServerChange,
            },
            MockServerMessage::Status => a matches MockAction::ReportStatus { status, uri } && status@
                == server_status_text(s) && uri@ == match s.server_uri {
                Some(u) => u@,
                None => "N/A"@,
            },
        }
    }
}

/// The metadata of the mock server actor's information.
pub open spec fn mock_info_metadata(s: MockActorState) -> Map<Seq<char>, Seq<char>> {
    let base = Map::<Seq<char>, Seq<char>>::empty().insert("type"@, "mock_server_actor"@).insert(
        "service"@,
        "wiremock"@,
    );
    let with_uri = match s.server_uri {
        Some(u) => base.insert("uri"@, u@),
        None => base,
    };
    match s.server_config {
        Some(c) => {
            let m = with_uri.insert("port"@, decimal(c.port as nat)).insert(
                "routes_count"@,
                decimal(c.routes@.len()),
            );
            match c.delay_startup {
                Some(d) => m.insert("delay_startup"@, decimal(d as nat)),
                None => m,
            }
        },
        None => with_uri,
    }
}

/// The problems validation reports, given the answer of the running server to a
/// request.
pub open spec fn mock_problems(s: MockActorState, access: Option<Result<(), String>>) -> Seq<Seq<char>> {
    (match (s.server_uri, access) {
        (Some(u), Some(Err(e))) => seq!["Mock server at "@ + u@ + " is not accessible: "@ + e@],
        _ => Seq::empty(),
    }) + (if s.is_paused && s.server_config is None {
        seq!["Actor is paused but no original configuration is stored"@]
    } else {
        Seq::empty()
    })
}

impl MockActorState {
    /// A fresh actor: no server, not paused, no configuration.
    pub fn new() -> (s: MockActorState)
        ensures
            s.server_uri.is_none(),
            !s.is_paused,
            s.server_config.is_none(),
    {
        MockActorState { server_uri: None, is_paused: false, server_config: None }
    }

    /// The status of the server (see [`server_status_text`]).
    pub fn get_server_status(&self) -> (t: String)
        ensures
            t@ == server_status_text(*self),
    {
        match (&self.server_uri, self.is_paused) {
            (Some(_), false) => text("Running"),
            (Some(_), true) => text("Paused"),
            (None, _) => text("Stopped"),
        }
    }

    /// Pauses the actor; says whether the server's routes are to be removed.
    pub fn pause(&mut self) -> (clear: bool)
        ensures
            *final(self) == (MockActorState { is_paused: true, ..*old(self) }),
            clear == old(self).server_uri is Some,
    {
        self.is_paused = true;
        self.server_uri.is_some()
    }

    /// Resumes the actor; gives the routes to serve again when a server runs
    /// and its configuration is known.
    pub fn resume(&mut self) -> (routes: Option<Vec<RouteSpec>>)
        ensures
            *final(self) == (MockActorState { is_paused: false, ..*old(self) }),
            match (old(self).server_uri, old(self).server_config) {
                (Some(_), Some(config)) => routes matches Some(specs) && restores(config, specs@),
                _ => routes is None,
            },
    {
        self.is_paused = false;
        match (&self.server_uri, &self.server_config) {
            (Some(_), Some(config)) => Some(route_specs(&config.routes)),
            _ => None,
        }
    }

    /// Says whether the server's routes are to be removed (there is a server).
    pub fn reset(&self) -> (clear: bool)
        ensures
            clear == self.server_uri is Some,
    {
        self.server_uri.is_some()
    }

    /// Answers a message (see [`mock_next`] and [`mock_action`]).
    pub fn handle(&mut self, msg: MockServerMessage) -> (a: MockAction)
        ensures
            *final(self) == mock_next(*old(self), msg),
            mock_action(*old(self), msg, a),
    {
        if self.is_paused {
            match msg {
                MockServerMessage::Stop | MockServerMessage::Resume | MockServerMessage::Status => {},
                _ => {
                    return MockAction::Ignored;
                },
            }
        }
        match msg {
            MockServerMessage::Start(config) => MockAction::StartServer(config),
            MockServerMessage::Stop => {
                let had = self.server_uri.is_some();
                self.server_uri = None;
                self.is_paused = false;
                self.server_config = None;
                if had {
                    MockAction::StopServer
                } else {
                    MockAction::NothingToStop
                }
            },
            MockServerMessage::GetUri => match &self.server_uri {
                Some(u) => MockAction::ReportUri(u.clone()),
                None => MockAction::NoServer,
            },
            MockServerMessage::Pause => {
                if self.pause() {
                    MockAction::ClearRoutes
                } else {
                    MockAction::NoServerChange
                }
            },
            MockServerMessage::Resume => match self.resume() {
                Some(specs) => MockAction::RestoreRoutes(specs),
                None => MockAction::NoServerChange,
            },
            MockServerMessage::Status => {
                let status = self.get_server_status();
                let uri = match &self.server_uri {
                    Some(u) => u.clone(),
                    None => text("N/A"),
                };
                MockAction::ReportStatus { status, uri }
            },
            MockServerMessage::Reset => {
                if self.reset() {
                    MockAction::ClearRoutes
                } else {
                    MockAction::NoServerChange
                }
            },
        }
    }

    /// A server was started with `config` and listens at `uri`.
    pub fn start_completed(&mut self, uri: String, config: MockServer)
        ensures
            final(self).server_uri == Some(uri),
            final(self).server_config == Some(config),
            final(self).is_paused == old(self).is_paused,
    {
        self.server_uri = Some(uri);
        self.server_config = Some(config);
    }

    /// Shutting down: drops the server (the configuration is kept).
    pub fn shutdown(&mut self) -> (had_server: bool)
        ensures
            had_server == old(self).server_uri is Some,
            *final(self) == (MockActorState { server_uri: None, ..*old(self) }),
    {
        let had = self.server_uri.is_some();
        self.server_uri = None;
        had
    }

    /// Running with a server, paused with a paused one, stopped without one.
    pub fn status(&self) -> (s: ActorStatus)
        ensures
            s == (match self.server_uri {
                Some(_) => if self.is_paused { ActorStatus::Paused } else { ActorStatus::Running },
                None => ActorStatus::Stopped,
            }),
    {
        match (&self.server_uri, self.is_paused) {
            (Some(_), false) => ActorStatus::Running,
            (Some(_), true) => ActorStatus::Paused,
            (None, _) => ActorStatus::Stopped,
        }
    }

    /// The address to request when checking health (a path the server does not serve).
    pub fn health_probe_url(&self) -> (url: Option<String>)
        ensures
            match self.server_uri {
                Some(u) => url matches Some(x) && x@ == u@ + "/health-check-non-existent-endpoint"@,
                None => url is None,
            },
    {
        match &self.server_uri {
            Some(u) => Some(concat(u.as_str(), "/health-check-non-existent-endpoint")),
            None => None,
        }
    }

    /// The address to request when validating.
    pub fn validation_probe_url(&self) -> (url: Option<String>)
        ensures
            match self.server_uri {
                Some(u) => url matches Some(x) && x@ == u@ + "/validation-test"@,
                None => url is None,
            },
    {
        match &self.server_uri {
            Some(u) => Some(concat(u.as_str(), "/validation-test")),
            None => None,
        }
    }

    /// The actor's health from the answer of the running server to a request for
    /// a path it does not serve (status code and its text, or the failure): a
    /// client error means the server responds as expected.
    pub fn health_check(&self, probe: Option<Result<(u16, String), String>>) -> (h: HealthStatus)
        requires
            self.server_uri is Some ==> probe is Some,
        ensures
            match self.server_uri {
                None => !h.healthy && h.message@ == "No mock server running"@ && h.details@
                    == Map::<Seq<char>, Seq<char>>::empty(),
                Some(u) => match probe->0 {
                    Ok((code, code_text)) => if 400 <= code <= 499 {
                        h.healthy && h.message@ == "Mock server is responding to requests"@ && h.details@
                            == Map::<Seq<char>, Seq<char>>::empty().insert("uri"@, u@).insert(
                            "paused"@,
                            bool_text(self.is_paused),
                        )
                    } else {
                        h.healthy && h.message@ == "Mock server is responding"@ && h.details@ == Map::<
                            Seq<char>,
                            Seq<char>,
                        >::empty().insert("uri"@, u@).insert("paused"@, bool_text(self.is_paused)).insert(
                            "unexpected_response"@,
                            code_text@,
                        )
                    },
                    Err(e) => !h.healthy && h.message@ == "Mock server not responding: "@ + e@
                        && h.details@ == Map::<Seq<char>, Seq<char>>::empty().insert("uri"@, u@),
                },
            },
    {
        match &self.server_uri {
            None => HealthStatus::unhealthy("No mock server running"),
            Some(u) => {
                let paused = crate::text::bool_string(self.is_paused);
                match probe {
                    Some(Ok((code, code_text))) => {
                        if 400 <= code && code <= 499 {
                            HealthStatus::healthy("Mock server is responding to requests").with_detail(
                                "uri",
                                u.as_str(),
                            ).with_detail("paused", paused.as_str())
                        } else {
                            HealthStatus::healthy("Mock server is responding").with_detail("uri", u.as_str()).with_detail(
                                "paused",
                                paused.as_str(),
                            ).with_detail("unexpected_response", code_text.as_str())
                        }
                    },
                    Some(Err(e)) => {
                        let m = concat("Mock server not responding: ", e.as_str());
                        HealthStatus::unhealthy(m.as_str()).with_detail("uri", u.as_str())
                    },
                    None => HealthStatus::unhealthy(""),
                }
            },
        }
    }

    /// The actor's information (see [`mock_info_metadata`]).
    pub fn get_info(&self) -> (info: ActorInfo)
        ensures
            info.name@ == "MockServerActor"@,
            info.version@ == "1.0.0"@,
            info.uptime_seconds.is_none(),
            info.messages_processed.is_none(),
            info.metadata@ == mock_info_metadata(*self),
    {
        let mut info = ActorInfo::new("MockServerActor").with_metadata("type", "mock_server_actor").with_metadata(
            "service",
            "wiremock",
        );
        match &self.server_uri {
            Some(u) => {
                info = info.with_metadata("uri", u.as_str());
            },
            None => {},
        }
        match &self.server_config {
            Some(c) => {
                info = info.with_metadata("port", decimal_string(c.port as u64).as_str()).with_metadata(
                    "routes_count",
                    decimal_string(c.routes.len() as u64).as_str(),
                );
                match c.delay_startup {
                    Some(d) => {
                        info = info.with_metadata("delay_startup", decimal_string(d).as_str());
                    },
                    None => {},
                }
            },
            None => {},
        }
        info
    }

    /// The problems validation reports (see [`mock_problems`]).
    pub fn validate(&self, access: Option<Result<(), String>>) -> (errors: Vec<String>)
        ensures
            errors@.map_values(|e: String| e@) == mock_problems(*self, access),
    {
        let mut errors: Vec<String> = Vec::new();
        match (&self.server_uri, &access) {
            (Some(u), Some(Err(e))) => {
                let mut m = concat("Mock server at ", u.as_str());
                m.append(" is not accessible: ");
                m.append(e.as_str());
                errors.push(m);
            },
            _ => {},
        }
        if self.is_paused && self.server_config.is_none() {
            errors.push(text("Actor is paused but no original configuration is stored"));
        }
        proof {
            assert(errors@.map_values(|e: String| e@) =~= mock_problems(*self, access));
        }
        errors
    }
}

/// A paused mock server actor leaves every message but `Stop`, `Resume` and
/// `Status` aside: its state does not change and it asks for no work.
pub proof fn lemma_paused_mock_actor_ignores(s: MockActorState, msg: MockServerMessage)
    requires
        s.is_paused,
        !mock_allowed_while_paused(msg),
    ensures
        mock_next(s, msg) == s,
        forall|a: MockAction| mock_action(s, msg, a) <==> a == MockAction::Ignored,
{
}

/// `Stop` forgets the server, the pause and the configuration, in every state.
pub proof fn lemma_mock_stop(s: MockActorState)
    ensures
        mock_next(s, MockServerMessage::Stop) == (MockActorState {
            server_uri: None,
            is_paused: false,
            server_config: None,
        }),
{
}

/// Pausing a running mock server removes its routes, and resuming it serves
/// again exactly the routes of the configuration it was started with; the actor
/// ends as it was, unpaused.
pub proof fn lemma_mock_pause_then_resume(s: MockActorState, config: MockServer)
    requires
        s.server_uri is Some,
        s.server_config == Some(config),
    ensures
        mock_next(mock_next(s, MockServerMessage::Pause), MockServerMessage::Resume)
            == (MockActorState { is_paused: false, ..s }),
        !s.is_paused ==> mock_action(s, MockServerMessage::Pause, MockAction::ClearRoutes),
        forall|a: MockAction| #[trigger]
            mock_action(mock_next(s, MockServerMessage::Pause), MockServerMessage::Resume, a) ==> (
            a matches MockAction::RestoreRoutes(specs) && restores(config, specs@)),
{
}

/// The status text of the server follows the actor's status: `Paused` exactly
/// while a server runs and the actor is paused, `Running` exactly while a
/// server runs and the actor is not paused, `Stopped` without a server.
/// Pausing a running server therefore makes `Status` report `Paused` with the
/// server's address, and resuming it makes it report `Running` again.
pub proof fn lemma_mock_status_text(s: MockActorState, a: MockAction)
    ensures
        server_status_text(s) == "Paused"@ <==> (s.server_uri is Some && s.is_paused),
        server_status_text(s) == "Running"@ <==> (s.server_uri is Some && !s.is_paused),
        server_status_text(s) == "Stopped"@ <==> s.server_uri is None,
        s.server_uri is Some ==> server_status_text(mock_next(s, MockServerMessage::Pause)) == "Paused"@,
        s.server_uri is Some ==> server_status_text(mock_next(s, MockServerMessage::Resume)) == "Running"@,
        s.server_uri is Some && mock_action(mock_next(s, MockServerMessage::Pause), MockServerMessage::Status, a)
            ==> (a matches MockAction::ReportStatus { status, uri } && status@ == "Paused"@ && uri@
            == s.server_uri->0@),
{
    reveal_strlit("Paused");
    reveal_strlit("Running");
    reveal_strlit("Stopped");
    assert("Paused"@[0] == 'P' && "Running"@[0] == 'R' && "Stopped"@[0] == 'S');
}

} // verus!
