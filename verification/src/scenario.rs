use std::collections::HashMap;
use vstd::prelude::*;

use crate::text::text;

verus! {

/// A complete test scenario, as written in a scenario file.
#[derive(Debug, Clone)]
pub struct Scenario {
    pub meta: Meta,
    pub services: Vec<Service>,
    pub mocks: Option<Mocks>,
    pub events: Option<Events>,
    pub failures: Option<Vec<Failure>>,
    pub assertions: Option<Assertions>,
    pub hooks: Option<Hooks>,
}

/// Name and description of a scenario.
#[derive(Debug, Clone, PartialEq)]
pub struct Meta {
    pub name: String,
    pub description: String,
    pub timeout_seconds: Option<u64>,
    pub labels: Option<Vec<String>>,
}

/// The kind of a service container.
#[derive(Debug, Clone, PartialEq)]
pub enum ServiceType {
    RedisCluster,
    Kafka,
    Ccs,
    Custom(String),
}

/// The name under which a service type is written in scenario files; a custom
/// type is written as its own name.
pub open spec fn service_type_name(t: ServiceType) -> Seq<char> {
    match t {
        ServiceType::RedisCluster => "redis_cluster"@,
        ServiceType::Kafka => "kafka"@,
        ServiceType::Ccs => "ccs"@,
        ServiceType::Custom(name) => name@,
    }
}

impl ServiceType {
    /// The name of the service type (see [`service_type_name`]).
    pub fn to_display_string(&self) -> (s: String)
        ensures
            s@ == service_type_name(*self),
    {
        match self {
            ServiceType::RedisCluster => text("redis_cluster"),
            ServiceType::Kafka => text("kafka"),
            ServiceType::Ccs => text("ccs"),
            ServiceType::Custom(name) => name.clone(),
        }
    }
}

/// Retry policy for sending messages to Kafka.
#[derive(Debug, Clone, Copy, PartialEq, Eq)]
pub struct RetryConfig {
    pub max_retries: u32,
    pub initial_backoff_ms: u64,
    pub max_backoff_ms: u64,
}

/// A service container that a scenario starts.
#[derive(Debug, Clone, PartialEq)]
pub struct Service {
    pub service_type: ServiceType,
    pub image: String,
    pub tag: Option<String>,
    pub container_name: Option<String>,
    pub ports: Vec<u16>,
    pub wait_for_log: Option<String>,
    pub alias: Option<String>,
    pub env: Vec<(String, String)>,
    pub retry_config: Option<RetryConfig>,
}

/// Mock HTTP servers of a scenario.
#[derive(Debug, Clone, PartialEq)]
pub struct Mocks {
    pub ccs: Option<MockServer>,
}

/// A mock HTTP server: the port it listens on, an optional startup delay in
/// seconds, and its routes.
#[derive(Debug, Clone, PartialEq)]
pub struct MockServer {
    pub port: u16,
    pub delay_startup: Option<u64>,
    pub routes: Vec<MockRoute>,
}

/// One route of a mock server.
#[derive(Debug, Clone, PartialEq)]
pub struct MockRoute {
    pub method: String,
    pub path: String,
    pub delay_ms: Option<u64>,
    pub response: HttpResponse,
}

/// The response a mock route answers with.
#[derive(Debug, Clone, PartialEq)]
pub struct HttpResponse {
    pub status: u16,
    pub body: String,
    pub headers: Vec<(String, String)>,
    pub mime_type: Option<String>,
}

/// Timed events of a scenario.
#[derive(Debug, Clone, PartialEq)]
pub struct Events {
    pub kafka: Option<Vec<KafkaEvent>>,
}

/// Kafka messages sent some seconds after the scenario starts.
#[derive(Debug, Clone, PartialEq)]
pub struct KafkaEvent {
    pub send_after_seconds: u64,
    pub messages: Vec<KafkaMessage>,
}

/// A message to publish on a Kafka topic.
#[derive(Debug, Clone, PartialEq)]
pub struct KafkaMessage {
    pub topic: String,
    pub key: String,
    pub value: String,
    pub headers: Vec<(String, String)>,
}

/// A failure injected into a scenario.
#[derive(Debug, Clone, PartialEq)]
pub enum Failure {
    ContainerDown { target: String, at_seconds: u64, restart_after_seconds: Option<u64> },
    DelayMock { target: String, endpoint: String, delay_ms: u64 },
    NetworkGlitch { target: String, at_seconds: u64, duration_seconds: u64 },
}

/// What a scenario checks once it has run.
#[derive(Debug, Clone)]
pub struct Assertions {
    pub redis_keys: Option<RedisKeyAssertions>,
    pub ccs_call_count: Option<HashMap<String, u32>>,
    pub kafka: Option<KafkaAssertions>,
}

/// Keys expected in Redis.
#[derive(Debug, Clone, PartialEq)]
pub struct RedisKeyAssertions {
    pub expected_keys: Vec<String>,
}

/// Expectations on Kafka.
#[derive(Debug, Clone, PartialEq)]
pub struct KafkaAssertions {
    pub topic_state: Option<KafkaTopicState>,
}

/// The number of messages expected on a topic.
#[derive(Debug, Clone, PartialEq)]
pub struct KafkaTopicState {
    pub topic: String,
    pub expected_message_count: u32,
}

/// Shell commands run around a scenario.
#[derive(Debug, Clone, PartialEq)]
pub struct Hooks {
    pub before_start: Option<HookCommands>,
    pub after_finish: Option<HookCommands>,
}

/// A list of shell commands.
#[derive(Debug, Clone, PartialEq)]
pub struct HookCommands {
    pub commands: Vec<String>,
}

} // verus!
