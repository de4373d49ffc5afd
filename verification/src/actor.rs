use vstd::prelude::*;
use vstd::string::StringExecFns;

use crate::strmap::StringMap;
use crate::text::{concat, text};

verus! {

/// Lifecycle status of an actor.
#[derive(Debug, Clone, PartialEq)]
pub enum ActorStatus {
    Stopped,
    Starting,
    Running,
    Paused,
    Stopping,
    Error(String),
}

/// How a status is written for people: the variant's name, and for an error
/// `Error: ` followed by its message.
pub open spec fn status_text(s: ActorStatus) -> Seq<char> {
    match s {
        ActorStatus::Stopped => "Stopped"@,
        ActorStatus::Starting => "Starting"@,
        ActorStatus::Running => "Running"@,
        ActorStatus::Paused => "Paused"@,
        ActorStatus::Stopping => "Stopping"@,
        ActorStatus::Error(e) => "Error: "@ + e@,
    }
}

impl ActorStatus {
    /// The status written for people (see [`status_text`]).
    pub fn to_display_string(&self) -> (s: String)
        ensures
            s@ == status_text(*self),
    {
        match self {
            ActorStatus::Stopped => text("Stopped"),
            ActorStatus::Starting => text("Starting"),
            ActorStatus::Running => text("Running"),
            ActorStatus::Paused => text("Paused"),
            ActorStatus::Stopping => text("Stopping"),
            ActorStatus::Error(e) => concat("Error: ", e.as_str()),
        }
    }
}

/// Result of an actor's health check.
#[derive(Debug, Clone)]
pub struct HealthStatus {
    pub healthy: bool,
    pub message: String,
    pub details: StringMap,
}

impl HealthStatus {
    /// A healthy result with the given message and no details.
    pub fn healthy(message: &str) -> (h: HealthStatus)
        ensures
            h.healthy,
            h.message@ == message@,
            h.details@ == Map::<Seq<char>, Seq<char>>::empty(),
    {
        HealthStatus { healthy: true, message: String::from_str(message), details: StringMap::new() }
    }

    /// An unhealthy result with the given message and no details.
    pub fn unhealthy(message: &str) -> (h: HealthStatus)
        ensures
            !h.healthy,
            h.message@ == message@,
            h.details@ == Map::<Seq<char>, Seq<char>>::empty(),
    {
        HealthStatus { healthy: false, message: String::from_str(message), details: StringMap::new() }
    }

    /// The same result with `value` recorded under `key` (replacing an earlier value).
    pub fn with_detail(self, key: &str, value: &str) -> (h: HealthStatus)
        ensures
            h.healthy == self.healthy,
            h.message == self.message,
            h.details@ == self.details@.insert(key@, value@),
    {
        let mut h = self;
        h.details.insert(String::from_str(key), String::from_str(value));
        h
    }
}

/// Descriptive information about an actor.
#[derive(Debug, Clone)]
pub struct ActorInfo {
    pub name: String,
    pub version: String,
    pub uptime_seconds: Option<u64>,
    pub messages_processed: Option<u64>,
    pub metadata: StringMap,
}

impl ActorInfo {
    /// Information for an actor called `name`: version `1.0.0`, no uptime,
    /// no message count and no metadata.
    pub fn new(name: &str) -> (info: ActorInfo)
        ensures
            info.name@ == name@,
            info.version@ == "1.0.0"@,
            info.uptime_seconds.is_none(),
            info.messages_processed.is_none(),
            info.metadata@ == Map::<Seq<char>, Seq<char>>::empty(),
    {
        ActorInfo {
            name: String::from_str(name),
            version: text("1.0.0"),
            uptime_seconds: None,
            messages_processed: None,
            metadata: StringMap::new(),
        }
    }

    /// The same information with `value` recorded under `key` (replacing an earlier value).
    pub fn with_metadata(self, key: &str, value: &str) -> (info: ActorInfo)
        ensures
            info.name == self.name,
            info.version == self.version,
            info.uptime_seconds == self.uptime_seconds,
            info.messages_processed == self.messages_processed,
            info.metadata@ == self.metadata@.insert(key@, value@),
    {
        let mut info = self;
        info.metadata.insert(String::from_str(key), String::from_str(value));
        info
    }
}

} // verus!
