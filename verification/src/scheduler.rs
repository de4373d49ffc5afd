use vstd::prelude::*;

use crate::actor::{ActorInfo, ActorStatus, HealthStatus};
use crate::scenario::{KafkaMessage, RetryConfig};
use crate::text::{bool_text, decimal, decimal_string, text};

verus! {

/// The retry policy used when none is given: three attempts, pauses from 100 ms
/// up to 2000 ms.
pub open spec fn default_retry_config() -> RetryConfig {
    RetryConfig { max_retries: 3, initial_backoff_ms: 100, max_backoff_ms: 2000 }
}

impl Default for RetryConfig {
    fn default() -> (c: RetryConfig)
        ensures
            c == default_retry_config(),
    {
        RetryConfig { max_retries: 3, initial_backoff_ms: 100, max_backoff_ms: 2000 }
    }
}

/// Messages understood by the Kafka scheduler actor.
#[derive(Debug, Clone)]
pub enum KafkaSchdulerMessage {
    Start,
    SendMessage(KafkaMessage),
    Stop,
}

/// What the scheduler does with a message.
#[derive(Debug, Clone)]
pub enum SchedulerAction {
    /// Nothing beyond acknowledging it.
    Acknowledge,
    /// Publish this message (with retries).
    Publish(KafkaMessage),
}

/// The scheduler acknowledges `Start` and `Stop` and publishes what it is asked
/// to send.
pub fn scheduler_action(msg: KafkaSchdulerMessage) -> (a: SchedulerAction)
    ensures
        a == (match msg {
            KafkaSchdulerMessage::SendMessage(m) => SchedulerAction::Publish(m),
            _ => SchedulerAction::Acknowledge,
        }),
{
    match msg {
        KafkaSchdulerMessage::Start => SchedulerAction::Acknowledge,
        KafkaSchdulerMessage::SendMessage(m) => SchedulerAction::Publish(m),
        KafkaSchdulerMessage::Stop => SchedulerAction::Acknowledge,
    }
}

/// The warning that validation gives for each questionable setting of a retry
/// policy, in this order: no attempt allowed, initial pause above the maximum,
/// maximum above one minute.
pub open spec fn retry_warnings(c: RetryConfig) -> Seq<Seq<char>> {
    (if c.max_retries == 0 {
        seq!["Max retries is set to 0, which may not be desired"@]
    } else {
        Seq::empty()
    }) + (if c.initial_backoff_ms > c.max_backoff_ms {
        seq!["Initial backoff is greater than max backoff"@]
    } else {
        Seq::empty()
    }) + (if c.max_backoff_ms > 60_000 {
        seq!["Max backoff is greater than 60 seconds, which may be too long"@]
    } else {
        Seq::empty()
    })
}

/// The settings a Kafka scheduler runs with: its retry policy and whether it
/// also consumes.
#[derive(Debug, Clone, Copy)]
pub struct SchedulerSettings {
    pub retry_config: RetryConfig,
    pub has_consumer: bool,
}

/// The detail or metadata entries that describe a retry policy.
pub open spec fn retry_entries(m: Map<Seq<char>, Seq<char>>, c: RetryConfig) -> Map<Seq<char>, Seq<char>> {
    m.insert("max_retries"@, decimal(c.max_retries as nat))
        .insert("initial_backoff_ms"@, decimal(c.initial_backoff_ms as nat))
        .insert("max_backoff_ms"@, decimal(c.max_backoff_ms as nat))
}

impl SchedulerSettings {
    /// Settings with the given policy (the default one when none is given) and
    /// no consumer.
    pub fn new(retry_config: Option<RetryConfig>) -> (s: SchedulerSettings)
        ensures
            s.retry_config == (match retry_config {
                Some(c) => c,
                None => default_retry_config(),
            }),
            !s.has_consumer,
    {
        let c = match retry_config {
            Some(c) => c,
            None => RetryConfig::default(),
        };
        SchedulerSettings { retry_config: c, has_consumer: false }
    }

    /// The same settings with the given retry policy.
    pub fn with_retry_config(self, max_retries: u32, initial_backoff_ms: u64, max_backoff_ms: u64) -> (s: SchedulerSettings)
        ensures
            s.retry_config == (RetryConfig { max_retries, initial_backoff_ms, max_backoff_ms }),
            s.has_consumer == self.has_consumer,
    {
        SchedulerSettings {
            retry_config: RetryConfig { max_retries, initial_backoff_ms, max_backoff_ms },
            has_consumer: self.has_consumer,
        }
    }

    /// The same settings, consuming as well.
    pub fn with_consumer(self) -> (s: SchedulerSettings)
        ensures
            s.retry_config == self.retry_config,
            s.has_consumer,
    {
        SchedulerSettings { retry_config: self.retry_config, has_consumer: true }
    }

    /// Running while the producer is usable, stopped otherwise.
    pub fn status(&self, producer_enabled: bool) -> (s: ActorStatus)
        ensures
            s == (if producer_enabled { ActorStatus::Running } else { ActorStatus::Stopped }),
    {
        if producer_enabled {
            ActorStatus::Running
        } else {
            ActorStatus::Stopped
        }
    }

    /// Healthy, with whether a consumer is enabled and the retry policy as details.
    pub fn health_check(&self) -> (h: HealthStatus)
        ensures
            h.healthy,
            h.message@ == "Kafka scheduler is operational"@,
            h.details@ == retry_entries(
                Map::<Seq<char>, Seq<char>>::empty().insert(
                    "consumer"@,
                    if self.has_consumer { "enabled"@ } else { "disabled"@ },
                ),
                self.retry_config,
            ),
    {
        let mut status = HealthStatus::healthy("Kafka scheduler is operational");
        if self.has_consumer {
            status = status.with_detail("consumer", "enabled");
        } else {
            status = status.with_detail("consumer", "disabled");
        }
        let c = self.retry_config;
        status = status.with_detail("max_retries", decimal_string(c.max_retries as u64).as_str());
        status = status.with_detail("initial_backoff_ms", decimal_string(c.initial_backoff_ms).as_str());
        status = status.with_detail("max_backoff_ms", decimal_string(c.max_backoff_ms).as_str());
        status
    }

    /// Information naming the scheduler, its retry policy and whether it has a consumer.
    pub fn get_info(&self) -> (info: ActorInfo)
        ensures
            info.name@ == "KafkaScheduler"@,
            info.version@ == "1.0.0"@,
            info.uptime_seconds.is_none(),
            info.messages_processed.is_none(),
            info.metadata@ == retry_entries(
                Map::<Seq<char>, Seq<char>>::empty().insert("type"@, "kafka_scheduler"@).insert(
                    "service"@,
                    "kafka"@,
                ),
                self.retry_config,
            ).insert("has_consumer"@, bool_text(self.has_consumer)),
    {
        let c = self.retry_config;
        let mut info = ActorInfo::new("KafkaScheduler").with_metadata("type", "kafka_scheduler").with_metadata(
            "service",
            "kafka",
        );
        info = info.with_metadata("max_retries", decimal_string(c.max_retries as u64).as_str());
        info = info.with_metadata("initial_backoff_ms", decimal_string(c.initial_backoff_ms).as_str());
        info = info.with_metadata("max_backoff_ms", decimal_string(c.max_backoff_ms).as_str());
        proof {
            reveal_strlit("true");
            reveal_strlit("false");
        }
        if self.has_consumer {
            info = info.with_metadata("has_consumer", "true");
        } else {
            info = info.with_metadata("has_consumer", "false");
        }
        info
    }

    /// The warnings about the retry policy (see [`retry_warnings`]).
    pub fn validate(&self) -> (errors: Vec<String>)
        ensures
            errors@.map_values(|e: String| e@) == retry_warnings(self.retry_config),
    {
        let c = self.retry_config;
        let mut errors: Vec<String> = Vec::new();
        if c.max_retries == 0 {
            errors.push(text("Max retries is set to 0, which may not be desired"));
        }
        if c.initial_backoff_ms > c.max_backoff_ms {
            errors.push(text("Initial backoff is greater than max backoff"));
        }
        if c.max_backoff_ms > 60_000 {
            errors.push(text("Max backoff is greater than 60 seconds, which may be too long"));
        }
        proof {
            assert(errors@.map_values(|e: String| e@) =~= retry_warnings(c));
        }
        errors
    }
}

/// The default policy gives no warning.
pub proof fn lemma_default_policy_is_clean()
    ensures
        retry_warnings(default_retry_config()) == Seq::<Seq<char>>::empty(),
{
    assert(retry_warnings(default_retry_config()) =~= Seq::<Seq<char>>::empty());
}

/// A policy gives no warning exactly when it allows an attempt, its initial
/// pause does not exceed its maximum, and its maximum is at most one minute.
pub proof fn lemma_clean_policy(c: RetryConfig)
    ensures
        retry_warnings(c).len() == 0 <==> (c.max_retries > 0 && c.initial_backoff_ms <= c.max_backoff_ms
            && c.max_backoff_ms <= 60_000),
{
}

/// Each warning of validation is given exactly when its own setting is
/// questionable, at most once: "no attempt" exactly when `max_retries` is 0,
/// "initial above maximum" exactly when the initial pause exceeds the maximum,
/// and "more than 60 seconds" exactly when the maximum exceeds 60 000 ms; and
/// nothing else is warned about.
pub proof fn lemma_each_warning_has_its_cause(c: RetryConfig)
    ensures
        retry_warnings(c).contains("Max retries is set to 0, which may not be desired"@) <==> c.max_retries == 0,
        retry_warnings(c).contains("Initial backoff is greater than max backoff"@) <==> c.initial_backoff_ms
            > c.max_backoff_ms,
        retry_warnings(c).contains("Max backoff is greater than 60 seconds, which may be too long"@) <==> c.max_backoff_ms
            > 60_000,
        retry_warnings(c).len() == (if c.max_retries == 0 { 1int } else { 0 }) + (if c.initial_backoff_ms
            > c.max_backoff_ms { 1int } else { 0 }) + (if c.max_backoff_ms > 60_000 { 1int } else { 0 }),
        forall|i: int|
            0 <= i < retry_warnings(c).len() ==> #[trigger] retry_warnings(c)[i]
                == "Max retries is set to 0, which may not be desired"@ || retry_warnings(c)[i]
                == "Initial backoff is greater than max backoff"@ || retry_warnings(c)[i]
                == "Max backoff is greater than 60 seconds, which may be too long"@,
{
    let w0 = "Max retries is set to 0, which may not be desired"@;
    let w1 = "Initial backoff is greater than max backoff"@;
    let w2 = "Max backoff is greater than 60 seconds, which may be too long"@;
    reveal_strlit("Max retries is set to 0, which may not be desired");
    reveal_strlit("Initial backoff is greater than max backoff");
    reveal_strlit("Max backoff is greater than 60 seconds, which may be too long");
    assert(w0[4] == 'r' && w2[4] == 'b' && w1[0] == 'I' && w0[0] == 'M' && w2[0] == 'M');
    assert(w0 != w1 && w0 != w2 && w1 != w2);
    let a = if c.max_retries == 0 { seq![w0] } else { Seq::<Seq<char>>::empty() };
    let b = if c.initial_backoff_ms > c.max_backoff_ms { seq![w1] } else { Seq::<Seq<char>>::empty() };
    let d = if c.max_backoff_ms > 60_000 { seq![w2] } else { Seq::<Seq<char>>::empty() };
    let r = retry_warnings(c);
    assert(r =~= a + b + d);
    assert forall|x: Seq<char>| r.contains(x) implies (x == w0 && c.max_retries == 0) || (x == w1
        && c.initial_backoff_ms > c.max_backoff_ms) || (x == w2 && c.max_backoff_ms > 60_000) by {
        let i = choose|i: int| 0 <= i < r.len() && r[i] == x;
        if i < a.len() {
            assert(r[i] == a[i]);
        } else if i < a.len() + b.len() {
            assert(r[i] == b[i - a.len()]);
        } else {
            assert(r[i] == d[i - a.len() - b.len()]);
        }
    }
    if c.max_retries == 0 {
        assert(r[0] == w0);
    }
    if c.initial_backoff_ms > c.max_backoff_ms {
        assert(r[a.len() as int] == w1);
    }
    if c.max_backoff_ms > 60_000 {
        assert(r[(a.len() + b.len()) as int] == w2);
    }
    assert forall|i: int| 0 <= i < r.len() implies #[trigger] r[i] == w0 || r[i] == w1 || r[i] == w2 by {
        assert(r.contains(r[i]));
    }
}

} // verus!
