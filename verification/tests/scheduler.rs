use ozymandias::actor::ActorStatus;
use ozymandias::retry::{SendRetry, SendStep};
use ozymandias::scenario::{KafkaMessage, RetryConfig};
use ozymandias::scheduler::{scheduler_action, KafkaSchdulerMessage, SchedulerAction, SchedulerSettings};

#[test]
fn test_kafka_scheduler_creation() {
    let scheduler = SchedulerSettings::new(None);

    assert_eq!(scheduler.retry_config.max_retries, 3);
    assert_eq!(scheduler.retry_config.initial_backoff_ms, 100);
    assert_eq!(scheduler.retry_config.max_backoff_ms, 2000);
    assert!(!scheduler.has_consumer);
}

#[test]
fn test_kafka_scheduler_with_custom_retry_config() {
    let custom_retry = RetryConfig {
        max_retries: 5,
        initial_backoff_ms: 200,
        max_backoff_ms: 3000,
    };

    let scheduler = SchedulerSettings::new(Some(custom_retry));

    assert_eq!(scheduler.retry_config.max_retries, 5);
    assert_eq!(scheduler.retry_config.initial_backoff_ms, 200);
    assert_eq!(scheduler.retry_config.max_backoff_ms, 3000);
}

#[test]
fn test_kafka_scheduler_with_retry_config_builder() {
    let scheduler = SchedulerSettings::new(None).with_retry_config(10, 500, 5000);

    assert_eq!(scheduler.retry_config.max_retries, 10);
    assert_eq!(scheduler.retry_config.initial_backoff_ms, 500);
    assert_eq!(scheduler.retry_config.max_backoff_ms, 5000);
}

#[test]
fn test_actor_trait_methods() {
    let scheduler = SchedulerSettings::new(None);

    let status = scheduler.status(true);
    assert_eq!(status, ActorStatus::Running);

    let health = scheduler.health_check();
    assert!(health.healthy);
    assert_eq!(health.message, "Kafka scheduler is operational");
    assert_eq!(health.details.get("consumer"), Some(&"disabled".to_string()));

    let info = scheduler.get_info();
    assert_eq!(info.name, "KafkaScheduler");
    assert_eq!(info.metadata.get("type"), Some(&"kafka_scheduler".to_string()));
    assert_eq!(info.metadata.get("service"), Some(&"kafka".to_string()));
    assert_eq!(info.metadata.get("has_consumer"), Some(&"false".to_string()));
}

#[test]
fn scheduler_details_spell_out_the_policy() {
    let scheduler = SchedulerSettings::new(None).with_consumer();
    let health = scheduler.health_check();
    assert_eq!(health.details.get("consumer"), Some(&"enabled".to_string()));
    assert_eq!(health.details.get("max_retries"), Some(&"3".to_string()));
    assert_eq!(health.details.get("initial_backoff_ms"), Some(&"100".to_string()));
    assert_eq!(health.details.get("max_backoff_ms"), Some(&"2000".to_string()));
    assert_eq!(health.details.len(), 4);
    let info = scheduler.get_info();
    assert_eq!(info.metadata.get("has_consumer"), Some(&"true".to_string()));
    assert_eq!(info.metadata.get("max_backoff_ms"), Some(&"2000".to_string()));
    assert_eq!(scheduler.status(false), ActorStatus::Stopped);
}

#[test]
fn test_validation_errors() {
    let scheduler = SchedulerSettings::new(None).with_retry_config(0, 100, 2000);
    let errors = scheduler.validate();
    assert!(errors.iter().any(|e| e.contains("Max retries is set to 0")));

    let scheduler = SchedulerSettings::new(None).with_retry_config(3, 5000, 2000);
    let errors = scheduler.validate();
    assert!(errors
        .iter()
        .any(|e| e.contains("Initial backoff is greater than max backoff")));

    let scheduler = SchedulerSettings::new(None).with_retry_config(3, 100, 70_000);
    let errors = scheduler.validate();
    assert!(errors
        .iter()
        .any(|e| e.contains("Max backoff is greater than 60 seconds")));

    let scheduler = SchedulerSettings::new(None);
    let errors = scheduler.validate();
    assert!(errors.is_empty());
}

#[test]
fn validation_lists_every_warning_in_order() {
    let errors = SchedulerSettings::new(None).with_retry_config(0, 100, 70_000).validate();
    assert_eq!(
        errors,
        vec![
            "Max retries is set to 0, which may not be desired".to_string(),
            "Max backoff is greater than 60 seconds, which may be too long".to_string(),
        ]
    );
    let errors = SchedulerSettings::new(None).with_retry_config(0, 80_000, 70_000).validate();
    assert_eq!(errors.len(), 3);
}

#[test]
fn test_handle_messages() {
    assert!(matches!(scheduler_action(KafkaSchdulerMessage::Start), SchedulerAction::Acknowledge));
    assert!(matches!(scheduler_action(KafkaSchdulerMessage::Stop), SchedulerAction::Acknowledge));
    let msg = KafkaMessage {
        topic: "t".to_string(),
        key: "k".to_string(),
        value: "v".to_string(),
        headers: vec![("h".to_string(), "1".to_string())],
    };
    match scheduler_action(KafkaSchdulerMessage::SendMessage(msg.clone())) {
        SchedulerAction::Publish(m) => assert_eq!(m, msg),
        _ => panic!("expected a publish"),
    }
}

#[test]
fn test_retry_config_default() {
    let default_config = RetryConfig::default();

    assert_eq!(default_config.max_retries, 3);
    assert_eq!(default_config.initial_backoff_ms, 100);
    assert_eq!(default_config.max_backoff_ms, 2000);
}

fn pauses_when_all_fail(config: RetryConfig) -> (Vec<u64>, SendStep) {
    let mut retry = SendRetry::start(config);
    let mut pauses = Vec::new();
    loop {
        match retry.next_step() {
            SendStep::Attempt => pauses.push(retry.record_failure()),
            step => return (pauses, step),
        }
    }
}

#[test]
fn backoff_doubles_up_to_the_maximum() {
    let (pauses, step) = pauses_when_all_fail(RetryConfig::default());
    assert_eq!(pauses, vec![100, 200, 400]);
    assert_eq!(step, SendStep::GiveUpAfterFailure);

    let (pauses, _) = pauses_when_all_fail(RetryConfig {
        max_retries: 7,
        initial_backoff_ms: 100,
        max_backoff_ms: 2000,
    });
    assert_eq!(pauses, vec![100, 200, 400, 800, 1600, 2000, 2000]);
}

#[test]
fn first_pause_may_exceed_the_maximum() {
    let (pauses, _) = pauses_when_all_fail(RetryConfig {
        max_retries: 3,
        initial_backoff_ms: 5000,
        max_backoff_ms: 2000,
    });
    assert_eq!(pauses, vec![5000, 2000, 2000]);
}

#[test]
fn no_attempt_without_retries() {
    let (pauses, step) = pauses_when_all_fail(RetryConfig {
        max_retries: 0,
        initial_backoff_ms: 100,
        max_backoff_ms: 2000,
    });
    assert!(pauses.is_empty());
    assert_eq!(step, SendStep::GiveUpUntried);
}

#[test]
fn send_retry_reports_progress() {
    let mut retry = SendRetry::start(RetryConfig::default());
    assert_eq!(retry.attempts_failed(), 0);
    assert_eq!(retry.backoff_ms(), 100);
    assert_eq!(retry.record_failure(), 100);
    assert_eq!(retry.attempts_failed(), 1);
    assert_eq!(retry.backoff_ms(), 200);
    assert_eq!(retry.next_step(), SendStep::Attempt);
}

/// Sends one message when attempt `i` delivers exactly when `outcomes[i]`:
/// the attempts made and, on giving up, the attempt whose error is reported.
fn send_with(config: RetryConfig, outcomes: &[bool]) -> (usize, Result<(), Option<usize>>) {
    let mut retry = SendRetry::start(config);
    let mut attempts = 0;
    let mut last_error = None;
    loop {
        match retry.next_step() {
            SendStep::Attempt => {
                attempts += 1;
                if outcomes[attempts - 1] {
                    return (attempts, Ok(()));
                }
                last_error = Some(attempts - 1);
                retry.record_failure();
            }
            SendStep::GiveUpAfterFailure => return (attempts, Err(last_error)),
            SendStep::GiveUpUntried => return (attempts, Err(None)),
        }
    }
}

#[test]
fn whole_send_stops_at_the_first_delivery() {
    let c = RetryConfig::default();
    assert_eq!(send_with(c, &[true, true, true]), (1, Ok(())));
    assert_eq!(send_with(c, &[false, true, true]), (2, Ok(())));
    assert_eq!(send_with(c, &[false, false, true]), (3, Ok(())));
}

#[test]
fn whole_send_reports_the_last_failure() {
    let c = RetryConfig::default();
    assert_eq!(send_with(c, &[false, false, false, true]), (3, Err(Some(2))));
    let none = RetryConfig { max_retries: 0, initial_backoff_ms: 100, max_backoff_ms: 2000 };
    assert_eq!(send_with(none, &[true]), (0, Err(None)));
}
