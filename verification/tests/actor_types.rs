use ozymandias::actor::{ActorInfo, ActorStatus, HealthStatus};

#[test]
fn test_actor_status_display() {
    assert_eq!(ActorStatus::Stopped.to_display_string(), "Stopped");
    assert_eq!(ActorStatus::Starting.to_display_string(), "Starting");
    assert_eq!(ActorStatus::Running.to_display_string(), "Running");
    assert_eq!(ActorStatus::Paused.to_display_string(), "Paused");
    assert_eq!(ActorStatus::Stopping.to_display_string(), "Stopping");
    assert_eq!(
        ActorStatus::Error("test error".to_string()).to_display_string(),
        "Error: test error"
    );
}

#[test]
fn test_health_status_builders() {
    let healthy = HealthStatus::healthy("All good");
    assert!(healthy.healthy);
    assert_eq!(healthy.message, "All good");
    assert!(healthy.details.is_empty());

    let unhealthy = HealthStatus::unhealthy("Something wrong");
    assert!(!unhealthy.healthy);
    assert_eq!(unhealthy.message, "Something wrong");
    assert!(unhealthy.details.is_empty());

    let with_details = HealthStatus::healthy("Good")
        .with_detail("key1", "value1")
        .with_detail("key2", "value2");
    assert_eq!(with_details.details.get("key1"), Some(&"value1".to_string()));
    assert_eq!(with_details.details.get("key2"), Some(&"value2".to_string()));
}

#[test]
fn test_actor_info_builder() {
    let info = ActorInfo::new("TestActor");
    assert_eq!(info.name, "TestActor");
    assert_eq!(info.version, "1.0.0");
    assert!(info.uptime_seconds.is_none());
    assert!(info.messages_processed.is_none());
    assert!(info.metadata.is_empty());

    let info_with_metadata = ActorInfo::new("TestActor")
        .with_metadata("type", "test")
        .with_metadata("status", "active");
    assert_eq!(info_with_metadata.metadata.get("type"), Some(&"test".to_string()));
    assert_eq!(info_with_metadata.metadata.get("status"), Some(&"active".to_string()));
}

#[test]
fn test_actor_status_equality() {
    assert_eq!(ActorStatus::Running, ActorStatus::Running);
    assert_eq!(ActorStatus::Stopped, ActorStatus::Stopped);
    assert_eq!(
        ActorStatus::Error("test".to_string()),
        ActorStatus::Error("test".to_string())
    );

    assert_ne!(ActorStatus::Running, ActorStatus::Stopped);
    assert_ne!(
        ActorStatus::Error("test1".to_string()),
        ActorStatus::Error("test2".to_string())
    );
}

#[test]
fn detail_written_twice_keeps_the_last_value() {
    let h = HealthStatus::healthy("ok")
        .with_detail("k", "first")
        .with_detail("other", "x")
        .with_detail("k", "second");
    assert_eq!(h.details.get("k"), Some(&"second".to_string()));
    assert_eq!(h.details.len(), 2);
    assert!(h.details.contains_key("other"));
    assert!(!h.details.contains_key("missing"));
    assert_eq!(h.details.get("missing"), None);
}

#[test]
fn metadata_read_after_write() {
    let info = ActorInfo::new("A").with_metadata("x", "1");
    assert_eq!(info.metadata.get("x"), Some(&"1".to_string()));
    let info = info.with_metadata("x", "2");
    assert_eq!(info.metadata.get("x"), Some(&"2".to_string()));
    assert_eq!(info.metadata.len(), 1);
    let copy = info.metadata.clone();
    assert_eq!(copy.get("x"), Some(&"2".to_string()));
}

#[test]
fn map_pairs_in_insertion_order() {
    let info = ActorInfo::new("A")
        .with_metadata("b", "1")
        .with_metadata("a", "2")
        .with_metadata("b", "3");
    let pairs = info.metadata.pairs();
    assert_eq!(
        pairs,
        &vec![("b".to_string(), "3".to_string()), ("a".to_string(), "2".to_string())]
    );
}
