use ozymandias::actor::ActorStatus;
use ozymandias::container_actor::{
    ContainerAction, ContainerActorState, ContainerKind, DockerState, RedisContainerMessage,
    KafkaContainerMessage,
};
use ozymandias::containers::ServiceRecord;
use ozymandias::ports::PortMappings;
use ozymandias::scenario::{Service, ServiceType};

fn service(kind: ServiceType) -> Service {
    Service {
        service_type: kind,
        image: "test".into(),
        tag: None,
        container_name: None,
        ports: vec![],
        wait_for_log: None,
        alias: None,
        env: vec![],
        retry_config: None,
    }
}

fn running_redis() -> ContainerActorState {
    let mut mappings = PortMappings::new();
    mappings.insert(7000, 32000);
    mappings.insert(7003, 32003);
    let mut state = ContainerActorState::new();
    state.start_completed(ServiceRecord {
        container_id: "abc123".to_string(),
        port_mappings: mappings,
        service: service(ServiceType::RedisCluster),
    });
    state
}

#[test]
fn test_redis_container_actor_new() {
    let actor = ContainerActorState::new();
    assert!(actor.record.is_none());
    assert!(!actor.is_paused);
}

#[test]
fn test_redis_container_actor_default() {
    let actor = ContainerActorState::new();
    assert!(actor.record.is_none());
    assert!(!actor.is_paused);
}

#[test]
fn redis_test_actor_status_methods() {
    let actor = ContainerActorState::new();

    let status = actor.status();
    assert_eq!(status, ActorStatus::Stopped);

    let health = actor.health_check(ContainerKind::Redis, None);
    assert!(!health.healthy);
    assert!(health.message.contains("No Redis container running"));

    let info = actor.get_info(ContainerKind::Redis);
    assert_eq!(info.name, "RedisContainerActor");
    assert_eq!(info.metadata.get("type"), Some(&"container_actor".to_string()));
    assert_eq!(info.metadata.get("service"), Some(&"redis_cluster".to_string()));
    assert!(info.metadata.get("container_id").is_none());
}

#[test]
fn test_get_container_id_when_no_service() {
    let actor = ContainerActorState::new();
    assert!(actor.container_id().is_none());
}

#[test]
fn redis_test_handle_stop_when_no_container() {
    let mut actor = ContainerActorState::new();
    let action = actor.handle(RedisContainerMessage::Stop.into_command());
    assert!(matches!(action, ContainerAction::NothingToStop));
    assert!(!actor.is_paused);
}

#[test]
fn redis_test_handle_get_connection_string_no_container() {
    let mut actor = ContainerActorState::new();
    let action = actor.handle(RedisContainerMessage::GetConnectionString { port: 7000 }.into_command());
    assert!(matches!(action, ContainerAction::NoContainer));
}

#[test]
fn test_handle_status_no_container() {
    let mut actor = ContainerActorState::new();
    let action = actor.handle(RedisContainerMessage::Status.into_command());
    assert!(matches!(action, ContainerAction::NoContainer));
}

#[test]
fn redis_test_shutdown() {
    let mut actor = ContainerActorState::new();
    assert!(actor.shutdown().is_none());
}

#[test]
fn test_pause_resume_no_container() {
    let mut actor = ContainerActorState::new();
    assert!(actor.pause().is_none());
    assert!(actor.is_paused);
    assert!(actor.resume().is_none());
    assert!(!actor.is_paused);
}

#[test]
fn redis_test_allowed_messages_when_paused() {
    let mut actor = ContainerActorState::new();
    actor.pause();
    assert!(actor.is_paused);

    assert!(matches!(
        actor.handle(RedisContainerMessage::Stop.into_command()),
        ContainerAction::NothingToStop
    ));

    actor.pause();
    assert!(matches!(
        actor.handle(RedisContainerMessage::Resume.into_command()),
        ContainerAction::NoContainerToControl
    ));

    actor.pause();
    assert!(matches!(
        actor.handle(RedisContainerMessage::Status.into_command()),
        ContainerAction::NoContainer
    ));
}

#[test]
fn redis_test_message_debug_formatting() {
    let msg1 = RedisContainerMessage::Start(Box::new(service(ServiceType::RedisCluster)));
    let debug_str = format!("{:?}", msg1);
    assert!(debug_str.contains("Start"));

    let msg2 = RedisContainerMessage::Stop;
    let debug_str = format!("{:?}", msg2);
    assert!(debug_str.contains("Stop"));

    let msg3 = RedisContainerMessage::GetConnectionString { port: 7000 };
    let debug_str = format!("{:?}", msg3);
    assert!(debug_str.contains("GetConnectionString"));
    assert!(debug_str.contains("7000"));
}

#[test]
fn test_get_info_with_redis_ports() {
    let actor = ContainerActorState::new();
    let info = actor.get_info(ContainerKind::Redis);
    for port in [7000, 7001, 7002, 7003, 7004, 7005] {
        assert!(info.metadata.get(&format!("connection_{}", port)).is_none());
    }
}

#[test]
fn paused_actor_ignores_start_and_pause() {
    let mut actor = ContainerActorState::new();
    actor.pause();
    let action = actor.handle(KafkaContainerMessage::Start(Box::new(service(ServiceType::Kafka))).into_command());
    assert!(matches!(action, ContainerAction::Ignored));
    assert!(actor.record.is_none());
    assert!(matches!(
        actor.handle(KafkaContainerMessage::GetConnectionString { port: 9092 }.into_command()),
        ContainerAction::Ignored
    ));
    assert!(matches!(actor.handle(KafkaContainerMessage::Pause.into_command()), ContainerAction::Ignored));
    actor.resume();
    let action = actor.handle(KafkaContainerMessage::Start(Box::new(service(ServiceType::Kafka))).into_command());
    assert!(matches!(action, ContainerAction::StartContainer(_)));
}

#[test]
fn running_container_info_and_connections() {
    let mut actor = running_redis();
    assert_eq!(actor.status(), ActorStatus::Running);
    let info = actor.get_info(ContainerKind::Redis);
    assert_eq!(info.metadata.get("container_id"), Some(&"abc123".to_string()));
    assert_eq!(info.metadata.get("connection_7000"), Some(&"localhost:32000".to_string()));
    assert_eq!(info.metadata.get("connection_7003"), Some(&"localhost:32003".to_string()));
    assert!(info.metadata.get("connection_7001").is_none());
    assert_eq!(info.metadata.len(), 5);

    match actor.handle(RedisContainerMessage::GetConnectionString { port: 7000 }.into_command()) {
        ContainerAction::ReportConnection { port, connection } => {
            assert_eq!(port, 7000);
            assert_eq!(connection, Some("localhost:32000".to_string()));
        }
        _ => panic!("expected a connection report"),
    }
    match actor.handle(RedisContainerMessage::GetConnectionString { port: 7009 }.into_command()) {
        ContainerAction::ReportConnection { connection, .. } => assert_eq!(connection, None),
        _ => panic!("expected a connection report"),
    }
}

#[test]
fn running_container_pause_resume_and_stop() {
    let mut actor = running_redis();
    match actor.handle(RedisContainerMessage::Pause.into_command()) {
        ContainerAction::PauseContainer(id) => assert_eq!(id, "abc123"),
        _ => panic!("expected a pause"),
    }
    assert_eq!(actor.status(), ActorStatus::Paused);
    match actor.handle(RedisContainerMessage::Status.into_command()) {
        ContainerAction::InspectContainer(id) => assert_eq!(id, "abc123"),
        _ => panic!("expected an inspection"),
    }
    match actor.handle(RedisContainerMessage::Resume.into_command()) {
        ContainerAction::ResumeContainer(id) => assert_eq!(id, "abc123"),
        _ => panic!("expected a resume"),
    }
    actor.pause();
    match actor.handle(RedisContainerMessage::Stop.into_command()) {
        ContainerAction::StopContainer(record) => assert_eq!(record.container_id, "abc123"),
        _ => panic!("expected a stop"),
    }
    assert!(actor.record.is_none());
    assert!(actor.is_paused);
    actor.stop_completed();
    assert!(!actor.is_paused);
    assert_eq!(actor.status(), ActorStatus::Stopped);
}

#[test]
fn container_health_from_docker() {
    let actor = running_redis();
    let h = actor.health_check(
        ContainerKind::Kafka,
        Some(Ok(DockerState { running: Some(true), paused: Some(false) })),
    );
    assert!(h.healthy);
    assert_eq!(h.message, "Kafka container is running normally");
    assert_eq!(h.details.get("container_id"), Some(&"abc123".to_string()));
    assert_eq!(h.details.get("paused"), Some(&"false".to_string()));

    let h = actor.health_check(ContainerKind::Redis, Some(Ok(DockerState { running: Some(true), paused: Some(true) })));
    assert!(h.healthy);
    assert_eq!(h.message, "Redis container is paused");
    assert_eq!(h.details.get("paused"), Some(&"true".to_string()));

    let h = actor.health_check(ContainerKind::Redis, Some(Ok(DockerState { running: None, paused: None })));
    assert!(!h.healthy);
    assert_eq!(h.message, "Redis container is not running");
    assert_eq!(h.details.get("running"), Some(&"false".to_string()));

    let h = actor.health_check(ContainerKind::Redis, Some(Err("boom".to_string())));
    assert!(!h.healthy);
    assert_eq!(h.message, "Failed to inspect container: boom");
}

#[test]
fn container_validation() {
    let idle = ContainerActorState::new();
    assert!(idle.validate(Ok(()), None).is_empty());
    assert_eq!(
        idle.validate(Err("no socket".to_string()), None),
        vec!["Docker client not accessible: no socket".to_string()]
    );
    let actor = running_redis();
    assert_eq!(
        actor.validate(Ok(()), Some(Ok(DockerState { running: Some(false), paused: None }))),
        vec!["Container is not running but actor is not paused".to_string()]
    );
    assert_eq!(
        actor.validate(Ok(()), Some(Err("gone".to_string()))),
        vec!["Cannot inspect container abc123: gone".to_string()]
    );
    let mut paused = running_redis();
    paused.pause();
    assert!(paused.validate(Ok(()), Some(Ok(DockerState { running: Some(false), paused: Some(true) }))).is_empty());
}

#[test]
fn kafka_info_lists_kafka_ports() {
    let mut mappings = PortMappings::new();
    mappings.insert(9092, 50001);
    mappings.insert(9093, 50002);
    let mut actor = ContainerActorState::new();
    actor.start_completed(ServiceRecord {
        container_id: "k1".to_string(),
        port_mappings: mappings,
        service: service(ServiceType::Kafka),
    });
    let info = actor.get_info(ContainerKind::Kafka);
    assert_eq!(info.name, "KafkaContainerActor");
    assert_eq!(info.metadata.get("service"), Some(&"kafka".to_string()));
    assert_eq!(info.metadata.get("connection_9092"), Some(&"localhost:50001".to_string()));
    assert_eq!(info.metadata.get("connection_9093"), Some(&"localhost:50002".to_string()));
}
