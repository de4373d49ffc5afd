use ozymandias::actor::ActorStatus;
use ozymandias::containers::ServiceRecord;
use ozymandias::ports::PortMappings;
use ozymandias::scenario::{Service, ServiceType};
use ozymandias::service_actor::{ServiceAction, ServiceActorState, ServiceContainerMessage};

fn service(ports: Vec<u16>, tag: Option<String>) -> Service {
    Service {
        service_type: ServiceType::Custom("test".to_string()),
        image: "test".into(),
        tag,
        container_name: None,
        ports,
        wait_for_log: None,
        alias: None,
        env: vec![],
        retry_config: None,
    }
}

#[test]
fn test_service_container_actor_new() {
    let actor = ServiceActorState::new();
    assert!(actor.record.is_none());
    assert!(!actor.is_paused);
}

#[test]
fn test_service_container_actor_default() {
    let actor = ServiceActorState::new();
    assert!(actor.record.is_none());
    assert!(!actor.is_paused);
}

#[test]
fn service_test_actor_status_methods() {
    let actor = ServiceActorState::new();
    assert_eq!(actor.status(), ActorStatus::Stopped);

    let health = actor.health_check();
    assert!(!health.healthy);
    assert!(health.message.contains("No service container running"));

    let info = actor.get_info();
    assert_eq!(info.name, "ServiceContainerActor");
    assert_eq!(info.metadata.get("type"), Some(&"generic_container_actor".to_string()));
    assert!(info.metadata.get("container_id").is_none());
}

#[test]
fn service_test_handle_stop_when_no_container() {
    let mut actor = ServiceActorState::new();
    assert!(matches!(actor.handle(ServiceContainerMessage::Stop), ServiceAction::NothingToStop));
    assert!(!actor.is_paused);
}

#[test]
fn service_test_handle_get_connection_string_no_container() {
    let mut actor = ServiceActorState::new();
    assert!(matches!(
        actor.handle(ServiceContainerMessage::GetConnectionString { port: 8080 }),
        ServiceAction::NoContainer
    ));
}

#[test]
fn test_handle_wait_ready_no_container() {
    let mut actor = ServiceActorState::new();
    assert!(matches!(
        actor.handle(ServiceContainerMessage::WaitReady { duration_secs: 1 }),
        ServiceAction::NoContainer
    ));
}

#[test]
fn service_test_shutdown() {
    let mut actor = ServiceActorState::new();
    assert!(actor.shutdown().is_none());
}

#[test]
fn test_pause_resume_directly() {
    let mut actor = ServiceActorState::new();
    actor.pause();
    assert!(actor.is_paused);
    assert_eq!(actor.status(), ActorStatus::Stopped);
    actor.resume();
    assert!(!actor.is_paused);
}

#[test]
fn test_validation_no_container() {
    let actor = ServiceActorState::new();
    assert!(actor.validate().is_empty());
}

#[test]
fn service_test_allowed_messages_when_paused() {
    let mut actor = ServiceActorState::new();
    actor.pause();
    assert!(actor.is_paused);
    assert!(matches!(actor.handle(ServiceContainerMessage::Stop), ServiceAction::NothingToStop));

    actor.pause();
    let action = actor.handle(ServiceContainerMessage::Start(Box::new(service(vec![], None))));
    assert!(matches!(action, ServiceAction::Ignored));
    assert!(actor.record.is_none());
    assert!(matches!(
        actor.handle(ServiceContainerMessage::GetConnectionString { port: 8080 }),
        ServiceAction::Ignored
    ));
    assert!(matches!(
        actor.handle(ServiceContainerMessage::WaitReady { duration_secs: 1 }),
        ServiceAction::Ignored
    ));
}

#[test]
fn service_test_message_debug_formatting() {
    let msg1 = ServiceContainerMessage::Start(Box::new(service(vec![], None)));
    assert!(format!("{:?}", msg1).contains("Start"));
    assert!(format!("{:?}", ServiceContainerMessage::Stop).contains("Stop"));
    let msg3 = format!("{:?}", ServiceContainerMessage::GetConnectionString { port: 8080 });
    assert!(msg3.contains("GetConnectionString"));
    assert!(msg3.contains("8080"));
    let msg4 = format!("{:?}", ServiceContainerMessage::WaitReady { duration_secs: 5 });
    assert!(msg4.contains("WaitReady"));
    assert!(msg4.contains("5"));
}

fn running(ports: Vec<u16>, mapped: Vec<(u16, u16)>, id: &str) -> ServiceActorState {
    let mut m = PortMappings::new();
    for (c, h) in mapped {
        m.insert(c, h);
    }
    let mut actor = ServiceActorState::new();
    actor.start_completed(ServiceRecord {
        container_id: id.to_string(),
        port_mappings: m,
        service: service(ports, Some("13".to_string())),
    });
    actor
}

#[test]
fn running_service_health_info_and_validation() {
    let actor = running(vec![5432, 6000, 6001], vec![(5432, 40000), (9999, 41000)], "cid");
    let h = actor.health_check();
    assert!(h.healthy);
    assert_eq!(h.message, "Generic service container is running");
    assert_eq!(h.details.get("service_type"), Some(&"test".to_string()));
    assert_eq!(h.details.get("paused"), Some(&"false".to_string()));

    let info = actor.get_info();
    assert_eq!(info.metadata.get("container_id"), Some(&"cid".to_string()));
    assert_eq!(info.metadata.get("image"), Some(&"test".to_string()));
    assert_eq!(info.metadata.get("tag"), Some(&"13".to_string()));
    assert_eq!(info.metadata.get("port_mapping_5432_40000"), Some(&"5432:40000".to_string()));
    assert_eq!(info.metadata.get("port_mapping_9999_41000"), Some(&"9999:41000".to_string()));
    assert_eq!(info.metadata.len(), 7);

    assert_eq!(
        actor.validate(),
        vec!["Port 6000 is not mapped".to_string(), "Port 6001 is not mapped".to_string()]
    );
    let empty_id = running(vec![], vec![], "");
    assert_eq!(empty_id.validate(), vec!["Container ID is empty".to_string()]);
}

#[test]
fn running_service_messages() {
    let mut actor = running(vec![5432], vec![(5432, 40000)], "cid");
    match actor.handle(ServiceContainerMessage::GetConnectionString { port: 5432 }) {
        ServiceAction::ReportConnection { connection, .. } => {
            assert_eq!(connection, Some("localhost:40000".to_string()))
        }
        _ => panic!("expected a report"),
    }
    assert!(matches!(
        actor.handle(ServiceContainerMessage::WaitReady { duration_secs: 3 }),
        ServiceAction::WaitReady { duration_secs: 3 }
    ));
    actor.pause();
    assert_eq!(actor.status(), ActorStatus::Paused);
    match actor.handle(ServiceContainerMessage::Stop) {
        ServiceAction::StopContainer(r) => assert_eq!(r.container_id, "cid"),
        _ => panic!("expected a stop"),
    }
    actor.stop_completed();
    assert!(!actor.is_paused);
}
