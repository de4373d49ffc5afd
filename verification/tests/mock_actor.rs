use ozymandias::actor::ActorStatus;
use ozymandias::mock::{bind_address, route_specs, MockAction, MockActorState, MockServerMessage};
use ozymandias::scenario::{HttpResponse, MockRoute, MockServer};

fn config(port: u16) -> MockServer {
    MockServer {
        port,
        delay_startup: None,
        routes: vec![
            MockRoute {
                method: "get".to_string(),
                path: "/test".to_string(),
                delay_ms: None,
                response: HttpResponse {
                    status: 200,
                    body: r#"{"message": "Hello from enhanced test!"}"#.to_string(),
                    headers: vec![],
                    mime_type: None,
                },
            },
            MockRoute {
                method: "POST".to_string(),
                path: "/data".to_string(),
                delay_ms: Some(25),
                response: HttpResponse {
                    status: 201,
                    body: "created".to_string(),
                    headers: vec![("user-id".to_string(), "1".to_string())],
                    mime_type: Some("text/plain".to_string()),
                },
            },
        ],
    }
}

#[test]
fn routes_default_to_json_without_delay() {
    let specs = route_specs(&config(3004).routes);
    assert_eq!(specs.len(), 2);
    assert_eq!(specs[0].method, "GET");
    assert_eq!(specs[0].path, "/test");
    assert_eq!(specs[0].status, 200);
    assert_eq!(specs[0].delay_ms, 0);
    assert_eq!(specs[0].mime_type, "application/json");
    assert_eq!(specs[1].method, "POST");
    assert_eq!(specs[1].delay_ms, 25);
    assert_eq!(specs[1].mime_type, "text/plain");
    assert_eq!(specs[1].body, "created");
    assert_eq!(specs[1].headers, vec![("user-id".to_string(), "1".to_string())]);
}

#[test]
fn mock_bind_address() {
    assert_eq!(bind_address(8080), "127.0.0.1:8080");
}

#[test]
fn test_mock_server_actor_pause_resume() {
    let mut actor = MockActorState::new();
    assert!(!actor.is_paused);
    assert!(!actor.pause());
    assert!(actor.is_paused);
    assert!(actor.resume().is_none());
    assert!(!actor.is_paused);

    actor.pause();
    let action = actor.handle(MockServerMessage::Start(Box::new(config(3002))));
    assert!(matches!(action, MockAction::Ignored));
    assert!(actor.server_uri.is_none());

    actor.resume();
    let action = actor.handle(MockServerMessage::Start(Box::new(config(3003))));
    assert!(matches!(action, MockAction::StartServer(_)));
}

#[test]
fn mock_server_lifecycle() {
    let mut actor = MockActorState::new();
    actor.start_completed("http://127.0.0.1:3004".to_string(), config(3004));
    assert_eq!(actor.status(), ActorStatus::Running);
    assert_eq!(actor.get_server_status(), "Running");
    match actor.handle(MockServerMessage::Status) {
        MockAction::ReportStatus { status, uri } => {
            assert_eq!(status, "Running");
            assert_eq!(uri, "http://127.0.0.1:3004");
        }
        _ => panic!("expected a status"),
    }
    assert!(matches!(actor.handle(MockServerMessage::Pause), MockAction::ClearRoutes));
    assert_eq!(actor.status(), ActorStatus::Paused);
    assert!(matches!(actor.handle(MockServerMessage::GetUri), MockAction::Ignored));
    match actor.handle(MockServerMessage::Resume) {
        MockAction::RestoreRoutes(specs) => {
            assert_eq!(specs.len(), 2);
            assert_eq!(specs[1].status, 201);
        }
        _ => panic!("expected restored routes"),
    }
    assert!(matches!(actor.handle(MockServerMessage::Reset), MockAction::ClearRoutes));
    assert!(matches!(actor.handle(MockServerMessage::GetUri), MockAction::ReportUri(_)));
    assert!(matches!(actor.handle(MockServerMessage::Stop), MockAction::StopServer));
    assert!(actor.server_uri.is_none());
    assert!(actor.server_config.is_none());
    match actor.handle(MockServerMessage::Status) {
        MockAction::ReportStatus { status, uri } => {
            assert_eq!(status, "Stopped");
            assert_eq!(uri, "N/A");
        }
        _ => panic!("expected a status"),
    }
}

#[test]
fn mock_health_info_validation() {
    let idle = MockActorState::new();
    let h = idle.health_check(None);
    assert!(!h.healthy);
    assert_eq!(h.message, "No mock server running");
    assert!(idle.validate(None).is_empty());

    let mut actor = MockActorState::new();
    let mut c = config(3004);
    c.delay_startup = Some(2);
    actor.start_completed("http://127.0.0.1:3004".to_string(), c);
    assert_eq!(
        actor.health_probe_url(),
        Some("http://127.0.0.1:3004/health-check-non-existent-endpoint".to_string())
    );
    assert_eq!(actor.validation_probe_url(), Some("http://127.0.0.1:3004/validation-test".to_string()));
    let h = actor.health_check(Some(Ok((404, "404 Not Found".to_string()))));
    assert!(h.healthy);
    assert_eq!(h.message, "Mock server is responding to requests");
    assert_eq!(h.details.get("paused"), Some(&"false".to_string()));
    assert!(h.details.get("unexpected_response").is_none());
    let h = actor.health_check(Some(Ok((200, "200 OK".to_string()))));
    assert_eq!(h.message, "Mock server is responding");
    assert_eq!(h.details.get("unexpected_response"), Some(&"200 OK".to_string()));
    let h = actor.health_check(Some(Err("refused".to_string())));
    assert!(!h.healthy);
    assert_eq!(h.message, "Mock server not responding: refused");

    let info = actor.get_info();
    assert_eq!(info.name, "MockServerActor");
    assert_eq!(info.metadata.get("uri"), Some(&"http://127.0.0.1:3004".to_string()));
    assert_eq!(info.metadata.get("port"), Some(&"3004".to_string()));
    assert_eq!(info.metadata.get("routes_count"), Some(&"2".to_string()));
    assert_eq!(info.metadata.get("delay_startup"), Some(&"2".to_string()));

    assert_eq!(
        actor.validate(Some(Err("timeout".to_string()))),
        vec!["Mock server at http://127.0.0.1:3004 is not accessible: timeout".to_string()]
    );
    let mut lonely = MockActorState::new();
    lonely.pause();
    assert_eq!(
        lonely.validate(None),
        vec!["Actor is paused but no original configuration is stored".to_string()]
    );
}
