use pywatt_sdk::internal_messaging::{routed_reply_text, InternalMessagingError, RoutedReply};
use pywatt_sdk::bootstrap::{
    contains_text, orchestrator_tcp_endpoint, processing_step, tcp_endpoint, BootstrapError, ModuleBuilderConfig,
    OrchestratorEvent, ProcessingAction,
};
use pywatt_sdk::http_ipc::{
    answer_to, error_response as ipc_error_response, error_to_response as ipc_error_to_response,
    json_response as ipc_json_response, not_found as ipc_not_found, required_body, route_not_found, HttpIpcError,
};
use pywatt_sdk::ipc::{ipc_step, server_step, IpcAction, IpcEvent, IpcManager, IpcMessage, PendingRequests, ServerAction, ServerEvent};
use pywatt_sdk::ipc_types::{EndpointAnnounce, IpcHttpResponse, ServiceResponse, ServiceType};
use pywatt_sdk::jwt::{
    bearer_token, checked_operation, close_outcome, generated_token, returned_claims, JwtAuthError, JwtProxyConfig,
    JwtProxyService, ResultValue,
};
use pywatt_sdk::proxy::{connection_id_from_response, service_request_id};

fn response(success: bool, error: Option<&str>, id: Option<&str>) -> ServiceResponse {
    ServiceResponse {
        id: "req".to_string(),
        service_type: ServiceType::Jwt,
        success,
        error: error.map(|s| s.to_string()),
        connection_id: id.map(|s| s.to_string()),
    }
}

#[test]
fn bearer_tokens_are_read_from_the_header() {
    assert_eq!(bearer_token(Some("Bearer abc.def")), Some("abc.def".to_string()));
    assert_eq!(bearer_token(Some("Bearer ")), Some(String::new()));
    assert_eq!(bearer_token(Some("Basic abc")), None);
    assert_eq!(bearer_token(Some("bearer abc")), None);
    assert_eq!(bearer_token(None), None);
}

#[test]
fn jwt_service_connections() {
    let svc = JwtProxyService::from_response(response(true, None, Some("conn-1"))).ok().unwrap();
    assert_eq!(svc.connection_id(), "conn-1");
    match JwtProxyService::from_response(response(false, Some("denied"), None)) {
        Err(JwtAuthError::PayloadError(m)) => assert_eq!(m, "denied"),
        _ => panic!("expected a payload error"),
    }
    match JwtProxyService::from_response(response(false, None, None)) {
        Err(JwtAuthError::PayloadError(m)) => assert_eq!(m, "Unknown connection error"),
        _ => panic!("expected a payload error"),
    }
    match JwtProxyService::from_response(response(true, None, None)) {
        Err(JwtAuthError::PayloadError(m)) => assert_eq!(m, "No connection ID returned"),
        _ => panic!("expected a payload error"),
    }
    assert!(JwtProxyService::request_id().starts_with("jwt_request_"));
    assert!(JwtProxyConfig::default().config.is_empty());
    assert_eq!(connection_id_from_response(response(true, None, Some("x"))), Ok("x".to_string()));
    assert!(service_request_id("cache_request_").starts_with("cache_request_"));
}

#[test]
fn jwt_service_answers() {
    assert!(checked_operation(true, None).is_ok());
    match checked_operation(false, None) {
        Err(JwtAuthError::InvalidToken(m)) => assert_eq!(m, "Unknown error"),
        _ => panic!(),
    }
    match checked_operation(false, Some("expired".to_string())) {
        Err(JwtAuthError::InvalidToken(m)) => assert_eq!(m, "expired"),
        _ => panic!(),
    }
    assert_eq!(generated_token(Some(ResultValue::Text("tok".to_string()))).ok(), Some("tok".to_string()));
    match generated_token(Some(ResultValue::Other("1".to_string()))) {
        Err(JwtAuthError::PayloadError(m)) => assert_eq!(m, "Invalid token format"),
        _ => panic!(),
    }
    match generated_token(None) {
        Err(JwtAuthError::PayloadError(m)) => assert_eq!(m, "No token returned from generation"),
        _ => panic!(),
    }
    assert!(returned_claims(Some(ResultValue::Other("{}".to_string()))).is_ok());
    match returned_claims(None) {
        Err(JwtAuthError::InvalidToken(m)) => assert_eq!(m, "No claims returned from validation"),
        _ => panic!(),
    }
    match close_outcome(false, None) {
        Err(JwtAuthError::PayloadError(m)) => assert_eq!(m, "Close failed"),
        _ => panic!(),
    }
    assert!(close_outcome(true, None).is_ok());
}

#[test]
fn ipc_http_responses() {
    let r = ipc_json_response("{\"a\":1}".to_string(), 200);
    assert_eq!(r.request_id, "");
    assert_eq!(r.body.unwrap(), br#"{"status":"success","data":{"a":1},"message":null}"#.to_vec());
    let e = ipc_error_response("oops", 500);
    assert_eq!(e.body.unwrap(), br#"{"status":"error","data":null,"message":"oops"}"#.to_vec());
    let n = ipc_not_found("/p");
    assert_eq!(n.status_code, 404);
    assert_eq!(n.body.unwrap(), br#"{"status":"error","data":null,"message":"Endpoint not found: /p"}"#.to_vec());
    let d = route_not_found("id-1", "GET", "/p");
    assert_eq!(d.request_id, "id-1");
    assert_eq!(d.body.unwrap(), br#"{"status":"error","data":null,"message":"Endpoint not found: GET /p"}"#.to_vec());
    let f = ipc_error_to_response(HttpIpcError::Forbidden("x".to_string()), "id-2");
    assert_eq!(f.status_code, 403);
    assert_eq!(f.body.unwrap(), br#"{"status":"error","data":null,"message":"Forbidden: x"}"#.to_vec());
    assert_eq!(ipc_error_to_response(HttpIpcError::Sdk("s".to_string()), "i").status_code, 500);
    assert_eq!(ipc_error_to_response(HttpIpcError::InvalidRequest("s".to_string()), "i").status_code, 400);
    let stamped = answer_to(IpcHttpResponse { request_id: String::new(), status_code: 201, headers: vec![], body: None }, "id-3".to_string());
    assert_eq!(stamped.request_id, "id-3");
    assert_eq!(stamped.status_code, 201);
    match required_body(&None) {
        Err(HttpIpcError::InvalidRequest(m)) => assert_eq!(m, "Request body is required"),
        _ => panic!(),
    }
    assert!(required_body(&Some(vec![1])).is_ok());
}

#[test]
fn orchestrator_tcp_endpoint_is_one_port_above_http() {
    assert_eq!(orchestrator_tcp_endpoint("http://localhost:9900"), Some(("localhost".to_string(), 9901)));
    assert_eq!(orchestrator_tcp_endpoint("http://example.com"), Some(("example.com".to_string(), 81)));
    assert_eq!(orchestrator_tcp_endpoint("not a url"), None);
    assert_eq!(orchestrator_tcp_endpoint("http://h:65535"), None);
    assert_eq!(tcp_endpoint(None, None), ("localhost".to_string(), 81));
    assert_eq!(tcp_endpoint(Some("h".to_string()), Some(8000)), ("h".to_string(), 8001));
}

#[test]
fn module_builder_needs_a_state_builder() {
    let cfg = ModuleBuilderConfig::new().secret_keys(&["KEY1"]).endpoints(vec![EndpointAnnounce {
        path: "/test".to_string(),
        methods: vec!["GET".to_string()],
        auth: None,
    }]);
    assert_eq!(cfg.secret_keys, vec!["KEY1".to_string()]);
    assert!(matches!(cfg.ready(), Err(BootstrapError::Other(m)) if m == "State builder not set"));
    let cfg = cfg.state_given();
    assert!(cfg.ready().is_ok());
    assert_eq!(cfg.endpoints[0].path, "/test");
}

#[test]
fn processing_task_decisions() {
    let handlers = vec!["mod-a".to_string()];
    assert!(matches!(processing_step(true, None, OrchestratorEvent::Heartbeat), ProcessingAction::SendHeartbeatAck));
    assert!(matches!(processing_step(true, None, OrchestratorEvent::Shutdown), ProcessingAction::Stop));
    assert!(matches!(
        processing_step(true, None, OrchestratorEvent::RoutedModuleResponse { request_id: "r".to_string() }),
        ProcessingAction::DeliverResponse(id) if id == "r"
    ));
    assert!(matches!(
        processing_step(false, None, OrchestratorEvent::RoutedModuleResponse { request_id: "r".to_string() }),
        ProcessingAction::DiscardResponse
    ));
    assert!(matches!(
        processing_step(true, Some(&handlers), OrchestratorEvent::RoutedModuleMessage { source_module_id: "mod-a".to_string() }),
        ProcessingAction::RunHandler(s) if s == "mod-a"
    ));
    assert!(matches!(
        processing_step(true, Some(&handlers), OrchestratorEvent::RoutedModuleMessage { source_module_id: "mod-b".to_string() }),
        ProcessingAction::DiscardMessage
    ));
    assert!(matches!(processing_step(true, None, OrchestratorEvent::Undecodable), ProcessingAction::Continue));
    assert!(matches!(
        processing_step(true, None, OrchestratorEvent::ReceiveFailed { format_error: Some("io: connection aborted by peer".to_string()) }),
        ProcessingAction::CheckPermanentlyClosed
    ));
    assert!(matches!(
        processing_step(true, None, OrchestratorEvent::ReceiveFailed { format_error: Some("bad frame".to_string()) }),
        ProcessingAction::Stop
    ));
    assert!(matches!(processing_step(true, None, OrchestratorEvent::ReceiveFailed { format_error: None }), ProcessingAction::Stop));
    assert!(matches!(
        processing_step(true, None, OrchestratorEvent::ClosedChecked { permanently_closed: false }),
        ProcessingAction::RetryAfterPause
    ));
    assert!(matches!(processing_step(true, None, OrchestratorEvent::ClosedChecked { permanently_closed: true }), ProcessingAction::Stop));
    assert!(contains_text("abc", ""));
    assert!(contains_text("abcdef", "cde"));
    assert!(!contains_text("ab", "abc"));
}

#[test]
fn ipc_loop_decisions() {
    let _manager = IpcManager::new();
    let mut pending = PendingRequests::new();
    pending.register("r1".to_string());
    pending.register("r1".to_string());
    pending.register("r2".to_string());
    assert!(pending.contains("r1"));
    let line = |id: Option<&str>, m: Option<IpcMessage>| IpcEvent::Line { response_id: id.map(|s| s.to_string()), message: m };
    assert!(matches!(ipc_step(&mut pending, line(Some("r1"), Some(IpcMessage::ServiceResponse))), IpcAction::ForwardToWaiting(id) if id == "r1"));
    assert!(!pending.contains("r1"));
    assert!(matches!(ipc_step(&mut pending, line(Some("r1"), Some(IpcMessage::ServiceResponse))), IpcAction::Ignore));
    assert!(matches!(ipc_step(&mut pending, line(None, Some(IpcMessage::Secret))), IpcAction::DelegateToSecretClient));
    assert!(matches!(ipc_step(&mut pending, line(None, Some(IpcMessage::Rotated))), IpcAction::DelegateToSecretClient));
    assert!(matches!(ipc_step(&mut pending, line(None, Some(IpcMessage::HttpRequest))), IpcAction::BroadcastHttpRequest));
    assert!(matches!(
        ipc_step(&mut pending, line(None, Some(IpcMessage::RoutedModuleResponse { request_id: "r2".to_string() }))),
        IpcAction::DeliverModuleResponse(id) if id == "r2"
    ));
    assert!(!pending.contains("r2"));
    assert!(matches!(ipc_step(&mut pending, line(None, None)), IpcAction::Ignore));
    assert!(matches!(ipc_step(&mut pending, line(None, Some(IpcMessage::Heartbeat))), IpcAction::Ignore));
    assert!(matches!(ipc_step(&mut pending, line(None, Some(IpcMessage::Shutdown))), IpcAction::Stop));
    assert!(matches!(ipc_step(&mut pending, IpcEvent::EndOfInput), IpcAction::Stop));
    assert!(matches!(ipc_step(&mut pending, IpcEvent::ReadFailed), IpcAction::Stop));
    assert!(!pending.take("r9"));
    assert_eq!(server_step(ServerEvent::Request), ServerAction::HandleRequest);
    assert_eq!(server_step(ServerEvent::Lagged(3)), ServerAction::Continue);
    assert_eq!(server_step(ServerEvent::ChannelClosed), ServerAction::Stop);
    assert_eq!(server_step(ServerEvent::ShutdownSignal), ServerAction::Stop);
}

#[test]
fn test_internal_messaging_error_messages() {
    assert_eq!(
        InternalMessagingError::TargetEndpointNotFound("ep".to_string(), "mod".to_string()).message(),
        "Orchestrator indicated target endpoint 'ep' on module 'mod' was not found"
    );
    assert_eq!(
        InternalMessagingError::Timeout.message(),
        "Request timed out while waiting for response from target module"
    );
    assert_eq!(
        InternalMessagingError::TargetModuleNotFound("m".to_string()).message(),
        "Orchestrator indicated target module 'm' was not found"
    );
    assert_eq!(InternalMessagingError::OrchestratorError("x".to_string()).message(), "Orchestrator error: x");
}

#[test]
fn test_routed_reply_text_outcomes() {
    assert_eq!(routed_reply_text(RoutedReply::Payload(b"{\"a\":1}".to_vec())).unwrap(), "{\"a\":1}");
    assert!(matches!(
        routed_reply_text(RoutedReply::Payload(vec![0xc3])),
        Err(InternalMessagingError::DeserializationError(_))
    ));
    match routed_reply_text(RoutedReply::Failed("gone".to_string())) {
        Err(InternalMessagingError::OrchestratorError(m)) => assert_eq!(m, "gone"),
        other => panic!("unexpected {:?}", other),
    }
    match routed_reply_text(RoutedReply::Closed) {
        Err(InternalMessagingError::InternalSDKError(m)) => {
            assert_eq!(m, "Response channel closed prematurely; SDK might be shutting down")
        }
        other => panic!("unexpected {:?}", other),
    }
}

#[test]
fn test_service_request_id_has_hyphenated_uuid_after_prefix() {
    let id = service_request_id("db_");
    assert_eq!(id.len(), 3 + 36);
    let uuid: Vec<char> = id["db_".len()..].chars().collect();
    for (i, c) in uuid.iter().enumerate() {
        if i == 8 || i == 13 || i == 18 || i == 23 {
            assert_eq!(*c, '-');
        } else {
            assert!(c.is_ascii_hexdigit() && !c.is_ascii_uppercase());
        }
    }
}
