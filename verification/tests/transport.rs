use platform_manager::errors::AppError;
use platform_manager::models::{ApplicationAccess, InfoEndpoint, InfoResponse as CoreInfoResponse};
use platform_manager::transport::{from_proto, to_info_proto, to_proto, ActionRequest};

#[test]
fn mapper_test_from_proto() {
    let req = ActionRequest {
        action: "echo".to_string(),
        payload: b"data".to_vec(),
    };
    let (action, payload) = from_proto(req);
    assert_eq!(action, "echo");
    assert_eq!(payload, b"data");
}

#[test]
fn mapper_test_to_proto_success() {
    let resp = to_proto(Ok(b"result".to_vec()));
    assert_eq!(resp.payload, b"result");
    assert!(resp.error.is_empty());
}

#[test]
fn mapper_test_to_proto_error() {
    let resp = to_proto(Err(AppError::ActionNotFound("test".to_string())));
    assert!(resp.payload.is_empty());
    assert!(!resp.error.is_empty());
}

#[test]
fn to_proto_error_texts() {
    assert_eq!(to_proto(Err(AppError::ActionNotFound("test".to_string()))).error, "action not found: test");
    assert_eq!(to_proto(Err(AppError::InvalidPayload)).error, "invalid payload");
    assert_eq!(to_proto(Err(AppError::Execution("boom".to_string()))).error, "execution failed: boom");
}

#[test]
fn test_to_info_proto_success() {
    let info = CoreInfoResponse {
        application: "platform-manager".to_string(),
        endpoints: vec![InfoEndpoint {
            name: "grpc_execute".to_string(),
            value: "/action.ActionService/Execute".to_string(),
        }],
        launched_applications: vec![ApplicationAccess {
            application: "platform-manager".to_string(),
            url: "http://localhost:50051".to_string(),
        }],
        task_id: "task-1".to_string(),
    };

    let resp = to_info_proto(Ok(Ok(info)));
    assert!(resp.error.is_empty());
    assert_eq!(resp.application, "platform-manager");
    assert_eq!(resp.endpoints.len(), 1);
    assert_eq!(resp.task_id, "task-1");
    assert_eq!(resp.launched_applications.len(), 1);
    assert_eq!(resp.launched_applications[0].application, "platform-manager");
    assert_eq!(resp.launched_applications[0].url, "http://localhost:50051");
}

#[test]
fn test_to_info_proto_error() {
    let resp = to_info_proto(Err(AppError::ActionNotFound("info".to_string())));
    assert!(resp.application.is_empty());
    assert!(resp.endpoints.is_empty());
    assert!(resp.task_id.is_empty());
    assert!(resp.launched_applications.is_empty());
    assert!(!resp.error.is_empty());
}

#[test]
fn test_to_info_proto_invalid_payload() {
    let reason = serde_json::from_slice::<serde_json::Value>(b"not json")
        .unwrap_err()
        .to_string();
    let resp = to_info_proto(Ok(Err(reason)));
    assert!(resp.application.is_empty());
    assert!(resp.endpoints.is_empty());
    assert!(resp.task_id.is_empty());
    assert!(resp.launched_applications.is_empty());
    assert!(resp.error.starts_with("invalid info payload:"));
}
