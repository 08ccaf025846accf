use ai_api::config::ConfigError;
use ai_api::errors::{ApiError, ApiErrorCode, ApiStartupError, RuntimeErrorKind};

#[test]
fn maps_session_not_found() {
    let err = ApiError::from_runtime(RuntimeErrorKind::SessionNotFound("x".to_string()), String::new());
    assert_eq!(err.code, ApiErrorCode::SessionNotFound);
    assert_eq!(err.status, 404);
}

#[test]
fn maps_session_finished() {
    let err = ApiError::from_runtime(RuntimeErrorKind::SessionFinished, String::new());
    assert_eq!(err.code, ApiErrorCode::SessionFinished);
    assert_eq!(err.status, 409);
}

#[test]
fn runtime_error_messages_and_statuses() {
    let e = ApiError::from_runtime(RuntimeErrorKind::SessionNotFound("abc".to_string()), "ignored".to_string());
    assert_eq!(e.message, "Session does not exist: abc");
    let e = ApiError::from_runtime(RuntimeErrorKind::FlowNotFound("f".to_string()), String::new());
    assert_eq!((e.code, e.status, e.message.as_str()), (ApiErrorCode::FlowNotFound, 404, "Flow not found: f"));
    let e = ApiError::from_runtime(RuntimeErrorKind::NoPausedNode, "no paused node".to_string());
    assert_eq!((e.code, e.status, e.message.as_str()), (ApiErrorCode::InvalidState, 409, "no paused node"));
    let e = ApiError::from_runtime(RuntimeErrorKind::NodeNotFound, "node x".to_string());
    assert_eq!((e.code, e.status), (ApiErrorCode::InvalidRequest, 400));
    let e = ApiError::from_runtime(RuntimeErrorKind::SearchError, "boom".to_string());
    assert_eq!((e.code, e.status, e.message.as_str()), (ApiErrorCode::InternalError, 500, "boom"));
}

#[test]
fn error_code_names() {
    assert_eq!(ApiErrorCode::FlowNotFound.name(), "FLOW_NOT_FOUND");
    assert_eq!(ApiErrorCode::InternalError.name(), "INTERNAL_ERROR");
    let e = ApiError::flow_not_found("missing_flow");
    assert_eq!(e.code.name(), "FLOW_NOT_FOUND");
    assert_eq!(e.text(), "Flow not found: missing_flow");
}

#[test]
fn startup_error_text() {
    let e = ApiStartupError::from_config(ConfigError::Invalid("bad".to_string()));
    assert_eq!(e.message(), "config error: invalid configuration: bad");
    let s = ApiStartupError::Startup("port busy".to_string());
    assert_eq!(s.message(), "startup error: port busy");
}
