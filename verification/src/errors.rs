//! API errors: their codes, HTTP statuses and messages, and how the
//! conversation runtime's errors map onto them.

use vstd::prelude::*;
use vstd::string::StringExecFns;

use crate::config::ConfigError;

verus! {

/// The machine-readable code of an API error.
#[derive(Clone, Copy, Debug, PartialEq, Eq, Structural)]
pub enum ApiErrorCode {
    SessionNotFound,
    FlowNotFound,
    SessionFinished,
    InvalidState,
    InvalidRequest,
    NotFound,
    InternalError,
}

impl ApiErrorCode {
    /// The code as the API writes it, in screaming snake case.
    pub open spec fn spec_name(self) -> Seq<char> {
        match self {
            ApiErrorCode::SessionNotFound => "SESSION_NOT_FOUND"@,
            ApiErrorCode::FlowNotFound => "FLOW_NOT_FOUND"@,
            ApiErrorCode::SessionFinished => "SESSION_FINISHED"@,
            ApiErrorCode::InvalidState => "INVALID_STATE"@,
            ApiErrorCode::InvalidRequest => "INVALID_REQUEST"@,
            ApiErrorCode::NotFound => "NOT_FOUND"@,
            ApiErrorCode::InternalError => "INTERNAL_ERROR"@,
        }
    }

    pub fn name(&self) -> (s: String)
        ensures
            s@ == self.spec_name(),
    {
        let r = match self {
            ApiErrorCode::SessionNotFound => "SESSION_NOT_FOUND",
            ApiErrorCode::FlowNotFound => "FLOW_NOT_FOUND",
            ApiErrorCode::SessionFinished => "SESSION_FINISHED",
            ApiErrorCode::InvalidState => "INVALID_STATE",
            ApiErrorCode::InvalidRequest => "INVALID_REQUEST",
            ApiErrorCode::NotFound => "NOT_FOUND",
            ApiErrorCode::InternalError => "INTERNAL_ERROR",
        };
        r.to_string()
    }
}

/// HTTP statuses the API answers errors with.
pub const STATUS_BAD_REQUEST: u16 = 400;
pub const STATUS_NOT_FOUND: u16 = 404;
pub const STATUS_CONFLICT: u16 = 409;
pub const STATUS_INTERNAL: u16 = 500;

/// An error as the API answers it: a code, a message and an HTTP status.
pub struct ApiError {
    pub code: ApiErrorCode,
    pub message: String,
    pub status: u16,
}

impl ApiError {
    pub fn new(code: ApiErrorCode, message: String, status: u16) -> (e: ApiError)
        ensures
            e.code == code,
            e.message@ == message@,
            e.status == status,
    {
        ApiError { code, message, status }
    }

    /// An internal error (500).
    pub fn internal(message: String) -> (e: ApiError)
        ensures
            e.code == ApiErrorCode::InternalError,
            e.message@ == message@,
            e.status == STATUS_INTERNAL,
    {
        Self::new(ApiErrorCode::InternalError, message, STATUS_INTERNAL)
    }

    /// A rejected request (400).
    pub fn invalid_request(message: String) -> (e: ApiError)
        ensures
            e.code == ApiErrorCode::InvalidRequest,
            e.message@ == message@,
            e.status == STATUS_BAD_REQUEST,
    {
        Self::new(ApiErrorCode::InvalidRequest, message, STATUS_BAD_REQUEST)
    }

    /// A missing resource (404).
    pub fn not_found(message: String) -> (e: ApiError)
        ensures
            e.code == ApiErrorCode::NotFound,
            e.message@ == message@,
            e.status == STATUS_NOT_FOUND,
    {
        Self::new(ApiErrorCode::NotFound, message, STATUS_NOT_FOUND)
    }

    /// An unknown flow (404), naming it.
    pub fn flow_not_found(flow_id: &str) -> (e: ApiError)
        ensures
            e.code == ApiErrorCode::FlowNotFound,
            e.message@ == "Flow not found: "@ + flow_id@,
            e.status == STATUS_NOT_FOUND,
    {
        let m = "Flow not found: ".to_string().concat(flow_id);
        Self::new(ApiErrorCode::FlowNotFound, m, STATUS_NOT_FOUND)
    }

    /// The message, as `Display` writes the error.
    pub fn text(&self) -> (s: String)
        ensures
            s@ == self.message@,
    {
        self.message.clone()
    }
}

/// The errors of the conversation runtime, each with what the API uses of it:
/// the id for a missing session or flow; the error's own text otherwise is
/// handed to [`ApiError::from_runtime`] beside it.
pub enum RuntimeErrorKind {
    SessionNotFound(String),
    FlowNotFound(String),
    SessionFinished,
    InvalidStateTransition,
    ModuleNotOpen,
    ModuleAlreadyOpen,
    PauseRequiredBeforeModule,
    NoPausedNode,
    TransitionNotFound,
    NodeNotFound,
    InvalidModuleRef,
    ModuleNotFound,
    ModuleSectionNotFound,
    ModuleInstanceNotLoaded,
    ModuleLoadError,
    ModuleOperationNotSupported,
    FlowProviderNotImplemented,
    FlowEngineError,
    SearchError,
    RouterError,
    ResponseError,
    Configuration,
}

/// The code and status a runtime error is answered with.
pub open spec fn runtime_code(k: RuntimeErrorKind) -> (ApiErrorCode, u16) {
    match k {
        RuntimeErrorKind::SessionNotFound(_) => (ApiErrorCode::SessionNotFound, STATUS_NOT_FOUND),
        RuntimeErrorKind::FlowNotFound(_) => (ApiErrorCode::FlowNotFound, STATUS_NOT_FOUND),
        RuntimeErrorKind::SessionFinished => (ApiErrorCode::SessionFinished, STATUS_CONFLICT),
        RuntimeErrorKind::InvalidStateTransition
        | RuntimeErrorKind::ModuleNotOpen
        | RuntimeErrorKind::ModuleAlreadyOpen
        | RuntimeErrorKind::PauseRequiredBeforeModule
        | RuntimeErrorKind::NoPausedNode => (ApiErrorCode::InvalidState, STATUS_CONFLICT),
        RuntimeErrorKind::TransitionNotFound
        | RuntimeErrorKind::NodeNotFound
        | RuntimeErrorKind::InvalidModuleRef
        | RuntimeErrorKind::ModuleNotFound
        | RuntimeErrorKind::ModuleSectionNotFound
        | RuntimeErrorKind::ModuleInstanceNotLoaded => (ApiErrorCode::InvalidRequest, STATUS_BAD_REQUEST),
        _ => (ApiErrorCode::InternalError, STATUS_INTERNAL),
    }
}

/// The message a runtime error is answered with, given the error's own text.
pub open spec fn runtime_message(k: RuntimeErrorKind, text: Seq<char>) -> Seq<char> {
    match k {
        RuntimeErrorKind::SessionNotFound(id) => "Session does not exist: "@ + id@,
        RuntimeErrorKind::FlowNotFound(id) => "Flow not found: "@ + id@,
        RuntimeErrorKind::SessionFinished => "Session is finished"@,
        _ => text,
    }
}

impl ApiError {
    /// The API error that answers a runtime error whose own text is `text`.
    pub fn from_runtime(err: RuntimeErrorKind, text: String) -> (e: ApiError)
        ensures
            (e.code, e.status) == runtime_code(err),
            e.message@ == runtime_message(err, text@),
    {
        match err {
            RuntimeErrorKind::SessionNotFound(id) => Self::new(
                ApiErrorCode::SessionNotFound,
                "Session does not exist: ".to_string().concat(id.as_str()),
                STATUS_NOT_FOUND,
            ),
            RuntimeErrorKind::FlowNotFound(id) => Self::new(
                ApiErrorCode::FlowNotFound,
                "Flow not found: ".to_string().concat(id.as_str()),
                STATUS_NOT_FOUND,
            ),
            RuntimeErrorKind::SessionFinished => Self::new(
                ApiErrorCode::SessionFinished,
                "Session is finished".to_string(),
                STATUS_CONFLICT,
            ),
            RuntimeErrorKind::InvalidStateTransition
            | RuntimeErrorKind::ModuleNotOpen
            | RuntimeErrorKind::ModuleAlreadyOpen
            | RuntimeErrorKind::PauseRequiredBeforeModule
            | RuntimeErrorKind::NoPausedNode => Self::new(ApiErrorCode::InvalidState, text, STATUS_CONFLICT),
            RuntimeErrorKind::TransitionNotFound
            | RuntimeErrorKind::NodeNotFound
            | RuntimeErrorKind::InvalidModuleRef
            | RuntimeErrorKind::ModuleNotFound
            | RuntimeErrorKind::ModuleSectionNotFound
            | RuntimeErrorKind::ModuleInstanceNotLoaded => Self::invalid_request(text),
            _ => Self::internal(text),
        }
    }
}

/// Why the API could not start.
pub enum ApiStartupError {
    Config(ConfigError),
    Startup(String),
}

impl ApiStartupError {
    /// The error as `Display` writes it: "config error: " and the configuration
    /// error's text, or "startup error: " and the cause.
    pub fn message(&self) -> (m: String)
        ensures
            match self {
                ApiStartupError::Config(ConfigError::Invalid(s)) => m@ == "config error: "@ + ("invalid configuration: "@ + s@),
                ApiStartupError::Startup(s) => m@ == "startup error: "@ + s@,
            },
    {
        match self {
            ApiStartupError::Config(c) => {
                let inner = c.text();
                "config error: ".to_string().concat(inner.as_str())
            },
            ApiStartupError::Startup(s) => "startup error: ".to_string().concat(s.as_str()),
        }
    }

    pub fn from_config(c: ConfigError) -> (e: ApiStartupError)
        ensures
            e == ApiStartupError::Config(c),
    {
        ApiStartupError::Config(c)
    }
}

} // verus!
