use sentiric_sip_registrar_service::error::{Code, ServiceError, Status};

#[test]
fn carried_status_passes_through() {
    let s = Status::new(Code::NotFound, "no such user".to_string());
    let out = ServiceError::GrpcStatus(s).into_status();
    assert_eq!(out.code, Code::NotFound);
    assert_eq!(out.message, "no such user");
}

#[test]
fn redis_error_is_internal() {
    let out = ServiceError::RedisError("connection refused".to_string()).into_status();
    assert_eq!(out.code, Code::Internal);
    assert_eq!(out.message, "Redis hatası: connection refused");
}

#[test]
fn transport_error_is_unavailable() {
    let out = ServiceError::GrpcTransportError("transport error".to_string()).into_status();
    assert_eq!(out.code, Code::Unavailable);
    assert_eq!(out.message, "gRPC bağlantı hatası: transport error");
}

#[test]
fn config_error_is_internal_with_pretty_debug() {
    let out = ServiceError::ConfigError("\"TENANT_ID missing\"".to_string()).into_status();
    assert_eq!(out.code, Code::Internal);
    assert_eq!(out.message, "ConfigError(\n    \"TENANT_ID missing\",\n)");
}

#[test]
fn io_error_is_internal_with_pretty_debug() {
    let out = ServiceError::Io("Kind(\n    NotFound,\n)".to_string()).into_status();
    assert_eq!(out.code, Code::Internal);
    assert_eq!(out.message, "Io(\n    Kind(\n        NotFound,\n    ),\n)");
}

#[test]
fn status_constructors() {
    assert_eq!(Status::internal("a".to_string()).code, Code::Internal);
    assert_eq!(Status::unavailable("a".to_string()).code, Code::Unavailable);
    assert_eq!(Status::invalid_argument("a".to_string()).code, Code::InvalidArgument);
    let s = Status::unauthenticated("b".to_string());
    assert_eq!(s.code, Code::Unauthenticated);
    assert_eq!(s.message, "b");
}
