use sentiric_sip_registrar_service::config::{AppConfig, ConfigLoadError, EnvSnapshot};

fn s(v: &str) -> Option<String> {
    Some(v.to_string())
}

fn full_env() -> EnvSnapshot {
    EnvSnapshot {
        grpc_port: None,
        http_port: None,
        tenant_id: s("tenant-a"),
        redis_url: s("redis://localhost:6379"),
        user_service_url: s("https://user-service:13011"),
        sip_realm: None,
        env: None,
        rust_log: None,
        log_format: None,
        service_version: None,
        node_hostname: None,
        cert_path: s("/certs/cert.pem"),
        key_path: s("/certs/key.pem"),
        ca_path: s("/certs/ca.pem"),
    }
}

#[test]
fn defaults_fill_optional_settings() {
    let c = AppConfig::load_from_env(&full_env()).unwrap();
    assert_eq!(c.grpc_listen_addr.port, 13061);
    assert_eq!(c.http_listen_addr.port, 13060);
    assert_eq!(c.sip_realm, "sentiric_demo");
    assert_eq!(c.env, "production");
    assert_eq!(c.rust_log, "info");
    assert_eq!(c.log_format, "json");
    assert_eq!(c.service_version, "1.1.4");
    assert_eq!(c.node_hostname, "localhost");
    assert_eq!(c.tenant_id, "tenant-a");
    assert_eq!(c.redis_url, "redis://localhost:6379");
    assert_eq!(c.user_service_url, "https://user-service:13011");
    assert_eq!(c.cert_path, "/certs/cert.pem");
    assert_eq!(c.key_path, "/certs/key.pem");
    assert_eq!(c.ca_path, "/certs/ca.pem");
}

#[test]
fn given_settings_are_kept() {
    let mut env = full_env();
    env.grpc_port = s("50051");
    env.http_port = s("00080");
    env.sip_realm = s("example.org");
    env.env = s("staging");
    env.rust_log = s("debug");
    env.log_format = s("text");
    env.service_version = s("2.0.0");
    env.node_hostname = s("node-7");
    let c = AppConfig::load_from_env(&env).unwrap();
    assert_eq!(c.grpc_listen_addr.port, 50051);
    assert_eq!(c.http_listen_addr.port, 80);
    assert_eq!(c.sip_realm, "example.org");
    assert_eq!(c.env, "staging");
    assert_eq!(c.rust_log, "debug");
    assert_eq!(c.log_format, "text");
    assert_eq!(c.service_version, "2.0.0");
    assert_eq!(c.node_hostname, "node-7");
}

#[test]
fn port_edges() {
    let mut env = full_env();
    env.grpc_port = s("65535");
    env.http_port = s("0");
    let c = AppConfig::load_from_env(&env).unwrap();
    assert_eq!(c.grpc_listen_addr.port, 65535);
    assert_eq!(c.http_listen_addr.port, 0);

    for bad in ["65536", "", "+80", "80 ", "8a", "-1", "99999999999"] {
        let mut env = full_env();
        env.grpc_port = s(bad);
        assert_eq!(
            AppConfig::load_from_env(&env).unwrap_err(),
            ConfigLoadError::InvalidGrpcAddress,
            "{bad:?}"
        );
    }
}

#[test]
fn invalid_http_port_is_reported_after_grpc() {
    let mut env = full_env();
    env.http_port = s("http");
    assert_eq!(AppConfig::load_from_env(&env).unwrap_err(), ConfigLoadError::InvalidHttpAddress);
    env.grpc_port = s("x");
    assert_eq!(AppConfig::load_from_env(&env).unwrap_err(), ConfigLoadError::InvalidGrpcAddress);
}

#[test]
fn tenant_is_required_and_non_empty() {
    let mut env = full_env();
    env.tenant_id = None;
    assert_eq!(AppConfig::load_from_env(&env).unwrap_err(), ConfigLoadError::MissingTenantId);
    env.tenant_id = s("");
    assert_eq!(AppConfig::load_from_env(&env).unwrap_err(), ConfigLoadError::EmptyTenantId);
    env.redis_url = None;
    assert_eq!(AppConfig::load_from_env(&env).unwrap_err(), ConfigLoadError::EmptyTenantId);
}

#[test]
fn required_settings_in_order() {
    let mut env = full_env();
    env.ca_path = None;
    assert_eq!(AppConfig::load_from_env(&env).unwrap_err(), ConfigLoadError::MissingCaPath);
    env.key_path = None;
    assert_eq!(AppConfig::load_from_env(&env).unwrap_err(), ConfigLoadError::MissingKeyPath);
    env.cert_path = None;
    assert_eq!(AppConfig::load_from_env(&env).unwrap_err(), ConfigLoadError::MissingCertPath);
    env.user_service_url = None;
    assert_eq!(
        AppConfig::load_from_env(&env).unwrap_err(),
        ConfigLoadError::MissingUserServiceUrl
    );
    env.redis_url = None;
    assert_eq!(AppConfig::load_from_env(&env).unwrap_err(), ConfigLoadError::MissingRedisUrl);
}

#[test]
fn error_messages() {
    assert_eq!(ConfigLoadError::InvalidGrpcAddress.message(), "invalid socket address syntax");
    assert_eq!(ConfigLoadError::InvalidHttpAddress.message(), "invalid socket address syntax");
    assert_eq!(
        ConfigLoadError::MissingTenantId.message(),
        "[ARCH-COMPLIANCE] TENANT_ID env var zorunludur, tanımlanmamış"
    );
    assert_eq!(ConfigLoadError::EmptyTenantId.message(), "[ARCH-COMPLIANCE] TENANT_ID boş olamaz");
    assert_eq!(ConfigLoadError::MissingRedisUrl.message(), "ZORUNLU: REDIS_URL eksik");
    assert_eq!(
        ConfigLoadError::MissingUserServiceUrl.message(),
        "ZORUNLU: USER_SERVICE_TARGET_GRPC_URL eksik"
    );
    assert_eq!(ConfigLoadError::MissingCertPath.message(), "CERT PATH eksik");
    assert_eq!(ConfigLoadError::MissingKeyPath.message(), "KEY PATH eksik");
    assert_eq!(ConfigLoadError::MissingCaPath.message(), "ZORUNLU: GRPC_TLS_CA_PATH eksik");
}
