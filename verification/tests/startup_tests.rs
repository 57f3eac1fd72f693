use sentiric_sip_registrar_service::config::{AppConfig, EnvSnapshot};
use sentiric_sip_registrar_service::startup::{
    log_plan, next_connect_action, ConnectAction, FatalStage, RedisConnectAttempt,
};

fn config(log_format: Option<&str>) -> AppConfig {
    let s = |v: &str| Some(v.to_string());
    AppConfig::load_from_env(&EnvSnapshot {
        grpc_port: None,
        http_port: None,
        tenant_id: s("t"),
        redis_url: s("redis://r"),
        user_service_url: s("http://u"),
        sip_realm: None,
        env: None,
        rust_log: s("warn"),
        log_format: log_format.map(|v| v.to_string()),
        service_version: None,
        node_hostname: None,
        cert_path: s("c"),
        key_path: s("k"),
        ca_path: s("a"),
    })
    .unwrap()
}

#[test]
fn log_plan_prefers_environment_directive() {
    let p = log_plan(&config(None), Some("debug".to_string()));
    assert_eq!(p.filter_directive, "debug");
    assert!(p.json);
    let p = log_plan(&config(Some("compact")), None);
    assert_eq!(p.filter_directive, "warn");
    assert!(!p.json);
    assert!(!log_plan(&config(Some("JSON")), None).json);
}

#[test]
fn redis_connection_is_retried_every_five_seconds() {
    assert_eq!(next_connect_action(RedisConnectAttempt::Connected), ConnectAction::UseConnection);
    assert_eq!(
        next_connect_action(RedisConnectAttempt::ClientRejected),
        ConnectAction::RetryAfterSecs(5)
    );
    assert_eq!(
        next_connect_action(RedisConnectAttempt::ConnectFailed),
        ConnectAction::RetryAfterSecs(5)
    );
}

#[test]
fn fatal_reports() {
    assert_eq!(FatalStage::Bootstrap.event_name(), "BOOTSTRAP_FAILED");
    assert_eq!(FatalStage::Runtime.event_name(), "SERVICE_RUNTIME_CRASH");
    assert_eq!(
        FatalStage::Bootstrap.message("boom"),
        "Kritik Hata: Uygulama başlatılamadı: boom"
    );
    assert_eq!(
        FatalStage::Runtime.message("boom"),
        "Uygulama çalışma zamanında çöktü: boom"
    );
}

#[test]
fn log_plan_names_the_service() {
    let c = config(Some("json"));
    let p = log_plan(&c, None);
    assert_eq!(p.service_name, "sip-registrar-service");
    assert_eq!(p.service_version, "1.1.4");
    assert_eq!(p.env, "production");
    assert_eq!(p.node_hostname, "localhost");
    assert_eq!(p.tenant_id, "t");
}
