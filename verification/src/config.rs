//! Service configuration, loaded from a snapshot of the process environment.
use vstd::prelude::*;

use crate::text::{lemma_port_13060, lemma_port_13061, parse_port, port_value};

verus! {

/// The environment variables the configuration is read from, each `None`
/// when the variable is unset (or not valid Unicode).
#[derive(Clone, Debug)]
pub struct EnvSnapshot {
    /// `SIP_REGISTRAR_SERVICE_GRPC_PORT`
    pub grpc_port: Option<String>,
    /// `SIP_REGISTRAR_SERVICE_HTTP_PORT`
    pub http_port: Option<String>,
    /// `TENANT_ID`
    pub tenant_id: Option<String>,
    /// `REDIS_URL`
    pub redis_url: Option<String>,
    /// `USER_SERVICE_TARGET_GRPC_URL`
    pub user_service_url: Option<String>,
    /// `SIP_SIGNALING_SERVICE_REALM`
    pub sip_realm: Option<String>,
    /// `ENV`
    pub env: Option<String>,
    /// `RUST_LOG`
    pub rust_log: Option<String>,
    /// `LOG_FORMAT`
    pub log_format: Option<String>,
    /// `SERVICE_VERSION`
    pub service_version: Option<String>,
    /// `NODE_HOSTNAME`
    pub node_hostname: Option<String>,
    /// `SIP_REGISTRAR_SERVICE_CERT_PATH`
    pub cert_path: Option<String>,
    /// `SIP_REGISTRAR_SERVICE_KEY_PATH`
    pub key_path: Option<String>,
    /// `GRPC_TLS_CA_PATH`
    pub ca_path: Option<String>,
}

/// A listening address on every IPv6 (and mapped IPv4) interface, `[::]:port`.
#[derive(Clone, Copy, Debug, PartialEq, Eq, Structural)]
pub struct ListenAddr {
    pub port: u16,
}

/// The configuration of the service.
#[derive(Clone, Debug)]
pub struct AppConfig {
    pub grpc_listen_addr: ListenAddr,
    pub http_listen_addr: ListenAddr,
    pub redis_url: String,
    pub user_service_url: String,
    pub sip_realm: String,
    pub env: String,
    pub rust_log: String,
    pub log_format: String,
    pub node_hostname: String,
    pub service_version: String,
    pub cert_path: String,
    pub key_path: String,
    pub ca_path: String,
    pub tenant_id: String,
}

/// Why the configuration could not be loaded.
#[derive(Clone, Copy, Debug, PartialEq, Eq, Structural)]
pub enum ConfigLoadError {
    /// `[::]:` followed by the gRPC port is no socket address.
    InvalidGrpcAddress,
    /// `[::]:` followed by the HTTP port is no socket address.
    InvalidHttpAddress,
    /// `TENANT_ID` is unset.
    MissingTenantId,
    /// `TENANT_ID` is empty.
    EmptyTenantId,
    /// `REDIS_URL` is unset.
    MissingRedisUrl,
    /// `USER_SERVICE_TARGET_GRPC_URL` is unset.
    MissingUserServiceUrl,
    /// `SIP_REGISTRAR_SERVICE_CERT_PATH` is unset.
    MissingCertPath,
    /// `SIP_REGISTRAR_SERVICE_KEY_PATH` is unset.
    MissingKeyPath,
    /// `GRPC_TLS_CA_PATH` is unset.
    MissingCaPath,
}

/// The text of `v`, or `default` when it is unset.
pub open spec fn text_or(v: Option<String>, default: Seq<char>) -> Seq<char> {
    match v {
        Some(s) => s@,
        None => default,
    }
}

/// The text of the gRPC port setting.
pub open spec fn grpc_port_text(env: EnvSnapshot) -> Seq<char> {
    text_or(env.grpc_port, "13061"@)
}

/// The text of the HTTP port setting.
pub open spec fn http_port_text(env: EnvSnapshot) -> Seq<char> {
    text_or(env.http_port, "13060"@)
}

/// The first problem met while loading from `env`, in the order the settings
/// are checked: the gRPC address, the HTTP address, the tenant, then the
/// required Redis URL, user-service URL, certificate, key and CA paths.
pub open spec fn config_load_error(env: EnvSnapshot) -> Option<ConfigLoadError> {
    if port_value(grpc_port_text(env)) is None {
        Some(ConfigLoadError::InvalidGrpcAddress)
    } else if port_value(http_port_text(env)) is None {
        Some(ConfigLoadError::InvalidHttpAddress)
    } else if env.tenant_id is None {
        Some(ConfigLoadError::MissingTenantId)
    } else if env.tenant_id.unwrap()@.len() == 0 {
        Some(ConfigLoadError::EmptyTenantId)
    } else if env.redis_url is None {
        Some(ConfigLoadError::MissingRedisUrl)
    } else if env.user_service_url is None {
        Some(ConfigLoadError::MissingUserServiceUrl)
    } else if env.cert_path is None {
        Some(ConfigLoadError::MissingCertPath)
    } else if env.key_path is None {
        Some(ConfigLoadError::MissingKeyPath)
    } else if env.ca_path is None {
        Some(ConfigLoadError::MissingCaPath)
    } else {
        None
    }
}

/// `c` is the configuration that `env` describes: the parsed ports, the
/// required settings as given, and the optional ones as given or defaulted.
pub open spec fn config_from_env(c: AppConfig, env: EnvSnapshot) -> bool {
    &&& port_value(grpc_port_text(env)) == Some(c.grpc_listen_addr.port)
    &&& port_value(http_port_text(env)) == Some(c.http_listen_addr.port)
    &&& env.tenant_id matches Some(t) && c.tenant_id@ == t@
    &&& env.redis_url matches Some(v) && c.redis_url@ == v@
    &&& env.user_service_url matches Some(v) && c.user_service_url@ == v@
    &&& env.cert_path matches Some(v) && c.cert_path@ == v@
    &&& env.key_path matches Some(v) && c.key_path@ == v@
    &&& env.ca_path matches Some(v) && c.ca_path@ == v@
    &&& c.sip_realm@ == text_or(env.sip_realm, "sentiric_demo"@)
    &&& c.env@ == text_or(env.env, "production"@)
    &&& c.rust_log@ == text_or(env.rust_log, "info"@)
    &&& c.log_format@ == text_or(env.log_format, "json"@)
    &&& c.service_version@ == text_or(env.service_version, "1.1.4"@)
    &&& c.node_hostname@ == text_or(env.node_hostname, "localhost"@)
}

/// The gRPC port text is `SIP_REGISTRAR_SERVICE_GRPC_PORT` when set and
/// `13061` otherwise; the HTTP port text is `SIP_REGISTRAR_SERVICE_HTTP_PORT`
/// when set and `13060` otherwise. Neither depends on any other setting.
pub proof fn lemma_default_ports(env: EnvSnapshot)
    ensures
        env.grpc_port is None ==> port_value(grpc_port_text(env)) == Some(13061u16),
        env.http_port is None ==> port_value(http_port_text(env)) == Some(13060u16),
        env.grpc_port matches Some(t) ==> grpc_port_text(env) == t@,
        env.http_port matches Some(t) ==> http_port_text(env) == t@,
{
    lemma_port_13061();
    lemma_port_13060();
}

/// Two environments that differ only in the gRPC port setting give the same
/// HTTP port text, and two that differ only in the HTTP port setting give
/// the same gRPC port text.
pub proof fn lemma_port_texts_independent(env: EnvSnapshot, grpc_port: Option<String>, http_port: Option<String>)
    ensures
        http_port_text(EnvSnapshot { grpc_port, ..env }) == http_port_text(env),
        grpc_port_text(EnvSnapshot { http_port, ..env }) == grpc_port_text(env),
{
}

/// Loading succeeds when both ports are left at their defaults, the tenant
/// is set and non-empty, and every required setting is present; it then
/// listens on 13061 (gRPC) and 13060 (HTTP).
pub proof fn lemma_load_succeeds_with_required_settings(env: EnvSnapshot)
    requires
        env.grpc_port is None,
        env.http_port is None,
        env.tenant_id matches Some(t) && t@.len() > 0,
        env.redis_url is Some,
        env.user_service_url is Some,
        env.cert_path is Some,
        env.key_path is Some,
        env.ca_path is Some,
    ensures
        config_load_error(env) is None,
        forall|c: AppConfig| #[trigger] config_from_env(c, env) ==> c.grpc_listen_addr.port == 13061
            && c.http_listen_addr.port == 13060,
{
    lemma_default_ports(env);
}

/// A missing or empty tenant, or a missing required setting, makes loading
/// fail whatever the other settings hold, once the ports are valid.
pub proof fn lemma_load_fails_without_required_settings(env: EnvSnapshot)
    requires
        port_value(grpc_port_text(env)) is Some,
        port_value(http_port_text(env)) is Some,
    ensures
        env.tenant_id is None ==> config_load_error(env) == Some(ConfigLoadError::MissingTenantId),
        env.tenant_id matches Some(t) && t@.len() == 0 ==> config_load_error(env) == Some(
            ConfigLoadError::EmptyTenantId,
        ),
        env.redis_url is None ==> config_load_error(env) is Some,
        env.user_service_url is None ==> config_load_error(env) is Some,
        env.cert_path is None ==> config_load_error(env) is Some,
        env.key_path is None ==> config_load_error(env) is Some,
        env.ca_path is None ==> config_load_error(env) is Some,
{
}

/// A port setting that is not a port makes loading fail with the address
/// error of that port (the gRPC one first).
pub proof fn lemma_load_fails_on_bad_port(env: EnvSnapshot)
    ensures
        port_value(grpc_port_text(env)) is None ==> config_load_error(env) == Some(
            ConfigLoadError::InvalidGrpcAddress,
        ),
        port_value(grpc_port_text(env)) is Some && port_value(http_port_text(env)) is None
            ==> config_load_error(env) == Some(ConfigLoadError::InvalidHttpAddress),
{
}

/// The message that reports `e`.
pub open spec fn config_error_message(e: ConfigLoadError) -> Seq<char> {
    match e {
        ConfigLoadError::InvalidGrpcAddress => "invalid socket address syntax"@,
        ConfigLoadError::InvalidHttpAddress => "invalid socket address syntax"@,
        ConfigLoadError::MissingTenantId =>
            "[ARCH-COMPLIANCE] TENANT_ID env var zorunludur, tanımlanmamış"@,
        ConfigLoadError::EmptyTenantId => "[ARCH-COMPLIANCE] TENANT_ID boş olamaz"@,
        ConfigLoadError::MissingRedisUrl => "ZORUNLU: REDIS_URL eksik"@,
        ConfigLoadError::MissingUserServiceUrl => "ZORUNLU: USER_SERVICE_TARGET_GRPC_URL eksik"@,
        ConfigLoadError::MissingCertPath => "CERT PATH eksik"@,
        ConfigLoadError::MissingKeyPath => "KEY PATH eksik"@,
        ConfigLoadError::MissingCaPath => "ZORUNLU: GRPC_TLS_CA_PATH eksik"@,
    }
}

/// Each problem is reported with the text the service has always used for
/// it; both address problems share the socket-address parse message.
pub proof fn lemma_config_error_messages()
    ensures
        config_error_message(ConfigLoadError::InvalidGrpcAddress) == "invalid socket address syntax"@,
        config_error_message(ConfigLoadError::InvalidHttpAddress) == "invalid socket address syntax"@,
        config_error_message(ConfigLoadError::MissingTenantId)
            == "[ARCH-COMPLIANCE] TENANT_ID env var zorunludur, tanımlanmamış"@,
        config_error_message(ConfigLoadError::EmptyTenantId)
            == "[ARCH-COMPLIANCE] TENANT_ID boş olamaz"@,
        config_error_message(ConfigLoadError::MissingRedisUrl) == "ZORUNLU: REDIS_URL eksik"@,
        config_error_message(ConfigLoadError::MissingUserServiceUrl)
            == "ZORUNLU: USER_SERVICE_TARGET_GRPC_URL eksik"@,
        config_error_message(ConfigLoadError::MissingCertPath) == "CERT PATH eksik"@,
        config_error_message(ConfigLoadError::MissingKeyPath) == "KEY PATH eksik"@,
        config_error_message(ConfigLoadError::MissingCaPath) == "ZORUNLU: GRPC_TLS_CA_PATH eksik"@,
{
}

impl ConfigLoadError {
    /// The message that reports this error.
    pub fn message(&self) -> (m: String)
        ensures
            m@ == config_error_message(*self),
    {
        match self {
            ConfigLoadError::InvalidGrpcAddress => String::from_str("invalid socket address syntax"),
            ConfigLoadError::InvalidHttpAddress => String::from_str("invalid socket address syntax"),
            ConfigLoadError::MissingTenantId => String::from_str(
                "[ARCH-COMPLIANCE] TENANT_ID env var zorunludur, tanımlanmamış",
            ),
            ConfigLoadError::EmptyTenantId => String::from_str(
                "[ARCH-COMPLIANCE] TENANT_ID boş olamaz",
            ),
            ConfigLoadError::MissingRedisUrl => String::from_str("ZORUNLU: REDIS_URL eksik"),
            ConfigLoadError::MissingUserServiceUrl => String::from_str(
                "ZORUNLU: USER_SERVICE_TARGET_GRPC_URL eksik",
            ),
            ConfigLoadError::MissingCertPath => String::from_str("CERT PATH eksik"),
            ConfigLoadError::MissingKeyPath => String::from_str("KEY PATH eksik"),
            ConfigLoadError::MissingCaPath => String::from_str("ZORUNLU: GRPC_TLS_CA_PATH eksik"),
        }
    }
}

/// The text of `v`, or `default` when it is unset.
fn value_or(v: &Option<String>, default: &str) -> (r: String)
    ensures
        r@ == text_or(*v, default@),
{
    match v {
        Some(s) => s.clone(),
        None => default.to_owned(),
    }
}

/// The value of a required setting, or `missing` when it is unset.
fn required(v: &Option<String>, missing: ConfigLoadError) -> (r: Result<String, ConfigLoadError>)
    ensures
        match r {
            Ok(s) => v matches Some(t) && s@ == t@,
            Err(e) => v is None && e == missing,
        },
{
    match v {
        Some(s) => Ok(s.clone()),
        None => Err(missing),
    }
}

impl AppConfig {
    /// Loads the configuration from a snapshot of the environment: the ports
    /// default to 13061 (gRPC) and 13060 (HTTP) and must form `[::]:port`
    /// addresses; `TENANT_ID` must be set and non-empty; the Redis URL,
    /// user-service URL, certificate, key and CA paths are required; the
    /// other settings have defaults. Fails with the first problem met.
    pub fn load_from_env(env: &EnvSnapshot) -> (r: Result<AppConfig, ConfigLoadError>)
        ensures
            match r {
                Ok(c) => config_load_error(*env) is None && config_from_env(c, *env),
                Err(e) => config_load_error(*env) == Some(e),
            },
            r matches Ok(c) ==> (env.grpc_port is None ==> c.grpc_listen_addr.port == 13061),
            r matches Ok(c) ==> (env.http_port is None ==> c.http_listen_addr.port == 13060),
            r matches Ok(c) ==> (env.grpc_port matches Some(t) ==> port_value(t@) == Some(
                c.grpc_listen_addr.port,
            )),
            r matches Ok(c) ==> (env.http_port matches Some(t) ==> port_value(t@) == Some(
                c.http_listen_addr.port,
            )),
    {
        proof {
            lemma_default_ports(*env);
        }
        let grpc_text = value_or(&env.grpc_port, "13061");
        let grpc_port = match parse_port(grpc_text.as_str()) {
            Some(p) => p,
            None => return Err(ConfigLoadError::InvalidGrpcAddress),
        };
        let http_text = value_or(&env.http_port, "13060");
        let http_port = match parse_port(http_text.as_str()) {
            Some(p) => p,
            None => return Err(ConfigLoadError::InvalidHttpAddress),
        };
        let tenant_id = match &env.tenant_id {
            Some(t) => t.clone(),
            None => return Err(ConfigLoadError::MissingTenantId),
        };
        if tenant_id.as_str().is_empty() {
            return Err(ConfigLoadError::EmptyTenantId);
        }
        let redis_url = required(&env.redis_url, ConfigLoadError::MissingRedisUrl)?;
        let user_service_url = required(
            &env.user_service_url,
            ConfigLoadError::MissingUserServiceUrl,
        )?;
        let sip_realm = value_or(&env.sip_realm, "sentiric_demo");
        let env_name = value_or(&env.env, "production");
        let rust_log = value_or(&env.rust_log, "info");
        let log_format = value_or(&env.log_format, "json");
        let service_version = value_or(&env.service_version, "1.1.4");
        let node_hostname = value_or(&env.node_hostname, "localhost");
        let cert_path = required(&env.cert_path, ConfigLoadError::MissingCertPath)?;
        let key_path = required(&env.key_path, ConfigLoadError::MissingKeyPath)?;
        let ca_path = required(&env.ca_path, ConfigLoadError::MissingCaPath)?;
        Ok(AppConfig {
            grpc_listen_addr: ListenAddr { port: grpc_port },
            http_listen_addr: ListenAddr { port: http_port },
            redis_url,
            user_service_url,
            sip_realm,
            env: env_name,
            rust_log,
            log_format,
            node_hostname,
            service_version,
            cert_path,
            key_path,
            ca_path,
            tenant_id,
        })
    }
}

} // verus!
