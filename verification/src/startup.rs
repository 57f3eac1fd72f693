//! Start-up decisions of the service: how logging is set up, when a Redis
//! connection attempt is retried, and how a fatal failure is reported.
use vstd::prelude::*;

use crate::config::AppConfig;

verus! {

/// How logging is set up: the filter directive to fall back on when the
/// default environment filter cannot be read, whether events are written as
/// JSON records, and the service identity that every JSON record carries.
#[derive(Clone, Debug)]
pub struct LogPlan {
    pub filter_directive: String,
    pub json: bool,
    pub service_name: String,
    pub service_version: String,
    pub env: String,
    pub node_hostname: String,
    pub tenant_id: String,
}

/// The logging set-up for `config`, given the value of `RUST_LOG` (`None`
/// when unset): the directive is that value, else the configured one; JSON
/// output is chosen exactly when the configured format is `json`, and the
/// records name the service `sip-registrar-service` with the configured
/// version, environment, host name and tenant.
pub fn log_plan(config: &AppConfig, rust_log_env: Option<String>) -> (p: LogPlan)
    ensures
        p.filter_directive@ == (match rust_log_env {
            Some(v) => v@,
            None => config.rust_log@,
        }),
        p.json == (config.log_format@ == "json"@),
        p.service_name@ == "sip-registrar-service"@,
        p.service_version@ == config.service_version@,
        p.env@ == config.env@,
        p.node_hostname@ == config.node_hostname@,
        p.tenant_id@ == config.tenant_id@,
{
    let filter_directive = match rust_log_env {
        Some(v) => v,
        None => config.rust_log.clone(),
    };
    let json_format = String::from_str("json");
    let json = config.log_format == json_format;
    LogPlan {
        filter_directive,
        json,
        service_name: String::from_str("sip-registrar-service"),
        service_version: config.service_version.clone(),
        env: config.env.clone(),
        node_hostname: config.node_hostname.clone(),
        tenant_id: config.tenant_id.clone(),
    }
}

/// The outcome of one attempt to connect to Redis.
#[derive(Clone, Copy, Debug, PartialEq, Eq, Structural)]
pub enum RedisConnectAttempt {
    /// The Redis URL could not be turned into a client.
    ClientRejected,
    /// The client could not open its connection.
    ConnectFailed,
    /// The connection is open.
    Connected,
}

/// What to do after a Redis connection attempt.
#[derive(Clone, Copy, Debug, PartialEq, Eq, Structural)]
pub enum ConnectAction {
    /// Use the open connection.
    UseConnection,
    /// Try again after this many seconds.
    RetryAfterSecs(u64),
}

/// The seconds between two Redis connection attempts.
pub const REDIS_RETRY_SECS: u64 = 5;

/// What to do after a Redis connection attempt: an open connection is used;
/// any failure is retried after five seconds, without limit.
pub fn next_connect_action(attempt: RedisConnectAttempt) -> (a: ConnectAction)
    ensures
        attempt == RedisConnectAttempt::Connected ==> a == ConnectAction::UseConnection,
        attempt != RedisConnectAttempt::Connected ==> a == ConnectAction::RetryAfterSecs(
            REDIS_RETRY_SECS,
        ),
{
    match attempt {
        RedisConnectAttempt::Connected => ConnectAction::UseConnection,
        _ => ConnectAction::RetryAfterSecs(REDIS_RETRY_SECS),
    }
}

/// When the service failed for good.
#[derive(Clone, Copy, Debug, PartialEq, Eq, Structural)]
pub enum FatalStage {
    /// While starting up.
    Bootstrap,
    /// While serving.
    Runtime,
}

/// The event name of a fatal report.
pub open spec fn fatal_event(stage: FatalStage) -> Seq<char> {
    match stage {
        FatalStage::Bootstrap => "BOOTSTRAP_FAILED"@,
        FatalStage::Runtime => "SERVICE_RUNTIME_CRASH"@,
    }
}

/// The text that precedes the error in the message of a fatal report.
pub open spec fn fatal_message_prefix(stage: FatalStage) -> Seq<char> {
    match stage {
        FatalStage::Bootstrap => "Kritik Hata: Uygulama başlatılamadı: "@,
        FatalStage::Runtime => "Uygulama çalışma zamanında çöktü: "@,
    }
}

/// A start-up failure is reported as `BOOTSTRAP_FAILED` and a failure while
/// serving as `SERVICE_RUNTIME_CRASH`; the two stages never share an event
/// name, and every message is its stage's prefix followed by the error.
pub proof fn lemma_fatal_reports()
    ensures
        fatal_event(FatalStage::Bootstrap) == "BOOTSTRAP_FAILED"@,
        fatal_event(FatalStage::Runtime) == "SERVICE_RUNTIME_CRASH"@,
        fatal_event(FatalStage::Bootstrap) != fatal_event(FatalStage::Runtime),
        fatal_message_prefix(FatalStage::Bootstrap) == "Kritik Hata: Uygulama başlatılamadı: "@,
        fatal_message_prefix(FatalStage::Runtime) == "Uygulama çalışma zamanında çöktü: "@,
{
    reveal_strlit("BOOTSTRAP_FAILED");
    reveal_strlit("SERVICE_RUNTIME_CRASH");
    assert("BOOTSTRAP_FAILED"@[0] != "SERVICE_RUNTIME_CRASH"@[0]);
}

impl FatalStage {
    /// The event name reported for a failure at this stage.
    pub fn event_name(&self) -> (e: String)
        ensures
            e@ == fatal_event(*self),
    {
        match self {
            FatalStage::Bootstrap => String::from_str("BOOTSTRAP_FAILED"),
            FatalStage::Runtime => String::from_str("SERVICE_RUNTIME_CRASH"),
        }
    }

    /// The message reported for a failure at this stage whose error prints
    /// as `error_debug`.
    pub fn message(&self, error_debug: &str) -> (m: String)
        ensures
            m@ == fatal_message_prefix(*self) + error_debug@,
    {
        let mut m = match self {
            FatalStage::Bootstrap => String::from_str("Kritik Hata: Uygulama başlatılamadı: "),
            FatalStage::Runtime => String::from_str("Uygulama çalışma zamanında çöktü: "),
        };
        m.append(error_debug);
        m
    }
}

} // verus!
