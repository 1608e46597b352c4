use vstd::prelude::*;
use vstd::string::*;
use crate::delivery::DeliveryPolicy;
use crate::probe::ProbeTiming;
use crate::text::{decimal_spec, decimal_text};

verus! {

/// The boolean member `key` of the JSON document `text`: present where `text`
/// parses as JSON, holds an object, and that object's member `key` is a
/// boolean.
pub uninterp spec fn json_bool_member(text: Seq<char>, key: Seq<char>) -> Option<bool>;

/// Relies on `serde_json::from_str` (into a `serde_json::Value`), then
/// `Value::get` and `Value::as_bool`: the boolean member `key` of the document
/// `text`, where there is one.
#[verifier::external_body]
fn read_json_bool_member(text: &str, key: &str) -> (r: Option<bool>)
    ensures
        r == json_bool_member(text@, key@),
{
    match serde_json::from_str::<serde_json::Value>(text) {
        Ok(v) => v.get(key).and_then(serde_json::Value::as_bool),
        Err(_) => None,
    }
}

/// The configuration key that switches single-instance mode.
pub const SINGLE_INSTANCE_KEY: &'static str = "singleInstance";

/// Single-instance mode is on unless the configuration document holds
/// `singleInstance: false`; a missing or malformed document leaves it on.
pub open spec fn single_instance_spec(config_text: Option<Seq<char>>) -> bool {
    match config_text {
        Some(t) => match json_bool_member(t, SINGLE_INSTANCE_KEY@) {
            Some(b) => b,
            None => true,
        },
        None => true,
    }
}

pub open spec fn opt_text(o: Option<&str>) -> Option<Seq<char>> {
    match o {
        Some(s) => Some(s@),
        None => None,
    }
}

/// Whether single-instance mode is on, given the text of the configuration
/// document (`None` where it could not be read).
pub fn is_single_instance_mode(config_text: Option<&str>) -> (r: bool)
    ensures
        r == single_instance_spec(opt_text(config_text)),
{
    match config_text {
        Some(t) => match read_json_bool_member(t, SINGLE_INSTANCE_KEY) {
            Some(b) => b,
            None => true,
        },
        None => true,
    }
}

pub const STARTUP_TIMEOUT_MS: u64 = 30000;
pub const HEALTH_CHECK_INTERVAL_MS: u64 = 200;
pub const PORT_POLL_MS: u64 = 100;
pub const EMIT_MAX_ATTEMPTS: u32 = 20;
pub const EMIT_INTERVAL_MS: u64 = 100;
pub const HEALTH_PATH: &'static str = "/actuator/health";

/// Process-wide launch settings, loaded once at startup.
#[derive(Clone, Copy, Debug)]
pub struct LaunchConfig {
    pub startup_timeout_ms: u64,
    pub health_check_interval_ms: u64,
    pub port_poll_ms: u64,
    pub emit_max_attempts: u32,
    pub emit_interval_ms: u64,
    pub single_instance: bool,
}

impl LaunchConfig {
    /// All durations and budgets are positive, and the derived timing and
    /// delivery policy are well formed.
    pub open spec fn wf(&self) -> bool {
        &&& self.probe_timing_spec().wf()
        &&& self.delivery_policy_spec().wf()
    }

    pub open spec fn probe_timing_spec(&self) -> ProbeTiming {
        ProbeTiming {
            startup_timeout_ms: self.startup_timeout_ms,
            health_poll_ms: self.health_check_interval_ms,
            port_poll_ms: self.port_poll_ms,
        }
    }

    pub open spec fn delivery_policy_spec(&self) -> DeliveryPolicy {
        DeliveryPolicy { max_attempts: self.emit_max_attempts, interval_ms: self.emit_interval_ms }
    }

    /// The launch settings, given the text of the configuration document
    /// (`None` where it could not be read).
    pub fn load(config_text: Option<&str>) -> (r: LaunchConfig)
        ensures
            r.wf(),
            r.startup_timeout_ms == STARTUP_TIMEOUT_MS,
            r.health_check_interval_ms == HEALTH_CHECK_INTERVAL_MS,
            r.port_poll_ms == PORT_POLL_MS,
            r.emit_max_attempts == EMIT_MAX_ATTEMPTS,
            r.emit_interval_ms == EMIT_INTERVAL_MS,
            r.single_instance == single_instance_spec(opt_text(config_text)),
    {
        LaunchConfig {
            startup_timeout_ms: STARTUP_TIMEOUT_MS,
            health_check_interval_ms: HEALTH_CHECK_INTERVAL_MS,
            port_poll_ms: PORT_POLL_MS,
            emit_max_attempts: EMIT_MAX_ATTEMPTS,
            emit_interval_ms: EMIT_INTERVAL_MS,
            single_instance: is_single_instance_mode(config_text),
        }
    }

    pub fn probe_timing(&self) -> (r: ProbeTiming)
        ensures
            r == self.probe_timing_spec(),
    {
        ProbeTiming {
            startup_timeout_ms: self.startup_timeout_ms,
            health_poll_ms: self.health_check_interval_ms,
            port_poll_ms: self.port_poll_ms,
        }
    }

    pub fn delivery_policy(&self) -> (r: DeliveryPolicy)
        ensures
            r == self.delivery_policy_spec(),
    {
        DeliveryPolicy { max_attempts: self.emit_max_attempts, interval_ms: self.emit_interval_ms }
    }
}

/// The address of the backend's health endpoint on `port`.
pub open spec fn health_url_spec(port: u16) -> Seq<char> {
    "http://localhost:"@ + decimal_spec(port as nat) + HEALTH_PATH@
}

pub fn health_url(port: u16) -> (r: String)
    ensures
        r@ == health_url_spec(port),
{
    let mut s = String::from_str("http://localhost:");
    let digits = decimal_text(port as u64);
    s.append(digits.as_str());
    s.append(HEALTH_PATH);
    s
}

} // verus!
