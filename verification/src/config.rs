use vstd::prelude::*;
use crate::secret::SecretString;
use crate::text::token_matches;
use crate::text::token_matches_exec;

verus! {

/// The timeout applied to network operations when the document supplies
/// none, in seconds.
pub const DEFAULT_TIMEOUT_SECS: u64 = 60;

/// The configuration keys the schema recognizes, used to say which field an
/// error is about.
#[derive(Clone, Copy, Debug, PartialEq, Eq, Structural)]
pub enum ConfigField {
    Url,
    Topic,
    ClientId,
    Timeout,
    PayloadOutputType,
    SubscribeDelay,
    Qos,
    CleanSession,
}

/// Why materialization failed. Every failure is terminal: either a complete
/// configuration is produced or one of these is surfaced to the caller.
#[derive(Clone, Copy, Debug, PartialEq, Eq, Structural)]
pub enum SchemaError {
    /// `url` or `topic` was absent (an empty `url` counts as absent).
    MissingRequiredField(ConfigField),
    /// A supplied leaf cannot be coerced to the field's declared type; also
    /// raised for a `qos` outside 0..=2.
    TypeMismatch(ConfigField),
    /// `payload_output_type` was supplied but is neither `binary` nor
    /// `json` (compared without regard to ASCII case).
    InvalidEnum,
}

/// How received payload bytes are encoded for downstream delivery: passed
/// through unchanged, or reinterpreted as JSON.
#[derive(Clone, Copy, Debug, PartialEq, Eq, Structural)]
pub enum OutputType {
    Binary,
    Json,
}

impl Default for OutputType {
    /// The default output encoding passes payload bytes through unchanged.
    fn default() -> (r: Self)
        ensures
            r == OutputType::Binary,
    {
        OutputType::Binary
    }
}

/// How an output-type token resolves: `binary` and `json` (in any ASCII
/// case) name the two variants; any other token is rejected.
pub open spec fn output_type_of_token(s: Seq<char>) -> Result<OutputType, SchemaError> {
    if token_matches(s, "binary"@) {
        Ok(OutputType::Binary)
    } else if token_matches(s, "json"@) {
        Ok(OutputType::Json)
    } else {
        Err(SchemaError::InvalidEnum)
    }
}

impl OutputType {
    /// Resolves a supplied output-type token, rejecting unrecognized ones.
    pub fn parse(token: &str) -> (r: Result<OutputType, SchemaError>)
        ensures
            r == output_type_of_token(token@),
    {
        if token_matches_exec(token, "binary") {
            Ok(OutputType::Binary)
        } else if token_matches_exec(token, "json") {
            Ok(OutputType::Json)
        } else {
            Err(SchemaError::InvalidEnum)
        }
    }
}

/// The materialized connector configuration: every optional field holds
/// either the supplied value or its default. Durations are in seconds. The
/// value is immutable once built and is only read by the connector runtime.
pub struct MqttConfig {
    /// Network operation timeout, in seconds.
    pub timeout: u64,
    /// Connection endpoint; secret, and redacted in every rendering.
    pub url: SecretString,
    /// Subscription topic filter.
    pub topic: String,
    /// Session identity presented to the broker.
    pub client_id: String,
    /// Encoding of received payload bytes for downstream delivery.
    pub payload_output_type: OutputType,
    /// Optional pause between connecting and subscribing, in seconds; works
    /// around brokers that drop subscriptions issued too early.
    pub subscribe_delay: Option<u64>,
    /// Delivery guarantee level: 0 at-most-once, 1 at-least-once, 2
    /// exactly-once. Never above 2 in a materialized value.
    pub qos: u8,
    /// When false, the broker keeps session state across reconnects, which
    /// also calls for a stable `client_id`.
    pub clean_session: bool,
}

/// Default for the `timeout` field, in seconds.
pub fn default_timeout() -> (r: u64)
    ensures
        r == DEFAULT_TIMEOUT_SECS,
{
    DEFAULT_TIMEOUT_SECS
}

/// Default for the `clean_session` flag: sessions are clean unless the
/// document asks for persistence.
pub fn default_clean_session() -> (r: bool)
    ensures
        r == true,
{
    true
}

} // verus!
