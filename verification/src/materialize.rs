use vstd::prelude::*;
use crate::config::ConfigField;
use crate::config::DEFAULT_TIMEOUT_SECS;
use crate::config::MqttConfig;
use crate::config::OutputType;
use crate::config::SchemaError;
use crate::config::default_clean_session;
use crate::config::default_timeout;
use crate::config::output_type_of_token;
use crate::raw::RawConfig;
use crate::raw::RawValue;
use crate::secret::SecretString;
use crate::text::is_uuid_v4_text;

verus! {

/// What the `url` leaf contributes to failure: the field is required and
/// must be a non-empty string.
pub open spec fn url_error(v: Option<RawValue>) -> Option<SchemaError> {
    match v {
        Option::None => Option::Some(SchemaError::MissingRequiredField(ConfigField::Url)),
        Option::Some(RawValue::Str(s)) => if s@.len() == 0 {
            Option::Some(SchemaError::MissingRequiredField(ConfigField::Url))
        } else {
            Option::None
        },
        Option::Some(_) => Option::Some(SchemaError::TypeMismatch(ConfigField::Url)),
    }
}

/// What the `topic` leaf contributes to failure: the field is required and
/// must be a string.
pub open spec fn topic_error(v: Option<RawValue>) -> Option<SchemaError> {
    match v {
        Option::None => Option::Some(SchemaError::MissingRequiredField(ConfigField::Topic)),
        Option::Some(RawValue::Str(_)) => Option::None,
        Option::Some(_) => Option::Some(SchemaError::TypeMismatch(ConfigField::Topic)),
    }
}

/// What the `client_id` leaf contributes to failure: optional, but a
/// supplied leaf must be a string.
pub open spec fn client_id_error(v: Option<RawValue>) -> Option<SchemaError> {
    match v {
        Option::None => Option::None,
        Option::Some(RawValue::Str(_)) => Option::None,
        Option::Some(_) => Option::Some(SchemaError::TypeMismatch(ConfigField::ClientId)),
    }
}

/// What a duration-valued leaf contributes to failure: optional, but a
/// supplied leaf must be a number of seconds.
pub open spec fn duration_error(f: ConfigField, v: Option<RawValue>) -> Option<SchemaError> {
    match v {
        Option::None => Option::None,
        Option::Some(RawValue::Num(_)) => Option::None,
        Option::Some(_) => Option::Some(SchemaError::TypeMismatch(f)),
    }
}

/// What the `payload_output_type` leaf contributes to failure: optional,
/// but a supplied leaf must be a string naming one of the two variants.
pub open spec fn output_type_error(v: Option<RawValue>) -> Option<SchemaError> {
    match v {
        Option::None => Option::None,
        Option::Some(RawValue::Str(s)) => if output_type_of_token(s@) is Ok {
            Option::None
        } else {
            Option::Some(SchemaError::InvalidEnum)
        },
        Option::Some(_) => Option::Some(SchemaError::TypeMismatch(ConfigField::PayloadOutputType)),
    }
}

/// What the `qos` leaf contributes to failure: optional, but a supplied
/// leaf must be a number in 0..=2.
pub open spec fn qos_error(v: Option<RawValue>) -> Option<SchemaError> {
    match v {
        Option::None => Option::None,
        Option::Some(RawValue::Num(n)) => if n <= 2 {
            Option::None
        } else {
            Option::Some(SchemaError::TypeMismatch(ConfigField::Qos))
        },
        Option::Some(_) => Option::Some(SchemaError::TypeMismatch(ConfigField::Qos)),
    }
}

/// What the `clean_session` leaf contributes to failure: optional, but a
/// supplied leaf must be a boolean.
pub open spec fn clean_session_error(v: Option<RawValue>) -> Option<SchemaError> {
    match v {
        Option::None => Option::None,
        Option::Some(RawValue::Bool(_)) => Option::None,
        Option::Some(_) => Option::Some(SchemaError::TypeMismatch(ConfigField::CleanSession)),
    }
}

/// The error materialization surfaces, if any: the fields are checked in a
/// fixed order — url, topic, client_id, timeout, payload_output_type,
/// subscribe_delay, qos, clean_session — and the first failing field wins.
pub open spec fn first_error(raw: RawConfig) -> Option<SchemaError> {
    if url_error(raw.url) is Some {
        url_error(raw.url)
    } else if topic_error(raw.topic) is Some {
        topic_error(raw.topic)
    } else if client_id_error(raw.client_id) is Some {
        client_id_error(raw.client_id)
    } else if duration_error(ConfigField::Timeout, raw.timeout) is Some {
        duration_error(ConfigField::Timeout, raw.timeout)
    } else if output_type_error(raw.payload_output_type) is Some {
        output_type_error(raw.payload_output_type)
    } else if duration_error(ConfigField::SubscribeDelay, raw.subscribe_delay) is Some {
        duration_error(ConfigField::SubscribeDelay, raw.subscribe_delay)
    } else if qos_error(raw.qos) is Some {
        qos_error(raw.qos)
    } else if clean_session_error(raw.clean_session) is Some {
        clean_session_error(raw.clean_session)
    } else {
        Option::None
    }
}

/// The secret endpoint a successful materialization carries.
pub open spec fn resolved_url(v: Option<RawValue>) -> Seq<char> {
    match v {
        Option::Some(RawValue::Str(s)) => s@,
        _ => Seq::empty(),
    }
}

/// The topic filter a successful materialization carries.
pub open spec fn resolved_topic(v: Option<RawValue>) -> Seq<char> {
    match v {
        Option::Some(RawValue::Str(s)) => s@,
        _ => Seq::empty(),
    }
}

/// The client identity a successful materialization carries: the supplied
/// string, or the freshly generated identity when the key is absent.
pub open spec fn resolved_client_id(v: Option<RawValue>, generated: Seq<char>) -> Seq<char> {
    match v {
        Option::Some(RawValue::Str(s)) => s@,
        _ => generated,
    }
}

/// The timeout a successful materialization carries: the supplied number of
/// seconds, or 60 when the key is absent.
pub open spec fn resolved_timeout(v: Option<RawValue>) -> u64 {
    match v {
        Option::Some(RawValue::Num(n)) => n,
        _ => DEFAULT_TIMEOUT_SECS,
    }
}

/// The output encoding a successful materialization carries: the variant
/// the supplied token names, or `Binary` when the key is absent.
pub open spec fn resolved_output_type(v: Option<RawValue>) -> OutputType {
    match v {
        Option::Some(RawValue::Str(s)) => match output_type_of_token(s@) {
            Ok(t) => t,
            Err(_) => OutputType::Binary,
        },
        _ => OutputType::Binary,
    }
}

/// The subscribe delay a successful materialization carries: the supplied
/// number of seconds, or none when the key is absent.
pub open spec fn resolved_subscribe_delay(v: Option<RawValue>) -> Option<u64> {
    match v {
        Option::Some(RawValue::Num(n)) => Option::Some(n),
        _ => Option::None,
    }
}

/// The delivery-guarantee level a successful materialization carries: the
/// supplied number, or 0 when the key is absent.
pub open spec fn resolved_qos(v: Option<RawValue>) -> u8 {
    match v {
        Option::Some(RawValue::Num(n)) => n as u8,
        _ => 0,
    }
}

/// The clean-session flag a successful materialization carries: the
/// supplied boolean, or true when the key is absent.
pub open spec fn resolved_clean_session(v: Option<RawValue>) -> bool {
    match v {
        Option::Some(RawValue::Bool(b)) => b,
        _ => true,
    }
}

/// Materializes the configuration with the client identity to fall back on
/// already drawn, so that the whole step is deterministic: callers that
/// need a reproducible identity (tests among them) supply their own.
pub fn materialize_with_client_id(raw: &RawConfig, generated_client_id: String) -> (r: Result<
    MqttConfig,
    SchemaError,
>)
    ensures
        r is Ok <==> first_error(*raw) is None,
        r matches Err(e) ==> first_error(*raw) == Option::Some(e),
        r matches Ok(c) ==> {
            &&& c.url@ == resolved_url(raw.url)
            &&& c.topic@ == resolved_topic(raw.topic)
            &&& c.client_id@ == resolved_client_id(raw.client_id, generated_client_id@)
            &&& c.timeout == resolved_timeout(raw.timeout)
            &&& c.payload_output_type == resolved_output_type(raw.payload_output_type)
            &&& c.subscribe_delay == resolved_subscribe_delay(raw.subscribe_delay)
            &&& c.qos == resolved_qos(raw.qos)
            &&& c.clean_session == resolved_clean_session(raw.clean_session)
        },
{
    let url: SecretString = match &raw.url {
        Option::None => {
            return Err(SchemaError::MissingRequiredField(ConfigField::Url));
        },
        Option::Some(RawValue::Str(s)) => {
            if s.as_str().is_empty() {
                return Err(SchemaError::MissingRequiredField(ConfigField::Url));
            }
            SecretString::new(s.clone())
        },
        Option::Some(_) => {
            return Err(SchemaError::TypeMismatch(ConfigField::Url));
        },
    };
    let topic: String = match &raw.topic {
        Option::None => {
            return Err(SchemaError::MissingRequiredField(ConfigField::Topic));
        },
        Option::Some(RawValue::Str(s)) => s.clone(),
        Option::Some(_) => {
            return Err(SchemaError::TypeMismatch(ConfigField::Topic));
        },
    };
    let client_id: String = match &raw.client_id {
        Option::None => generated_client_id,
        Option::Some(RawValue::Str(s)) => s.clone(),
        Option::Some(_) => {
            return Err(SchemaError::TypeMismatch(ConfigField::ClientId));
        },
    };
    let timeout: u64 = match &raw.timeout {
        Option::None => default_timeout(),
        Option::Some(RawValue::Num(n)) => *n,
        Option::Some(_) => {
            return Err(SchemaError::TypeMismatch(ConfigField::Timeout));
        },
    };
    let payload_output_type: OutputType = match &raw.payload_output_type {
        Option::None => OutputType::default(),
        Option::Some(RawValue::Str(s)) => match OutputType::parse(s.as_str()) {
            Ok(t) => t,
            Err(e) => {
                return Err(e);
            },
        },
        Option::Some(_) => {
            return Err(SchemaError::TypeMismatch(ConfigField::PayloadOutputType));
        },
    };
    let subscribe_delay: Option<u64> = match &raw.subscribe_delay {
        Option::None => Option::None,
        Option::Some(RawValue::Num(n)) => Option::Some(*n),
        Option::Some(_) => {
            return Err(SchemaError::TypeMismatch(ConfigField::SubscribeDelay));
        },
    };
    let qos: u8 = match &raw.qos {
        Option::None => 0u8,
        Option::Some(RawValue::Num(n)) => {
            if *n <= 2 {
                *n as u8
            } else {
                return Err(SchemaError::TypeMismatch(ConfigField::Qos));
            }
        },
        Option::Some(_) => {
            return Err(SchemaError::TypeMismatch(ConfigField::Qos));
        },
    };
    let clean_session: bool = match &raw.clean_session {
        Option::None => default_clean_session(),
        Option::Some(RawValue::Bool(b)) => *b,
        Option::Some(_) => {
            return Err(SchemaError::TypeMismatch(ConfigField::CleanSession));
        },
    };
    Ok(
        MqttConfig {
            timeout,
            url,
            topic,
            client_id,
            payload_output_type,
            subscribe_delay,
            qos,
            clean_session,
        },
    )
}

/// Relies on `uuid::Uuid::new_v4` to draw a random version-4 UUID, and on
/// its `Display` form: 36 lowercase hyphenated characters with the version
/// and variant nibbles fixed. Nothing else is assumed of the drawn value;
/// in particular, two calls may or may not differ.
#[verifier::external_body]
fn default_client_id() -> (r: String)
    ensures
        is_uuid_v4_text(r@),
{
    uuid::Uuid::new_v4().to_string()
}

/// Materializes the configuration, drawing a fresh random client identity
/// when the document supplies none. That draw is the only effect: for a
/// document that does supply `client_id`, the result is a pure function of
/// the input.
pub fn materialize(raw: &RawConfig) -> (r: Result<MqttConfig, SchemaError>)
    ensures
        r is Ok <==> first_error(*raw) is None,
        r matches Err(e) ==> first_error(*raw) == Option::Some(e),
        r matches Ok(c) ==> {
            &&& c.url@ == resolved_url(raw.url)
            &&& c.topic@ == resolved_topic(raw.topic)
            &&& (raw.client_id matches Option::Some(RawValue::Str(s)) ==> c.client_id@ == s@)
            &&& (raw.client_id is None ==> is_uuid_v4_text(c.client_id@))
            &&& c.timeout == resolved_timeout(raw.timeout)
            &&& c.payload_output_type == resolved_output_type(raw.payload_output_type)
            &&& c.subscribe_delay == resolved_subscribe_delay(raw.subscribe_delay)
            &&& c.qos == resolved_qos(raw.qos)
            &&& c.clean_session == resolved_clean_session(raw.clean_session)
        },
{
    let generated: String = if raw.client_id.is_none() {
        default_client_id()
    } else {
        String::new()
    };
    materialize_with_client_id(raw, generated)
}

/// Omitting `timeout` resolves it to the 60-second default; a materialized
/// value's `timeout` equals this resolution.
pub proof fn lemma_timeout_defaults(raw: RawConfig)
    requires
        raw.timeout is None,
    ensures
        resolved_timeout(raw.timeout) == DEFAULT_TIMEOUT_SECS,
{
}

/// Omitting `qos` resolves it to 0, at-most-once delivery.
pub proof fn lemma_qos_defaults(raw: RawConfig)
    requires
        raw.qos is None,
    ensures
        resolved_qos(raw.qos) == 0,
{
}

/// Omitting `clean_session` resolves it to true: no session persistence.
pub proof fn lemma_clean_session_defaults(raw: RawConfig)
    requires
        raw.clean_session is None,
    ensures
        resolved_clean_session(raw.clean_session) == true,
{
}

/// Omitting `payload_output_type` resolves it to `Binary`.
pub proof fn lemma_output_type_defaults(raw: RawConfig)
    requires
        raw.payload_output_type is None,
    ensures
        resolved_output_type(raw.payload_output_type) == OutputType::Binary,
{
}

/// A document without `url` never materializes: the failure is
/// `MissingRequiredField` on `url`, whatever the other keys hold.
pub proof fn lemma_missing_url_fails(raw: RawConfig)
    requires
        raw.url is None,
    ensures
        first_error(raw) == Option::Some(
            SchemaError::MissingRequiredField(ConfigField::Url),
        ),
{
}

/// A document without `topic` never materializes: once `url` passes its
/// check, the failure is `MissingRequiredField` on `topic`.
pub proof fn lemma_missing_topic_fails(raw: RawConfig)
    requires
        url_error(raw.url) is None,
        raw.topic is None,
    ensures
        first_error(raw) == Option::Some(
            SchemaError::MissingRequiredField(ConfigField::Topic),
        ),
{
}

/// A document whose `qos` is a number above 2 never materializes: some
/// field fails validation, so no configuration with an out-of-range
/// delivery level is ever produced.
pub proof fn lemma_out_of_range_qos_rejected(raw: RawConfig)
    requires
        raw.qos matches Option::Some(RawValue::Num(n)) && n > 2,
    ensures
        first_error(raw) is Some,
{
}

} // verus!
