use vstd::prelude::*;

verus! {

/// A leaf value of the declarative configuration document, as the host
/// framework hands it over: a string, an unsigned number, or a boolean.
pub enum RawValue {
    Str(String),
    Num(u64),
    Bool(bool),
}

/// The unmaterialized configuration: one optional raw leaf per recognized
/// key. A key absent from the document is `None`; materialization then
/// applies that field's default, or fails if the field is required.
pub struct RawConfig {
    pub url: Option<RawValue>,
    pub topic: Option<RawValue>,
    pub client_id: Option<RawValue>,
    pub timeout: Option<RawValue>,
    pub payload_output_type: Option<RawValue>,
    pub subscribe_delay: Option<RawValue>,
    pub qos: Option<RawValue>,
    pub clean_session: Option<RawValue>,
}

impl RawConfig {
    /// A document that supplies no keys at all.
    pub fn empty() -> (r: Self)
        ensures
            r.url is None,
            r.topic is None,
            r.client_id is None,
            r.timeout is None,
            r.payload_output_type is None,
            r.subscribe_delay is None,
            r.qos is None,
            r.clean_session is None,
    {
        RawConfig {
            url: None,
            topic: None,
            client_id: None,
            timeout: None,
            payload_output_type: None,
            subscribe_delay: None,
            qos: None,
            clean_session: None,
        }
    }
}

} // verus!
