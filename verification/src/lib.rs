//! Configuration schema for an MQTT source connector.
//!
//! The library defines the shape of the connector's configuration — a
//! declarative record of connection parameters — together with its
//! defaulting and validation rules. Materialization turns a raw key/value
//! document into a fully populated, immutable [`config::MqttConfig`], or
//! fails with a [`config::SchemaError`]; there is no partial success.

pub mod config;
pub mod materialize;
pub mod raw;
pub mod render;
pub mod secret;
pub mod text;
