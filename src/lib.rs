//! Safe session layer over the mosquitto MQTT engine.
//!
//! The engine itself (network loop, wire protocol, TLS) is driven from outside
//! this library; what lives here are the decisions around it: the client
//! options and their validation, the process-wide library lifecycle, the
//! making of a session, the connection state machine with its handshake
//! rendezvous, the callback registry that routes engine events, and the
//! checks on publish and subscribe requests.

pub mod connection;
pub mod error;
pub mod handshake;
pub mod lifecycle;
pub mod options;
pub mod pubsub;
pub mod qos;
pub mod registry;
pub mod setup;

pub use connection::{ConnState, Connection, ConnectionView};
pub use error::{CertFile, Error, Result};
pub use handshake::{Handshake, HandshakeView};
pub use lifecycle::{LibraryLifecycle, LifecycleOp, LifecycleTally};
pub use options::{
    generated_client_id, MqttClientOptions, OptionsView, TlsFiles, DEFAULT_KEEP_ALIVE,
    DEFAULT_RETRY_TIME, WILL_QOS,
};
pub use pubsub::{check_topic, payload_len, publish_status, subscribe_status, MAX_PAYLOAD};
pub use qos::Qos;
pub use registry::{decode_payload, CallbackRegistry, Delivery, Event, EventKind};
pub use setup::{Setup, SetupAction, SetupEvent, SetupPhase, SetupView};
