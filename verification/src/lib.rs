//! Bridges iTag button devices, seen through one or more Bluetooth adapters, to MQTT.
//!
//! The crate holds the decisions of the bridge as sequential state machines over
//! plain values: which adapters are accepted, which discovered devices are iTags,
//! which adapter holds the connection to a device, what a button session does on
//! each event, and which messages are published. The application around it owns
//! the radio, the broker connection, the timers and the tasks: it performs each
//! action that a state machine asks for and hands the outcome back.

pub mod address;
pub mod config;
pub mod itag_swarm_manager;
pub mod mqtt_client;
pub mod text;
