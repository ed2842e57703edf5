//! Bridge logic between surveillance cameras that report events over an
//! XML/HTTP interface and an MQTT broker consumed by home-automation
//! controllers.

pub mod text;
pub mod event_type;
pub mod json;
pub mod device_info;
pub mod triggers;
pub mod alert;
pub mod camera;
pub mod config;
pub mod topics;
pub mod messages;
pub mod manager;
pub mod xml;
