//! Messages handed to the MQTT adapter.

use crate::json::JsonValue;
use crate::text::owned;
use vstd::prelude::*;
use vstd::string::StrSliceExecFns;
use vstd::utf8::encode_utf8;

verus! {

#[derive(Debug, PartialEq)]
pub struct MqttMessage {
    pub topic: String,
    pub qos: MqttQoS,
    pub retain: bool,
    pub payload: MqttPayload,
}

impl MqttMessage {
    pub fn new(topic: String, qos: MqttQoS, retain: bool, payload: MqttPayload) -> (r: Self)
        ensures
            r == (MqttMessage { topic, qos, retain, payload }),
    {
        MqttMessage { topic, qos, retain, payload }
    }
}

#[derive(Debug, PartialEq, Eq, Structural, Clone, Copy)]
pub enum MqttQoS {
    AtMostOnce,
    AtLeastOnce,
    ExactlyOnce,
}

impl MqttQoS {
    /// The protocol's number for this level.
    pub fn level(&self) -> (r: u8)
        ensures
            r == match *self {
                MqttQoS::AtMostOnce => 0u8,
                MqttQoS::AtLeastOnce => 1u8,
                MqttQoS::ExactlyOnce => 2u8,
            },
    {
        match self {
            MqttQoS::AtMostOnce => 0,
            MqttQoS::AtLeastOnce => 1,
            MqttQoS::ExactlyOnce => 2,
        }
    }
}

#[derive(Debug, PartialEq)]
pub enum MqttPayload {
    Constant(String),
    Json(JsonValue),
}

/// The bytes a payload is published as.
pub open spec fn payload_bytes(p: MqttPayload) -> Seq<u8> {
    match p {
        MqttPayload::Constant(c) => encode_utf8(c@),
        MqttPayload::Json(j) => crate::json::rendered_json(j),
    }
}

impl MqttPayload {
    /// The bytes to publish: the text itself, or the compact JSON rendering.
    pub fn render(self) -> (r: Vec<u8>)
        ensures
            r@ == payload_bytes(self),
    {
        match self {
            MqttPayload::Constant(c) => c.as_str().as_bytes_vec(),
            MqttPayload::Json(j) => j.render(),
        }
    }
}

impl<'a> From<&'a str> for MqttPayload {
    fn from(v: &'a str) -> (r: MqttPayload) {
        MqttPayload::Constant(owned(v))
    }
}

impl<'a> vstd::std_specs::convert::FromSpecImpl<&'a str> for MqttPayload {
    open spec fn obeys_from_spec() -> bool {
        false
    }

    open spec fn from_spec(v: &'a str) -> MqttPayload {
        arbitrary()
    }
}

impl From<String> for MqttPayload {
    fn from(v: String) -> (r: MqttPayload) {
        MqttPayload::Constant(v)
    }
}

impl vstd::std_specs::convert::FromSpecImpl<String> for MqttPayload {
    open spec fn obeys_from_spec() -> bool {
        true
    }

    open spec fn from_spec(v: String) -> MqttPayload {
        MqttPayload::Constant(v)
    }
}

impl From<JsonValue> for MqttPayload {
    fn from(v: JsonValue) -> (r: MqttPayload) {
        MqttPayload::Json(v)
    }
}

impl vstd::std_specs::convert::FromSpecImpl<JsonValue> for MqttPayload {
    open spec fn obeys_from_spec() -> bool {
        true
    }

    open spec fn from_spec(v: JsonValue) -> MqttPayload {
        MqttPayload::Json(v)
    }
}

} // verus!
