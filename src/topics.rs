//! The topic scheme: where each piece of state is published.

use crate::event_type::{canonical, EventIdentifier};
use crate::text::owned;
use vstd::prelude::*;

verus! {

/// The two topic roots: `base` for state, `home_assistant` for discovery.
#[derive(Debug, PartialEq, Clone)]
pub struct MqttTopics {
    pub base: String,
    pub home_assistant: String,
}

pub open spec fn global_availability_topic(base: Seq<char>) -> Seq<char> {
    base + "/availability"@
}

pub open spec fn global_stats_topic(base: Seq<char>) -> Seq<char> {
    base + "/stats"@
}

pub open spec fn camera_base_topic(base: Seq<char>, cam: Seq<char>) -> Seq<char> {
    base + "/device_"@ + cam
}

pub open spec fn camera_availability_topic(base: Seq<char>, cam: Seq<char>) -> Seq<char> {
    camera_base_topic(base, cam) + "/availability"@
}

pub open spec fn camera_log_topic(base: Seq<char>, cam: Seq<char>) -> Seq<char> {
    camera_base_topic(base, cam) + "/log"@
}

/// `<base>/device_<cam>[/ch<channel>]/<EventType>`.
pub open spec fn trigger_state_topic(base: Seq<char>, cam: Seq<char>, e: EventIdentifier) -> Seq<
    char,
> {
    match e.channel {
        Some(ch) => camera_base_topic(base, cam) + "/ch"@ + ch@ + "/"@ + canonical(e.event_type),
        None => camera_base_topic(base, cam) + "/"@ + canonical(e.event_type),
    }
}

/// `device_<cam>[_ch<channel>]_<EventType>`.
pub open spec fn discovery_identifier(cam: Seq<char>, e: EventIdentifier) -> Seq<char> {
    match e.channel {
        Some(ch) => "device_"@ + cam + "_ch"@ + ch@ + "_"@ + canonical(e.event_type),
        None => "device_"@ + cam + "_"@ + canonical(e.event_type),
    }
}

pub open spec fn stats_discovery_topic(ha: Seq<char>, key: Seq<char>) -> Seq<char> {
    ha + "/sensor/hiksink/"@ + key + "/config"@
}

pub open spec fn trigger_discovery_topic(ha: Seq<char>, cam: Seq<char>, e: EventIdentifier) -> Seq<
    char,
> {
    ha + "/binary_sensor/hiksink/"@ + discovery_identifier(cam, e) + "/config"@
}

fn joined(a: &str, b: &str) -> (r: String)
    ensures
        r@ == a@ + b@,
{
    let mut s = owned(a);
    s.append(b);
    s
}

impl MqttTopics {
    pub fn new(base: String, home_assistant: String) -> (r: Self)
        ensures
            r.base == base,
            r.home_assistant == home_assistant,
    {
        MqttTopics { base, home_assistant }
    }

    pub fn get_global_availability(&self) -> (r: String)
        ensures
            r@ == global_availability_topic(self.base@),
    {
        joined(self.base.as_str(), "/availability")
    }

    pub fn get_global_stats(&self) -> (r: String)
        ensures
            r@ == global_stats_topic(self.base@),
    {
        joined(self.base.as_str(), "/stats")
    }

    pub fn get_camera_base(&self, cam: &str) -> (r: String)
        ensures
            r@ == camera_base_topic(self.base@, cam@),
    {
        let mut s = joined(self.base.as_str(), "/device_");
        s.append(cam);
        s
    }

    pub fn get_camera_availability(&self, cam: &str) -> (r: String)
        ensures
            r@ == camera_availability_topic(self.base@, cam@),
    {
        let mut s = self.get_camera_base(cam);
        s.append("/availability");
        s
    }

    pub fn get_camera_log(&self, cam: &str) -> (r: String)
        ensures
            r@ == camera_log_topic(self.base@, cam@),
    {
        let mut s = self.get_camera_base(cam);
        s.append("/log");
        s
    }

    pub fn get_trigger_state(&self, cam: &str, e: &EventIdentifier) -> (r: String)
        ensures
            r@ == trigger_state_topic(self.base@, cam@, *e),
    {
        let mut s = self.get_camera_base(cam);
        match &e.channel {
            Some(ch) => {
                s.append("/ch");
                s.append(ch.as_str());
            },
            None => {},
        }
        s.append("/");
        let t = e.event_type.to_string();
        s.append(t.as_str());
        s
    }

    pub fn get_discovery_identifier_trigger(&self, cam: &str, e: &EventIdentifier) -> (r: String)
        ensures
            r@ == discovery_identifier(cam@, *e),
    {
        let mut s = joined("device_", cam);
        match &e.channel {
            Some(ch) => {
                s.append("_ch");
                s.append(ch.as_str());
            },
            None => {},
        }
        s.append("_");
        let t = e.event_type.to_string();
        s.append(t.as_str());
        s
    }

    pub fn get_global_stats_discovery(&self, key: &str) -> (r: String)
        ensures
            r@ == stats_discovery_topic(self.home_assistant@, key@),
    {
        let mut s = joined(self.home_assistant.as_str(), "/sensor/hiksink/");
        s.append(key);
        s.append("/config");
        s
    }

    pub fn get_trigger_discovery(&self, cam: &str, e: &EventIdentifier) -> (r: String)
        ensures
            r@ == trigger_discovery_topic(self.home_assistant@, cam@, *e),
    {
        let mut s = joined(self.home_assistant.as_str(), "/binary_sensor/hiksink/");
        let d = self.get_discovery_identifier_trigger(cam, e);
        s.append(d.as_str());
        s.append("/config");
        s
    }
}

impl Default for MqttTopics {
    /// `hikvision_cameras` for state, `homeassistant` for discovery.
    fn default() -> (r: Self)
        ensures
            r.base@ == "hikvision_cameras"@,
            r.home_assistant@ == "homeassistant"@,
    {
        MqttTopics { base: owned("hikvision_cameras"), home_assistant: owned("homeassistant") }
    }
}

} // verus!
