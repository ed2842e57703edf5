//! The state manager: the authoritative model of every camera and trigger,
//! and the MQTT messages that keep subscribers in step with it.

use crate::alert::{regions_equal, same_regions, DetectionRegion};
use crate::camera::{CameraEvent, CameraEventType};
use crate::config::ConfigCamera;
use crate::device_info::DeviceInfo;
use crate::event_type::{
    device_class_of, icon_of, identifier_display, same_identifier, EventIdentifier,
};
use crate::json::{
    items, json_str_is, json_string, key_is, member, members, str_field, str_member, JsonValue,
};
use crate::messages::{MqttMessage, MqttPayload, MqttQoS};
use crate::text::{opt_text, owned, same_text};
use crate::topics::{
    camera_availability_topic, camera_log_topic, discovery_identifier, global_availability_topic,
    global_stats_topic, stats_discovery_topic, trigger_discovery_topic, trigger_state_topic,
    MqttTopics,
};
use crate::triggers::TriggerItem;
use vstd::prelude::*;

verus! {

/// The bridge's version, as discovery descriptors report it.
pub const BRIDGE_VERSION: &'static str = "0.1.0";

/// What the manager knows of one configured camera.
#[derive(Debug, PartialEq, Clone)]
pub struct CameraDetails {
    pub config: ConfigCamera,
    pub info: Option<DeviceInfo>,
    pub triggers: Vec<TriggerDetails>,
    pub connected: bool,
    /// Connection details or the last connection error.
    pub log: String,
}

/// What the manager knows of one trigger of a camera.
#[derive(Debug, PartialEq, Clone)]
pub struct TriggerDetails {
    pub trigger: TriggerItem,
    pub alerting: bool,
    pub regions: Vec<DetectionRegion>,
    /// When the trigger was last (re)created, in milliseconds since the Unix epoch.
    pub last_alert: i64,
}

pub open spec fn cam_id(cam: CameraDetails) -> Seq<char> {
    cam.config.generated_id@
}

// ---------------------------------------------------------------------------
// What each message holds.

/// Published on `topic`, at least once, retained.
pub open spec fn retained_on(m: MqttMessage, topic: Seq<char>) -> bool {
    m.topic@ == topic && m.qos == MqttQoS::AtLeastOnce && m.retain
}

pub open spec fn text_payload(m: MqttMessage, text: Seq<char>) -> bool {
    m.payload matches MqttPayload::Constant(c) && c@ == text
}

pub open spec fn json_payload(m: MqttMessage) -> JsonValue {
    match m.payload {
        MqttPayload::Json(j) => j,
        MqttPayload::Constant(_) => JsonValue::Null,
    }
}

pub open spec fn number_member(f: (String, JsonValue), k: Seq<char>, n: u64) -> bool {
    key_is(f, k) && f.1 == JsonValue::Number(n)
}

pub open spec fn bool_member(f: (String, JsonValue), k: Seq<char>, b: bool) -> bool {
    key_is(f, k) && f.1 == JsonValue::Bool(b)
}

pub open spec fn is_object(j: JsonValue) -> bool {
    j is Object
}

pub open spec fn is_array(j: JsonValue) -> bool {
    j is Array
}

/// `{"x": .., "y": ..}`
pub open spec fn coordinates_json(j: JsonValue, c: crate::alert::RegionCoordinates) -> bool {
    let f = members(j);
    is_object(j) && f.len() == 2 && number_member(f[0], "x"@, c.x as u64) && number_member(
        f[1],
        "y"@,
        c.y as u64,
    )
}

/// `{"id": .., "sensitivity": .., "coordinates": [..]}`
pub open spec fn region_json(j: JsonValue, r: DetectionRegion) -> bool {
    let f = members(j);
    let cs = items(f[2].1);
    &&& is_object(j)
    &&& f.len() == 3
    &&& str_member(f[0], "id"@, r.id@)
    &&& number_member(f[1], "sensitivity"@, r.sensitivity as u64)
    &&& key_is(f[2], "coordinates"@)
    &&& is_array(f[2].1)
    &&& cs.len() == r.coordinates@.len()
    &&& forall|k: int|
        0 <= k < cs.len() ==> coordinates_json(#[trigger] cs[k], r.coordinates@[k])
}

/// `{"alerting": .., "regions": [..]}`
pub open spec fn state_json(j: JsonValue, alerting: bool, regions: Seq<DetectionRegion>) -> bool {
    let f = members(j);
    let rs = items(f[1].1);
    &&& is_object(j)
    &&& f.len() == 2
    &&& bool_member(f[0], "alerting"@, alerting)
    &&& key_is(f[1], "regions"@)
    &&& is_array(f[1].1)
    &&& rs.len() == regions.len()
    &&& forall|k: int| 0 <= k < rs.len() ==> region_json(#[trigger] rs[k], regions[k])
}

/// The state of trigger `t` of camera `cam`.
pub open spec fn state_message(m: MqttMessage, base: Seq<char>, cam: Seq<char>, t: TriggerDetails) -> bool {
    retained_on(m, trigger_state_topic(base, cam, t.trigger.identifier)) && m.payload is Json
        && state_json(json_payload(m), t.alerting, t.regions@)
}

pub open spec fn log_message(m: MqttMessage, base: Seq<char>, cam: CameraDetails) -> bool {
    retained_on(m, camera_log_topic(base, cam_id(cam))) && text_payload(m, cam.log@)
}

pub open spec fn availability_text(connected: bool) -> Seq<char> {
    if connected {
        "online"@
    } else {
        "offline"@
    }
}

pub open spec fn availability_message(m: MqttMessage, base: Seq<char>, cam: CameraDetails) -> bool {
    retained_on(m, camera_availability_topic(base, cam_id(cam))) && text_payload(
        m,
        availability_text(cam.connected),
    )
}

/// `{"topic": ..}`
pub open spec fn topic_entry(j: JsonValue, topic: Seq<char>) -> bool {
    is_object(j) && members(j).len() == 1 && str_member(members(j)[0], "topic"@, topic)
}

pub open spec fn firmware_text(info: DeviceInfo) -> Seq<char> {
    "HikSink v"@ + BRIDGE_VERSION@ + " / Camera Firmware "@ + info.firmware_version@ + " ("@
        + info.firmware_release_date@ + ")"@
}

pub open spec fn model_text(info: DeviceInfo) -> Seq<char> {
    info.model@ + " ("@ + info.device_type@ + ")"@
}

/// The `device` member of a trigger's discovery descriptor.
pub open spec fn camera_device_json(j: JsonValue, cam: CameraDetails, info: DeviceInfo) -> bool {
    let f = members(j);
    let ids = items(f[0].1);
    &&& is_object(j)
    &&& f.len() == 5
    &&& key_is(f[0], "identifiers"@)
    &&& is_array(f[0].1)
    &&& ids.len() == 3
    &&& json_str_is(ids[0], cam_id(cam) + "_hiksink"@)
    &&& json_str_is(ids[1], info.serial_number@)
    &&& json_str_is(ids[2], info.mac_address@)
    &&& str_member(f[1], "manufacturer"@, "Hikvision"@)
    &&& str_member(f[2], "name"@, cam.config.name@)
    &&& str_member(f[3], "sw_version"@, firmware_text(info))
    &&& str_member(f[4], "model"@, model_text(info))
}

/// The members a discovery descriptor carries only where the event type has them.
pub open spec fn optional_members(f: Seq<(String, JsonValue)>, t: crate::event_type::EventType) -> bool {
    match (icon_of(t), device_class_of(t)) {
        (Some(i), Some(d)) => f.len() == 2 && str_member(f[0], "icon"@, i) && str_member(
            f[1],
            "device_class"@,
            d,
        ),
        (Some(i), None) => f.len() == 1 && str_member(f[0], "icon"@, i),
        (None, Some(d)) => f.len() == 1 && str_member(f[0], "device_class"@, d),
        (None, None) => f.len() == 0,
    }
}

/// The discovery descriptor of trigger `t` of camera `cam`.
pub open spec fn trigger_discovery_json(
    j: JsonValue,
    topics: MqttTopics,
    cam: CameraDetails,
    t: TriggerDetails,
    info: DeviceInfo,
) -> bool {
    let f = members(j);
    let base = topics.base@;
    let e = t.trigger.identifier;
    let state = trigger_state_topic(base, cam_id(cam), e);
    let avail = items(f[0].1);
    &&& is_object(j)
    &&& f.len() >= 9
    &&& key_is(f[0], "availability"@)
    &&& is_array(f[0].1)
    &&& avail.len() == 2
    &&& topic_entry(avail[0], global_availability_topic(base))
    &&& topic_entry(avail[1], camera_availability_topic(base, cam_id(cam)))
    &&& key_is(f[1], "device"@)
    &&& camera_device_json(f[1].1, cam, info)
    &&& str_member(f[2], "json_attributes_topic"@, state)
    &&& str_member(f[3], "name"@, cam.config.name@ + " "@ + identifier_display(e))
    &&& bool_member(f[4], "payload_off"@, false)
    &&& bool_member(f[5], "payload_on"@, true)
    &&& str_member(f[6], "state_topic"@, state)
    &&& str_member(f[7], "unique_id"@, discovery_identifier(cam_id(cam), e) + "_hiksink"@)
    &&& str_member(f[8], "value_template"@, "{{ value_json.alerting }}"@)
    &&& optional_members(f.subrange(9, f.len() as int), e.event_type)
}

pub open spec fn discovery_message(
    m: MqttMessage,
    topics: MqttTopics,
    cam: CameraDetails,
    t: TriggerDetails,
    info: DeviceInfo,
) -> bool {
    retained_on(
        m,
        trigger_discovery_topic(topics.home_assistant@, cam_id(cam), t.trigger.identifier),
    ) && m.payload is Json && trigger_discovery_json(json_payload(m), topics, cam, t, info)
}

/// The state messages of every trigger of `cam`, in order.
pub open spec fn trigger_states(ms: Seq<MqttMessage>, base: Seq<char>, cam: CameraDetails) -> bool {
    ms.len() == cam.triggers@.len() && forall|i: int|
        0 <= i < ms.len() ==> state_message(#[trigger] ms[i], base, cam_id(cam), cam.triggers@[i])
}

pub open spec fn refresh_len(cam: CameraDetails) -> nat {
    cam.triggers@.len() + 2
}

/// Every trigger state of `cam`, then its log, then its availability.
pub open spec fn complete_refresh(ms: Seq<MqttMessage>, base: Seq<char>, cam: CameraDetails) -> bool {
    let n = cam.triggers@.len() as int;
    &&& ms.len() == refresh_len(cam)
    &&& trigger_states(ms.subrange(0, n), base, cam)
    &&& log_message(ms[n], base, cam)
    &&& availability_message(ms[n + 1], base, cam)
}

pub open spec fn discovery_len(cam: CameraDetails) -> nat {
    if cam.info is Some {
        cam.triggers@.len()
    } else {
        0
    }
}

/// One discovery descriptor per trigger of `cam`, in order; none while its
/// device information is unknown.
pub open spec fn complete_discovery(ms: Seq<MqttMessage>, topics: MqttTopics, cam: CameraDetails) -> bool {
    &&& ms.len() == discovery_len(cam)
    &&& forall|i: int|
        0 <= i < ms.len() ==> discovery_message(
            #[trigger] ms[i],
            topics,
            cam,
            cam.triggers@[i],
            cam.info->Some_0,
        )
}

// ---------------------------------------------------------------------------

/// Relies on `SystemTime::now` and `SystemTime::duration_since(UNIX_EPOCH)`:
/// the time elapsed since the Unix epoch as whole seconds and the milliseconds
/// of the second begun (`Duration::subsec_millis`, below one thousand), or
/// `None` when the clock reads earlier. Nothing else is promised of the values.
#[verifier::external_body]
fn time_since_epoch() -> (r: Option<(u64, u32)>)
    ensures
        r matches Some((_, ms)) ==> ms < 1000,
{
    std::time::SystemTime::now()
        .duration_since(std::time::UNIX_EPOCH)
        .ok()
        .map(|d| (d.as_secs(), d.subsec_millis()))
}

/// The current time in milliseconds since the Unix epoch; a clock that reads
/// before the epoch gives 0, one beyond what `i64` holds gives `i64::MAX`.
fn now_millis() -> (r: i64)
    ensures
        r >= 0,
{
    match time_since_epoch() {
        Some((secs, ms)) => {
            if secs > 9_223_372_036_854_774 {
                i64::MAX
            } else {
                assert(secs * 1000 <= 9_223_372_036_854_774_000) by (nonlinear_arith)
                    requires
                        secs <= 9_223_372_036_854_774,
                ;
                (secs * 1000 + ms as u64) as i64
            }
        },
        None => 0,
    }
}

fn retained(topic: String, payload: MqttPayload) -> (r: MqttMessage)
    ensures
        r.topic == topic,
        r.qos == MqttQoS::AtLeastOnce,
        r.retain,
        r.payload == payload,
{
    MqttMessage::new(topic, MqttQoS::AtLeastOnce, true, payload)
}

impl TriggerDetails {
    /// The state message of this trigger.
    pub fn message_state(&self, topics: &MqttTopics, cam: &CameraDetails) -> (r: MqttMessage)
        ensures
            state_message(r, topics.base@, cam_id(*cam), *self),
    {
        let mut regions: Vec<JsonValue> = Vec::new();
        let mut i: usize = 0;
        while i < self.regions.len()
            invariant
                i <= self.regions@.len(),
                regions@.len() == i,
                forall|k: int| 0 <= k < i ==> region_json(#[trigger] regions@[k], self.regions@[k]),
            decreases self.regions@.len() - i,
        {
            regions.push(region_to_json(&self.regions[i]));
            i = i + 1;
        }
        let mut f: Vec<(String, JsonValue)> = Vec::new();
        f.push(member("alerting", JsonValue::Bool(self.alerting)));
        f.push(member("regions", JsonValue::Array(regions)));
        let topic = topics.get_trigger_state(cam.config.identifier(), &self.trigger.identifier);
        retained(topic, MqttPayload::Json(JsonValue::Object(f)))
    }

    /// The discovery descriptor of this trigger.
    pub fn message_discovery(&self, topics: &MqttTopics, cam: &CameraDetails, info: &DeviceInfo) -> (r: MqttMessage)
        ensures
            discovery_message(r, *topics, *cam, *self, *info),
    {
        let id = cam.config.identifier();
        let e = &self.trigger.identifier;
        let state = topics.get_trigger_state(id, e);

        let mut avail: Vec<JsonValue> = Vec::new();
        avail.push(topic_json(topics.get_global_availability()));
        avail.push(topic_json(topics.get_camera_availability(id)));

        let mut ids: Vec<JsonValue> = Vec::new();
        let mut own = owned(id);
        own.append("_hiksink");
        ids.push(JsonValue::Str(own));
        ids.push(json_string(info.serial_number.as_str()));
        ids.push(json_string(info.mac_address.as_str()));
        let mut sw = owned("HikSink v");
        sw.append(BRIDGE_VERSION);
        sw.append(" / Camera Firmware ");
        sw.append(info.firmware_version.as_str());
        sw.append(" (");
        sw.append(info.firmware_release_date.as_str());
        sw.append(")");
        let mut model = owned(info.model.as_str());
        model.append(" (");
        model.append(info.device_type.as_str());
        model.append(")");
        let mut device: Vec<(String, JsonValue)> = Vec::new();
        device.push(member("identifiers", JsonValue::Array(ids)));
        device.push(str_field("manufacturer", "Hikvision"));
        device.push(str_field("name", cam.config.name.as_str()));
        device.push(member("sw_version", JsonValue::Str(sw)));
        device.push(member("model", JsonValue::Str(model)));

        let mut name = owned(cam.config.name.as_str());
        name.append(" ");
        let shown = e.display();
        name.append(shown.as_str());
        let mut unique = topics.get_discovery_identifier_trigger(id, e);
        unique.append("_hiksink");

        let mut f: Vec<(String, JsonValue)> = Vec::new();
        f.push(member("availability", JsonValue::Array(avail)));
        f.push(member("device", JsonValue::Object(device)));
        f.push(member("json_attributes_topic", JsonValue::Str(state.clone())));
        f.push(member("name", JsonValue::Str(name)));
        f.push(member("payload_off", JsonValue::Bool(false)));
        f.push(member("payload_on", JsonValue::Bool(true)));
        f.push(member("state_topic", JsonValue::Str(state)));
        f.push(member("unique_id", JsonValue::Str(unique)));
        f.push(str_field("value_template", "{{ value_json.alerting }}"));
        let ghost fixed = f@;
        match e.event_type.icon() {
            Some(icon) => f.push(str_field("icon", icon)),
            None => {},
        }
        match e.event_type.device_class() {
            Some(class) => f.push(str_field("device_class", class)),
            None => {},
        }
        assert(f@.subrange(0, 9) == fixed);
        let topic = topics.get_trigger_discovery(id, e);
        retained(topic, MqttPayload::Json(JsonValue::Object(f)))
    }
}

fn topic_json(topic: String) -> (r: JsonValue)
    ensures
        topic_entry(r, topic@),
{
    let mut f: Vec<(String, JsonValue)> = Vec::new();
    f.push(member("topic", JsonValue::Str(topic)));
    JsonValue::Object(f)
}

fn region_to_json(r: &DetectionRegion) -> (j: JsonValue)
    ensures
        region_json(j, *r),
{
    let mut cs: Vec<JsonValue> = Vec::new();
    let mut i: usize = 0;
    while i < r.coordinates.len()
        invariant
            i <= r.coordinates@.len(),
            cs@.len() == i,
            forall|k: int| 0 <= k < i ==> coordinates_json(#[trigger] cs@[k], r.coordinates@[k]),
        decreases r.coordinates@.len() - i,
    {
        let c = r.coordinates[i];
        let mut f: Vec<(String, JsonValue)> = Vec::new();
        f.push(member("x", JsonValue::Number(c.x as u64)));
        f.push(member("y", JsonValue::Number(c.y as u64)));
        cs.push(JsonValue::Object(f));
        i = i + 1;
    }
    let mut f: Vec<(String, JsonValue)> = Vec::new();
    f.push(member("id", json_string(r.id.as_str())));
    f.push(member("sensitivity", JsonValue::Number(r.sensitivity as u64)));
    f.push(member("coordinates", JsonValue::Array(cs)));
    JsonValue::Object(f)
}

impl CameraDetails {
    /// The state of every trigger, then the camera's log and availability.
    pub fn message_complete_refresh(&self, topics: &MqttTopics) -> (r: Vec<MqttMessage>)
        ensures
            complete_refresh(r@, topics.base@, *self),
    {
        let mut messages = self.message_trigger_states(topics);
        let ghost states = messages@;
        messages.push(self.message_log(topics));
        messages.push(self.message_availability(topics));
        assert(messages@.subrange(0, self.triggers@.len() as int) == states);
        messages
    }

    /// The discovery descriptor of every trigger, once the device is known.
    pub fn message_complete_discovery(&self, topics: &MqttTopics) -> (r: Vec<MqttMessage>)
        ensures
            complete_discovery(r@, *topics, *self),
    {
        let mut messages: Vec<MqttMessage> = Vec::new();
        match &self.info {
            Some(info) => {
                let mut i: usize = 0;
                while i < self.triggers.len()
                    invariant
                        self.info == Some(*info),
                        i <= self.triggers@.len(),
                        messages@.len() == i,
                        forall|k: int|
                            0 <= k < i ==> discovery_message(
                                #[trigger] messages@[k],
                                *topics,
                                *self,
                                self.triggers@[k],
                                *info,
                            ),
                    decreases self.triggers@.len() - i,
                {
                    messages.push(self.triggers[i].message_discovery(topics, self, info));
                    i = i + 1;
                }
            },
            None => {},
        }
        messages
    }

    /// Whether the camera is online.
    pub fn message_availability(&self, topics: &MqttTopics) -> (r: MqttMessage)
        ensures
            availability_message(r, topics.base@, *self),
    {
        let text = if self.connected {
            owned("online")
        } else {
            owned("offline")
        };
        retained(
            topics.get_camera_availability(self.config.identifier()),
            MqttPayload::Constant(text),
        )
    }

    /// The connection details or last error.
    pub fn message_log(&self, topics: &MqttTopics) -> (r: MqttMessage)
        ensures
            log_message(r, topics.base@, *self),
    {
        retained(
            topics.get_camera_log(self.config.identifier()),
            MqttPayload::Constant(owned(self.log.as_str())),
        )
    }

    /// The state of every trigger, in order.
    pub fn message_trigger_states(&self, topics: &MqttTopics) -> (r: Vec<MqttMessage>)
        ensures
            trigger_states(r@, topics.base@, *self),
    {
        let mut messages: Vec<MqttMessage> = Vec::new();
        let mut i: usize = 0;
        while i < self.triggers.len()
            invariant
                i <= self.triggers@.len(),
                messages@.len() == i,
                forall|k: int|
                    0 <= k < i ==> state_message(
                        #[trigger] messages@[k],
                        topics.base@,
                        cam_id(*self),
                        self.triggers@[k],
                    ),
            decreases self.triggers@.len() - i,
        {
            messages.push(self.triggers[i].message_state(topics, self));
            i = i + 1;
        }
        messages
    }
}

// ---------------------------------------------------------------------------
// Global messages.

pub open spec fn connected_count(cams: Seq<CameraDetails>) -> nat
    decreases cams.len(),
{
    if cams.len() == 0 {
        0
    } else {
        connected_count(cams.drop_last()) + if cams.last().connected {
            1nat
        } else {
            0nat
        }
    }
}

pub open spec fn trigger_total(cams: Seq<CameraDetails>) -> nat
    decreases cams.len(),
{
    if cams.len() == 0 {
        0
    } else {
        trigger_total(cams.drop_last()) + cams.last().triggers@.len()
    }
}

/// `n`, or the largest `u64` where `n` is larger.
pub open spec fn capped(n: nat) -> u64 {
    if n > u64::MAX {
        u64::MAX
    } else {
        n as u64
    }
}

/// `{"cameras_connected", "cameras_disconnected", "cameras_total", "triggers_total"}`
pub open spec fn stats_json(j: JsonValue, cams: Seq<CameraDetails>) -> bool {
    let f = members(j);
    &&& is_object(j)
    &&& f.len() == 4
    &&& number_member(f[0], "cameras_connected"@, connected_count(cams) as u64)
    &&& number_member(f[1], "cameras_disconnected"@, (cams.len() - connected_count(cams)) as u64)
    &&& number_member(f[2], "cameras_total"@, cams.len() as u64)
    &&& number_member(f[3], "triggers_total"@, capped(trigger_total(cams)))
}

pub open spec fn stats_message(m: MqttMessage, topics: MqttTopics, cams: Seq<CameraDetails>) -> bool {
    retained_on(m, global_stats_topic(topics.base@)) && m.payload is Json && stats_json(
        json_payload(m),
        cams,
    )
}

/// The `device` member of a statistics sensor's descriptor.
pub open spec fn bridge_device_json(j: JsonValue) -> bool {
    let f = members(j);
    let ids = items(f[0].1);
    &&& is_object(j)
    &&& f.len() == 4
    &&& key_is(f[0], "identifiers"@)
    &&& is_array(f[0].1)
    &&& ids.len() == 1
    &&& json_str_is(ids[0], "hiksink_bridge"@)
    &&& str_member(f[1], "manufacturer"@, "Hiksink"@)
    &&& str_member(f[2], "name"@, "HikSink Bridge"@)
    &&& str_member(f[3], "sw_version"@, "v"@ + BRIDGE_VERSION@)
}

/// The descriptor of the statistics sensor reading member `key`.
pub open spec fn stats_discovery_json(
    j: JsonValue,
    topics: MqttTopics,
    key: Seq<char>,
    name: Seq<char>,
    unit: Seq<char>,
) -> bool {
    let f = members(j);
    let avail = items(f[0].1);
    let stats = global_stats_topic(topics.base@);
    &&& is_object(j)
    &&& f.len() == 8
    &&& key_is(f[0], "availability"@)
    &&& is_array(f[0].1)
    &&& avail.len() == 1
    &&& topic_entry(avail[0], global_availability_topic(topics.base@))
    &&& key_is(f[1], "device"@)
    &&& bridge_device_json(f[1].1)
    &&& str_member(f[2], "json_attributes_topic"@, stats)
    &&& str_member(f[3], "name"@, name)
    &&& str_member(f[4], "state_topic"@, stats)
    &&& str_member(f[5], "unique_id"@, "hiksink_stat_"@ + key)
    &&& str_member(f[6], "value_template"@, "{{ value_json."@ + key + " }}"@)
    &&& str_member(f[7], "unit_of_measurement"@, unit)
}

pub open spec fn stats_discovery_message(
    m: MqttMessage,
    topics: MqttTopics,
    key: Seq<char>,
    name: Seq<char>,
    unit: Seq<char>,
) -> bool {
    retained_on(m, stats_discovery_topic(topics.home_assistant@, key)) && m.payload is Json
        && stats_discovery_json(json_payload(m), topics, key, name, unit)
}

/// The descriptors of the four statistics sensors.
pub open spec fn stats_discoveries(ms: Seq<MqttMessage>, topics: MqttTopics) -> bool {
    &&& ms.len() == 4
    &&& stats_discovery_message(
        ms[0],
        topics,
        "cameras_connected"@,
        "Cameras Connected"@,
        "Cameras"@,
    )
    &&& stats_discovery_message(
        ms[1],
        topics,
        "cameras_disconnected"@,
        "Cameras Disconnected"@,
        "Cameras"@,
    )
    &&& stats_discovery_message(ms[2], topics, "cameras_total"@, "Total Cameras"@, "Cameras"@)
    &&& stats_discovery_message(ms[3], topics, "triggers_total"@, "Total Triggers"@, "Triggers"@)
}

pub open spec fn refreshes_len(cams: Seq<CameraDetails>) -> nat
    decreases cams.len(),
{
    if cams.len() == 0 {
        0
    } else {
        refreshes_len(cams.drop_last()) + refresh_len(cams.last())
    }
}

pub open spec fn discoveries_len(cams: Seq<CameraDetails>) -> nat
    decreases cams.len(),
{
    if cams.len() == 0 {
        0
    } else {
        discoveries_len(cams.drop_last()) + discovery_len(cams.last())
    }
}

/// The complete refresh of each camera, in order.
pub open spec fn refreshes(ms: Seq<MqttMessage>, base: Seq<char>, cams: Seq<CameraDetails>) -> bool
    decreases cams.len(),
{
    if cams.len() == 0 {
        ms.len() == 0
    } else {
        let k = ms.len() - refresh_len(cams.last());
        &&& k >= 0
        &&& refreshes(ms.subrange(0, k), base, cams.drop_last())
        &&& complete_refresh(ms.subrange(k, ms.len() as int), base, cams.last())
    }
}

/// The complete discovery of each camera, in order.
pub open spec fn discoveries(ms: Seq<MqttMessage>, topics: MqttTopics, cams: Seq<CameraDetails>) -> bool
    decreases cams.len(),
{
    if cams.len() == 0 {
        ms.len() == 0
    } else {
        let k = ms.len() - discovery_len(cams.last());
        &&& k >= 0
        &&& discoveries(ms.subrange(0, k), topics, cams.drop_last())
        &&& complete_discovery(ms.subrange(k, ms.len() as int), topics, cams.last())
    }
}

/// What is published after each broker connection: every camera's refresh,
/// the bridge's availability, the statistics, every trigger's descriptor and
/// the statistics sensors' descriptors.
pub open spec fn connection_refresh(ms: Seq<MqttMessage>, m: Manager) -> bool {
    let cams = m.cameras@;
    let base = m.topics.base@;
    let a = refreshes_len(cams) as int;
    let b = discoveries_len(cams) as int;
    &&& ms.len() == a + 2 + b + 4
    &&& refreshes(ms.subrange(0, a), base, cams)
    &&& retained_on(ms[a], global_availability_topic(base))
    &&& text_payload(ms[a], "online"@)
    &&& stats_message(ms[a + 1], m.topics, cams)
    &&& discoveries(ms.subrange(a + 2, a + 2 + b), m.topics, cams)
    &&& stats_discoveries(ms.subrange(a + 2 + b, ms.len() as int), m.topics)
}

// ---------------------------------------------------------------------------
// Events.

pub open spec fn is_first_camera(cams: Seq<CameraDetails>, id: Seq<char>, i: int) -> bool {
    0 <= i < cams.len() && cam_id(cams[i]) == id && forall|k: int|
        0 <= k < i ==> cam_id(#[trigger] cams[k]) != id
}

/// The first camera whose identifier is `id`.
pub open spec fn find_camera(cams: Seq<CameraDetails>, id: Seq<char>) -> Option<int> {
    if exists|i: int| is_first_camera(cams, id, i) {
        Some(choose|i: int| is_first_camera(cams, id, i))
    } else {
        None
    }
}

pub open spec fn is_first_trigger(ts: Seq<TriggerDetails>, e: EventIdentifier, j: int) -> bool {
    0 <= j < ts.len() && same_identifier(ts[j].trigger.identifier, e) && forall|k: int|
        0 <= k < j ==> !same_identifier((#[trigger] ts[k]).trigger.identifier, e)
}

/// The first trigger whose identifier names the same trigger as `e`.
pub open spec fn find_trigger(ts: Seq<TriggerDetails>, e: EventIdentifier) -> Option<int> {
    if exists|j: int| is_first_trigger(ts, e, j) {
        Some(choose|j: int| is_first_trigger(ts, e, j))
    } else {
        None
    }
}

/// `new` is `old` after a connection that reported `info` and `triggers`.
pub open spec fn connected_camera(
    old: CameraDetails,
    info: DeviceInfo,
    triggers: Seq<TriggerItem>,
    new: CameraDetails,
) -> bool {
    &&& new.config == old.config
    &&& new.info == Some(info)
    &&& new.connected
    &&& new.log@ == "Connected"@
    &&& new.triggers@.len() == triggers.len()
    &&& forall|k: int|
        0 <= k < triggers.len() ==> {
            let t = #[trigger] new.triggers@[k];
            t.trigger == triggers[k] && !t.alerting && t.regions@.len() == 0
        }
}

/// The trigger states, log and availability of `cam`, its descriptors, and the statistics.
pub open spec fn connected_batch(
    ms: Seq<MqttMessage>,
    topics: MqttTopics,
    cams: Seq<CameraDetails>,
    cam: CameraDetails,
) -> bool {
    let n = refresh_len(cam) as int;
    let d = discovery_len(cam) as int;
    &&& ms.len() == n + d + 1
    &&& complete_refresh(ms.subrange(0, n), topics.base@, cam)
    &&& complete_discovery(ms.subrange(n, n + d), topics, cam)
    &&& stats_message(ms[n + d], topics, cams)
}

pub open spec fn disconnected_camera(old: CameraDetails, error: Seq<char>, new: CameraDetails) -> bool {
    &&& new.config == old.config
    &&& new.info == old.info
    &&& new.triggers == old.triggers
    &&& !new.connected
    &&& new.log@ == "Connection Error: "@ + error
}

/// `new` is `old` with trigger `j` now holding `active` and `regions`.
pub open spec fn alerted_camera(
    old: CameraDetails,
    j: int,
    active: bool,
    regions: Vec<DetectionRegion>,
    new: CameraDetails,
) -> bool {
    let t = old.triggers@[j];
    &&& new.config == old.config
    &&& new.info == old.info
    &&& new.connected == old.connected
    &&& new.log == old.log
    &&& new.triggers@ == old.triggers@.update(
        j,
        TriggerDetails {
            trigger: t.trigger,
            alerting: active,
            regions: regions,
            last_alert: t.last_alert,
        },
    )
}

/// What handling `ev` does to camera `old` (at `i` among `cams`) and which messages it emits.
pub open spec fn camera_event(
    topics: MqttTopics,
    old: CameraDetails,
    ev: CameraEventType,
    new: CameraDetails,
    cams: Seq<CameraDetails>,
    ms: Seq<MqttMessage>,
) -> bool {
    match ev {
        CameraEventType::Connected { info, triggers } => connected_camera(old, info, triggers@, new)
            && connected_batch(ms, topics, cams, new),
        CameraEventType::Disconnected { error } => disconnected_camera(old, error@, new) && ms.len()
            == 2 && log_message(ms[0], topics.base@, new) && availability_message(
            ms[1],
            topics.base@,
            new,
        ),
        CameraEventType::Alert(a) => match find_trigger(old.triggers@, a.identifier) {
            None => new == old && ms.len() == 0,
            Some(j) => {
                let t = old.triggers@[j];
                if t.alerting == a.active && same_regions(t.regions@, a.regions@) {
                    new == old && ms.len() == 0
                } else {
                    alerted_camera(old, j, a.active, a.regions, new) && ms.len() == 1
                        && state_message(ms[0], topics.base@, cam_id(new), new.triggers@[j])
                }
            },
        },
    }
}

/// What `next_event` does: `old` becomes `new` on `ev`, emitting `ms`.
pub open spec fn next_event_spec(old: Manager, ev: CameraEvent, new: Manager, ms: Seq<MqttMessage>) -> bool {
    &&& new.topics == old.topics
    &&& match find_camera(old.cameras@, ev.id@) {
        None => new.cameras@ == old.cameras@ && ms.len() == 0,
        Some(i) => {
            &&& new.cameras@ == old.cameras@.update(i, new.cameras@[i])
            &&& camera_event(
                old.topics,
                old.cameras@[i],
                ev.event,
                new.cameras@[i],
                new.cameras@,
                ms,
            )
        },
    }
}

pub open spec fn warning_for(m: Manager, ev: CameraEvent) -> Option<Seq<char>> {
    match find_camera(m.cameras@, ev.id@) {
        None => Some("Invalid camera event for camera "@ + ev.id@),
        Some(i) => match ev.event {
            CameraEventType::Alert(a) => if find_trigger(m.cameras@[i].triggers@, a.identifier) is None
                && !(a.identifier.event_type is VideoLoss) {
                Some("Camera "@ + ev.id@ + " sent an alert for a trigger which does not exist"@)
            } else {
                None
            },
            _ => None,
        },
    }
}

/// The bridge's model of every camera, and the topics it publishes on.
#[derive(Debug, PartialEq, Clone)]
pub struct Manager {
    pub cameras: Vec<CameraDetails>,
    pub topics: MqttTopics,
}

/// The details of a camera before its first connection.
pub open spec fn initial_camera(c: CameraDetails, config: ConfigCamera) -> bool {
    &&& c.config == config
    &&& c.info is None
    &&& c.triggers@.len() == 0
    &&& !c.connected
    &&& c.log@ == "Initial connection in progress..."@
}

fn optional_member(f: &mut Vec<(String, JsonValue)>, key: &str, value: Option<&str>)
    ensures
        match value {
            Some(v) => final(f)@.len() == old(f)@.len() + 1 && final(f)@.subrange(
                0,
                old(f)@.len() as int,
            ) == old(f)@ && str_member(final(f)@.last(), key@, v@),
            None => final(f)@ == old(f)@,
        },
{
    match value {
        Some(v) => f.push(str_field(key, v)),
        None => {},
    }
}

impl Manager {
    /// A manager for the configured cameras, none of them connected yet.
    pub fn new(cameras: Vec<ConfigCamera>, topics: MqttTopics) -> (r: Manager)
        ensures
            r.topics == topics,
            r.cameras@.len() == cameras@.len(),
            forall|i: int|
                0 <= i < cameras@.len() ==> initial_camera(#[trigger] r.cameras@[i], cameras@[i]),
            connected_have_info(r.cameras@),
    {
        let ghost configs = cameras@;
        let mut rest = cameras;
        let mut out: Vec<CameraDetails> = Vec::new();
        while rest.len() > 0
            invariant
                out@.len() + rest@.len() == configs.len(),
                rest@ == configs.subrange(out@.len() as int, configs.len() as int),
                forall|i: int| 0 <= i < out@.len() ==> initial_camera(#[trigger] out@[i], configs[i]),
            decreases rest@.len(),
        {
            let config = rest.remove(0);
            out.push(
                CameraDetails {
                    config,
                    info: None,
                    triggers: Vec::new(),
                    connected: false,
                    log: owned("Initial connection in progress..."),
                },
            );
        }
        Manager { cameras: out, topics }
    }

    /// The last will of the bridge: its availability goes `offline`.
    pub fn mqtt_lwt(&self) -> (r: MqttMessage)
        ensures
            retained_on(r, global_availability_topic(self.topics.base@)),
            text_payload(r, "offline"@),
    {
        retained(self.topics.get_global_availability(), MqttPayload::Constant(owned("offline")))
    }

    /// Everything to publish once a broker connection is established.
    pub fn mqtt_connection_established(&self) -> (r: Vec<MqttMessage>)
        ensures
            connection_refresh(r@, *self),
    {
        let ghost cams = self.cameras@;
        let ghost base = self.topics.base@;
        let mut messages: Vec<MqttMessage> = Vec::new();
        let mut i: usize = 0;
        while i < self.cameras.len()
            invariant
                cams == self.cameras@,
                base == self.topics.base@,
                i <= cams.len(),
                messages@.len() == refreshes_len(cams.subrange(0, i as int)),
                refreshes(messages@, base, cams.subrange(0, i as int)),
            decreases cams.len() - i,
        {
            let mut more = self.cameras[i].message_complete_refresh(&self.topics);
            let ghost before = messages@;
            let ghost added = more@;
            messages.append(&mut more);
            proof {
                let next = cams.subrange(0, i + 1);
                assert(next.drop_last() =~= cams.subrange(0, i as int));
                assert(messages@.subrange(0, before.len() as int) =~= before);
                assert(messages@.subrange(before.len() as int, messages@.len() as int) =~= added);
            }
            i = i + 1;
        }
        assert(cams.subrange(0, cams.len() as int) =~= cams);
        let ghost a = messages@;
        messages.push(
            retained(self.topics.get_global_availability(), MqttPayload::Constant(owned("online"))),
        );
        messages.push(self.message_global_stats());
        let ghost b = messages@;
        assert(b.subrange(0, a.len() as int) =~= a);
        let mut j: usize = 0;
        while j < self.cameras.len()
            invariant
                cams == self.cameras@,
                j <= cams.len(),
                messages@.len() == b.len() + discoveries_len(cams.subrange(0, j as int)),
                messages@.subrange(0, b.len() as int) == b,
                discoveries(
                    messages@.subrange(b.len() as int, messages@.len() as int),
                    self.topics,
                    cams.subrange(0, j as int),
                ),
            decreases cams.len() - j,
        {
            let mut more = self.cameras[j].message_complete_discovery(&self.topics);
            let ghost before = messages@;
            let ghost added = more@;
            messages.append(&mut more);
            proof {
                let next = cams.subrange(0, j + 1);
                assert(next.drop_last() =~= cams.subrange(0, j as int));
                let tail = messages@.subrange(b.len() as int, messages@.len() as int);
                assert(tail.subrange(0, tail.len() - added.len()) =~= before.subrange(
                    b.len() as int,
                    before.len() as int,
                ));
                assert(tail.subrange(tail.len() - added.len(), tail.len() as int) =~= added);
                assert(messages@.subrange(0, b.len() as int) =~= b);
            }
            j = j + 1;
        }
        let ghost c = messages@;
        let mut stats = self.message_global_stats_discovery();
        let ghost stats_msgs = stats@;
        messages.append(&mut stats);
        proof {
            let n = a.len() as int;
            assert(messages@.subrange(0, c.len() as int) =~= c);
            assert(c.subrange(0, b.len() as int) =~= b);
            assert(messages@[n] == b[n]);
            assert(messages@[n + 1] == b[n + 1]);
            assert(messages@.subrange(0, n) =~= a);
            assert(messages@.subrange(c.len() as int, messages@.len() as int) =~= stats_msgs);
            assert(messages@.subrange(n + 2, c.len() as int) =~= c.subrange(
                b.len() as int,
                c.len() as int,
            ));
        }
        messages
    }

    /// The statistics message.
    fn message_global_stats(&self) -> (r: MqttMessage)
        ensures
            stats_message(r, self.topics, self.cameras@),
    {
        let ghost cams = self.cameras@;
        let mut connected: usize = 0;
        let mut triggers: u64 = 0;
        let mut i: usize = 0;
        while i < self.cameras.len()
            invariant
                cams == self.cameras@,
                i <= cams.len(),
                connected as nat == connected_count(cams.subrange(0, i as int)),
                connected <= i,
                triggers == capped(trigger_total(cams.subrange(0, i as int))),
            decreases cams.len() - i,
        {
            proof {
                assert(cams.subrange(0, i + 1).drop_last() == cams.subrange(0, i as int));
            }
            if self.cameras[i].connected {
                connected = connected + 1;
            }
            triggers = triggers.saturating_add(self.cameras[i].triggers.len() as u64);
            i = i + 1;
        }
        assert(cams.subrange(0, cams.len() as int) == cams);
        let total = self.cameras.len();
        let mut f: Vec<(String, JsonValue)> = Vec::new();
        f.push(member("cameras_connected", JsonValue::Number(connected as u64)));
        f.push(member("cameras_disconnected", JsonValue::Number((total - connected) as u64)));
        f.push(member("cameras_total", JsonValue::Number(total as u64)));
        f.push(member("triggers_total", JsonValue::Number(triggers)));
        retained(self.topics.get_global_stats(), MqttPayload::Json(JsonValue::Object(f)))
    }

    fn stats_discovery(&self, key: &str, name: &str, unit: &str) -> (r: MqttMessage)
        ensures
            stats_discovery_message(r, self.topics, key@, name@, unit@),
    {
        let stats = self.topics.get_global_stats();
        let mut avail: Vec<JsonValue> = Vec::new();
        avail.push(topic_json(self.topics.get_global_availability()));
        let mut ids: Vec<JsonValue> = Vec::new();
        ids.push(json_string("hiksink_bridge"));
        let mut version = owned("v");
        version.append(BRIDGE_VERSION);
        let mut device: Vec<(String, JsonValue)> = Vec::new();
        device.push(member("identifiers", JsonValue::Array(ids)));
        device.push(str_field("manufacturer", "Hiksink"));
        device.push(str_field("name", "HikSink Bridge"));
        device.push(member("sw_version", JsonValue::Str(version)));
        let mut unique = owned("hiksink_stat_");
        unique.append(key);
        let mut template = owned("{{ value_json.");
        template.append(key);
        template.append(" }}");
        let mut f: Vec<(String, JsonValue)> = Vec::new();
        f.push(member("availability", JsonValue::Array(avail)));
        f.push(member("device", JsonValue::Object(device)));
        f.push(member("json_attributes_topic", JsonValue::Str(stats.clone())));
        f.push(str_field("name", name));
        f.push(member("state_topic", JsonValue::Str(stats)));
        f.push(member("unique_id", JsonValue::Str(unique)));
        f.push(member("value_template", JsonValue::Str(template)));
        f.push(str_field("unit_of_measurement", unit));
        retained(self.topics.get_global_stats_discovery(key), MqttPayload::Json(JsonValue::Object(f)))
    }

    /// The descriptors of the four statistics sensors.
    fn message_global_stats_discovery(&self) -> (r: Vec<MqttMessage>)
        ensures
            stats_discoveries(r@, self.topics),
    {
        let mut v: Vec<MqttMessage> = Vec::new();
        v.push(self.stats_discovery("cameras_connected", "Cameras Connected", "Cameras"));
        v.push(self.stats_discovery("cameras_disconnected", "Cameras Disconnected", "Cameras"));
        v.push(self.stats_discovery("cameras_total", "Total Cameras", "Cameras"));
        v.push(self.stats_discovery("triggers_total", "Total Triggers", "Triggers"));
        v
    }
}
proof fn lemma_find_camera(cams: Seq<CameraDetails>, id: Seq<char>, r: Option<usize>)
    requires
        match r {
            Some(i) => is_first_camera(cams, id, i as int),
            None => forall|k: int| 0 <= k < cams.len() ==> cam_id(#[trigger] cams[k]) != id,
        },
    ensures
        match r {
            Some(i) => find_camera(cams, id) == Some(i as int),
            None => find_camera(cams, id) is None,
        },
{
    match r {
        Some(i) => lemma_first_camera_unique(cams, id, i as int),
        None => {
            if exists|i: int| is_first_camera(cams, id, i) {
                let c = choose|c: int| is_first_camera(cams, id, c);
                assert(cam_id(cams[c]) != id);
            }
        },
    }
}

proof fn lemma_find_trigger(ts: Seq<TriggerDetails>, e: EventIdentifier, r: Option<usize>)
    requires
        match r {
            Some(j) => is_first_trigger(ts, e, j as int),
            None => forall|k: int|
                0 <= k < ts.len() ==> !same_identifier((#[trigger] ts[k]).trigger.identifier, e),
        },
    ensures
        match r {
            Some(j) => find_trigger(ts, e) == Some(j as int),
            None => find_trigger(ts, e) is None,
        },
{
    match r {
        Some(j) => lemma_first_trigger_unique(ts, e, j as int),
        None => {
            if exists|j: int| is_first_trigger(ts, e, j) {
                let c = choose|c: int| is_first_trigger(ts, e, c);
                assert(!same_identifier(ts[c].trigger.identifier, e));
            }
        },
    }
}

fn trigger_index(ts: &Vec<TriggerDetails>, e: &EventIdentifier) -> (r: Option<usize>)
    ensures
        match r {
            Some(j) => is_first_trigger(ts@, *e, j as int),
            None => forall|k: int|
                0 <= k < ts@.len() ==> !same_identifier((#[trigger] ts@[k]).trigger.identifier, *e),
        },
        match r {
            Some(j) => find_trigger(ts@, *e) == Some(j as int),
            None => find_trigger(ts@, *e) is None,
        },
{
    let mut j: usize = 0;
    while j < ts.len()
        invariant
            j <= ts@.len(),
            forall|k: int|
                0 <= k < j ==> !same_identifier((#[trigger] ts@[k]).trigger.identifier, *e),
        decreases ts@.len() - j,
    {
        if ts[j].trigger.identifier.same_as(e) {
            proof {
                lemma_find_trigger(ts@, *e, Some(j));
            }
            return Some(j);
        }
        j = j + 1;
    }
    proof {
        lemma_find_trigger(ts@, *e, None);
    }
    None
}

impl Manager {
    fn camera_index(&self, id: &str) -> (r: Option<usize>)
        ensures
            match r {
                Some(i) => find_camera(self.cameras@, id@) == Some(i as int),
                None => find_camera(self.cameras@, id@) is None,
            },
    {
        let mut i: usize = 0;
        while i < self.cameras.len()
            invariant
                i <= self.cameras@.len(),
                forall|k: int| 0 <= k < i ==> cam_id(#[trigger] self.cameras@[k]) != id@,
            decreases self.cameras@.len() - i,
        {
            if same_text(self.cameras[i].config.identifier(), id) {
                proof {
                    lemma_find_camera(self.cameras@, id@, Some(i));
                }
                return Some(i);
            }
            i = i + 1;
        }
        proof {
            lemma_find_camera(self.cameras@, id@, None);
        }
        None
    }

    /// Folds one camera event into the model and returns the messages that
    /// bring subscribers up to date. An event for an unknown camera changes
    /// nothing.
    pub fn next_event(&mut self, event: CameraEvent) -> (r: Vec<MqttMessage>)
        ensures
            next_event_spec(*old(self), event, *final(self), r@),
    {
        let ghost before = self.cameras@;
        let CameraEvent { id, event: ev } = event;
        let i = match self.camera_index(id.as_str()) {
            None => {
                return Vec::new();
            },
            Some(i) => i,
        };
        match ev {
            CameraEventType::Connected { info, triggers } => {
                let now = now_millis();
                let ghost given = triggers@;
                let mut rest = triggers;
                let mut details: Vec<TriggerDetails> = Vec::new();
                while rest.len() > 0
                    invariant
                        details@.len() + rest@.len() == given.len(),
                        rest@ == given.subrange(details@.len() as int, given.len() as int),
                        forall|k: int|
                            0 <= k < details@.len() ==> {
                                let t = #[trigger] details@[k];
                                t.trigger == given[k] && !t.alerting && t.regions@.len() == 0
                            },
                    decreases rest@.len(),
                {
                    let trigger = rest.remove(0);
                    details.push(
                        TriggerDetails {
                            trigger,
                            alerting: false,
                            regions: Vec::new(),
                            last_alert: now,
                        },
                    );
                }
                let old_cam = self.cameras.remove(i);
                let cam = CameraDetails {
                    config: old_cam.config,
                    info: Some(info),
                    triggers: details,
                    connected: true,
                    log: owned("Connected"),
                };
                self.cameras.insert(i, cam);
                assert(self.cameras@ =~= before.update(i as int, self.cameras@[i as int]));
                let mut messages = self.cameras[i].message_complete_refresh(&self.topics);
                let ghost refresh = messages@;
                let mut disc = self.cameras[i].message_complete_discovery(&self.topics);
                let ghost discovery = disc@;
                messages.append(&mut disc);
                messages.push(self.message_global_stats());
                proof {
                    let n = refresh.len() as int;
                    assert(messages@.subrange(0, n) =~= refresh);
                    assert(messages@.subrange(n, n + discovery.len()) =~= discovery);
                }
                messages
            },
            CameraEventType::Disconnected { error } => {
                let mut cam = self.cameras.remove(i);
                cam.connected = false;
                let mut log = owned("Connection Error: ");
                log.append(error.as_str());
                cam.log = log;
                self.cameras.insert(i, cam);
                assert(self.cameras@ =~= before.update(i as int, self.cameras@[i as int]));
                let mut messages: Vec<MqttMessage> = Vec::new();
                messages.push(self.cameras[i].message_log(&self.topics));
                messages.push(self.cameras[i].message_availability(&self.topics));
                messages
            },
            CameraEventType::Alert(a) => {
                let j = match trigger_index(&self.cameras[i].triggers, &a.identifier) {
                    None => {
                        assert(self.cameras@ =~= before.update(i as int, self.cameras@[i as int]));
                        return Vec::new();
                    },
                    Some(j) => j,
                };
                if self.cameras[i].triggers[j].alerting == a.active && regions_equal(
                    &self.cameras[i].triggers[j].regions,
                    &a.regions,
                ) {
                    assert(self.cameras@ =~= before.update(i as int, self.cameras@[i as int]));
                    return Vec::new();
                }
                let mut cam = self.cameras.remove(i);
                let mut t = cam.triggers.remove(j);
                t.alerting = a.active;
                t.regions = a.regions;
                cam.triggers.insert(j, t);
                proof {
                    let old_ts = before[i as int].triggers@;
                    assert(cam.triggers@ =~= old_ts.update(j as int, cam.triggers@[j as int]));
                }
                self.cameras.insert(i, cam);
                assert(self.cameras@ =~= before.update(i as int, self.cameras@[i as int]));
                let mut messages: Vec<MqttMessage> = Vec::new();
                messages.push(self.cameras[i].triggers[j].message_state(&self.topics, &self.cameras[i]));
                messages
            },
        }
    }

    /// The diagnostic the bridge logs for `event`, if any: an event for an
    /// unknown camera, or an alert for a trigger the camera never enumerated
    /// (video loss excepted, which devices other than recorders do not list).
    pub fn event_warning(&self, event: &CameraEvent) -> (r: Option<String>)
        ensures
            opt_text(r) == warning_for(*self, *event),
    {
        match self.camera_index(event.id.as_str()) {
            None => {
                let mut m = owned("Invalid camera event for camera ");
                m.append(event.id.as_str());
                Some(m)
            },
            Some(i) => match &event.event {
                CameraEventType::Alert(a) => {
                    match trigger_index(&self.cameras[i].triggers, &a.identifier) {
                        None => {
                            if a.identifier.event_type.is_video_loss() {
                                None
                            } else {
                                let mut m = owned("Camera ");
                                m.append(event.id.as_str());
                                m.append(" sent an alert for a trigger which does not exist");
                                Some(m)
                            }
                        },
                        Some(_) => None,
                    }
                },
                _ => None,
            },
        }
    }
}


// ---------------------------------------------------------------------------
// Laws of the manager.

proof fn lemma_first_camera_unique(cams: Seq<CameraDetails>, id: Seq<char>, i: int)
    requires
        is_first_camera(cams, id, i),
    ensures
        find_camera(cams, id) == Some(i),
{
    let c = choose|c: int| is_first_camera(cams, id, c);
    assert(c == i) by {
        if c < i {
            assert(cam_id(cams[c]) != id);
        } else if c > i {
            assert(cam_id(cams[i]) != id);
        }
    }
}

proof fn lemma_first_trigger_unique(ts: Seq<TriggerDetails>, e: EventIdentifier, j: int)
    requires
        is_first_trigger(ts, e, j),
    ensures
        find_trigger(ts, e) == Some(j),
{
    let c = choose|c: int| is_first_trigger(ts, e, c);
    assert(c == j) by {
        if c < j {
            assert(!same_identifier(ts[c].trigger.identifier, e));
        } else if c > j {
            assert(!same_identifier(ts[j].trigger.identifier, e));
        }
    }
}

/// Cameras with the same identifiers, in the same order, are found alike.
proof fn lemma_find_camera_same(c0: Seq<CameraDetails>, c1: Seq<CameraDetails>, id: Seq<char>)
    requires
        c0.len() == c1.len(),
        forall|k: int| 0 <= k < c0.len() ==> cam_id(#[trigger] c0[k]) == cam_id(c1[k]),
    ensures
        find_camera(c0, id) == find_camera(c1, id),
{
    if exists|i: int| is_first_camera(c0, id, i) {
        let i = choose|i: int| is_first_camera(c0, id, i);
        assert forall|k: int| 0 <= k < i implies cam_id(#[trigger] c1[k]) != id by {
            assert(cam_id(c0[k]) != id);
        }
        assert(is_first_camera(c1, id, i));
        lemma_first_camera_unique(c1, id, i);
    } else if exists|i: int| is_first_camera(c1, id, i) {
        let i = choose|i: int| is_first_camera(c1, id, i);
        assert forall|k: int| 0 <= k < i implies cam_id(#[trigger] c0[k]) != id by {
            assert(cam_id(c1[k]) != id);
        }
        assert(is_first_camera(c0, id, i));
    }
}

/// Triggers with the same identifiers, in the same order, are found alike by
/// identifiers that name the same trigger.
proof fn lemma_find_trigger_same(
    t0: Seq<TriggerDetails>,
    e0: EventIdentifier,
    t1: Seq<TriggerDetails>,
    e1: EventIdentifier,
)
    requires
        t0.len() == t1.len(),
        forall|k: int|
            0 <= k < t0.len() ==> (#[trigger] t0[k]).trigger.identifier == t1[k].trigger.identifier,
        same_identifier(e0, e1),
    ensures
        find_trigger(t0, e0) == find_trigger(t1, e1),
{
    if exists|j: int| is_first_trigger(t0, e0, j) {
        let j = choose|j: int| is_first_trigger(t0, e0, j);
        assert forall|k: int| 0 <= k < j implies !same_identifier(
            (#[trigger] t1[k]).trigger.identifier,
            e1,
        ) by {
            assert(!same_identifier(t0[k].trigger.identifier, e0));
        }
        assert(same_identifier(t1[j].trigger.identifier, e1));
        assert(is_first_trigger(t1, e1, j));
        lemma_first_trigger_unique(t1, e1, j);
    } else if exists|j: int| is_first_trigger(t1, e1, j) {
        let j = choose|j: int| is_first_trigger(t1, e1, j);
        assert forall|k: int| 0 <= k < j implies !same_identifier(
            (#[trigger] t0[k]).trigger.identifier,
            e0,
        ) by {
            assert(!same_identifier(t1[k].trigger.identifier, e1));
        }
        assert(same_identifier(t0[j].trigger.identifier, e0));
        assert(is_first_trigger(t0, e0, j));
    }
}

proof fn lemma_same_regions_trans(a: Seq<DetectionRegion>, b: Seq<DetectionRegion>, c: Seq<DetectionRegion>)
    requires
        same_regions(a, b),
        same_regions(b, c),
    ensures
        same_regions(a, c),
{
    assert forall|i: int| 0 <= i < a.len() implies crate::alert::same_region(#[trigger] a[i], c[i]) by {
        assert(crate::alert::same_region(a[i], b[i]));
        assert(crate::alert::same_region(b[i], c[i]));
    }
}

proof fn lemma_same_regions_refl(a: Seq<DetectionRegion>)
    ensures
        same_regions(a, a),
{
}

/// Two consecutive alerts that carry the same trigger, activity and regions:
/// the second publishes nothing.
pub proof fn law_alert_dedup(
    m0: Manager,
    e1: CameraEvent,
    m1: Manager,
    ms1: Seq<MqttMessage>,
    e2: CameraEvent,
    m2: Manager,
    ms2: Seq<MqttMessage>,
)
    requires
        next_event_spec(m0, e1, m1, ms1),
        next_event_spec(m1, e2, m2, ms2),
        e1.id@ == e2.id@,
        e1.event is Alert,
        e2.event is Alert,
        same_identifier(e1.event->Alert_0.identifier, e2.event->Alert_0.identifier),
        e1.event->Alert_0.active == e2.event->Alert_0.active,
        same_regions(e1.event->Alert_0.regions@, e2.event->Alert_0.regions@),
    ensures
        ms2.len() == 0,
{
    let a1 = e1.event->Alert_0;
    let a2 = e2.event->Alert_0;
    let id = e1.id@;
    match find_camera(m0.cameras@, id) {
        None => {
            lemma_find_camera_same(m0.cameras@, m1.cameras@, id);
        },
        Some(i) => {
            let c0 = m0.cameras@[i];
            let c1 = m1.cameras@[i];
            assert forall|k: int| 0 <= k < m0.cameras@.len() implies cam_id(
                #[trigger] m0.cameras@[k],
            ) == cam_id(m1.cameras@[k]) by {
                if k != i {
                    assert(m1.cameras@[k] == m0.cameras@[k]);
                }
            }
            lemma_find_camera_same(m0.cameras@, m1.cameras@, id);
            match find_trigger(c0.triggers@, a1.identifier) {
                None => {
                    lemma_find_trigger_same(c0.triggers@, a1.identifier, c1.triggers@, a2.identifier);
                },
                Some(j) => {
                    let t = c0.triggers@[j];
                    assert forall|k: int| 0 <= k < c0.triggers@.len() implies (
                    #[trigger] c0.triggers@[k]).trigger.identifier
                        == c1.triggers@[k].trigger.identifier by {
                        if k != j {
                            assert(c1.triggers@[k] == c0.triggers@[k]);
                        }
                    }
                    lemma_find_trigger_same(c0.triggers@, a1.identifier, c1.triggers@, a2.identifier);
                    if t.alerting == a1.active && same_regions(t.regions@, a1.regions@) {
                        lemma_same_regions_trans(t.regions@, a1.regions@, a2.regions@);
                    } else {
                        lemma_same_regions_refl(a1.regions@);
                        lemma_same_regions_trans(a1.regions@, a1.regions@, a2.regions@);
                    }
                },
            }
        },
    }
}

/// Whether `m` carries a trigger's discovery descriptor (a JSON object of
/// nine or more members; no other message the manager emits has one).
pub open spec fn is_trigger_descriptor(m: MqttMessage) -> bool {
    m.payload is Json && is_object(json_payload(m)) && members(json_payload(m)).len() >= 9
}

/// After a `Connected` event for a configured camera, the batch holds exactly
/// one discovery descriptor per reported trigger, in the reported order.
pub proof fn law_connected_discovery_per_trigger(
    m0: Manager,
    e: CameraEvent,
    m1: Manager,
    ms: Seq<MqttMessage>,
)
    requires
        next_event_spec(m0, e, m1, ms),
        e.event is Connected,
        find_camera(m0.cameras@, e.id@) is Some,
    ensures
        ({
            let i = find_camera(m0.cameras@, e.id@)->Some_0;
            let cam = m1.cameras@[i];
            let info = e.event->Connected_info;
            let triggers = e.event->Connected_triggers@;
            let n = triggers.len() + 2;
            &&& ms.len() == n + triggers.len() + 1
            &&& forall|k: int|
                0 <= k < ms.len() ==> (is_trigger_descriptor(#[trigger] ms[k]) <==> n <= k < n
                    + triggers.len())
            &&& forall|j: int|
                0 <= j < triggers.len() ==> discovery_message(
                    #[trigger] ms[n + j],
                    m1.topics,
                    cam,
                    cam.triggers@[j],
                    info,
                ) && cam.triggers@[j].trigger == triggers[j]
        }),
{
    let i = find_camera(m0.cameras@, e.id@)->Some_0;
    let cam = m1.cameras@[i];
    let t = e.event->Connected_triggers@.len() as int;
    let n = t + 2;
    let refresh = ms.subrange(0, n);
    let disc = ms.subrange(n, n + t);
    let states = refresh.subrange(0, t);
    assert forall|k: int| 0 <= k < ms.len() implies (is_trigger_descriptor(#[trigger] ms[k]) <==> n
        <= k < n + t) by {
        if k < t {
            assert(ms[k] == states[k]);
            assert(state_message(states[k], m1.topics.base@, cam_id(cam), cam.triggers@[k]));
        } else if k < n {
            assert(ms[k] == refresh[k]);
        } else if k < n + t {
            assert(ms[k] == disc[k - n]);
            assert(discovery_message(disc[k - n], m1.topics, cam, cam.triggers@[k - n], cam.info->Some_0));
        }
    }
    assert forall|j: int| 0 <= j < t implies discovery_message(
        #[trigger] ms[n + j],
        m1.topics,
        cam,
        cam.triggers@[j],
        e.event->Connected_info,
    ) by {
        assert(ms[n + j] == disc[j]);
    }
}

/// `cam`'s complete refresh stands in `ms` from `o` on.
pub open spec fn refresh_at(ms: Seq<MqttMessage>, base: Seq<char>, cam: CameraDetails, o: int) -> bool {
    0 <= o && o + refresh_len(cam) <= ms.len() && complete_refresh(
        ms.subrange(o, o + refresh_len(cam)),
        base,
        cam,
    )
}

pub open spec fn has_refresh(ms: Seq<MqttMessage>, base: Seq<char>, cam: CameraDetails) -> bool {
    exists|o: int| refresh_at(ms, base, cam, o)
}

/// Each camera's refresh sits somewhere in a sequence of refreshes.
proof fn lemma_refreshes_contain(ms: Seq<MqttMessage>, base: Seq<char>, cams: Seq<CameraDetails>)
    requires
        refreshes(ms, base, cams),
    ensures
        forall|i: int| 0 <= i < cams.len() ==> has_refresh(ms, base, #[trigger] cams[i]),
    decreases cams.len(),
{
    if cams.len() > 0 {
        let k = ms.len() - refresh_len(cams.last());
        let front = ms.subrange(0, k);
        lemma_refreshes_contain(front, base, cams.drop_last());
        assert forall|i: int| 0 <= i < cams.len() implies has_refresh(ms, base, #[trigger] cams[i]) by {
            if i == cams.len() - 1 {
                assert(ms.subrange(k, k + refresh_len(cams[i])) =~= ms.subrange(k, ms.len() as int));
                assert(refresh_at(ms, base, cams[i], k));
            } else {
                assert(cams[i] == cams.drop_last()[i]);
                assert(has_refresh(front, base, cams.drop_last()[i]));
                let o = choose|o: int| refresh_at(front, base, cams[i], o);
                assert(front.subrange(o, o + refresh_len(cams[i])) =~= ms.subrange(
                    o,
                    o + refresh_len(cams[i]),
                ));
                assert(refresh_at(ms, base, cams[i], o));
            }
        }
    }
}

pub open spec fn publishes_state(ms: Seq<MqttMessage>, base: Seq<char>, cam: CameraDetails, t: TriggerDetails) -> bool {
    exists|k: int| 0 <= k < ms.len() && state_message(#[trigger] ms[k], base, cam_id(cam), t)
}

pub open spec fn publishes_log(ms: Seq<MqttMessage>, base: Seq<char>, cam: CameraDetails) -> bool {
    exists|k: int| 0 <= k < ms.len() && log_message(#[trigger] ms[k], base, cam)
}

pub open spec fn publishes_availability(ms: Seq<MqttMessage>, base: Seq<char>, cam: CameraDetails) -> bool {
    exists|k: int| 0 <= k < ms.len() && availability_message(#[trigger] ms[k], base, cam)
}

/// After a broker connection, what is published covers every retained
/// state the manager holds: each trigger's state, each camera's log and
/// availability, the bridge's availability and the statistics.
pub proof fn law_connection_refresh_covers_state(m: Manager, ms: Seq<MqttMessage>)
    requires
        connection_refresh(ms, m),
    ensures
        forall|i: int, j: int|
            0 <= i < m.cameras@.len() && 0 <= j < m.cameras@[i].triggers@.len() ==> publishes_state(
                ms,
                m.topics.base@,
                m.cameras@[i],
                #[trigger] m.cameras@[i].triggers@[j],
            ),
        forall|i: int|
            0 <= i < m.cameras@.len() ==> publishes_log(ms, m.topics.base@, #[trigger] m.cameras@[i]),
        forall|i: int|
            0 <= i < m.cameras@.len() ==> publishes_availability(
                ms,
                m.topics.base@,
                #[trigger] m.cameras@[i],
            ),
        exists|k: int|
            0 <= k < ms.len() && retained_on(
                #[trigger] ms[k],
                global_availability_topic(m.topics.base@),
            ) && text_payload(ms[k], "online"@),
        exists|k: int| 0 <= k < ms.len() && stats_message(#[trigger] ms[k], m.topics, m.cameras@),
{
    let cams = m.cameras@;
    let base = m.topics.base@;
    let a = refreshes_len(cams) as int;
    let front = ms.subrange(0, a);
    lemma_refreshes_contain(front, base, cams);
    assert forall|i: int, j: int|
        0 <= i < cams.len() && 0 <= j < cams[i].triggers@.len() implies publishes_state(
        ms,
        base,
        cams[i],
        #[trigger] cams[i].triggers@[j],
    ) by {
        let r = refresh_len(cams[i]);
        assert(has_refresh(front, base, cams[i]));
        let o = choose|o: int| refresh_at(front, base, cams[i], o);
        let sub = front.subrange(o, o + r);
        let n = cams[i].triggers@.len() as int;
        assert(sub.subrange(0, n)[j] == ms[o + j]);
        assert(state_message(ms[o + j], base, cam_id(cams[i]), cams[i].triggers@[j]));
    }
    assert forall|i: int| 0 <= i < cams.len() implies publishes_log(ms, base, #[trigger] cams[i]) by {
        let r = refresh_len(cams[i]);
        assert(has_refresh(front, base, cams[i]));
        let o = choose|o: int| refresh_at(front, base, cams[i], o);
        let n = cams[i].triggers@.len() as int;
        assert(front.subrange(o, o + r)[n] == ms[o + n]);
        assert(log_message(ms[o + n], base, cams[i]));
    }
    assert forall|i: int| 0 <= i < cams.len() implies publishes_availability(
        ms,
        base,
        #[trigger] cams[i],
    ) by {
        let r = refresh_len(cams[i]);
        assert(has_refresh(front, base, cams[i]));
        let o = choose|o: int| refresh_at(front, base, cams[i], o);
        let n = cams[i].triggers@.len() as int;
        assert(front.subrange(o, o + r)[n + 1] == ms[o + n + 1]);
        assert(availability_message(ms[o + n + 1], base, cams[i]));
    }
    assert(retained_on(ms[a], global_availability_topic(base)));
    assert(stats_message(ms[a + 1], m.topics, cams));
}

/// Every connected camera has its device information.
pub open spec fn connected_have_info(cams: Seq<CameraDetails>) -> bool {
    forall|i: int| 0 <= i < cams.len() && (#[trigger] cams[i]).connected ==> cams[i].info is Some
}

/// Every event keeps each connected camera's device information present
/// (a new manager has no connected camera: see `Manager::new`).
pub proof fn law_connected_have_info(
    m0: Manager,
    e: CameraEvent,
    m1: Manager,
    ms: Seq<MqttMessage>,
)
    requires
        connected_have_info(m0.cameras@),
        next_event_spec(m0, e, m1, ms),
    ensures
        connected_have_info(m1.cameras@),
{
    match find_camera(m0.cameras@, e.id@) {
        None => {},
        Some(i) => {
            assert forall|k: int|
                0 <= k < m1.cameras@.len() && (#[trigger] m1.cameras@[k]).connected implies m1.cameras@[k].info is Some by {
                if k != i {
                    assert(m1.cameras@[k] == m0.cameras@[k]);
                }
            }
        },
    }
}

/// With camera identifiers unique and, within a camera, trigger identifiers
/// unique, an alert that repeats a trigger's stored activity and regions
/// changes nothing and publishes nothing.
pub proof fn law_repeated_state_publishes_nothing(
    m0: Manager,
    e: CameraEvent,
    m1: Manager,
    ms: Seq<MqttMessage>,
    i: int,
    j: int,
)
    requires
        next_event_spec(m0, e, m1, ms),
        forall|k: int, l: int|
            0 <= k < l < m0.cameras@.len() ==> cam_id(#[trigger] m0.cameras@[k]) != cam_id(
                #[trigger] m0.cameras@[l],
            ),
        0 <= i < m0.cameras@.len(),
        cam_id(m0.cameras@[i]) == e.id@,
        forall|k: int, l: int|
            0 <= k < l < m0.cameras@[i].triggers@.len() ==> !same_identifier(
                (#[trigger] m0.cameras@[i].triggers@[k]).trigger.identifier,
                (#[trigger] m0.cameras@[i].triggers@[l]).trigger.identifier,
            ),
        e.event is Alert,
        0 <= j < m0.cameras@[i].triggers@.len(),
        same_identifier(m0.cameras@[i].triggers@[j].trigger.identifier, e.event->Alert_0.identifier),
        m0.cameras@[i].triggers@[j].alerting == e.event->Alert_0.active,
        same_regions(m0.cameras@[i].triggers@[j].regions@, e.event->Alert_0.regions@),
    ensures
        ms.len() == 0,
        m1.cameras@ == m0.cameras@,
{
    let cams = m0.cameras@;
    let ts = cams[i].triggers@;
    let a = e.event->Alert_0;
    assert forall|k: int| 0 <= k < i implies cam_id(#[trigger] cams[k]) != e.id@ by {
        assert(cam_id(cams[k]) != cam_id(cams[i]));
    }
    assert(is_first_camera(cams, e.id@, i));
    lemma_first_camera_unique(cams, e.id@, i);
    assert forall|k: int| 0 <= k < j implies !same_identifier(
        (#[trigger] ts[k]).trigger.identifier,
        a.identifier,
    ) by {
        assert(!same_identifier(ts[k].trigger.identifier, ts[j].trigger.identifier));
    }
    assert(is_first_trigger(ts, a.identifier, j));
    lemma_first_trigger_unique(ts, a.identifier, j);
    assert(m1.cameras@ =~= m0.cameras@);
}

} // verus!
