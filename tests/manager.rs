use hik_sink::alert::{AlertItem, DetectionRegion, RegionCoordinates};
use hik_sink::camera::{CameraEvent, CameraEventType};
use hik_sink::config::ConfigCamera;
use hik_sink::device_info::DeviceInfo;
use hik_sink::event_type::{EventIdentifier, EventType};
use hik_sink::json::JsonValue;
use hik_sink::manager::Manager;
use hik_sink::messages::{MqttMessage, MqttPayload, MqttQoS};
use hik_sink::topics::MqttTopics;
use hik_sink::triggers::TriggerItem;

fn sample_cameras() -> Vec<ConfigCamera> {
    vec![ConfigCamera {
        generated_id: "cam1".into(),
        name: "Camera 1".into(),
        address: "192.168.20.2".into(),
        port: None,
        username: "admin".into(),
        password: "password".into(),
    }]
}

fn sample_device_info() -> DeviceInfo {
    DeviceInfo {
        device_name: "Cam 1".into(),
        device_id: "7ccc4404-e05d-4376-8ebf-81127da67c11".into(),
        model: "DS-2DE4A425IW-DE".into(),
        serial_number: "DS-2DE4A425IW-DE20180101AAWRC52000000W".into(),
        mac_address: "ff:ff:ff:ff:ff:ff".into(),
        firmware_version: "V5.5.71".into(),
        firmware_release_date: "build 180725".into(),
        device_type: "IPDome".into(),
    }
}

fn body(m: &MqttMessage) -> String {
    match &m.payload {
        MqttPayload::Constant(c) => c.clone(),
        MqttPayload::Json(j) => String::from_utf8(j.render()).unwrap(),
    }
}

fn assert_retained(m: &MqttMessage, topic: &str, payload: &str) {
    assert_eq!(m.topic, topic);
    assert_eq!(m.qos, MqttQoS::AtLeastOnce);
    assert!(m.retain);
    assert_eq!(body(m), payload);
}

fn alert(identifier: EventIdentifier, active: bool, regions: Vec<DetectionRegion>) -> CameraEvent {
    CameraEvent {
        id: "cam1".into(),
        event: CameraEventType::Alert(AlertItem {
            active,
            date: "".to_string(),
            description: "".to_string(),
            post_count: 1,
            regions,
            identifier,
        }),
    }
}

fn connected(triggers: Vec<TriggerItem>) -> CameraEvent {
    CameraEvent {
        id: "cam1".into(),
        event: CameraEventType::Connected { triggers, info: sample_device_info() },
    }
}

fn sample_region() -> DetectionRegion {
    DetectionRegion {
        id: "0".into(),
        sensitivity: 50,
        coordinates: vec![RegionCoordinates { x: 425, y: 600 }, RegionCoordinates { x: 160, y: 400 }],
    }
}

const STATS_KEYS: [(&str, &str, &str); 4] = [
    ("cameras_connected", "Cameras Connected", "Cameras"),
    ("cameras_disconnected", "Cameras Disconnected", "Cameras"),
    ("cameras_total", "Total Cameras", "Cameras"),
    ("triggers_total", "Total Triggers", "Triggers"),
];

fn assert_stats_discovery(ms: &[MqttMessage]) {
    assert_eq!(ms.len(), 4);
    for (m, (key, name, unit)) in ms.iter().zip(STATS_KEYS) {
        assert_retained(
            m,
            &format!("homeassistant/sensor/hiksink/{}/config", key),
            &format!(
                "{{\"availability\":[{{\"topic\":\"hikvision_cameras/availability\"}}],\"device\":{{\"identifiers\":[\"hiksink_bridge\"],\"manufacturer\":\"Hiksink\",\"name\":\"HikSink Bridge\",\"sw_version\":\"v0.1.0\"}},\"json_attributes_topic\":\"hikvision_cameras/stats\",\"name\":\"{}\",\"state_topic\":\"hikvision_cameras/stats\",\"unique_id\":\"hiksink_stat_{}\",\"unit_of_measurement\":\"{}\",\"value_template\":\"{{{{ value_json.{} }}}}\"}}",
                name, key, unit, key
            ),
        );
    }
}

#[test]
fn test_initial_state() {
    let manager = Manager::new(sample_cameras(), MqttTopics::default());
    assert_eq!(manager.topics, MqttTopics::new("hikvision_cameras".into(), "homeassistant".into()));
    assert_eq!(manager.cameras.len(), 1);
    let cam = &manager.cameras[0];
    assert_eq!(cam.config, sample_cameras()[0]);
    assert_eq!(cam.info, None);
    assert!(cam.triggers.is_empty());
    assert!(!cam.connected);
    assert_eq!(cam.log, "Initial connection in progress...");
}

#[test]
fn test_lwt() {
    let manager = Manager::new(sample_cameras(), MqttTopics::default());
    assert_retained(&manager.mqtt_lwt(), "hikvision_cameras/availability", "offline");
}

#[test]
fn test_mqtt_connection_initial() {
    let manager = Manager::new(sample_cameras(), MqttTopics::default());
    let ms = manager.mqtt_connection_established();
    assert_eq!(ms.len(), 8);
    assert_retained(&ms[0], "hikvision_cameras/device_cam1/log", "Initial connection in progress...");
    assert_retained(&ms[1], "hikvision_cameras/device_cam1/availability", "offline");
    assert_retained(&ms[2], "hikvision_cameras/availability", "online");
    assert_retained(
        &ms[3],
        "hikvision_cameras/stats",
        "{\"cameras_connected\":0,\"cameras_disconnected\":1,\"cameras_total\":1,\"triggers_total\":0}",
    );
    assert_stats_discovery(&ms[4..]);
}

fn discovery_text(kind: &str, friendly: &str, extra: &str) -> String {
    format!(
        "{{\"availability\":[{{\"topic\":\"hikvision_cameras/availability\"}},{{\"topic\":\"hikvision_cameras/device_cam1/availability\"}}],\"device\":{{\"identifiers\":[\"cam1_hiksink\",\"DS-2DE4A425IW-DE20180101AAWRC52000000W\",\"ff:ff:ff:ff:ff:ff\"],\"manufacturer\":\"Hikvision\",\"model\":\"DS-2DE4A425IW-DE (IPDome)\",\"name\":\"Camera 1\",\"sw_version\":\"HikSink v0.1.0 / Camera Firmware V5.5.71 (build 180725)\"}},{extra}\"json_attributes_topic\":\"hikvision_cameras/device_cam1/ch1/{kind}\",\"name\":\"Camera 1 CH1 {friendly}\",\"payload_off\":false,\"payload_on\":true,\"state_topic\":\"hikvision_cameras/device_cam1/ch1/{kind}\",\"unique_id\":\"device_cam1_ch1_{kind}_hiksink\",\"value_template\":\"{{{{ value_json.alerting }}}}\"}}"
    )
}

#[test]
fn test_camera_connection() {
    let cams = sample_cameras();
    let mut manager = Manager::new(cams.clone(), MqttTopics::default());
    let messages = manager.next_event(CameraEvent {
        id: cams[0].identifier().to_string(),
        event: CameraEventType::Connected {
            triggers: vec![
                EventIdentifier::new(Some("1".into()), EventType::Motion).into(),
                EventIdentifier::new(Some("1".into()), EventType::Io).into(),
            ],
            info: sample_device_info(),
        },
    });
    let cam = &manager.cameras[0];
    assert!(cam.connected);
    assert_eq!(cam.log, "Connected");
    assert_eq!(cam.info, Some(sample_device_info()));
    assert_eq!(cam.triggers.len(), 2);
    assert_eq!(cam.triggers[0].trigger.hik_id, "Motion-1");
    assert_eq!(cam.triggers[1].trigger.hik_id, "Io-1");
    assert!(cam.triggers.iter().all(|t| !t.alerting && t.regions.is_empty()));

    assert_eq!(messages.len(), 7);
    assert_retained(&messages[0], "hikvision_cameras/device_cam1/ch1/Motion", "{\"alerting\":false,\"regions\":[]}");
    assert_retained(&messages[1], "hikvision_cameras/device_cam1/ch1/Io", "{\"alerting\":false,\"regions\":[]}");
    assert_retained(&messages[2], "hikvision_cameras/device_cam1/log", "Connected");
    assert_retained(&messages[3], "hikvision_cameras/device_cam1/availability", "online");
    assert_retained(
        &messages[4],
        "homeassistant/binary_sensor/hiksink/device_cam1_ch1_Motion/config",
        &discovery_text("Motion", "Motion", "\"device_class\":\"motion\","),
    );
    assert_retained(
        &messages[5],
        "homeassistant/binary_sensor/hiksink/device_cam1_ch1_Io/config",
        &discovery_text("Io", "I/O Port", "\"icon\":\"mdi:electric-switch\","),
    );
    assert_retained(
        &messages[6],
        "hikvision_cameras/stats",
        "{\"cameras_connected\":1,\"cameras_disconnected\":0,\"cameras_total\":1,\"triggers_total\":2}",
    );
}

#[test]
fn test_camera_alert_invalid() {
    let cams = sample_cameras();
    let mut manager = Manager::new(cams.clone(), MqttTopics::default());
    let trigger1: TriggerItem = EventIdentifier::new(Some("1".into()), EventType::Motion).into();
    manager.next_event(connected(vec![trigger1]));

    let old_manager = manager.clone();
    let messages = manager.next_event(alert(
        EventIdentifier::new(Some("2".into()), EventType::Motion),
        true,
        vec![],
    ));
    assert_eq!(manager, old_manager);
    assert_eq!(messages.len(), 0);
}

#[test]
fn test_camera_alert_basic() {
    let mut manager = Manager::new(sample_cameras(), MqttTopics::default());
    let trigger1: TriggerItem = EventIdentifier::new(Some("1".into()), EventType::Motion).into();
    manager.next_event(connected(vec![trigger1.clone()]));
    let messages = manager.next_event(alert(trigger1.identifier, true, vec![]));
    assert!(manager.cameras[0].triggers[0].alerting);
    assert!(manager.cameras[0].triggers[0].regions.is_empty());
    assert_eq!(messages.len(), 1);
    assert_retained(&messages[0], "hikvision_cameras/device_cam1/ch1/Motion", "{\"alerting\":true,\"regions\":[]}");
}

const REGION_STATE: &str = "{\"alerting\":true,\"regions\":[{\"coordinates\":[{\"x\":425,\"y\":600},{\"x\":160,\"y\":400}],\"id\":\"0\",\"sensitivity\":50}]}";

#[test]
fn test_camera_alert_regions() {
    let mut manager = Manager::new(sample_cameras(), MqttTopics::default());
    let trigger1: TriggerItem = EventIdentifier::new(Some("1".into()), EventType::Motion).into();
    manager.next_event(connected(vec![trigger1.clone()]));
    let messages = manager.next_event(alert(trigger1.identifier, true, vec![sample_region()]));
    assert!(manager.cameras[0].triggers[0].alerting);
    assert_eq!(manager.cameras[0].triggers[0].regions, vec![sample_region()]);
    assert_eq!(messages.len(), 1);
    assert_retained(&messages[0], "hikvision_cameras/device_cam1/ch1/Motion", REGION_STATE);
}

#[test]
fn test_camera_alert_regions_restored() {
    let mut manager = Manager::new(sample_cameras(), MqttTopics::default());
    let trigger1: TriggerItem = EventIdentifier::new(Some("1".into()), EventType::Motion).into();
    manager.next_event(connected(vec![trigger1.clone()]));
    let first = manager.next_event(alert(trigger1.identifier.clone(), true, vec![sample_region()]));
    let messages = manager.next_event(alert(trigger1.identifier, false, vec![]));
    assert_eq!(first.len(), 1);
    assert!(!manager.cameras[0].triggers[0].alerting);
    assert!(manager.cameras[0].triggers[0].regions.is_empty());
    assert_eq!(messages.len(), 1);
    assert_retained(&messages[0], "hikvision_cameras/device_cam1/ch1/Motion", "{\"alerting\":false,\"regions\":[]}");
}

#[test]
fn unknown_camera_event_is_ignored() {
    let mut manager = Manager::new(sample_cameras(), MqttTopics::default());
    let before = manager.clone();
    let mut ev = alert(EventIdentifier::new(Some("2".into()), EventType::Motion), true, vec![]);
    let messages = manager.next_event(ev.clone());
    assert_eq!(manager, before);
    assert!(messages.is_empty());
    ev.id = "nope".into();
    assert_eq!(
        manager.event_warning(&ev),
        Some("Invalid camera event for camera nope".to_string())
    );
    assert!(manager.next_event(ev).is_empty());
    assert_eq!(manager, before);
}

#[test]
fn repeated_alert_is_deduplicated() {
    let mut manager = Manager::new(sample_cameras(), MqttTopics::default());
    let trigger1: TriggerItem = EventIdentifier::new(Some("1".into()), EventType::Motion).into();
    manager.next_event(connected(vec![trigger1.clone()]));
    assert_eq!(manager.next_event(alert(trigger1.identifier.clone(), true, vec![])).len(), 1);
    assert_eq!(manager.next_event(alert(trigger1.identifier.clone(), true, vec![])).len(), 0);
    assert_eq!(manager.next_event(alert(trigger1.identifier.clone(), true, vec![sample_region()])).len(), 1);
    assert_eq!(manager.next_event(alert(trigger1.identifier, true, vec![sample_region()])).len(), 0);
}

#[test]
fn reconnect_replay_covers_state() {
    let mut manager = Manager::new(sample_cameras(), MqttTopics::default());
    let trigger1: TriggerItem = EventIdentifier::new(Some("1".into()), EventType::Motion).into();
    manager.next_event(connected(vec![trigger1.clone()]));
    manager.next_event(alert(trigger1.identifier, true, vec![]));
    let ms = manager.mqtt_connection_established();
    assert_eq!(ms.len(), 3 + 2 + 1 + 4);
    assert_retained(&ms[0], "hikvision_cameras/device_cam1/ch1/Motion", "{\"alerting\":true,\"regions\":[]}");
    assert_retained(&ms[1], "hikvision_cameras/device_cam1/log", "Connected");
    assert_retained(&ms[2], "hikvision_cameras/device_cam1/availability", "online");
    assert_retained(&ms[3], "hikvision_cameras/availability", "online");
    assert_retained(
        &ms[4],
        "hikvision_cameras/stats",
        "{\"cameras_connected\":1,\"cameras_disconnected\":0,\"cameras_total\":1,\"triggers_total\":1}",
    );
    assert_eq!(ms[5].topic, "homeassistant/binary_sensor/hiksink/device_cam1_ch1_Motion/config");
    assert_stats_discovery(&ms[6..]);
}

#[test]
fn video_loss_without_trigger_is_silent() {
    let mut manager = Manager::new(sample_cameras(), MqttTopics::default());
    let trigger1: TriggerItem = EventIdentifier::new(Some("1".into()), EventType::Motion).into();
    manager.next_event(connected(vec![trigger1]));
    let loss = alert(EventIdentifier::new(Some("1".into()), EventType::VideoLoss), true, vec![]);
    assert_eq!(manager.event_warning(&loss), None);
    assert!(manager.next_event(loss).is_empty());
    let tamper = alert(EventIdentifier::new(Some("1".into()), EventType::Tamper), true, vec![]);
    assert_eq!(
        manager.event_warning(&tamper),
        Some("Camera cam1 sent an alert for a trigger which does not exist".to_string())
    );
    assert!(manager.next_event(tamper).is_empty());
}

#[test]
fn disconnection_reports_error() {
    let mut manager = Manager::new(sample_cameras(), MqttTopics::default());
    manager.next_event(connected(vec![]));
    let ms = manager.next_event(CameraEvent {
        id: "cam1".into(),
        event: CameraEventType::Disconnected { error: "boom".into() },
    });
    assert!(!manager.cameras[0].connected);
    assert_eq!(manager.cameras[0].log, "Connection Error: boom");
    assert_eq!(ms.len(), 2);
    assert_retained(&ms[0], "hikvision_cameras/device_cam1/log", "Connection Error: boom");
    assert_retained(&ms[1], "hikvision_cameras/device_cam1/availability", "offline");
}

#[test]
fn test_rendered_mqtt_payload() {
    let mq: MqttPayload = "offline".into();
    assert_eq!(mq.render(), "offline".as_bytes());
    let mq: MqttPayload = "offline".to_string().into();
    assert_eq!(mq.render(), "offline".as_bytes());
    let nested = JsonValue::Object(vec![("test".to_string(), JsonValue::Str("output".to_string()))]);
    let mq: MqttPayload = JsonValue::Object(vec![
        ("test".to_string(), JsonValue::Str("output".to_string())),
        ("nested".to_string(), nested),
    ])
    .into();
    assert_eq!(
        String::from_utf8(mq.render()).unwrap(),
        "{\"nested\":{\"test\":\"output\"},\"test\":\"output\"}"
    );
}

#[test]
fn topic_scheme() {
    let t = MqttTopics::new("base".into(), "ha".into());
    assert_eq!(t.get_global_availability(), "base/availability");
    assert_eq!(t.get_global_stats(), "base/stats");
    assert_eq!(t.get_global_stats_discovery("k"), "ha/sensor/hiksink/k/config");
    let e = EventIdentifier::new(None, EventType::DiskFull);
    assert_eq!(t.get_trigger_state("c", &e), "base/device_c/DiskFull");
    assert_eq!(t.get_trigger_discovery("c", &e), "ha/binary_sensor/hiksink/device_c_DiskFull/config");
    assert_eq!(MqttQoS::AtLeastOnce.level(), 1);
}
