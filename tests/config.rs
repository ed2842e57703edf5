use hik_sink::config::{assign_camera_ids, make_identifier, Config, ConfigCamera, ConfigMqtt, ConfigSystem};

fn camera(name: &str) -> ConfigCamera {
    ConfigCamera {
        generated_id: String::new(),
        name: name.into(),
        address: "10.0.0.2".into(),
        port: Some(80),
        username: "admin".into(),
        password: "SECRET-REDACTED".into(),
    }
}

fn config(names: &[&str]) -> Config {
    Config {
        system: ConfigSystem { log_level: "info".into() },
        camera: names.iter().map(|n| camera(n)).collect(),
        mqtt: ConfigMqtt {
            address: "broker".into(),
            port: 1883,
            username: "u".into(),
            password: "p".into(),
            base_topic: "hikvision_cameras".into(),
            home_assistant_topic: "homeassistant".into(),
        },
    }
}

#[test]
fn identifiers_are_lowercase_and_underscored() {
    assert_eq!(make_identifier("Front Door"), "front_door");
    assert_eq!(make_identifier("Cam-1 (Garage)!"), "cam1_garage");
    assert_eq!(make_identifier("Back_Yard 2"), "back_yard_2");
    assert_eq!(make_identifier(""), "");
}

#[test]
fn identifiers_assigned_in_order() {
    let cfg = assign_camera_ids(config(&["Front Door", "Garage"])).unwrap();
    assert_eq!(cfg.camera[0].identifier(), "front_door");
    assert_eq!(cfg.camera[1].identifier(), "garage");
    assert_eq!(cfg.camera[1].name, "Garage");
    assert_eq!(cfg.camera[1].port, Some(80));
}

#[test]
fn duplicate_identifiers_rejected() {
    assert!(assign_camera_ids(config(&["Front Door", "Garage", "front-door"])).is_ok());
    assert_eq!(
        assign_camera_ids(config(&["Front Door", "Garage", "FRONT DOOR"])),
        Err("Camera FRONT DOOR has duplicate ID: front_door".to_string())
    );
    assert_eq!(
        assign_camera_ids(config(&["a", "b", "b!", "a"])),
        Err("Camera b! has duplicate ID: b".to_string())
    );
}

#[test]
fn identifiers_lowercase_non_ascii_letters() {
    assert_eq!(make_identifier("Café Nord"), "café_nord");
    assert_eq!(make_identifier("Ü2"), "ü2");
    assert_eq!(make_identifier("ÉTÉ"), "été");
    assert_eq!(
        assign_camera_ids(config(&["Été", "été"])),
        Err("Camera été has duplicate ID: été".to_string())
    );
}
