use hik_sink::alert::{AlertItem, AlertParseError, DetectionRegion, RegionCoordinates};
use hik_sink::device_info::{DeviceInfo, DeviceInfoParseError};
use hik_sink::event_type::{EventIdentifier, EventType};
use hik_sink::triggers::{TriggerItem, TriggerParseError};

fn alert_doc(body: &str, root: &str) -> String {
    format!(
        "<{root} version=\"2.0\" xmlns=\"http://www.hikvision.com/ver20/XMLSchema\">\n<ipAddress>128.100.0.5</ipAddress>\n<portNo>80</portNo>\n<protocol>HTTP</protocol>\n<macAddress>ff:ff:ff:ff:ff:ff</macAddress>\n<channelID>1</channelID>\n<dateTime>2021-07-02T14:25:36+08:00</dateTime>\n{body}<channelName></channelName>\n<Extensions version=\"1.0\" xmlns=\"urn:psialliance-org\">\n<serialNumber xmlns=\"urn:selfextension:psiaext-ver10-xsd\">DS-2CD2185FWD-I20180101AAWR111111111</serialNumber>\n<eventPush xmlns=\"urn:selfextension:psiaext-ver10-xsd\">IO&amp;&amp;DS-2CD2185FWD-I20180101AAWR111111111,2021-07-02T14:25:36+08:00,1.0</eventPush>\n</Extensions>\n</{root}>\n"
    )
}

#[test]
fn test_ignores_invalid_xml() {
    assert_eq!(
        AlertItem::parse(""),
        Err(AlertParseError::XmlInvalid(
            "the end of the document has been reached prematurely".to_string()
        ))
    );
    let missing_type = alert_doc(
        "<activePostCount>0</activePostCount>\n<eventState>inactive</eventState>\n<eventDescription>videoloss alarm</eventDescription>\n",
        "EventNotificationAlert",
    );
    assert_eq!(
        AlertItem::parse(&missing_type),
        Err(AlertParseError::FieldMissing("eventType".to_string()))
    );
    let wrong_outer = alert_doc(
        "<activePostCount>0</activePostCount>\n<eventType>videoloss</eventType>\n<eventState>inactive</eventState>\n<eventDescription>videoloss alarm</eventDescription>\n",
        "WrongOuter",
    );
    assert_eq!(
        AlertItem::parse(&wrong_outer),
        Err(AlertParseError::FieldMissing("EventNotificationAlert".to_string()))
    );
    let bad_count = alert_doc(
        "<activePostCount>a</activePostCount>\n<eventType>videoloss</eventType>\n<eventState>inactive</eventState>\n<eventDescription>videoloss alarm</eventDescription>\n",
        "EventNotificationAlert",
    );
    assert_eq!(
        AlertItem::parse(&bad_count),
        Err(AlertParseError::NumberExpected(
            "activePostCount".to_string(),
            "invalid digit found in string".to_string()
        ))
    );
    let bad_state = alert_doc(
        "<activePostCount>0</activePostCount>\n<eventType>videoloss</eventType>\n<eventState>bad</eventState>\n<eventDescription>videoloss alarm</eventDescription>\n",
        "EventNotificationAlert",
    );
    assert_eq!(
        AlertItem::parse(&bad_state),
        Err(AlertParseError::EventStateInvalid("bad".to_string()))
    );
}

#[test]
fn alert_with_regions_decodes() {
    let doc = alert_doc(
        "<activePostCount>3</activePostCount>\n<eventType>VMD</eventType>\n<eventState>active</eventState>\n<eventDescription>Motion alarm</eventDescription>\n<DetectionRegionList>\n<DetectionRegionEntry>\n<regionID>1</regionID>\n<sensitivityLevel>50</sensitivityLevel>\n<RegionCoordinatesList>\n<RegionCoordinates><positionX>425</positionX><positionY>600</positionY></RegionCoordinates>\n<RegionCoordinates><positionX>160</positionX><positionY>400</positionY></RegionCoordinates>\n</RegionCoordinatesList>\n</DetectionRegionEntry>\n</DetectionRegionList>\n",
        "EventNotificationAlert",
    );
    let parsed = AlertItem::parse(&doc).unwrap();
    assert_eq!(
        parsed,
        AlertItem {
            identifier: EventIdentifier::new(Some("1".into()), EventType::Motion),
            active: true,
            regions: vec![DetectionRegion {
                id: "1".into(),
                sensitivity: 50,
                coordinates: vec![
                    RegionCoordinates { x: 425, y: 600 },
                    RegionCoordinates { x: 160, y: 400 },
                ],
            }],
            post_count: 3,
            description: "Motion alarm".into(),
            date: "2021-07-02T14:25:36+08:00".into(),
        }
    );
}

#[test]
fn alert_region_errors() {
    let wrong_child = alert_doc(
        "<activePostCount>3</activePostCount>\n<eventType>VMD</eventType>\n<eventState>active</eventState>\n<eventDescription>d</eventDescription>\n<DetectionRegionList><Other/></DetectionRegionList>\n",
        "EventNotificationAlert",
    );
    assert_eq!(
        AlertItem::parse(&wrong_child),
        Err(AlertParseError::InvalidChild("DetectionRegionEntry".into(), "Other".into()))
    );
    let big = alert_doc(
        "<activePostCount>3</activePostCount>\n<eventType>VMD</eventType>\n<eventState>active</eventState>\n<eventDescription>d</eventDescription>\n<DetectionRegionList><DetectionRegionEntry><regionID>1</regionID><sensitivityLevel>256</sensitivityLevel></DetectionRegionEntry></DetectionRegionList>\n",
        "EventNotificationAlert",
    );
    assert_eq!(
        AlertItem::parse(&big),
        Err(AlertParseError::NumberExpected(
            "sensitivityLevel".into(),
            "number too large to fit in target type".into()
        ))
    );
    let bad_type = alert_doc(
        "<activePostCount>3</activePostCount>\n<eventType>line-detection</eventType>\n<eventState>inactive</eventState>\n<eventDescription>d</eventDescription>\n",
        "EventNotificationAlert",
    );
    assert!(matches!(
        AlertItem::parse(&bad_type),
        Err(AlertParseError::EventTypeInvalid(p, _)) if p == "line-detection"
    ));
    let no_x = alert_doc(
        "<activePostCount>3</activePostCount>\n<eventType>VMD</eventType>\n<eventState>active</eventState>\n<eventDescription>d</eventDescription>\n<DetectionRegionList><DetectionRegionEntry><regionID>1</regionID><sensitivityLevel>5</sensitivityLevel><RegionCoordinatesList><RegionCoordinates><positionY>1</positionY></RegionCoordinates></RegionCoordinatesList></DetectionRegionEntry></DetectionRegionList>\n",
        "EventNotificationAlert",
    );
    assert_eq!(AlertItem::parse(&no_x), Err(AlertParseError::FieldMissing("positionX".into())));
}

const PTZ_INFO: &str = r#"<?xml version="1.0" encoding="UTF-8"?>
<DeviceInfo version="2.0" xmlns="http://www.hikvision.com/ver20/XMLSchema">
<deviceName>PTZ</deviceName>
<deviceID>7ccc4404-e05d-4376-8ebf-81127da67c11</deviceID>
<deviceDescription>IPDome</deviceDescription>
<deviceLocation>hangzhou</deviceLocation>
<systemContact>Hikvision.China</systemContact>
<model>DS-2DE4A425IW-DE</model>
<serialNumber>DS-2DE4A425IW-DE20180101AAWRC52000000W</serialNumber>
<macAddress>ff:ff:ff:ff:ff:ff</macAddress>
<firmwareVersion>V5.5.71</firmwareVersion>
<firmwareReleasedDate>build 180725</firmwareReleasedDate>
<encoderVersion>V7.3</encoderVersion>
<encoderReleasedDate>build 180320</encoderReleasedDate>
<bootVersion>V1.3.4</bootVersion>
<bootReleasedDate>100316</bootReleasedDate>
<hardwareVersion>0x0</hardwareVersion>
<deviceType>IPDome</deviceType>
<telecontrolID>88</telecontrolID>
<supportBeep>false</supportBeep>
<supportVideoLoss>false</supportVideoLoss>
<firmwareVersionInfo>B-R-R7-0</firmwareVersionInfo>
</DeviceInfo>
"#;

#[test]
fn test_base_camera() {
    let parsed = DeviceInfo::parse(PTZ_INFO).unwrap();
    assert_eq!(
        parsed,
        DeviceInfo {
            device_name: "PTZ".into(),
            device_id: "7ccc4404-e05d-4376-8ebf-81127da67c11".into(),
            model: "DS-2DE4A425IW-DE".into(),
            serial_number: "DS-2DE4A425IW-DE20180101AAWRC52000000W".into(),
            mac_address: "ff:ff:ff:ff:ff:ff".into(),
            firmware_version: "V5.5.71".into(),
            firmware_release_date: "build 180725".into(),
            device_type: "IPDome".into(),
        }
    );
}

#[test]
fn test_bad_camera() {
    assert!(DeviceInfo::parse("").is_err());
}

#[test]
fn device_info_errors() {
    assert!(matches!(DeviceInfo::parse(""), Err(DeviceInfoParseError::XmlInvalid(_))));
    assert_eq!(
        DeviceInfo::parse("<Other xmlns=\"x\"><deviceName>a</deviceName></Other>"),
        Err(DeviceInfoParseError::RootNodeIncorrect("Other".into()))
    );
    assert_eq!(
        DeviceInfo::parse("<DeviceInfo xmlns=\"x\"><deviceName>a</deviceName></DeviceInfo>"),
        Err(DeviceInfoParseError::FieldMissing("deviceID".into()))
    );
}

#[test]
fn trigger_list_decodes_either_layout() {
    let nested = r#"<EventNotification xmlns="http://www.hikvision.com/ver20/XMLSchema"><EventTriggerList>
<EventTrigger><id>VMD-1</id><eventType>VMD</eventType><eventDescription>VMD Event trigger Information</eventDescription><videoInputChannelID>1</videoInputChannelID></EventTrigger>
<EventTrigger><id>IO-1</id><eventType>IO</eventType><inputIOPortID>1</inputIOPortID></EventTrigger>
</EventTriggerList></EventNotification>"#;
    let flat = r#"<EventTriggerList xmlns="http://www.hikvision.com/ver20/XMLSchema">
<EventTrigger><id>VMD-1</id><eventType>VMD</eventType><eventDescription>VMD Event trigger Information</eventDescription><videoInputChannelID>1</videoInputChannelID></EventTrigger>
<EventTrigger><id>IO-1</id><eventType>IO</eventType><inputIOPortID>1</inputIOPortID></EventTrigger>
</EventTriggerList>"#;
    let expected = vec![
        TriggerItem {
            identifier: EventIdentifier::new(Some("1".into()), EventType::Motion),
            hik_id: "VMD-1".into(),
            description: "VMD Event trigger Information".into(),
        },
        TriggerItem {
            identifier: EventIdentifier::new(Some("1".into()), EventType::Io),
            hik_id: "IO-1".into(),
            description: String::new(),
        },
    ];
    assert_eq!(TriggerItem::parse(nested), Ok(expected.clone()));
    assert_eq!(TriggerItem::parse(flat), Ok(expected));
}

#[test]
fn trigger_list_errors() {
    assert!(matches!(TriggerItem::parse("<a"), Err(TriggerParseError::XmlInvalid(_))));
    assert_eq!(
        TriggerItem::parse("<EventTriggerList xmlns=\"x\"><EventTrigger><eventType>VMD</eventType></EventTrigger></EventTriggerList>"),
        Err(TriggerParseError::FieldMissing("id".into()))
    );
    assert_eq!(
        TriggerItem::parse("<EventTriggerList xmlns=\"x\"><EventTrigger><id>a</id></EventTrigger></EventTriggerList>"),
        Err(TriggerParseError::FieldMissing("eventType".into()))
    );
    assert!(matches!(
        TriggerItem::parse("<EventTriggerList xmlns=\"x\"><EventTrigger><id>a</id><eventType>a b</eventType></EventTrigger></EventTriggerList>"),
        Err(TriggerParseError::EventTypeInvalid(p, _)) if p == "a b"
    ));
}

#[test]
fn trigger_from_identifier() {
    let t: TriggerItem = EventIdentifier::new(Some("3".into()), EventType::VideoLoss).into();
    assert_eq!(t.hik_id, "VideoLoss-3");
    assert_eq!(t.description, "");
    let t = TriggerItem::from_identifier(EventIdentifier::new(None, EventType::Io));
    assert_eq!(t.hik_id, "Io");
}
