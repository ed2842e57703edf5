use hik_sink::event_type::{EventIdentifier, EventType};

#[test]
fn test_parses_all_known() {
    let tests = [
        "IO",
        "VMD",
        "attendedBaggage",
        "audioexception",
        "badvideo",
        "diskerror",
        "diskfull",
        "faceSnap",
        "facedetection",
        "fielddetection",
        "illAccess",
        "ipconflict",
        "linedetection",
        "nicbroken",
        "recordingfailure",
        "regionEntrance",
        "regionExiting",
        "scenechangedetection",
        "storageDetection",
        "tamperdetection",
        "unattendedBaggage",
        "videoloss",
        "videomismatch",
    ];
    for t in tests {
        let res: Result<EventType, String> = t.parse();
        assert!(
            !matches!(res, Ok(EventType::Unknown(_))),
            "Invalid parse of normal case {:?}: {:?}",
            t,
            res
        );
        let res: Result<EventType, String> = t.to_ascii_lowercase().parse();
        assert!(
            !matches!(res, Ok(EventType::Unknown(_))),
            "Invalid parse of lower case {:?}: {:?}",
            t,
            res
        );
    }
}

#[test]
fn test_handles_unkown() {
    assert_eq!("random".parse(), Ok(EventType::Unknown("random".to_string())));
    assert!("random space".parse::<EventType>().is_err());
    assert!("line-detection".parse::<EventType>().is_err());
}

#[test]
fn vendor_names_map_to_kinds() {
    assert_eq!(EventType::parse("VMD"), Ok(EventType::Motion));
    assert_eq!(EventType::parse("tamperdetection"), Ok(EventType::Tamper));
    assert_eq!(EventType::parse("shelterAlarm"), Ok(EventType::Tamper));
    assert_eq!(EventType::parse("illAccess"), Ok(EventType::IllegalAccess));
    assert_eq!(EventType::parse("IO"), Ok(EventType::Io));
    assert_eq!(EventType::parse(""), Ok(EventType::Unknown(String::new())));
}

#[test]
fn parsing_ignores_case_of_known_names() {
    for s in ["LineDetection", "LINEDETECTION", "linedetection", "VideoLoss", "Vmd"] {
        assert_eq!(EventType::parse(s), EventType::parse(&s.to_ascii_lowercase()));
    }
    // Unknown names keep their spelling.
    assert_eq!(EventType::parse("Random"), Ok(EventType::Unknown("Random".to_string())));
    assert_eq!(EventType::parse("random"), Ok(EventType::Unknown("random".to_string())));
}

#[test]
fn parsing_rejects_non_alphanumeric() {
    for s in ["a b", "io ", "vmd!", "é", "line_detection", "-"] {
        assert!(EventType::parse(s).is_err(), "{:?}", s);
    }
}

#[test]
fn canonical_spelling_round_trips() {
    let all = [
        EventType::Io,
        EventType::Motion,
        EventType::Tamper,
        EventType::IllegalAccess,
        EventType::LineDetection,
        EventType::UnattendedBaggage,
        EventType::AttendedBaggage,
        EventType::RegionEntrance,
        EventType::RegionExiting,
        EventType::SceneChangeDetection,
        EventType::FieldDetection,
        EventType::FaceDetection,
        EventType::FaceSnap,
        EventType::AudioException,
        EventType::VideoLoss,
        EventType::VideoMismatch,
        EventType::BadVideo,
        EventType::StorageDetection,
        EventType::RecordingFailure,
        EventType::DiskFull,
        EventType::DiskError,
        EventType::NicBroken,
        EventType::IpConflict,
        EventType::Unknown("custom1".to_string()),
    ];
    for v in all {
        assert_eq!(EventType::parse(&v.to_string()), Ok(v.clone()));
        if !matches!(v, EventType::Unknown(_)) {
            assert_eq!(EventType::parse(&v.to_string().to_ascii_lowercase()), Ok(v.clone()));
        }
    }
    assert_eq!(EventType::parse("motion"), Ok(EventType::Motion));
    assert_eq!(EventType::parse("TAMPER"), Ok(EventType::Tamper));
    assert_eq!(EventType::parse("IllegalAccess"), Ok(EventType::IllegalAccess));
}

#[test]
fn presentation_metadata() {
    assert_eq!(EventType::Io.friendly_name(), "I/O Port");
    assert_eq!(EventType::NicBroken.friendly_name(), "Network Card Broken");
    assert_eq!(EventType::Unknown("xyz".into()).friendly_name(), "xyz");
    assert_eq!(EventType::Io.device_class(), None);
    assert_eq!(EventType::Motion.device_class(), Some("motion"));
    assert_eq!(EventType::Unknown("x".into()).device_class(), Some("motion"));
    assert_eq!(EventType::DiskFull.device_class(), Some("problem"));
    assert_eq!(EventType::Motion.icon(), None);
    assert_eq!(EventType::VideoLoss.icon(), Some("mdi:camera-off"));
    assert_eq!(EventType::IllegalAccess.icon(), Some("mdi:account-alert"));
    assert_eq!(EventType::IpConflict.to_string(), "IpConflict");
    assert!(EventType::VideoLoss.is_video_loss());
    assert!(!EventType::Motion.is_video_loss());
}

#[test]
fn identifier_display_and_comparison() {
    let a = EventIdentifier::new(Some("2".into()), EventType::FaceSnap);
    assert_eq!(a.display(), "CH2 Face Snapshot");
    let b = EventIdentifier::new(None, EventType::Motion);
    assert_eq!(b.display(), "Motion");
    assert!(a.same_as(&a.duplicate()));
    assert!(!a.same_as(&b));
    let u1 = EventIdentifier::new(None, EventType::Unknown("x".into()));
    let u2 = EventIdentifier::new(None, EventType::Unknown("y".into()));
    assert!(!u1.same_as(&u2));
}
