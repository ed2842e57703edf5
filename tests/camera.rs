use hik_sink::camera::{
    alert_from_part, authorization_for, camera_url, check_authorized_status, check_challenge_status,
    select_digest_challenge, session_step, stream_boundary, CameraError, CameraEventType, SessionInput,
    SessionState, RECONNECT_DELAY_MS,
};
use hik_sink::alert::AlertParseError;
use hik_sink::config::ConfigCamera;

fn cam(port: Option<u16>) -> ConfigCamera {
    ConfigCamera {
        generated_id: "cam1".into(),
        name: "Camera 1".into(),
        address: "192.168.20.2".into(),
        port,
        username: "admin".into(),
        password: "password".into(),
    }
}

#[test]
fn urls() {
    assert_eq!(camera_url(&cam(None), "/ISAPI/Event/triggers"), "http://192.168.20.2/ISAPI/Event/triggers");
    assert_eq!(
        camera_url(&cam(Some(8080)), "/ISAPI/System/deviceInfo"),
        "http://192.168.20.2:8080/ISAPI/System/deviceInfo"
    );
}

#[test]
fn digest_exchange_statuses() {
    assert_eq!(check_challenge_status(401), Ok(()));
    assert_eq!(
        check_challenge_status(200),
        Err(CameraError::AuthenticationFailed("Could not get digest from server. Status code: 200".into()))
    );
    assert_eq!(check_authorized_status(200), Ok(()));
    assert_eq!(
        check_authorized_status(401),
        Err(CameraError::AuthenticationFailed("Username or password incorrect".into()))
    );
    assert!(matches!(
        check_authorized_status(403),
        Err(CameraError::AuthenticationFailed(m)) if m.contains("Notify Surveillance Center")
    ));
    assert_eq!(
        check_authorized_status(500),
        Err(CameraError::AuthenticationFailed("Invalid status code after auth token sent: 500".into()))
    );
}

#[test]
fn digest_challenge_selection() {
    let headers = vec!["Basic realm=\"x\"".to_string(), "Digest realm=\"a\"".to_string()];
    assert_eq!(select_digest_challenge(&headers), Ok(1));
    assert_eq!(
        select_digest_challenge(&vec!["Basic realm=\"x\"".to_string()]),
        Err(CameraError::AuthenticationFailed("Digest not supported by camera.".into()))
    );
    let answer = authorization_for(
        &vec!["Digest realm=\"IP Camera\", qop=\"auth\", nonce=\"4e6a4d3e3a\", stale=\"FALSE\"".to_string()],
        "admin",
        "password",
        "/ISAPI/Event/triggers",
    )
    .unwrap();
    assert!(answer.starts_with("Digest "));
    assert!(answer.contains("username=\"admin\""));
    assert!(answer.contains("uri=\"/ISAPI/Event/triggers\""));
    assert_eq!(
        authorization_for(&vec!["Digest é=x".to_string()], "a", "b", "/"),
        Err(CameraError::AuthenticationFailed("Digest challenge from camera is not ASCII text".into()))
    );
    assert!(matches!(
        authorization_for(&vec!["Digest".to_string()], "a", "b", "/"),
        Err(CameraError::AuthenticationFailed(m)) if m.starts_with("Digest from camera could not be parsed: ")
    ));
}

#[test]
fn stream_content_type() {
    assert_eq!(
        stream_boundary(Some("multipart/mixed; boundary=boundary")),
        Ok("boundary".to_string())
    );
    assert_eq!(
        stream_boundary(None),
        Err(CameraError::StreamInvalid("Content type header missing on stream".into()))
    );
    assert_eq!(
        stream_boundary(Some("text/plain")),
        Err(CameraError::StreamInvalid(
            "Content type on stream should have been multipart. Instead it was text".into()
        ))
    );
    assert_eq!(
        stream_boundary(Some("multipart/mixed")),
        Err(CameraError::StreamInvalid("Multipart stream has no boundary set".into()))
    );
    assert!(matches!(stream_boundary(Some("nonsense")), Err(CameraError::StreamInvalid(_))));
}

#[test]
fn stream_parts() {
    assert!(matches!(alert_from_part(vec![0xff, 0xfe]), Err(CameraError::StreamInvalid(_))));
    assert!(matches!(
        alert_from_part(b"<nope".to_vec()),
        Err(CameraError::AlertInvalid(AlertParseError::XmlInvalid(_)))
    ));
    let doc = b"<EventNotificationAlert xmlns=\"x\"><eventType>videoloss</eventType><eventState>inactive</eventState><eventDescription>d</eventDescription><dateTime>t</dateTime><activePostCount>0</activePostCount></EventNotificationAlert>";
    let a = alert_from_part(doc.to_vec()).unwrap();
    assert!(!a.active);
    assert_eq!(a.identifier.channel, None);
}

#[test]
fn reconnect_policy() {
    let s = session_step("cam1", SessionInput::LoadFailed(CameraError::ConnectionClosed));
    assert_eq!(s.state, SessionState::Connecting);
    assert_eq!(s.wait_ms, RECONNECT_DELAY_MS);
    assert_eq!(RECONNECT_DELAY_MS, 3000);
    let e = s.emit.unwrap();
    assert_eq!(e.id, "cam1");
    assert_eq!(
        e.event,
        CameraEventType::Disconnected { error: "Reconnection failure: Camera closed connection".into() }
    );
    let s = session_step("cam1", SessionInput::StreamFailed(CameraError::StreamInvalid("x".into())));
    assert_eq!(s.state, SessionState::Connecting);
    assert_eq!(s.wait_ms, RECONNECT_DELAY_MS);
    assert_eq!(
        s.emit.unwrap().event,
        CameraEventType::Disconnected { error: "Stream could not be resolved to a multipart form: x".into() }
    );
    let s = session_step("cam1", SessionInput::QueueClosed);
    assert_eq!(s.state, SessionState::Stopped);
    assert!(s.emit.is_none());
}
