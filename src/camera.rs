//! Events a camera session reports, and the decisions of the session: where
//! to send requests, how to read the answers of the digest exchange, which
//! stream to accept, how to read each part, and when to reconnect.

use crate::alert::{alert_result, AlertItem, AlertParseError};
use crate::config::ConfigCamera;
use crate::device_info::{DeviceInfo, DeviceInfoParseError};
use crate::text::{
    all_ascii, ascii_lower, decimal, decimal_text, is_all_ascii, opt_text, owned, same_text,
    to_ascii_lower,
};
use crate::triggers::{TriggerItem, TriggerParseError};
use crate::xml::xml_document;
use vstd::prelude::*;
use vstd::utf8::{decode_utf8, valid_utf8};

verus! {

/// An event from the camera whose identifier is `id`.
#[derive(Debug, PartialEq, Eq, Clone)]
pub struct CameraEvent {
    pub id: String,
    pub event: CameraEventType,
}

#[derive(Debug, PartialEq, Eq, Clone)]
pub enum CameraEventType {
    Connected { info: DeviceInfo, triggers: Vec<TriggerItem> },
    Disconnected { error: String },
    Alert(AlertItem),
}

/// Why a camera session ended.
#[derive(Debug, PartialEq, Eq, Clone)]
pub enum CameraError {
    UrlError(String),
    ConnectionError(String),
    CameraInvalidResponseBody(String),
    AuthenticationFailed(String),
    StreamInvalid(String),
    ConnectionClosed,
    DeviceInfoInvalid(DeviceInfoParseError),
    TriggersInvalid(TriggerParseError),
    AlertInvalid(AlertParseError),
}

/// How long a session waits before it tries to connect again.
pub const RECONNECT_DELAY_MS: u64 = 3000;

pub open spec fn port_suffix(port: Option<u16>) -> Seq<char> {
    match port {
        Some(p) => ":"@ + decimal(p as nat),
        None => Seq::empty(),
    }
}

/// `http://<address>[:<port>]<path>`
pub open spec fn camera_url_text(cam: ConfigCamera, path: Seq<char>) -> Seq<char> {
    "http://"@ + cam.address@ + port_suffix(cam.port) + path
}

/// The URL of `path` on the camera.
pub fn camera_url(cam: &ConfigCamera, path: &str) -> (r: String)
    ensures
        r@ == camera_url_text(*cam, path@),
{
    let mut s = owned("http://");
    s.append(cam.address.as_str());
    match cam.port {
        Some(p) => {
            s.append(":");
            let d = decimal_text(p as u64);
            s.append(d.as_str());
        },
        None => {},
    }
    s.append(path);
    s
}

pub open spec fn auth_failed(r: Result<(), CameraError>, m: Seq<char>) -> bool {
    r matches Err(CameraError::AuthenticationFailed(x)) && x@ == m
}

/// The unauthenticated request must be answered with 401, which carries the
/// digest challenge; anything else (a camera that lets anyone in included)
/// fails authentication.
pub fn check_challenge_status(status: u16) -> (r: Result<(), CameraError>)
    ensures
        status == 401 ==> r is Ok,
        status != 401 ==> auth_failed(
            r,
            "Could not get digest from server. Status code: "@ + decimal(status as nat),
        ),
{
    if status == 401 {
        Ok(())
    } else {
        let mut m = owned("Could not get digest from server. Status code: ");
        let d = decimal_text(status as u64);
        m.append(d.as_str());
        Err(CameraError::AuthenticationFailed(m))
    }
}

/// The answer to the authenticated request: 200 is success, 401 means bad
/// credentials, 403 a user without the event-notification permission.
pub fn check_authorized_status(status: u16) -> (r: Result<(), CameraError>)
    ensures
        status == 200 ==> r is Ok,
        status == 401 ==> auth_failed(r, "Username or password incorrect"@),
        status == 403 ==> auth_failed(
            r,
            "User does not have correct permissions. Ensure 'Notify Surveillance Center' is granted."@,
        ),
        status != 200 && status != 401 && status != 403 ==> auth_failed(
            r,
            "Invalid status code after auth token sent: "@ + decimal(status as nat),
        ),
{
    if status == 200 {
        Ok(())
    } else if status == 401 {
        Err(CameraError::AuthenticationFailed(owned("Username or password incorrect")))
    } else if status == 403 {
        Err(
            CameraError::AuthenticationFailed(
                owned(
                    "User does not have correct permissions. Ensure 'Notify Surveillance Center' is granted.",
                ),
            ),
        )
    } else {
        let mut m = owned("Invalid status code after auth token sent: ");
        let d = decimal_text(status as u64);
        m.append(d.as_str());
        Err(CameraError::AuthenticationFailed(m))
    }
}

pub open spec fn starts_with(s: Seq<char>, p: Seq<char>) -> bool {
    p.len() <= s.len() && s.subrange(0, p.len() as int) == p
}

fn has_prefix(s: &str, p: &str) -> (r: bool)
    ensures
        r == starts_with(s@, p@),
{
    let n = s.unicode_len();
    let m = p.unicode_len();
    if m > n {
        return false;
    }
    let mut i: usize = 0;
    while i < m
        invariant
            n == s@.len(),
            m == p@.len(),
            m <= n,
            i <= m,
            forall|k: int| 0 <= k < i ==> s@[k] == p@[k],
        decreases m - i,
    {
        if s.get_char(i) != p.get_char(i) {
            return false;
        }
        i = i + 1;
    }
    assert(s@.subrange(0, m as int) =~= p@);
    true
}

/// The first `WWW-Authenticate` value that offers a digest challenge.
pub fn select_digest_challenge(headers: &Vec<String>) -> (r: Result<usize, CameraError>)
    ensures
        r matches Ok(i) ==> i < headers@.len() && starts_with(headers@[i as int]@, "Digest"@)
            && forall|k: int| 0 <= k < i ==> !starts_with((#[trigger] headers@[k])@, "Digest"@),
        r is Err ==> (forall|k: int|
            0 <= k < headers@.len() ==> !starts_with((#[trigger] headers@[k])@, "Digest"@))
            && (r matches Err(CameraError::AuthenticationFailed(m)) && m@
            == "Digest not supported by camera."@),
{
    let mut i: usize = 0;
    while i < headers.len()
        invariant
            i <= headers@.len(),
            forall|k: int| 0 <= k < i ==> !starts_with((#[trigger] headers@[k])@, "Digest"@),
        decreases headers@.len() - i,
    {
        if has_prefix(headers[i].as_str(), "Digest") {
            return Ok(i);
        }
        i = i + 1;
    }
    Err(CameraError::AuthenticationFailed(owned("Digest not supported by camera.")))
}

/// How computing the digest answer failed.
#[derive(Debug, PartialEq, Eq, Clone)]
pub enum DigestFailure {
    /// The challenge could not be read.
    Challenge(String),
    /// No answer could be formed for it.
    Answer(String),
}

/// Relies on digest_auth's `parse`, `AuthContext::new`,
/// `WwwAuthenticateHeader::respond` and `AuthorizationHeader::to_header_string`:
/// the `Authorization` value answering `challenge` for `path`, which its
/// `Display` starts with `Digest `. The answer holds a fresh client nonce, so
/// nothing more is promised of its text. The challenge parser indexes the
/// text by character count, which is sound on ASCII text only.
#[verifier::external_body]
fn digest_authorization(challenge: &str, username: &str, password: &str, path: &str) -> (r:
    Result<String, DigestFailure>)
    requires
        all_ascii(challenge@),
    ensures
        r matches Ok(h) ==> starts_with(h@, "Digest "@),
{
    let context = digest_auth::AuthContext::new(username, password, path);
    let mut prompt = digest_auth::parse(challenge).map_err(|e| DigestFailure::Challenge(e.to_string()))?;
    let answer = prompt.respond(&context).map_err(|e| DigestFailure::Answer(e.to_string()))?;
    Ok(answer.to_header_string())
}

/// The session's error for a failed digest computation.
pub fn digest_error(f: DigestFailure) -> (r: CameraError)
    ensures
        match f {
            DigestFailure::Challenge(e) => r matches CameraError::AuthenticationFailed(m) && m@
                == "Digest from camera could not be parsed: "@ + e@,
            DigestFailure::Answer(e) => r matches CameraError::AuthenticationFailed(m) && m@
                == "Unable to formulate digest response: "@ + e@,
        },
{
    match f {
        DigestFailure::Challenge(e) => {
            let mut m = owned("Digest from camera could not be parsed: ");
            m.append(e.as_str());
            CameraError::AuthenticationFailed(m)
        },
        DigestFailure::Answer(e) => {
            let mut m = owned("Unable to formulate digest response: ");
            m.append(e.as_str());
            CameraError::AuthenticationFailed(m)
        },
    }
}

/// Whether `i` is the first of `hs` that offers a digest challenge.
pub open spec fn is_first_digest(hs: Seq<String>, i: int) -> bool {
    0 <= i < hs.len() && starts_with(hs[i]@, "Digest"@) && forall|k: int|
        0 <= k < i ==> !starts_with((#[trigger] hs[k])@, "Digest"@)
}

pub open spec fn auth_error_starting(r: Result<String, CameraError>, p: Seq<char>) -> bool {
    r matches Err(CameraError::AuthenticationFailed(m)) && starts_with(m@, p)
}

/// The `Authorization` value for the second leg of the digest exchange:
/// answers the first `WWW-Authenticate` value that offers a digest, for the
/// request path `path`. A challenge holding other than ASCII text is refused.
pub fn authorization_for(
    challenges: &Vec<String>,
    username: &str,
    password: &str,
    path: &str,
) -> (r: Result<String, CameraError>)
    ensures
        (forall|k: int|
            0 <= k < challenges@.len() ==> !starts_with((#[trigger] challenges@[k])@, "Digest"@))
            ==> (r matches Err(CameraError::AuthenticationFailed(m)) && m@
            == "Digest not supported by camera."@),
        forall|i: int|
            #[trigger] is_first_digest(challenges@, i) ==> if all_ascii(challenges@[i]@) {
                (r matches Ok(h) && starts_with(h@, "Digest "@)) || auth_error_starting(
                    r,
                    "Digest from camera could not be parsed: "@,
                ) || auth_error_starting(r, "Unable to formulate digest response: "@)
            } else {
                r matches Err(CameraError::AuthenticationFailed(m)) && m@
                    == "Digest challenge from camera is not ASCII text"@
            },
        r matches Err(e) ==> e is AuthenticationFailed,
{
    let i = select_digest_challenge(challenges)?;
    proof {
        assert(is_first_digest(challenges@, i as int));
        assert forall|j: int| #[trigger] is_first_digest(challenges@, j) implies j == i by {
            if j < i {
                assert(!starts_with(challenges@[j]@, "Digest"@));
            } else if j > i {
                assert(!starts_with(challenges@[i as int]@, "Digest"@));
            }
        }
    }
    let challenge = challenges[i].as_str();
    if !is_all_ascii(challenge) {
        return Err(
            CameraError::AuthenticationFailed(owned("Digest challenge from camera is not ASCII text")),
        );
    }
    match digest_authorization(challenge, username, password, path) {
        Ok(h) => Ok(h),
        Err(f) => {
            let ghost fg = f;
            let e = digest_error(f);
            proof {
                let p1 = "Digest from camera could not be parsed: "@;
                let p2 = "Unable to formulate digest response: "@;
                match fg {
                    DigestFailure::Challenge(x) => {
                        assert((p1 + x@).subrange(0, p1.len() as int) =~= p1);
                    },
                    DigestFailure::Answer(x) => {
                        assert((p2 + x@).subrange(0, p2.len() as int) =~= p2);
                    },
                }
            }
            Err(e)
        },
    }
}

/// A media type's top-level type and `boundary` parameter.
#[derive(Debug, PartialEq, Eq, Clone)]
pub struct MediaType {
    pub top: String,
    pub boundary: Option<String>,
}

/// The top-level type and `boundary` parameter of the media type `s`, or
/// `None` where `s` is not a media type.
pub uninterp spec fn media_type_of(s: Seq<char>) -> Option<(Seq<char>, Option<Seq<char>>)>;

/// Relies on mime's `FromStr` for `Mime`, `Mime::type_` and `Mime::get_param`:
/// the parsed type's parts, which depend on the text alone; the error's message on failure.
#[verifier::external_body]
fn parse_media_type(s: &str) -> (r: Result<MediaType, String>)
    ensures
        r is Ok <==> media_type_of(s@) is Some,
        r matches Ok(m) ==> media_type_of(s@) == Some((m.top@, opt_text(m.boundary))),
{
    match s.parse::<mime::Mime>() {
        Ok(m) => Ok(MediaType {
            top: m.type_().as_str().to_string(),
            boundary: m.get_param(mime::BOUNDARY).map(|b| b.as_str().to_string()),
        }),
        Err(e) => Err(e.to_string()),
    }
}

pub open spec fn stream_invalid(r: Result<String, CameraError>) -> bool {
    r matches Err(CameraError::StreamInvalid(_))
}

/// Checks the content type of the alert stream and returns its multipart
/// boundary: the header must be present, parse as a media type, be of top-level
/// type `multipart` (in any case), and carry a boundary.
pub fn stream_boundary(content_type: Option<&str>) -> (r: Result<String, CameraError>)
    ensures
        content_type is None ==> (r matches Err(CameraError::StreamInvalid(m)) && m@
            == "Content type header missing on stream"@),
        content_type matches Some(c) ==> match media_type_of(c@) {
            None => stream_invalid(r),
            Some((top, boundary)) => if ascii_lower(top) != "multipart"@ {
                r matches Err(CameraError::StreamInvalid(m)) && m@
                    == "Content type on stream should have been multipart. Instead it was "@
                    + top
            } else {
                match boundary {
                    None => r matches Err(CameraError::StreamInvalid(m)) && m@
                        == "Multipart stream has no boundary set"@,
                    Some(b) => r matches Ok(x) && x@ == b,
                }
            },
        },
{
    let c = match content_type {
        None => {
            return Err(CameraError::StreamInvalid(owned("Content type header missing on stream")));
        },
        Some(c) => c,
    };
    let media = match parse_media_type(c) {
        Ok(m) => m,
        Err(e) => {
            let mut m = owned("Content type invalid format: ");
            m.append(e.as_str());
            return Err(CameraError::StreamInvalid(m));
        },
    };
    let top = to_ascii_lower(media.top.as_str());
    if !same_text(top.as_str(), "multipart") {
        let mut m = owned("Content type on stream should have been multipart. Instead it was ");
        m.append(media.top.as_str());
        return Err(CameraError::StreamInvalid(m));
    }
    match media.boundary {
        Some(b) => Ok(b),
        None => Err(CameraError::StreamInvalid(owned("Multipart stream has no boundary set"))),
    }
}

/// Relies on `String::from_utf8`: succeeds exactly on valid UTF-8, with the
/// decoded text; the error's message otherwise.
#[verifier::external_body]
fn utf8_text(b: Vec<u8>) -> (r: Result<String, String>)
    ensures
        r is Ok <==> valid_utf8(b@),
        r matches Ok(s) ==> s@ == decode_utf8(b@),
{
    String::from_utf8(b).map_err(|e| e.to_string())
}

/// Reads one part of the alert stream: UTF-8 text holding one alert document.
pub fn alert_from_part(body: Vec<u8>) -> (r: Result<AlertItem, CameraError>)
    ensures
        !valid_utf8(body@) ==> r matches Err(CameraError::StreamInvalid(_)),
        valid_utf8(body@) ==> match xml_document(decode_utf8(body@)) {
            None => r matches Err(CameraError::AlertInvalid(AlertParseError::XmlInvalid(_))),
            Some(root) => match r {
                Ok(a) => alert_result(root, Ok(a)),
                Err(CameraError::AlertInvalid(e)) => alert_result(root, Err(e)),
                Err(_) => false,
            },
        },
{
    let text = match utf8_text(body) {
        Ok(t) => t,
        Err(e) => {
            let mut m = owned("Stream returned non-UTF-8 text: ");
            m.append(e.as_str());
            return Err(CameraError::StreamInvalid(m));
        },
    };
    match AlertItem::parse(text.as_str()) {
        Ok(a) => Ok(a),
        Err(e) => Err(CameraError::AlertInvalid(e)),
    }
}

// ---------------------------------------------------------------------------
// The session's reconnect policy.

/// What a session learns while it runs.
pub enum SessionInput {
    /// The metadata was fetched and the alert stream accepted.
    Loaded { info: DeviceInfo, triggers: Vec<TriggerItem> },
    /// Connecting failed.
    LoadFailed(CameraError),
    /// A part of the stream held an alert.
    Alert(AlertItem),
    /// The stream failed or ended.
    StreamFailed(CameraError),
    /// The event queue is closed: the process is shutting down.
    QueueClosed,
}

#[derive(Debug, PartialEq, Eq, Structural, Clone, Copy)]
pub enum SessionState {
    /// Connecting, authenticating and fetching metadata.
    Connecting,
    /// Reading the alert stream.
    Streaming,
    /// Finished.
    Stopped,
}

/// What the session does next: report `emit` (if any), wait `wait_ms`, then
/// continue in `state`.
pub struct SessionStep {
    pub emit: Option<CameraEvent>,
    pub wait_ms: u64,
    pub state: SessionState,
}

/// The session's decision on `input` for the camera `id`. Any failure is
/// reported as a disconnection and followed, after [`RECONNECT_DELAY_MS`],
/// by a new connection. The session ends only
/// when the queue is closed.
pub fn session_step(id: &str, input: SessionInput) -> (r: SessionStep)
    ensures
        match input {
            SessionInput::Loaded { info, triggers } => r.state == SessionState::Streaming
                && r.wait_ms == 0 && (r.emit matches Some(e) && e.id@ == id@ && e.event
                == (CameraEventType::Connected { info, triggers })),
            SessionInput::LoadFailed(err) => r.state == SessionState::Connecting && r.wait_ms
                == RECONNECT_DELAY_MS && (r.emit matches Some(e) && e.id@ == id@
                && (e.event matches CameraEventType::Disconnected { error } && error@
                == "Reconnection failure: "@ + error_text(err))),
            SessionInput::Alert(a) => r.state == SessionState::Streaming && r.wait_ms == 0
                && (r.emit matches Some(e) && e.id@ == id@ && e.event == CameraEventType::Alert(a)),
            SessionInput::StreamFailed(err) => r.state == SessionState::Connecting && r.wait_ms
                == RECONNECT_DELAY_MS && (r.emit matches Some(e) && e.id@ == id@
                && (e.event matches CameraEventType::Disconnected { error } && error@ == error_text(
                err,
            ))),
            SessionInput::QueueClosed => r.state == SessionState::Stopped && r.wait_ms == 0
                && r.emit is None,
        },
{
    match input {
        SessionInput::Loaded { info, triggers } => SessionStep {
            emit: Some(CameraEvent { id: owned(id), event: CameraEventType::Connected { info, triggers } }),
            wait_ms: 0,
            state: SessionState::Streaming,
        },
        SessionInput::LoadFailed(err) => {
            let mut m = owned("Reconnection failure: ");
            let t = err.message();
            m.append(t.as_str());
            SessionStep {
                emit: Some(CameraEvent { id: owned(id), event: CameraEventType::Disconnected { error: m } }),
                wait_ms: RECONNECT_DELAY_MS,
                state: SessionState::Connecting,
            }
        },
        SessionInput::Alert(a) => SessionStep {
            emit: Some(CameraEvent { id: owned(id), event: CameraEventType::Alert(a) }),
            wait_ms: 0,
            state: SessionState::Streaming,
        },
        SessionInput::StreamFailed(err) => SessionStep {
            emit: Some(CameraEvent { id: owned(id), event: CameraEventType::Disconnected { error: err.message() } }),
            wait_ms: RECONNECT_DELAY_MS,
            state: SessionState::Connecting,
        },
        SessionInput::QueueClosed => SessionStep { emit: None, wait_ms: 0, state: SessionState::Stopped },
    }
}

/// The text of an error, as the disconnection event reports it.
pub open spec fn error_text(e: CameraError) -> Seq<char> {
    match e {
        CameraError::UrlError(s) => "Unable to parse URL: "@ + s@,
        CameraError::ConnectionError(s) => "Unable to connect to camera: "@ + s@,
        CameraError::CameraInvalidResponseBody(s) => "Camera returned mangled response body: "@ + s@,
        CameraError::AuthenticationFailed(s) => "Could not authenticate with camera: "@ + s@,
        CameraError::StreamInvalid(s) => "Stream could not be resolved to a multipart form: "@ + s@,
        CameraError::ConnectionClosed => "Camera closed connection"@,
        CameraError::DeviceInfoInvalid(_) => "Device information invalid"@,
        CameraError::TriggersInvalid(_) => "Trigger list invalid"@,
        CameraError::AlertInvalid(_) => "Alert invalid"@,
    }
}

fn prefixed(p: &str, s: &String) -> (r: String)
    ensures
        r@ == p@ + s@,
{
    let mut m = owned(p);
    m.append(s.as_str());
    m
}

impl CameraError {
    /// The text of this error.
    pub fn message(&self) -> (r: String)
        ensures
            r@ == error_text(*self),
    {
        match self {
            CameraError::UrlError(s) => prefixed("Unable to parse URL: ", s),
            CameraError::ConnectionError(s) => prefixed("Unable to connect to camera: ", s),
            CameraError::CameraInvalidResponseBody(s) => prefixed(
                "Camera returned mangled response body: ",
                s,
            ),
            CameraError::AuthenticationFailed(s) => prefixed(
                "Could not authenticate with camera: ",
                s,
            ),
            CameraError::StreamInvalid(s) => prefixed(
                "Stream could not be resolved to a multipart form: ",
                s,
            ),
            CameraError::ConnectionClosed => owned("Camera closed connection"),
            CameraError::DeviceInfoInvalid(_) => owned("Device information invalid"),
            CameraError::TriggersInvalid(_) => owned("Trigger list invalid"),
            CameraError::AlertInvalid(_) => owned("Alert invalid"),
        }
    }
}

} // verus!
