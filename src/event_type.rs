//! The taxonomy of trigger kinds reported by cameras: case-insensitive
//! parsing of the vendor's names, the canonical spelling used in topics and
//! identifiers, and presentation metadata for discovery.

use crate::text::{
    all_ascii_alnum, ascii_lower, is_all_ascii_alnum, is_ascii_alnum, owned, same_text,
    to_ascii_lower,
};
use vstd::prelude::*;

verus! {

/// A trigger on a device: an optional channel (multi-sensor devices, recorders)
/// and the kind of event.
#[derive(Debug, PartialEq, Eq, Hash, Clone)]
pub struct EventIdentifier {
    pub channel: Option<String>,
    pub event_type: EventType,
}

/// Whether two optional strings hold the same text.
pub open spec fn same_opt_text(a: Option<String>, b: Option<String>) -> bool {
    match (a, b) {
        (Some(x), Some(y)) => x@ == y@,
        (None, None) => true,
        _ => false,
    }
}

/// Whether two identifiers name the same trigger.
pub open spec fn same_identifier(a: EventIdentifier, b: EventIdentifier) -> bool {
    same_opt_text(a.channel, b.channel) && same_event_type(a.event_type, b.event_type)
}

pub fn opt_text_eq(a: &Option<String>, b: &Option<String>) -> (r: bool)
    ensures
        r == same_opt_text(*a, *b),
{
    match (a, b) {
        (Some(x), Some(y)) => same_text(x.as_str(), y.as_str()),
        (None, None) => true,
        _ => false,
    }
}

pub fn clone_opt_text(a: &Option<String>) -> (r: Option<String>)
    ensures
        same_opt_text(r, *a),
{
    match a {
        Some(x) => Some(owned(x.as_str())),
        None => None,
    }
}

impl EventIdentifier {
    pub fn new(channel: Option<String>, event_type: EventType) -> (r: Self)
        ensures
            r.channel == channel,
            r.event_type == event_type,
    {
        EventIdentifier { channel, event_type }
    }

    /// Whether `self` and `other` name the same trigger.
    pub fn same_as(&self, other: &EventIdentifier) -> (r: bool)
        ensures
            r == same_identifier(*self, *other),
    {
        opt_text_eq(&self.channel, &other.channel) && self.event_type.same_as(&other.event_type)
    }

    /// A copy holding the same text.
    pub fn duplicate(&self) -> (r: EventIdentifier)
        ensures
            same_identifier(r, *self),
    {
        EventIdentifier {
            channel: clone_opt_text(&self.channel),
            event_type: self.event_type.duplicate(),
        }
    }

    /// The display form: `CH<channel> <friendly name>`, or the friendly name alone.
    pub fn display(&self) -> (r: String)
        ensures
            r@ == identifier_display(*self),
    {
        let name = self.event_type.friendly_name();
        match &self.channel {
            Some(ch) => {
                let mut s = owned("CH");
                s.append(ch.as_str());
                s.append(" ");
                s.append(name.as_str());
                s
            },
            None => name,
        }
    }
}

pub open spec fn identifier_display(e: EventIdentifier) -> Seq<char> {
    match e.channel {
        Some(ch) => "CH"@ + ch@ + " "@ + friendly(e.event_type),
        None => friendly(e.event_type),
    }
}

/// The kinds of trigger a camera reports; names outside the known table are
/// kept as `Unknown`, spelled as they came.
#[derive(Debug, PartialEq, Eq, Hash, Clone)]
pub enum EventType {
    Io,
    Motion,
    LineDetection,
    UnattendedBaggage,
    AttendedBaggage,
    RegionEntrance,
    RegionExiting,
    SceneChangeDetection,
    FieldDetection,
    FaceDetection,
    FaceSnap,
    AudioException,
    VideoLoss,
    Tamper,
    VideoMismatch,
    BadVideo,
    StorageDetection,
    RecordingFailure,
    DiskFull,
    DiskError,
    NicBroken,
    IpConflict,
    IllegalAccess,
    Unknown(String),
}

/// A number for each variant; `Unknown` values share the last.
pub open spec fn tag(e: EventType) -> nat {
    match e {
        EventType::Io => 0,
        EventType::Motion => 1,
        EventType::LineDetection => 2,
        EventType::UnattendedBaggage => 3,
        EventType::AttendedBaggage => 4,
        EventType::RegionEntrance => 5,
        EventType::RegionExiting => 6,
        EventType::SceneChangeDetection => 7,
        EventType::FieldDetection => 8,
        EventType::FaceDetection => 9,
        EventType::FaceSnap => 10,
        EventType::AudioException => 11,
        EventType::VideoLoss => 12,
        EventType::Tamper => 13,
        EventType::VideoMismatch => 14,
        EventType::BadVideo => 15,
        EventType::StorageDetection => 16,
        EventType::RecordingFailure => 17,
        EventType::DiskFull => 18,
        EventType::DiskError => 19,
        EventType::NicBroken => 20,
        EventType::IpConflict => 21,
        EventType::IllegalAccess => 22,
        EventType::Unknown(_) => 23,
    }
}

/// Whether two event types are the same kind (for `Unknown`, the same text).
pub open spec fn same_event_type(a: EventType, b: EventType) -> bool {
    tag(a) == tag(b) && (a matches EventType::Unknown(x) ==> (b matches EventType::Unknown(y)
        && x@ == y@))
}

/// The entry of the vendor-name table for an already lowercased name.
pub open spec fn known_event_type(l: Seq<char>) -> Option<EventType> {
    if l == "io"@ {
        Some(EventType::Io)
    } else if l == "vmd"@ {
        Some(EventType::Motion)
    } else if l == "linedetection"@ {
        Some(EventType::LineDetection)
    } else if l == "unattendedbaggage"@ {
        Some(EventType::UnattendedBaggage)
    } else if l == "attendedbaggage"@ {
        Some(EventType::AttendedBaggage)
    } else if l == "regionentrance"@ {
        Some(EventType::RegionEntrance)
    } else if l == "regionexiting"@ {
        Some(EventType::RegionExiting)
    } else if l == "scenechangedetection"@ {
        Some(EventType::SceneChangeDetection)
    } else if l == "fielddetection"@ {
        Some(EventType::FieldDetection)
    } else if l == "facedetection"@ {
        Some(EventType::FaceDetection)
    } else if l == "facesnap"@ {
        Some(EventType::FaceSnap)
    } else if l == "audioexception"@ {
        Some(EventType::AudioException)
    } else if l == "videoloss"@ {
        Some(EventType::VideoLoss)
    } else if l == "tamperdetection"@ {
        Some(EventType::Tamper)
    } else if l == "shelteralarm"@ {
        Some(EventType::Tamper)
    } else if l == "videomismatch"@ {
        Some(EventType::VideoMismatch)
    } else if l == "badvideo"@ {
        Some(EventType::BadVideo)
    } else if l == "storagedetection"@ {
        Some(EventType::StorageDetection)
    } else if l == "recordingfailure"@ {
        Some(EventType::RecordingFailure)
    } else if l == "diskfull"@ {
        Some(EventType::DiskFull)
    } else if l == "diskerror"@ {
        Some(EventType::DiskError)
    } else if l == "nicbroken"@ {
        Some(EventType::NicBroken)
    } else if l == "ipconflict"@ {
        Some(EventType::IpConflict)
    } else if l == "illaccess"@ {
        Some(EventType::IllegalAccess)
    } else if l == "motion"@ {
        Some(EventType::Motion)
    } else if l == "tamper"@ {
        Some(EventType::Tamper)
    } else if l == "illegalaccess"@ {
        Some(EventType::IllegalAccess)
    } else {
        None
    }
}

/// Whether parsing accepts `s`.
pub open spec fn parse_accepts(s: Seq<char>) -> bool {
    known_event_type(ascii_lower(s)) is Some || all_ascii_alnum(s)
}

/// Whether `e` is what parsing `s` yields.
pub open spec fn parses_to(s: Seq<char>, e: EventType) -> bool {
    match known_event_type(ascii_lower(s)) {
        Some(k) => e == k,
        None => all_ascii_alnum(s) && (e matches EventType::Unknown(x) && x@ == s),
    }
}

/// The canonical spelling, used in topics and unique identifiers.
pub open spec fn canonical(e: EventType) -> Seq<char> {
    match e {
        EventType::Io => "Io"@,
        EventType::Motion => "Motion"@,
        EventType::LineDetection => "LineDetection"@,
        EventType::UnattendedBaggage => "UnattendedBaggage"@,
        EventType::AttendedBaggage => "AttendedBaggage"@,
        EventType::RegionEntrance => "RegionEntrance"@,
        EventType::RegionExiting => "RegionExiting"@,
        EventType::SceneChangeDetection => "SceneChangeDetection"@,
        EventType::FieldDetection => "FieldDetection"@,
        EventType::FaceDetection => "FaceDetection"@,
        EventType::FaceSnap => "FaceSnap"@,
        EventType::AudioException => "AudioException"@,
        EventType::VideoLoss => "VideoLoss"@,
        EventType::Tamper => "Tamper"@,
        EventType::VideoMismatch => "VideoMismatch"@,
        EventType::BadVideo => "BadVideo"@,
        EventType::StorageDetection => "StorageDetection"@,
        EventType::RecordingFailure => "RecordingFailure"@,
        EventType::DiskFull => "DiskFull"@,
        EventType::DiskError => "DiskError"@,
        EventType::NicBroken => "NicBroken"@,
        EventType::IpConflict => "IpConflict"@,
        EventType::IllegalAccess => "IllegalAccess"@,
        EventType::Unknown(s) => s@,
    }
}

/// The name shown to users.
pub open spec fn friendly(e: EventType) -> Seq<char> {
    match e {
        EventType::Io => "I/O Port"@,
        EventType::Motion => "Motion"@,
        EventType::LineDetection => "Line Crossing"@,
        EventType::UnattendedBaggage => "Unattended Baggage"@,
        EventType::AttendedBaggage => "Attended Baggage"@,
        EventType::RegionEntrance => "Region Entering"@,
        EventType::RegionExiting => "Region Exiting"@,
        EventType::SceneChangeDetection => "Scene Change"@,
        EventType::FieldDetection => "Field Detection"@,
        EventType::FaceDetection => "Face Detection"@,
        EventType::FaceSnap => "Face Snapshot"@,
        EventType::AudioException => "Audio Exception"@,
        EventType::VideoLoss => "Video Loss"@,
        EventType::Tamper => "Tamper"@,
        EventType::VideoMismatch => "Video Mismatch"@,
        EventType::BadVideo => "Bad Video"@,
        EventType::StorageDetection => "Storage Detection"@,
        EventType::RecordingFailure => "Recording Failure"@,
        EventType::DiskFull => "Disk Full"@,
        EventType::DiskError => "Disk Error"@,
        EventType::NicBroken => "Network Card Broken"@,
        EventType::IpConflict => "IP Address Conflict"@,
        EventType::IllegalAccess => "Illegal Access"@,
        EventType::Unknown(s) => s@,
    }
}

/// The binary-sensor device class.
pub open spec fn device_class_of(e: EventType) -> Option<Seq<char>> {
    match e {
        EventType::Io => None,
        EventType::Unknown(_) => Some("motion"@),
        EventType::Motion => Some("motion"@),
        EventType::LineDetection => Some("motion"@),
        EventType::UnattendedBaggage => Some("motion"@),
        EventType::AttendedBaggage => Some("motion"@),
        EventType::RegionEntrance => Some("motion"@),
        EventType::RegionExiting => Some("motion"@),
        EventType::SceneChangeDetection => Some("motion"@),
        EventType::FieldDetection => Some("motion"@),
        EventType::FaceDetection => Some("motion"@),
        EventType::FaceSnap => Some("motion"@),
        EventType::AudioException => Some("motion"@),
        EventType::VideoLoss => Some("problem"@),
        EventType::Tamper => Some("problem"@),
        EventType::VideoMismatch => Some("problem"@),
        EventType::BadVideo => Some("problem"@),
        EventType::StorageDetection => Some("problem"@),
        EventType::RecordingFailure => Some("problem"@),
        EventType::DiskFull => Some("problem"@),
        EventType::DiskError => Some("problem"@),
        EventType::NicBroken => Some("problem"@),
        EventType::IpConflict => Some("problem"@),
        EventType::IllegalAccess => Some("problem"@),
    }
}

/// The icon shown by the controller, where one suits the kind.
pub open spec fn icon_of(e: EventType) -> Option<Seq<char>> {
    match e {
        EventType::Io => Some("mdi:electric-switch"@),
        EventType::Motion => None,
        EventType::LineDetection => None,
        EventType::UnattendedBaggage => Some("mdi:bag-suitcase"@),
        EventType::AttendedBaggage => Some("mdi:bag-suitcase"@),
        EventType::RegionEntrance => Some("mdi:import"@),
        EventType::RegionExiting => Some("mdi:export"@),
        EventType::SceneChangeDetection => None,
        EventType::FieldDetection => None,
        EventType::FaceDetection => Some("mdi:face-recognition"@),
        EventType::FaceSnap => Some("mdi:face-recognition"@),
        EventType::AudioException => Some("mdi:microphone"@),
        EventType::VideoLoss => Some("mdi:camera-off"@),
        EventType::Tamper => None,
        EventType::VideoMismatch => Some("mdi:camera-off"@),
        EventType::BadVideo => Some("mdi:camera-off"@),
        EventType::StorageDetection => Some("mdi:harddisk"@),
        EventType::RecordingFailure => Some("mdi:harddisk"@),
        EventType::DiskFull => Some("mdi:harddisk"@),
        EventType::DiskError => Some("mdi:harddisk"@),
        EventType::NicBroken => Some("mdi:lan-disconnect"@),
        EventType::IpConflict => Some("mdi:lan-disconnect"@),
        EventType::IllegalAccess => Some("mdi:account-alert"@),
        EventType::Unknown(_) => None,
    }
}

pub open spec fn opt_str_view(o: Option<&str>) -> Option<Seq<char>> {
    match o {
        Some(s) => Some(s@),
        None => None,
    }
}

impl EventType {
    /// Returns `true` if the event type is [`VideoLoss`](EventType::VideoLoss).
    pub fn is_video_loss(&self) -> (r: bool)
        ensures
            r == (*self matches EventType::VideoLoss),
    {
        matches!(self, EventType::VideoLoss)
    }

    pub fn tag(&self) -> (r: u8)
        ensures
            r as nat == tag(*self),
    {
        match self {
            EventType::Io => 0,
            EventType::Motion => 1,
            EventType::LineDetection => 2,
            EventType::UnattendedBaggage => 3,
            EventType::AttendedBaggage => 4,
            EventType::RegionEntrance => 5,
            EventType::RegionExiting => 6,
            EventType::SceneChangeDetection => 7,
            EventType::FieldDetection => 8,
            EventType::FaceDetection => 9,
            EventType::FaceSnap => 10,
            EventType::AudioException => 11,
            EventType::VideoLoss => 12,
            EventType::Tamper => 13,
            EventType::VideoMismatch => 14,
            EventType::BadVideo => 15,
            EventType::StorageDetection => 16,
            EventType::RecordingFailure => 17,
            EventType::DiskFull => 18,
            EventType::DiskError => 19,
            EventType::NicBroken => 20,
            EventType::IpConflict => 21,
            EventType::IllegalAccess => 22,
            EventType::Unknown(_) => 23,
        }
    }

    /// Whether `self` and `other` are the same kind.
    pub fn same_as(&self, other: &EventType) -> (r: bool)
        ensures
            r == same_event_type(*self, *other),
    {
        if self.tag() != other.tag() {
            return false;
        }
        match (self, other) {
            (EventType::Unknown(x), EventType::Unknown(y)) => same_text(x.as_str(), y.as_str()),
            _ => true,
        }
    }

    /// A copy of the same kind.
    pub fn duplicate(&self) -> (r: EventType)
        ensures
            same_event_type(r, *self),
            !(*self matches EventType::Unknown(_)) ==> r == *self,
    {
        match self {
            EventType::Io => EventType::Io,
            EventType::Motion => EventType::Motion,
            EventType::LineDetection => EventType::LineDetection,
            EventType::UnattendedBaggage => EventType::UnattendedBaggage,
            EventType::AttendedBaggage => EventType::AttendedBaggage,
            EventType::RegionEntrance => EventType::RegionEntrance,
            EventType::RegionExiting => EventType::RegionExiting,
            EventType::SceneChangeDetection => EventType::SceneChangeDetection,
            EventType::FieldDetection => EventType::FieldDetection,
            EventType::FaceDetection => EventType::FaceDetection,
            EventType::FaceSnap => EventType::FaceSnap,
            EventType::AudioException => EventType::AudioException,
            EventType::VideoLoss => EventType::VideoLoss,
            EventType::Tamper => EventType::Tamper,
            EventType::VideoMismatch => EventType::VideoMismatch,
            EventType::BadVideo => EventType::BadVideo,
            EventType::StorageDetection => EventType::StorageDetection,
            EventType::RecordingFailure => EventType::RecordingFailure,
            EventType::DiskFull => EventType::DiskFull,
            EventType::DiskError => EventType::DiskError,
            EventType::NicBroken => EventType::NicBroken,
            EventType::IpConflict => EventType::IpConflict,
            EventType::IllegalAccess => EventType::IllegalAccess,
            EventType::Unknown(s) => EventType::Unknown(owned(s.as_str())),
        }
    }

    /// Friendly name for discovery descriptors.
    pub fn friendly_name(&self) -> (r: String)
        ensures
            r@ == friendly(*self),
    {
        match self {
            EventType::Io => owned("I/O Port"),
            EventType::Motion => owned("Motion"),
            EventType::LineDetection => owned("Line Crossing"),
            EventType::UnattendedBaggage => owned("Unattended Baggage"),
            EventType::AttendedBaggage => owned("Attended Baggage"),
            EventType::RegionEntrance => owned("Region Entering"),
            EventType::RegionExiting => owned("Region Exiting"),
            EventType::SceneChangeDetection => owned("Scene Change"),
            EventType::FieldDetection => owned("Field Detection"),
            EventType::FaceDetection => owned("Face Detection"),
            EventType::FaceSnap => owned("Face Snapshot"),
            EventType::AudioException => owned("Audio Exception"),
            EventType::VideoLoss => owned("Video Loss"),
            EventType::Tamper => owned("Tamper"),
            EventType::VideoMismatch => owned("Video Mismatch"),
            EventType::BadVideo => owned("Bad Video"),
            EventType::StorageDetection => owned("Storage Detection"),
            EventType::RecordingFailure => owned("Recording Failure"),
            EventType::DiskFull => owned("Disk Full"),
            EventType::DiskError => owned("Disk Error"),
            EventType::NicBroken => owned("Network Card Broken"),
            EventType::IpConflict => owned("IP Address Conflict"),
            EventType::IllegalAccess => owned("Illegal Access"),
            EventType::Unknown(s) => owned(s.as_str()),
        }
    }

    /// Maps to a binary sensor device class.
    pub fn device_class(&self) -> (r: Option<&str>)
        ensures
            opt_str_view(r) == device_class_of(*self),
    {
        match self {
            EventType::Io => None,
            EventType::Unknown(_) => Some("motion"),
            EventType::Motion => Some("motion"),
            EventType::LineDetection => Some("motion"),
            EventType::UnattendedBaggage => Some("motion"),
            EventType::AttendedBaggage => Some("motion"),
            EventType::RegionEntrance => Some("motion"),
            EventType::RegionExiting => Some("motion"),
            EventType::SceneChangeDetection => Some("motion"),
            EventType::FieldDetection => Some("motion"),
            EventType::FaceDetection => Some("motion"),
            EventType::FaceSnap => Some("motion"),
            EventType::AudioException => Some("motion"),
            EventType::VideoLoss => Some("problem"),
            EventType::Tamper => Some("problem"),
            EventType::VideoMismatch => Some("problem"),
            EventType::BadVideo => Some("problem"),
            EventType::StorageDetection => Some("problem"),
            EventType::RecordingFailure => Some("problem"),
            EventType::DiskFull => Some("problem"),
            EventType::DiskError => Some("problem"),
            EventType::NicBroken => Some("problem"),
            EventType::IpConflict => Some("problem"),
            EventType::IllegalAccess => Some("problem"),
        }
    }

    /// Maps to a design icon.
    pub fn icon(&self) -> (r: Option<&str>)
        ensures
            opt_str_view(r) == icon_of(*self),
    {
        match self {
            EventType::Io => Some("mdi:electric-switch"),
            EventType::Motion => None,
            EventType::LineDetection => None,
            EventType::UnattendedBaggage => Some("mdi:bag-suitcase"),
            EventType::AttendedBaggage => Some("mdi:bag-suitcase"),
            EventType::RegionEntrance => Some("mdi:import"),
            EventType::RegionExiting => Some("mdi:export"),
            EventType::SceneChangeDetection => None,
            EventType::FieldDetection => None,
            EventType::FaceDetection => Some("mdi:face-recognition"),
            EventType::FaceSnap => Some("mdi:face-recognition"),
            EventType::AudioException => Some("mdi:microphone"),
            EventType::VideoLoss => Some("mdi:camera-off"),
            EventType::Tamper => None,
            EventType::VideoMismatch => Some("mdi:camera-off"),
            EventType::BadVideo => Some("mdi:camera-off"),
            EventType::StorageDetection => Some("mdi:harddisk"),
            EventType::RecordingFailure => Some("mdi:harddisk"),
            EventType::DiskFull => Some("mdi:harddisk"),
            EventType::DiskError => Some("mdi:harddisk"),
            EventType::NicBroken => Some("mdi:lan-disconnect"),
            EventType::IpConflict => Some("mdi:lan-disconnect"),
            EventType::IllegalAccess => Some("mdi:account-alert"),
            EventType::Unknown(_) => None,
        }
    }

    /// The canonical spelling.
    pub fn to_string(&self) -> (r: String)
        ensures
            r@ == canonical(*self),
    {
        match self {
            EventType::Io => owned("Io"),
            EventType::Motion => owned("Motion"),
            EventType::LineDetection => owned("LineDetection"),
            EventType::UnattendedBaggage => owned("UnattendedBaggage"),
            EventType::AttendedBaggage => owned("AttendedBaggage"),
            EventType::RegionEntrance => owned("RegionEntrance"),
            EventType::RegionExiting => owned("RegionExiting"),
            EventType::SceneChangeDetection => owned("SceneChangeDetection"),
            EventType::FieldDetection => owned("FieldDetection"),
            EventType::FaceDetection => owned("FaceDetection"),
            EventType::FaceSnap => owned("FaceSnap"),
            EventType::AudioException => owned("AudioException"),
            EventType::VideoLoss => owned("VideoLoss"),
            EventType::Tamper => owned("Tamper"),
            EventType::VideoMismatch => owned("VideoMismatch"),
            EventType::BadVideo => owned("BadVideo"),
            EventType::StorageDetection => owned("StorageDetection"),
            EventType::RecordingFailure => owned("RecordingFailure"),
            EventType::DiskFull => owned("DiskFull"),
            EventType::DiskError => owned("DiskError"),
            EventType::NicBroken => owned("NicBroken"),
            EventType::IpConflict => owned("IpConflict"),
            EventType::IllegalAccess => owned("IllegalAccess"),
            EventType::Unknown(s) => owned(s.as_str()),
        }
    }

    /// Parses a vendor event name, ignoring case. Names outside the table are
    /// kept as `Unknown` when made of ASCII letters and digits only.
    pub fn parse(s: &str) -> (r: Result<EventType, String>)
        ensures
            r is Ok <==> parse_accepts(s@),
            r matches Ok(e) ==> parses_to(s@, e),
            !all_ascii_alnum(s@) ==> r is Err,
    {
        proof {
            lemma_known_names_alnum(ascii_lower(s@));
            lemma_lower_keeps_alnum(s@);
        }
        let low = to_ascii_lower(s);
        let l = low.as_str();
        if same_text(l, "io") {
            Ok(EventType::Io)
        } else if same_text(l, "vmd") {
            Ok(EventType::Motion)
        } else if same_text(l, "linedetection") {
            Ok(EventType::LineDetection)
        } else if same_text(l, "unattendedbaggage") {
            Ok(EventType::UnattendedBaggage)
        } else if same_text(l, "attendedbaggage") {
            Ok(EventType::AttendedBaggage)
        } else if same_text(l, "regionentrance") {
            Ok(EventType::RegionEntrance)
        } else if same_text(l, "regionexiting") {
            Ok(EventType::RegionExiting)
        } else if same_text(l, "scenechangedetection") {
            Ok(EventType::SceneChangeDetection)
        } else if same_text(l, "fielddetection") {
            Ok(EventType::FieldDetection)
        } else if same_text(l, "facedetection") {
            Ok(EventType::FaceDetection)
        } else if same_text(l, "facesnap") {
            Ok(EventType::FaceSnap)
        } else if same_text(l, "audioexception") {
            Ok(EventType::AudioException)
        } else if same_text(l, "videoloss") {
            Ok(EventType::VideoLoss)
        } else if same_text(l, "tamperdetection") {
            Ok(EventType::Tamper)
        } else if same_text(l, "shelteralarm") {
            Ok(EventType::Tamper)
        } else if same_text(l, "videomismatch") {
            Ok(EventType::VideoMismatch)
        } else if same_text(l, "badvideo") {
            Ok(EventType::BadVideo)
        } else if same_text(l, "storagedetection") {
            Ok(EventType::StorageDetection)
        } else if same_text(l, "recordingfailure") {
            Ok(EventType::RecordingFailure)
        } else if same_text(l, "diskfull") {
            Ok(EventType::DiskFull)
        } else if same_text(l, "diskerror") {
            Ok(EventType::DiskError)
        } else if same_text(l, "nicbroken") {
            Ok(EventType::NicBroken)
        } else if same_text(l, "ipconflict") {
            Ok(EventType::IpConflict)
        } else if same_text(l, "illaccess") {
            Ok(EventType::IllegalAccess)
        } else if same_text(l, "motion") {
            Ok(EventType::Motion)
        } else if same_text(l, "tamper") {
            Ok(EventType::Tamper)
        } else if same_text(l, "illegalaccess") {
            Ok(EventType::IllegalAccess)
        } else if is_all_ascii_alnum(s) {
            Ok(EventType::Unknown(owned(s)))
        } else {
            Err(owned("Event type contained non-alphabetic or non-numeric characters"))
        }
    }
}

impl core::str::FromStr for EventType {
    type Err = String;

    fn from_str(s: &str) -> Result<EventType, String> {
        EventType::parse(s)
    }
}

/// Every name in the table is made of ASCII letters and digits.
pub proof fn lemma_known_names_alnum(l: Seq<char>)
    ensures
        known_event_type(l) is Some ==> all_ascii_alnum(l),
{
    reveal_strlit("io");
    reveal_strlit("vmd");
    reveal_strlit("linedetection");
    reveal_strlit("unattendedbaggage");
    reveal_strlit("attendedbaggage");
    reveal_strlit("regionentrance");
    reveal_strlit("regionexiting");
    reveal_strlit("scenechangedetection");
    reveal_strlit("fielddetection");
    reveal_strlit("facedetection");
    reveal_strlit("facesnap");
    reveal_strlit("audioexception");
    reveal_strlit("videoloss");
    reveal_strlit("tamperdetection");
    reveal_strlit("shelteralarm");
    reveal_strlit("videomismatch");
    reveal_strlit("badvideo");
    reveal_strlit("storagedetection");
    reveal_strlit("recordingfailure");
    reveal_strlit("diskfull");
    reveal_strlit("diskerror");
    reveal_strlit("nicbroken");
    reveal_strlit("ipconflict");
    reveal_strlit("illaccess");
    reveal_strlit("motion");
    reveal_strlit("tamper");
    reveal_strlit("illegalaccess");
}

/// Lowering the case keeps letters and digits, and everything else.
pub proof fn lemma_lower_keeps_alnum(s: Seq<char>)
    ensures
        all_ascii_alnum(ascii_lower(s)) == all_ascii_alnum(s),
{
    if all_ascii_alnum(ascii_lower(s)) {
        assert forall|i: int| 0 <= i < s.len() implies is_ascii_alnum(#[trigger] s[i]) by {
            assert(is_ascii_alnum(ascii_lower(s)[i]));
        }
    }
}

/// Parsing ignores case: an ASCII alphanumeric name and its lowercase form
/// parse to the same kind. Names outside the table keep their spelling in
/// `Unknown`, so for them this holds only when the name is already lowercase.
pub proof fn law_parse_ignores_case(s: Seq<char>, e: EventType)
    requires
        all_ascii_alnum(s),
        known_event_type(ascii_lower(s)) is Some || ascii_lower(s) == s,
    ensures
        parse_accepts(ascii_lower(s)) == parse_accepts(s),
        parses_to(ascii_lower(s), e) <==> parses_to(s, e),
{
    lemma_lower_idempotent(s);
    lemma_lower_keeps_alnum(s);
}

/// Lowering the case twice changes nothing more.
pub proof fn lemma_lower_idempotent(s: Seq<char>)
    ensures
        ascii_lower(ascii_lower(s)) == ascii_lower(s),
{
    assert(ascii_lower(ascii_lower(s)) =~= ascii_lower(s));
}

/// Parsing rejects every name holding a character other than an ASCII
/// letter or digit.
pub proof fn law_parse_rejects_non_alnum(s: Seq<char>)
    requires
        !all_ascii_alnum(s),
    ensures
        !parse_accepts(s),
{
    lemma_known_names_alnum(ascii_lower(s));
    lemma_lower_keeps_alnum(s);
}

/// The canonical spelling parses back to the same kind, in its own case and
/// lowercased. `Unknown` names whose lowercase form is in the vendor table
/// (or that hold other characters than ASCII letters and digits) parse to
/// something else and are left out.
pub proof fn law_canonical_round_trip(v: EventType)
    requires
        v matches EventType::Unknown(u) ==> (all_ascii_alnum(u@) && known_event_type(
            ascii_lower(u@),
        ) is None),
    ensures
        parse_accepts(canonical(v)),
        parses_to(canonical(v), v),
        !(v is Unknown) ==> parses_to(ascii_lower(canonical(v)), v),
{
    reveal_strlit("io");
    reveal_strlit("vmd");
    reveal_strlit("linedetection");
    reveal_strlit("unattendedbaggage");
    reveal_strlit("attendedbaggage");
    reveal_strlit("regionentrance");
    reveal_strlit("regionexiting");
    reveal_strlit("scenechangedetection");
    reveal_strlit("fielddetection");
    reveal_strlit("facedetection");
    reveal_strlit("facesnap");
    reveal_strlit("audioexception");
    reveal_strlit("videoloss");
    reveal_strlit("tamperdetection");
    reveal_strlit("shelteralarm");
    reveal_strlit("videomismatch");
    reveal_strlit("badvideo");
    reveal_strlit("storagedetection");
    reveal_strlit("recordingfailure");
    reveal_strlit("diskfull");
    reveal_strlit("diskerror");
    reveal_strlit("nicbroken");
    reveal_strlit("ipconflict");
    reveal_strlit("illaccess");
    reveal_strlit("motion");
    reveal_strlit("tamper");
    reveal_strlit("illegalaccess");
    lemma_lower_idempotent(canonical(v));
    match v {
        EventType::Io => {
            reveal_strlit("Io");
            assert(ascii_lower("Io"@) =~= "io"@);
            assert(known_event_type("io"@) == Some(EventType::Io));
        },
        EventType::Motion => {
            reveal_strlit("Motion");
            assert(ascii_lower("Motion"@) =~= "motion"@);
            assert(known_event_type("motion"@) == Some(EventType::Motion));
        },
        EventType::LineDetection => {
            reveal_strlit("LineDetection");
            assert(ascii_lower("LineDetection"@) =~= "linedetection"@);
            assert(known_event_type("linedetection"@) == Some(EventType::LineDetection));
        },
        EventType::UnattendedBaggage => {
            reveal_strlit("UnattendedBaggage");
            assert(ascii_lower("UnattendedBaggage"@) =~= "unattendedbaggage"@);
            assert(known_event_type("unattendedbaggage"@) == Some(EventType::UnattendedBaggage));
        },
        EventType::AttendedBaggage => {
            reveal_strlit("AttendedBaggage");
            assert(ascii_lower("AttendedBaggage"@) =~= "attendedbaggage"@);
            assert(known_event_type("attendedbaggage"@) == Some(EventType::AttendedBaggage));
        },
        EventType::RegionEntrance => {
            reveal_strlit("RegionEntrance");
            assert(ascii_lower("RegionEntrance"@) =~= "regionentrance"@);
            assert(known_event_type("regionentrance"@) == Some(EventType::RegionEntrance));
        },
        EventType::RegionExiting => {
            reveal_strlit("RegionExiting");
            assert(ascii_lower("RegionExiting"@) =~= "regionexiting"@);
            assert("regionexiting"@[0] != "linedetection"@[0]);
            assert(known_event_type("regionexiting"@) == Some(EventType::RegionExiting));
        },
        EventType::SceneChangeDetection => {
            reveal_strlit("SceneChangeDetection");
            assert(ascii_lower("SceneChangeDetection"@) =~= "scenechangedetection"@);
            assert(known_event_type("scenechangedetection"@) == Some(EventType::SceneChangeDetection));
        },
        EventType::FieldDetection => {
            reveal_strlit("FieldDetection");
            assert(ascii_lower("FieldDetection"@) =~= "fielddetection"@);
            assert("fielddetection"@[0] != "regionentrance"@[0]);
            assert(known_event_type("fielddetection"@) == Some(EventType::FieldDetection));
        },
        EventType::FaceDetection => {
            reveal_strlit("FaceDetection");
            assert(ascii_lower("FaceDetection"@) =~= "facedetection"@);
            assert("facedetection"@[0] != "linedetection"@[0]);
            assert("facedetection"@[0] != "regionexiting"@[0]);
            assert(known_event_type("facedetection"@) == Some(EventType::FaceDetection));
        },
        EventType::FaceSnap => {
            reveal_strlit("FaceSnap");
            assert(ascii_lower("FaceSnap"@) =~= "facesnap"@);
            assert(known_event_type("facesnap"@) == Some(EventType::FaceSnap));
        },
        EventType::AudioException => {
            reveal_strlit("AudioException");
            assert(ascii_lower("AudioException"@) =~= "audioexception"@);
            assert("audioexception"@[0] != "regionentrance"@[0]);
            assert("audioexception"@[0] != "fielddetection"@[0]);
            assert(known_event_type("audioexception"@) == Some(EventType::AudioException));
        },
        EventType::VideoLoss => {
            reveal_strlit("VideoLoss");
            assert(ascii_lower("VideoLoss"@) =~= "videoloss"@);
            assert(known_event_type("videoloss"@) == Some(EventType::VideoLoss));
        },
        EventType::Tamper => {
            reveal_strlit("Tamper");
            assert(ascii_lower("Tamper"@) =~= "tamper"@);
            assert("tamper"@[0] != "motion"@[0]);
            assert(known_event_type("tamper"@) == Some(EventType::Tamper));
        },
        EventType::VideoMismatch => {
            reveal_strlit("VideoMismatch");
            assert(ascii_lower("VideoMismatch"@) =~= "videomismatch"@);
            assert("videomismatch"@[0] != "linedetection"@[0]);
            assert("videomismatch"@[0] != "regionexiting"@[0]);
            assert("videomismatch"@[0] != "facedetection"@[0]);
            assert(known_event_type("videomismatch"@) == Some(EventType::VideoMismatch));
        },
        EventType::BadVideo => {
            reveal_strlit("BadVideo");
            assert(ascii_lower("BadVideo"@) =~= "badvideo"@);
            assert("badvideo"@[0] != "facesnap"@[0]);
            assert(known_event_type("badvideo"@) == Some(EventType::BadVideo));
        },
        EventType::StorageDetection => {
            reveal_strlit("StorageDetection");
            assert(ascii_lower("StorageDetection"@) =~= "storagedetection"@);
            assert(known_event_type("storagedetection"@) == Some(EventType::StorageDetection));
        },
        EventType::RecordingFailure => {
            reveal_strlit("RecordingFailure");
            assert(ascii_lower("RecordingFailure"@) =~= "recordingfailure"@);
            assert("recordingfailure"@[0] != "storagedetection"@[0]);
            assert(known_event_type("recordingfailure"@) == Some(EventType::RecordingFailure));
        },
        EventType::DiskFull => {
            reveal_strlit("DiskFull");
            assert(ascii_lower("DiskFull"@) =~= "diskfull"@);
            assert("diskfull"@[0] != "facesnap"@[0]);
            assert("diskfull"@[0] != "badvideo"@[0]);
            assert(known_event_type("diskfull"@) == Some(EventType::DiskFull));
        },
        EventType::DiskError => {
            reveal_strlit("DiskError");
            assert(ascii_lower("DiskError"@) =~= "diskerror"@);
            assert("diskerror"@[0] != "videoloss"@[0]);
            assert(known_event_type("diskerror"@) == Some(EventType::DiskError));
        },
        EventType::NicBroken => {
            reveal_strlit("NicBroken");
            assert(ascii_lower("NicBroken"@) =~= "nicbroken"@);
            assert("nicbroken"@[0] != "videoloss"@[0]);
            assert("nicbroken"@[0] != "diskerror"@[0]);
            assert(known_event_type("nicbroken"@) == Some(EventType::NicBroken));
        },
        EventType::IpConflict => {
            reveal_strlit("IpConflict");
            assert(ascii_lower("IpConflict"@) =~= "ipconflict"@);
            assert(known_event_type("ipconflict"@) == Some(EventType::IpConflict));
        },
        EventType::IllegalAccess => {
            reveal_strlit("IllegalAccess");
            assert(ascii_lower("IllegalAccess"@) =~= "illegalaccess"@);
            assert("illegalaccess"@[0] != "linedetection"@[0]);
            assert("illegalaccess"@[0] != "regionexiting"@[0]);
            assert("illegalaccess"@[0] != "facedetection"@[0]);
            assert("illegalaccess"@[0] != "videomismatch"@[0]);
            assert(known_event_type("illegalaccess"@) == Some(EventType::IllegalAccess));
        },
        EventType::Unknown(u) => {
            assert(parses_to(u@, v));
        },
    }
}

} // verus!
