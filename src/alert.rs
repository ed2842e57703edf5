//! Alerts delivered on a camera's event stream.

use crate::event_type::{parse_accepts, parses_to, EventIdentifier, EventType};
use crate::text::{opt_text, owned, parse_unsigned, parse_unsigned_text, same_text};
use crate::xml::{child_text, named_child, parse_xml, xml_document, XmlElement};
use vstd::prelude::*;

verus! {

#[derive(Debug, PartialEq, Eq, Structural, Clone, Copy)]
pub struct RegionCoordinates {
    pub x: u32,
    pub y: u32,
}

#[derive(Debug, PartialEq, Eq, Clone)]
pub struct DetectionRegion {
    pub id: String,
    pub sensitivity: u8,
    pub coordinates: Vec<RegionCoordinates>,
}

#[derive(Debug, PartialEq, Eq, Clone)]
pub struct AlertItem {
    pub identifier: EventIdentifier,
    pub active: bool,
    pub regions: Vec<DetectionRegion>,
    pub post_count: u64,
    pub description: String,
    pub date: String,
}

/// Whether two regions hold the same data.
pub open spec fn same_region(a: DetectionRegion, b: DetectionRegion) -> bool {
    a.id@ == b.id@ && a.sensitivity == b.sensitivity && a.coordinates@ == b.coordinates@
}

/// Whether two region lists hold the same data, in the same order.
pub open spec fn same_regions(a: Seq<DetectionRegion>, b: Seq<DetectionRegion>) -> bool {
    a.len() == b.len() && forall|i: int| 0 <= i < a.len() ==> same_region(#[trigger] a[i], b[i])
}

fn coordinates_equal(a: &Vec<RegionCoordinates>, b: &Vec<RegionCoordinates>) -> (r: bool)
    ensures
        r == (a@ == b@),
{
    if a.len() != b.len() {
        return false;
    }
    let mut i: usize = 0;
    while i < a.len()
        invariant
            a.len() == b.len(),
            i <= a.len(),
            forall|j: int| 0 <= j < i ==> a@[j] == b@[j],
        decreases a.len() - i,
    {
        if a[i] != b[i] {
            return false;
        }
        i = i + 1;
    }
    assert(a@ =~= b@);
    true
}

pub fn region_equal(a: &DetectionRegion, b: &DetectionRegion) -> (r: bool)
    ensures
        r == same_region(*a, *b),
{
    same_text(a.id.as_str(), b.id.as_str()) && a.sensitivity == b.sensitivity
        && coordinates_equal(&a.coordinates, &b.coordinates)
}

pub fn regions_equal(a: &Vec<DetectionRegion>, b: &Vec<DetectionRegion>) -> (r: bool)
    ensures
        r == same_regions(a@, b@),
{
    if a.len() != b.len() {
        return false;
    }
    let mut i: usize = 0;
    while i < a.len()
        invariant
            a.len() == b.len(),
            i <= a.len(),
            forall|j: int| 0 <= j < i ==> same_region(#[trigger] a@[j], b@[j]),
        decreases a.len() - i,
    {
        if !region_equal(&a[i], &b[i]) {
            return false;
        }
        i = i + 1;
    }
    true
}

#[derive(Debug, PartialEq, Eq, Clone)]
pub enum AlertParseError {
    XmlInvalid(String),
    FieldMissing(String),
    NumberExpected(String, String),
    EventTypeInvalid(String, String),
    EventStateInvalid(String),
    InvalidChild(String, String),
}

pub open spec fn missing(e: AlertParseError, f: Seq<char>) -> bool {
    e matches AlertParseError::FieldMissing(x) && x@ == f
}

pub open spec fn not_a_number(e: AlertParseError, f: Seq<char>, m: Seq<char>) -> bool {
    e matches AlertParseError::NumberExpected(x, y) && x@ == f && y@ == m
}

// Coordinates: `positionX` and `positionY`, each a `u32`.

pub open spec fn coord_decodes(c: XmlElement) -> bool {
    &&& child_text(c, "positionX"@) is Some
    &&& parse_unsigned(child_text(c, "positionX"@)->Some_0, u32::MAX as nat) is Ok
    &&& child_text(c, "positionY"@) is Some
    &&& parse_unsigned(child_text(c, "positionY"@)->Some_0, u32::MAX as nat) is Ok
}

pub open spec fn coord_decoded(c: XmlElement, rc: RegionCoordinates) -> bool {
    &&& rc.x as nat == parse_unsigned(child_text(c, "positionX"@)->Some_0, u32::MAX as nat)->Ok_0
    &&& rc.y as nat == parse_unsigned(child_text(c, "positionY"@)->Some_0, u32::MAX as nat)->Ok_0
}

pub open spec fn coord_error(c: XmlElement, e: AlertParseError) -> bool {
    let x = parse_unsigned(child_text(c, "positionX"@)->Some_0, u32::MAX as nat);
    let y = parse_unsigned(child_text(c, "positionY"@)->Some_0, u32::MAX as nat);
    if child_text(c, "positionX"@) is None {
        missing(e, "positionX"@)
    } else if x is Err {
        not_a_number(e, "positionX"@, x->Err_0)
    } else if child_text(c, "positionY"@) is None {
        missing(e, "positionY"@)
    } else {
        not_a_number(e, "positionXY"@, y->Err_0)
    }
}

pub open spec fn coords_decode(cs: Seq<XmlElement>) -> bool {
    forall|k: int| 0 <= k < cs.len() ==> coord_decodes(#[trigger] cs[k])
}

pub open spec fn coords_decoded(cs: Seq<XmlElement>, v: Seq<RegionCoordinates>) -> bool {
    v.len() == cs.len() && forall|k: int| 0 <= k < cs.len() ==> coord_decoded(cs[k], #[trigger] v[k])
}

pub open spec fn coords_error(cs: Seq<XmlElement>, e: AlertParseError) -> bool {
    exists|f: int|
        0 <= f < cs.len() && !coord_decodes(#[trigger] cs[f]) && coord_error(cs[f], e) && forall|
            k: int,
        | 0 <= k < f ==> coord_decodes(#[trigger] cs[k])
}

// Region entries.

pub open spec fn entry_coords(r: XmlElement) -> Seq<XmlElement> {
    match named_child(r, "RegionCoordinatesList"@) {
        Some(l) => l.children@,
        None => Seq::empty(),
    }
}

pub open spec fn entry_decodes(r: XmlElement) -> bool {
    &&& r.name@ == "DetectionRegionEntry"@
    &&& child_text(r, "regionID"@) is Some
    &&& child_text(r, "sensitivityLevel"@) is Some
    &&& parse_unsigned(child_text(r, "sensitivityLevel"@)->Some_0, u8::MAX as nat) is Ok
    &&& coords_decode(entry_coords(r))
}

pub open spec fn entry_decoded(r: XmlElement, d: DetectionRegion) -> bool {
    &&& d.id@ == child_text(r, "regionID"@)->Some_0
    &&& d.sensitivity as nat == parse_unsigned(
        child_text(r, "sensitivityLevel"@)->Some_0,
        u8::MAX as nat,
    )->Ok_0
    &&& coords_decoded(entry_coords(r), d.coordinates@)
}

pub open spec fn entry_error(r: XmlElement, e: AlertParseError) -> bool {
    let s = parse_unsigned(child_text(r, "sensitivityLevel"@)->Some_0, u8::MAX as nat);
    if r.name@ != "DetectionRegionEntry"@ {
        e matches AlertParseError::InvalidChild(x, y) && x@ == "DetectionRegionEntry"@ && y@
            == r.name@
    } else if child_text(r, "regionID"@) is None {
        missing(e, "regionID"@)
    } else if child_text(r, "sensitivityLevel"@) is None {
        missing(e, "sensitivityLevel"@)
    } else if s is Err {
        not_a_number(e, "sensitivityLevel"@, s->Err_0)
    } else {
        coords_error(entry_coords(r), e)
    }
}

/// The region entries of an alert: the children of its `DetectionRegionList`, if any.
pub open spec fn region_entries(root: XmlElement) -> Seq<XmlElement> {
    match named_child(root, "DetectionRegionList"@) {
        Some(l) => l.children@,
        None => Seq::empty(),
    }
}

pub open spec fn regions_decode(root: XmlElement) -> bool {
    forall|k: int|
        0 <= k < region_entries(root).len() ==> entry_decodes(#[trigger] region_entries(root)[k])
}

pub open spec fn regions_decoded(root: XmlElement, v: Seq<DetectionRegion>) -> bool {
    let es = region_entries(root);
    v.len() == es.len() && forall|k: int| 0 <= k < es.len() ==> entry_decoded(es[k], #[trigger] v[k])
}

pub open spec fn regions_error(root: XmlElement, e: AlertParseError) -> bool {
    let es = region_entries(root);
    exists|f: int|
        0 <= f < es.len() && !entry_decodes(#[trigger] es[f]) && entry_error(es[f], e) && forall|
            k: int,
        | 0 <= k < f ==> entry_decodes(#[trigger] es[k])
}

fn number_field(text: &String, field: &str, max: u64) -> (r: Result<u64, AlertParseError>)
    ensures
        match parse_unsigned(text@, max as nat) {
            Ok(v) => r == Ok::<u64, AlertParseError>(v as u64),
            Err(m) => r matches Err(e) && not_a_number(e, field@, m),
        },
        r matches Ok(v) ==> v <= max,
        parse_unsigned(text@, max as nat) matches Ok(v) ==> v <= max,
{
    match parse_unsigned_text(text.as_str(), max) {
        Ok(v) => Ok(v),
        Err(m) => Err(AlertParseError::NumberExpected(owned(field), m)),
    }
}

fn required(e: &XmlElement, name: &str) -> (r: Result<String, AlertParseError>)
    ensures
        match child_text(*e, name@) {
            Some(t) => r matches Ok(x) && x@ == t,
            None => r matches Err(x) && missing(x, name@),
        },
{
    match e.child_text(name) {
        Some(t) => Ok(t),
        None => Err(AlertParseError::FieldMissing(owned(name))),
    }
}

fn decode_coordinates(c: &XmlElement) -> (r: Result<RegionCoordinates, AlertParseError>)
    ensures
        r is Ok <==> coord_decodes(*c),
        r matches Ok(rc) ==> coord_decoded(*c, rc),
        r matches Err(e) ==> coord_error(*c, e),
{
    let xt = required(c, "positionX")?;
    let x = number_field(&xt, "positionX", 0xffff_ffff)?;
    let yt = required(c, "positionY")?;
    let y = number_field(&yt, "positionXY", 0xffff_ffff)?;
    Ok(RegionCoordinates { x: x as u32, y: y as u32 })
}

fn decode_coordinate_list(r: &XmlElement) -> (res: Result<Vec<RegionCoordinates>, AlertParseError>)
    ensures
        res is Ok <==> coords_decode(entry_coords(*r)),
        res matches Ok(v) ==> coords_decoded(entry_coords(*r), v@),
        res matches Err(e) ==> coords_error(entry_coords(*r), e),
{
    let mut coordinates: Vec<RegionCoordinates> = Vec::new();
    let ghost cs = entry_coords(*r);
    match r.get_child("RegionCoordinatesList") {
        Some(list) => {
            assert(list.children@ == cs);
            let mut i: usize = 0;
            while i < list.children.len()
                invariant
                    list.children@ == cs,
                    cs == entry_coords(*r),
                    i <= cs.len(),
                    coordinates@.len() == i,
                    forall|k: int| 0 <= k < i ==> coord_decodes(#[trigger] cs[k]),
                    forall|k: int| 0 <= k < i ==> coord_decoded(cs[k], #[trigger] coordinates@[k]),
                decreases cs.len() - i,
            {
                match decode_coordinates(&list.children[i]) {
                    Ok(c) => coordinates.push(c),
                    Err(e) => {
                        assert(!coord_decodes(cs[i as int]) && coord_error(cs[i as int], e));
                        assert(coords_error(cs, e));
                        return Err(e);
                    },
                }
                i = i + 1;
            }
        },
        None => {},
    }
    Ok(coordinates)
}

fn decode_region(r: &XmlElement) -> (res: Result<DetectionRegion, AlertParseError>)
    ensures
        res is Ok <==> entry_decodes(*r),
        res matches Ok(d) ==> entry_decoded(*r, d),
        res matches Err(e) ==> entry_error(*r, e),
{
    if !same_text(r.name.as_str(), "DetectionRegionEntry") {
        return Err(
            AlertParseError::InvalidChild(owned("DetectionRegionEntry"), owned(r.name.as_str())),
        );
    }
    let id = required(r, "regionID")?;
    let st = required(r, "sensitivityLevel")?;
    let sensitivity = number_field(&st, "sensitivityLevel", 0xff)?;
    let coordinates = decode_coordinate_list(r)?;
    Ok(DetectionRegion { id, sensitivity: sensitivity as u8, coordinates })
}

/// Decodes the detection regions of an alert element.
pub fn pull_region_list(root: &XmlElement) -> (r: Result<Vec<DetectionRegion>, AlertParseError>)
    ensures
        r is Ok <==> regions_decode(*root),
        r matches Ok(v) ==> regions_decoded(*root, v@),
        r matches Err(e) ==> regions_error(*root, e),
{
    let mut rl: Vec<DetectionRegion> = Vec::new();
    let ghost es = region_entries(*root);
    match root.get_child("DetectionRegionList") {
        Some(container) => {
            assert(container.children@ == es);
            let mut i: usize = 0;
            while i < container.children.len()
                invariant
                    container.children@ == es,
                    es == region_entries(*root),
                    i <= es.len(),
                    rl@.len() == i,
                    forall|k: int| 0 <= k < i ==> entry_decodes(#[trigger] es[k]),
                    forall|k: int| 0 <= k < i ==> entry_decoded(es[k], #[trigger] rl@[k]),
                decreases es.len() - i,
            {
                match decode_region(&container.children[i]) {
                    Ok(d) => rl.push(d),
                    Err(e) => {
                        assert(!entry_decodes(es[i as int]) && entry_error(es[i as int], e));
                        assert(regions_error(*root, e));
                        return Err(e);
                    },
                }
                i = i + 1;
            }
        },
        None => {},
    }
    Ok(rl)
}

/// What decoding the alert element `root` yields; the first failing check
/// (in document field order) gives the error.
pub open spec fn alert_result(root: XmlElement, r: Result<AlertItem, AlertParseError>) -> bool {
    let kind = child_text(root, "eventType"@)->Some_0;
    let state = child_text(root, "eventState"@)->Some_0;
    let count = parse_unsigned(child_text(root, "activePostCount"@)->Some_0, u64::MAX as nat);
    if root.name@ != "EventNotificationAlert"@ {
        r matches Err(e) && missing(e, "EventNotificationAlert"@)
    } else if child_text(root, "eventType"@) is None {
        r matches Err(e) && missing(e, "eventType"@)
    } else if child_text(root, "eventState"@) is None {
        r matches Err(e) && missing(e, "eventState"@)
    } else if state != "active"@ && state != "inactive"@ {
        r matches Err(AlertParseError::EventStateInvalid(x)) && x@ == state
    } else if child_text(root, "eventDescription"@) is None {
        r matches Err(e) && missing(e, "eventDescription"@)
    } else if child_text(root, "dateTime"@) is None {
        r matches Err(e) && missing(e, "dateTime"@)
    } else if child_text(root, "activePostCount"@) is None {
        r matches Err(e) && missing(e, "activePostCount"@)
    } else if count is Err {
        r matches Err(e) && not_a_number(e, "activePostCount"@, count->Err_0)
    } else if !regions_decode(root) {
        r matches Err(e) && regions_error(root, e)
    } else if !parse_accepts(kind) {
        r matches Err(AlertParseError::EventTypeInvalid(x, _)) && x@ == kind
    } else {
        r matches Ok(a) && {
            &&& parses_to(kind, a.identifier.event_type)
            &&& opt_text(a.identifier.channel) == if child_text(root, "channelID"@) is Some {
                child_text(root, "channelID"@)
            } else {
                child_text(root, "dynChannelID"@)
            }
            &&& a.active == (state == "active"@)
            &&& regions_decoded(root, a.regions@)
            &&& a.post_count as nat == count->Ok_0
            &&& a.description@ == child_text(root, "eventDescription"@)->Some_0
            &&& a.date@ == child_text(root, "dateTime"@)->Some_0
        }
    }
}

impl AlertItem {
    /// Decodes an alert element.
    pub fn from_xml(root: &XmlElement) -> (r: Result<AlertItem, AlertParseError>)
        ensures
            alert_result(*root, r),
    {
        if !same_text(root.name.as_str(), "EventNotificationAlert") {
            return Err(AlertParseError::FieldMissing(owned("EventNotificationAlert")));
        }
        let event_type = required(root, "eventType")?;
        let state = required(root, "eventState")?;
        let active = if same_text(state.as_str(), "active") {
            true
        } else if same_text(state.as_str(), "inactive") {
            false
        } else {
            return Err(AlertParseError::EventStateInvalid(state));
        };
        let description = required(root, "eventDescription")?;
        let date = required(root, "dateTime")?;
        let count_text = required(root, "activePostCount")?;
        let post_count = number_field(&count_text, "activePostCount", 0xffff_ffff_ffff_ffff)?;
        let channel = match root.child_text("channelID") {
            Some(c) => Some(c),
            None => root.child_text("dynChannelID"),
        };
        let regions = pull_region_list(root)?;
        let kind = match EventType::parse(event_type.as_str()) {
            Ok(k) => k,
            Err(e) => {
                return Err(AlertParseError::EventTypeInvalid(event_type, e));
            },
        };
        Ok(AlertItem {
            identifier: EventIdentifier::new(channel, kind),
            active,
            regions,
            post_count,
            description,
            date,
        })
    }

    /// Decodes an alert document.
    pub fn parse(s: &str) -> (r: Result<AlertItem, AlertParseError>)
        ensures
            match xml_document(s@) {
                None => r is Err && r->Err_0 is XmlInvalid,
                Some(root) => alert_result(root, r),
            },
    {
        match parse_xml(s) {
            Ok(root) => AlertItem::from_xml(&root),
            Err(e) => Err(AlertParseError::XmlInvalid(e)),
        }
    }
}

} // verus!
