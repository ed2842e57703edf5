//! The triggers a camera has configured.

use crate::event_type::{canonical, parse_accepts, parses_to, same_opt_text, EventIdentifier, EventType};
use crate::text::{opt_text, owned};
use crate::xml::{child_text, named_child, parse_xml, xml_document, XmlElement};
use vstd::prelude::*;

verus! {

/// One configured trigger of a device.
#[derive(Debug, PartialEq, Eq, Clone)]
pub struct TriggerItem {
    pub identifier: EventIdentifier,
    pub hik_id: String,
    pub description: String,
}

/// The vendor id given to a trigger that was not enumerated by the device:
/// the canonical event type, then `-<channel>` when there is a channel.
pub open spec fn synthetic_hik_id(e: EventIdentifier) -> Seq<char> {
    match e.channel {
        Some(c) => canonical(e.event_type) + "-"@ + c@,
        None => canonical(e.event_type),
    }
}


#[derive(Debug, PartialEq, Eq, Clone)]
pub enum TriggerParseError {
    XmlInvalid(String),
    ChannelMissing,
    FieldMissing(String),
    EventTypeInvalid(String, String),
}

/// The elements listing the triggers: the children of
/// `EventNotification/EventTriggerList` or of `EventTriggerList` where
/// present, else the root's own children.
pub open spec fn trigger_list(root: XmlElement) -> Seq<XmlElement> {
    let outer = match named_child(root, "EventNotification"@) {
        Some(n) => n,
        None => root,
    };
    match named_child(outer, "EventTriggerList"@) {
        Some(l) => l.children@,
        None => root.children@,
    }
}

/// The channel of a trigger element: the first present of its
/// `videoInputChannelID`, `dynVideoInputChannelID`, `inputIOPortID` and `dynInputIOPortID`.
pub open spec fn trigger_channel(c: XmlElement) -> Option<Seq<char>> {
    if child_text(c, "videoInputChannelID"@) is Some {
        child_text(c, "videoInputChannelID"@)
    } else if child_text(c, "dynVideoInputChannelID"@) is Some {
        child_text(c, "dynVideoInputChannelID"@)
    } else if child_text(c, "inputIOPortID"@) is Some {
        child_text(c, "inputIOPortID"@)
    } else {
        child_text(c, "dynInputIOPortID"@)
    }
}

/// Whether the trigger element `c` decodes.
pub open spec fn trigger_decodes(c: XmlElement) -> bool {
    child_text(c, "id"@) is Some && child_text(c, "eventType"@) is Some && parse_accepts(
        child_text(c, "eventType"@)->Some_0,
    )
}

/// Whether `t` is what the trigger element `c` decodes to.
pub open spec fn trigger_decoded(c: XmlElement, t: TriggerItem) -> bool {
    &&& t.hik_id@ == child_text(c, "id"@)->Some_0
    &&& parses_to(child_text(c, "eventType"@)->Some_0, t.identifier.event_type)
    &&& opt_text(t.identifier.channel) == trigger_channel(c)
    &&& t.description@ == match child_text(c, "eventDescription"@) {
        Some(d) => d,
        None => Seq::empty(),
    }
}

/// Whether `e` is the error the trigger element `c` fails with.
pub open spec fn trigger_error(c: XmlElement, e: TriggerParseError) -> bool {
    if child_text(c, "id"@) is None {
        e matches TriggerParseError::FieldMissing(f) && f@ == "id"@
    } else if child_text(c, "eventType"@) is None {
        e matches TriggerParseError::FieldMissing(f) && f@ == "eventType"@
    } else {
        e matches TriggerParseError::EventTypeInvalid(p, _) && p@ == child_text(c, "eventType"@)->Some_0
    }
}

/// What decoding the trigger elements `cs` yields: every trigger in order,
/// or the error of the first that does not decode.
pub open spec fn triggers_result(cs: Seq<XmlElement>, r: Result<Vec<TriggerItem>, TriggerParseError>) -> bool {
    match r {
        Ok(v) => (forall|k: int| 0 <= k < cs.len() ==> trigger_decodes(#[trigger] cs[k]))
            && v@.len() == cs.len() && forall|k: int|
            0 <= k < cs.len() ==> trigger_decoded(cs[k], #[trigger] v@[k]),
        Err(e) => exists|f: int|
            0 <= f < cs.len() && !trigger_decodes(#[trigger] cs[f]) && trigger_error(cs[f], e)
                && forall|k: int| 0 <= k < f ==> trigger_decodes(#[trigger] cs[k]),
    }
}

fn first_text(c: &XmlElement, a: &str, b: &str, d: &str, e: &str) -> (r: Option<String>)
    ensures
        opt_text(r) == if child_text(*c, a@) is Some {
            child_text(*c, a@)
        } else if child_text(*c, b@) is Some {
            child_text(*c, b@)
        } else if child_text(*c, d@) is Some {
            child_text(*c, d@)
        } else {
            child_text(*c, e@)
        },
{
    match c.child_text(a) {
        Some(t) => Some(t),
        None => match c.child_text(b) {
            Some(t) => Some(t),
            None => match c.child_text(d) {
                Some(t) => Some(t),
                None => c.child_text(e),
            },
        },
    }
}

fn decode_trigger(c: &XmlElement) -> (r: Result<TriggerItem, TriggerParseError>)
    ensures
        r is Ok <==> trigger_decodes(*c),
        r matches Ok(t) ==> trigger_decoded(*c, t),
        r matches Err(e) ==> trigger_error(*c, e),
{
    let hik_id = match c.child_text("id") {
        Some(t) => t,
        None => {
            return Err(TriggerParseError::FieldMissing(owned("id")));
        },
    };
    let event_type = match c.child_text("eventType") {
        Some(t) => t,
        None => {
            return Err(TriggerParseError::FieldMissing(owned("eventType")));
        },
    };
    let description = match c.child_text("eventDescription") {
        Some(t) => t,
        None => String::new(),
    };
    let channel = first_text(
        c,
        "videoInputChannelID",
        "dynVideoInputChannelID",
        "inputIOPortID",
        "dynInputIOPortID",
    );
    let kind = match EventType::parse(event_type.as_str()) {
        Ok(k) => k,
        Err(e) => {
            return Err(TriggerParseError::EventTypeInvalid(event_type, e));
        },
    };
    Ok(TriggerItem { identifier: EventIdentifier::new(channel, kind), hik_id, description })
}

impl TriggerItem {
    /// Decodes the trigger elements of a trigger-list element.
    pub fn from_xml(root: &XmlElement) -> (r: Result<Vec<TriggerItem>, TriggerParseError>)
        ensures
            triggers_result(trigger_list(*root), r),
    {
        let outer = match root.get_child("EventNotification") {
            Some(n) => n,
            None => root,
        };
        let list = match outer.get_child("EventTriggerList") {
            Some(l) => &l.children,
            None => &root.children,
        };
        let ghost cs = trigger_list(*root);
        assert(list@ == cs);
        let mut parsed: Vec<TriggerItem> = Vec::new();
        let mut i: usize = 0;
        while i < list.len()
            invariant
                list@ == cs,
                cs == trigger_list(*root),
                i <= cs.len(),
                parsed@.len() == i,
                forall|k: int| 0 <= k < i ==> trigger_decodes(#[trigger] cs[k]),
                forall|k: int| 0 <= k < i ==> trigger_decoded(cs[k], #[trigger] parsed@[k]),
            decreases cs.len() - i,
        {
            match decode_trigger(&list[i]) {
                Ok(t) => parsed.push(t),
                Err(e) => {
                    assert(!trigger_decodes(cs[i as int]));
                    assert(trigger_error(cs[i as int], e));
                    return Err(e);
                },
            }
            i = i + 1;
        }
        Ok(parsed)
    }

    /// Decodes a trigger-list document.
    pub fn parse(s: &str) -> (r: Result<Vec<TriggerItem>, TriggerParseError>)
        ensures
            match xml_document(s@) {
                None => r is Err && r->Err_0 is XmlInvalid,
                Some(root) => triggers_result(trigger_list(root), r),
            },
    {
        match parse_xml(s) {
            Ok(root) => TriggerItem::from_xml(&root),
            Err(e) => Err(TriggerParseError::XmlInvalid(e)),
        }
    }

    /// A trigger built from a bare identifier, with a synthetic vendor id and
    /// no description.
    pub fn from_identifier(e: EventIdentifier) -> (r: TriggerItem)
        ensures
            r.identifier == e,
            r.hik_id@ == synthetic_hik_id(e),
            r.description@ == Seq::<char>::empty(),
    {
        let mut hik_id = e.event_type.to_string();
        match &e.channel {
            Some(c) => {
                hik_id.append("-");
                hik_id.append(c.as_str());
            },
            None => {},
        }
        TriggerItem { identifier: e, hik_id, description: String::new() }
    }
}

impl From<EventIdentifier> for TriggerItem {
    fn from(e: EventIdentifier) -> (r: TriggerItem) {
        TriggerItem::from_identifier(e)
    }
}

impl vstd::std_specs::convert::FromSpecImpl<EventIdentifier> for TriggerItem {
    open spec fn obeys_from_spec() -> bool {
        false
    }

    open spec fn from_spec(v: EventIdentifier) -> TriggerItem {
        arbitrary()
    }
}

} // verus!
