//! The XML documents cameras send, as trees of elements addressed by local
//! name. Parsing itself is minidom's.

use vstd::prelude::*;

verus! {

/// An element: its local name (namespace dropped), the concatenation of its
/// own text nodes, and its child elements in document order.
#[derive(Debug, PartialEq, Eq)]
pub struct XmlElement {
    pub name: String,
    pub text: String,
    pub children: Vec<XmlElement>,
}

/// The root element of the document `s`, or `None` where minidom refuses it
/// (ill-formed XML, but also comments and undeclared namespace prefixes).
pub uninterp spec fn xml_document(s: Seq<char>) -> Option<XmlElement>;

#[verifier::external_type_specification]
#[verifier::external_body]
pub struct ExMinidomElement(minidom::Element);

/// Relies on minidom's `Element::name`, `Element::text` and `Element::children`:
/// the same tree, element for element, as plain values. Used by `parse_xml` alone.
#[verifier::external_body]
fn element_tree(e: &minidom::Element) -> XmlElement {
    XmlElement {
        name: e.name().to_string(),
        text: e.text(),
        children: e.children().map(element_tree).collect(),
    }
}

/// Relies on minidom's `FromStr` for `Element`: the document's root, which
/// depends on the text alone; the error's message on failure.
#[verifier::external_body]
pub(crate) fn parse_xml(s: &str) -> (r: Result<XmlElement, String>)
    ensures
        r is Ok <==> xml_document(s@) is Some,
        r matches Ok(e) ==> xml_document(s@) == Some(e),
{
    match s.parse::<minidom::Element>() {
        Ok(e) => Ok(element_tree(&e)),
        Err(e) => Err(e.to_string()),
    }
}

pub open spec fn is_first_named(cs: Seq<XmlElement>, name: Seq<char>, i: int) -> bool {
    0 <= i < cs.len() && cs[i].name@ == name && forall|k: int|
        0 <= k < i ==> (#[trigger] cs[k]).name@ != name
}

/// The first child of `e` whose local name is `name`.
pub open spec fn named_child(e: XmlElement, name: Seq<char>) -> Option<XmlElement> {
    if exists|i: int| is_first_named(e.children@, name, i) {
        Some(e.children@[choose|i: int| is_first_named(e.children@, name, i)])
    } else {
        None
    }
}

/// The text of the first child of `e` named `name`.
pub open spec fn child_text(e: XmlElement, name: Seq<char>) -> Option<Seq<char>> {
    match named_child(e, name) {
        Some(c) => Some(c.text@),
        None => None,
    }
}

proof fn lemma_first_named_unique(cs: Seq<XmlElement>, name: Seq<char>, i: int)
    requires
        is_first_named(cs, name, i),
    ensures
        (choose|c: int| is_first_named(cs, name, c)) == i,
{
    let c = choose|c: int| is_first_named(cs, name, c);
    if c < i {
        assert(cs[c].name@ != name);
    } else if c > i {
        assert(cs[i].name@ != name);
    }
}

impl XmlElement {
    /// The first child element named `name`.
    pub fn get_child(&self, name: &str) -> (r: Option<&XmlElement>)
        ensures
            match r {
                Some(c) => named_child(*self, name@) == Some(*c),
                None => named_child(*self, name@) is None,
            },
    {
        let mut i: usize = 0;
        while i < self.children.len()
            invariant
                i <= self.children@.len(),
                forall|k: int| 0 <= k < i ==> (#[trigger] self.children@[k]).name@ != name@,
            decreases self.children@.len() - i,
        {
            if crate::text::same_text(self.children[i].name.as_str(), name) {
                proof {
                    assert(is_first_named(self.children@, name@, i as int));
                    lemma_first_named_unique(self.children@, name@, i as int);
                }
                return Some(&self.children[i]);
            }
            i = i + 1;
        }
        proof {
            if exists|j: int| is_first_named(self.children@, name@, j) {
                let c = choose|c: int| is_first_named(self.children@, name@, c);
                assert(self.children@[c].name@ != name@);
            }
        }
        None
    }

    /// The text of the first child element named `name`.
    pub fn child_text(&self, name: &str) -> (r: Option<String>)
        ensures
            crate::text::opt_text(r) == child_text(*self, name@),
    {
        match self.get_child(name) {
            Some(c) => Some(crate::text::owned(c.text.as_str())),
            None => None,
        }
    }
}

} // verus!
