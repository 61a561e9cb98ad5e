//! The event stream the engine consumes: the document reduced to plain
//! values, one event at a time, in document order.
//!
//! The XML reader of the `xml` crate supplies the stream; everything it
//! produces is converted here to the library's own event type, so the
//! whole traversal downstream of this module is verified.

use vstd::prelude::*;

use crate::node::Node;
use crate::node::NodeV;
use xml::reader::XmlEvent;

verus! {

/// One event of the document stream.
pub enum ParseEvent {
    /// An element opens, carrying its name and attribute bag.
    Open(Node),
    /// An element closes; the payload is its name.
    Close(String),
    /// Text content arrives.
    Text(String),
    /// Any other well-formed event (document start or end,
    /// whitespace-only text, comments, processing instructions): the
    /// engine ignores it.
    Other,
    /// The source reported malformed markup; the stream ends here and
    /// whatever was accumulated so far is kept.
    Fault,
}

/// Mathematical image of `ParseEvent`.
pub enum ParseEventV {
    Open(NodeV),
    Close(Seq<char>),
    Text(Seq<char>),
    Other,
    Fault,
}

impl View for ParseEvent {
    type V = ParseEventV;

    open spec fn view(&self) -> ParseEventV {
        match self {
            ParseEvent::Open(node) => ParseEventV::Open(node@),
            ParseEvent::Close(name) => ParseEventV::Close(name@),
            ParseEvent::Text(chars) => ParseEventV::Text(chars@),
            ParseEvent::Other => ParseEventV::Other,
            ParseEvent::Fault => ParseEventV::Fault,
        }
    }
}

/// The views of a sequence of events.
pub open spec fn events_view(evs: Seq<ParseEvent>) -> Seq<ParseEventV> {
    Seq::new(evs.len(), |i: int| evs[i]@)
}

/// The event stream that the XML reader produces on the given document
/// bytes, reduced to plain values: a deterministic function of the
/// bytes alone. On malformed markup the stream ends with one `Fault`.
pub uninterp spec fn events_of(bytes: Seq<u8>) -> Seq<ParseEventV>;

/// Relies on `xml::reader::EventReader` and its `Events` iterator: it
/// yields the document's events in order, stops after the document end
/// or after reporting one error, and hands attributes out as
/// name/value pairs. Element and attribute names are taken by their
/// local name, as the schema is matched namespace-insensitively.
#[verifier::external_body]
pub(crate) fn read_events(bytes: &[u8]) -> (evs: Vec<ParseEvent>)
    ensures
        events_view(evs@) == events_of(bytes@),
{
    xml::reader::EventReader::new(bytes).into_iter().map(|ev| match ev {
        Ok(XmlEvent::StartElement { name, attributes, .. }) => ParseEvent::Open(Node {
            name: name.local_name,
            attrs: attributes.into_iter().map(|a| (a.name.local_name, a.value)).collect(),
        }),
        Ok(XmlEvent::EndElement { name }) => ParseEvent::Close(name.local_name),
        Ok(XmlEvent::Characters(chars)) => ParseEvent::Text(chars),
        Ok(_) => ParseEvent::Other,
        Err(_) => ParseEvent::Fault,
    }).collect()
}

} // verus!
