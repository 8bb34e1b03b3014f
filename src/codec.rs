//! The wire codec. Every frame is one JSON array whose first element is a tag.
//! Outbound commands are encoded here as text. An inbound frame arrives as the
//! elements of its array, already parsed, and is decoded here into a relay
//! message.
use vstd::prelude::*;
use crate::message::{
    Command,
    CommandView,
    Event,
    EventView,
    Filter,
    Id,
    RelayMessage,
    RelayMessageView,
    SubscriptionId,
    filters_view,
};

verus! {

/// The JSON string literal that encodes a text, quotes and escapes included.
pub uninterp spec fn json_string(s: Seq<char>) -> Seq<char>;

/// Relies on serde_json's `Display` for `Value::String`: it writes the string
/// as a compact JSON string literal, which depends on the characters alone.
#[verifier::external_body]
fn quote_json(s: &str) -> (r: String)
    ensures
        r@ == json_string(s@),
{
    serde_json::Value::String(s.to_owned()).to_string()
}

/// The filters of a `REQ` frame, each preceded by a comma.
pub open spec fn filters_text(fs: Seq<Seq<char>>) -> Seq<char>
    decreases fs.len(),
{
    if fs.len() == 0 {
        Seq::empty()
    } else {
        filters_text(fs.drop_last()) + ","@ + fs.last()
    }
}

/// The frame of an event carried under a tag: `["EVENT",<event>]` for a
/// publication, `["AUTH",<event>]` for a credential.
pub open spec fn event_frame(opening: Seq<char>, e: EventView) -> Seq<char> {
    opening + e.json + "]"@
}

/// The frame of a subscription request: `["REQ",<id>,<filter>,...]`.
pub open spec fn req_frame(sub: Seq<char>, fs: Seq<Seq<char>>) -> Seq<char> {
    "[\"REQ\","@ + json_string(sub) + filters_text(fs) + "]"@
}

/// The frame that the protocol's grammar gives a command; `Exit` has none, as
/// it never reaches the wire.
pub open spec fn frame_of(c: CommandView) -> Option<Seq<char>> {
    match c {
        CommandView::PostEvent(e) => Some(event_frame("[\"EVENT\","@, e)),
        CommandView::Auth(e) => Some(event_frame("[\"AUTH\","@, e)),
        CommandView::FetchEvents(sub, fs) => Some(req_frame(sub, fs)),
        CommandView::Exit => None,
    }
}

fn append_filters(out: &mut String, filters: &Vec<Filter>)
    ensures
        final(out)@ == old(out)@ + filters_text(filters_view(filters@)),
{
    let ghost start = out@;
    let mut i: usize = 0;
    while i < filters.len()
        invariant
            i <= filters.len(),
            out@ == start + filters_text(filters_view(filters@.subrange(0, i as int))),
        decreases filters.len() - i,
    {
        let ghost before = filters_view(filters@.subrange(0, i as int));
        out.append(",");
        out.append(filters[i].json.as_str());
        proof {
            let next = filters_view(filters@.subrange(0, i + 1));
            assert(next.drop_last() =~= before);
            assert(next.last() == filters[i as int]@);
        }
        i = i + 1;
    }
    assert(filters@.subrange(0, filters.len() as int) =~= filters@);
}

/// Encodes a command as the text frame that the protocol defines for it.
pub fn encode(command: &Command) -> (r: Option<String>)
    ensures
        r matches Some(f) ==> frame_of(command@) == Some(f@),
        r is None <==> frame_of(command@) is None,
{
    match command {
        Command::PostEvent(e) => {
            let mut out = String::from_str("[\"EVENT\",");
            out.append(e.json.as_str());
            out.append("]");
            Some(out)
        },
        Command::Auth(e) => {
            let mut out = String::from_str("[\"AUTH\",");
            out.append(e.json.as_str());
            out.append("]");
            Some(out)
        },
        Command::FetchEvents(sub, filters) => {
            let mut out = String::from_str("[\"REQ\",");
            let quoted = quote_json(sub.as_str());
            out.append(quoted.as_str());
            append_filters(&mut out, filters);
            out.append("]");
            Some(out)
        },
        Command::Exit => None,
    }
}

/// One element of an inbound frame's top-level JSON array, as far as the
/// grammar reads it: a string, a boolean, an event object, or anything else.
#[derive(Clone, Debug, PartialEq, Eq)]
pub enum Element {
    Text(String),
    Flag(bool),
    Event(Event),
    Other,
}

/// The mathematical value of an [`Element`].
pub enum ElementView {
    Text(Seq<char>),
    Flag(bool),
    Event(EventView),
    Other,
}

impl View for Element {
    type V = ElementView;

    open spec fn view(&self) -> ElementView {
        match self {
            Element::Text(t) => ElementView::Text(t@),
            Element::Flag(b) => ElementView::Flag(*b),
            Element::Event(e) => ElementView::Event(e@),
            Element::Other => ElementView::Other,
        }
    }
}

pub open spec fn elements_view(items: Seq<Element>) -> Seq<ElementView> {
    items.map_values(|x: Element| x@)
}

/// Why an inbound frame is not a relay message.
#[derive(PartialEq, Eq, Structural, Clone, Copy, Debug)]
pub enum DecodeError {
    /// The first element is not one of the message tags.
    UnknownTag,
    /// The tag is known but the elements after it do not fit it.
    BadShape,
}

/// The relay message that a tag and the elements after it form, if they fit
/// the tag's shape.
pub open spec fn shaped(tag: Seq<char>, rest: Seq<ElementView>) -> Option<RelayMessageView> {
    if tag == "AUTH"@ {
        if rest.len() == 1 && rest[0] is Text {
            Some(RelayMessageView::Auth(rest[0]->Text_0))
        } else {
            None
        }
    } else if tag == "EVENT"@ {
        if rest.len() == 2 && rest[0] is Text && rest[1] is Event {
            Some(RelayMessageView::Event(rest[0]->Text_0, rest[1]->Event_0))
        } else {
            None
        }
    } else if tag == "OK"@ {
        if rest.len() == 3 && rest[0] is Text && rest[1] is Flag && rest[2] is Text {
            Some(RelayMessageView::Ack(rest[0]->Text_0, rest[1]->Flag_0, rest[2]->Text_0))
        } else {
            None
        }
    } else if tag == "EOSE"@ {
        if rest.len() == 1 && rest[0] is Text {
            Some(RelayMessageView::Eose(rest[0]->Text_0))
        } else {
            None
        }
    } else if tag == "CLOSED"@ {
        if rest.len() == 2 && rest[0] is Text && rest[1] is Text {
            Some(RelayMessageView::Closed(rest[0]->Text_0, rest[1]->Text_0))
        } else {
            None
        }
    } else {
        if rest.len() == 1 && rest[0] is Text {
            Some(RelayMessageView::Notice(rest[0]->Text_0))
        } else {
            None
        }
    }
}

pub open spec fn known_tag(tag: Seq<char>) -> bool {
    tag == "AUTH"@ || tag == "EVENT"@ || tag == "OK"@ || tag == "EOSE"@ || tag == "CLOSED"@
        || tag == "NOTICE"@
}

/// The relay message of an inbound frame's elements, following the grammar
/// `["AUTH",<challenge>]`, `["EVENT",<sub>,<event>]`, `["OK",<id>,<bool>,<reason>]`,
/// `["EOSE",<sub>]`, `["CLOSED",<sub>,<reason>]`, `["NOTICE",<text>]`.
pub open spec fn decoded(items: Seq<ElementView>) -> Result<RelayMessageView, DecodeError> {
    if items.len() == 0 || !(items[0] is Text) || !known_tag(items[0]->Text_0) {
        Err(DecodeError::UnknownTag)
    } else {
        match shaped(items[0]->Text_0, items.drop_first()) {
            Some(m) => Ok(m),
            None => Err(DecodeError::BadShape),
        }
    }
}

fn text_at(items: &Vec<Element>, i: usize) -> (r: Option<String>)
    ensures
        r matches Some(t) ==> i < items@.len() && items@[i as int]@ == ElementView::Text(t@),
        r is None ==> !(i < items@.len() && items@[i as int] is Text),
{
    if i < items.len() {
        match &items[i] {
            Element::Text(t) => Some(t.clone()),
            _ => None,
        }
    } else {
        None
    }
}

/// Decodes the elements of an inbound frame into a relay message.
pub fn decode(items: &Vec<Element>) -> (r: Result<RelayMessage, DecodeError>)
    ensures
        r matches Ok(m) ==> decoded(elements_view(items@)) == Ok::<RelayMessageView, DecodeError>(m@),
        r matches Err(e) ==> decoded(elements_view(items@)) == Err::<RelayMessageView, DecodeError>(e),
{
    let ghost v = elements_view(items@);
    let ghost rest = v.drop_first();
    let n = items.len();
    let tag = match text_at(items, 0) {
        Some(t) => t,
        None => return Err(DecodeError::UnknownTag),
    };
    assert(v[0] == items@[0]@);
    assert(rest.len() == n - 1);
    assert(forall|k: int| 0 <= k < rest.len() ==> rest[k] == #[trigger] items@[k + 1]@);
    let t1 = text_at(items, 1);
    let t2 = text_at(items, 2);
    let t3 = text_at(items, 3);
    if tag == String::from_str("AUTH") {
        match t1 {
            Some(c) if n == 2 => Ok(RelayMessage::Auth(c)),
            _ => Err(DecodeError::BadShape),
        }
    } else if tag == String::from_str("EVENT") {
        if n == 3 {
            match (t1, &items[2]) {
                (Some(s), Element::Event(e)) => Ok(
                    RelayMessage::Event(SubscriptionId(s), e.duplicate()),
                ),
                _ => Err(DecodeError::BadShape),
            }
        } else {
            Err(DecodeError::BadShape)
        }
    } else if tag == String::from_str("OK") {
        if n == 4 {
            match (t1, &items[2], t3) {
                (Some(id), Element::Flag(b), Some(reason)) => Ok(
                    RelayMessage::Ack(Id(id), *b, reason),
                ),
                _ => Err(DecodeError::BadShape),
            }
        } else {
            Err(DecodeError::BadShape)
        }
    } else if tag == String::from_str("EOSE") {
        match t1 {
            Some(s) if n == 2 => Ok(RelayMessage::Eose(SubscriptionId(s))),
            _ => Err(DecodeError::BadShape),
        }
    } else if tag == String::from_str("CLOSED") {
        match (t1, t2) {
            (Some(s), Some(reason)) if n == 3 => Ok(
                RelayMessage::Closed(SubscriptionId(s), reason),
            ),
            _ => Err(DecodeError::BadShape),
        }
    } else if tag == String::from_str("NOTICE") {
        match t1 {
            Some(t) if n == 2 => Ok(RelayMessage::Notice(t)),
            _ => Err(DecodeError::BadShape),
        }
    } else {
        Err(DecodeError::UnknownTag)
    }
}

} // verus!
