//! The values exchanged with a relay: commands going out, messages coming in.
use vstd::prelude::*;

verus! {

/// An opaque subscription identifier, compared character by character.
#[derive(Clone, Debug, PartialEq, Eq)]
pub struct SubscriptionId(pub String);

/// The identifier of an event, as its hexadecimal text.
#[derive(Clone, Debug, PartialEq, Eq)]
pub struct Id(pub String);

/// A signed event: its identifier and its JSON object text.
#[derive(Clone, Debug, PartialEq, Eq)]
pub struct Event {
    pub id: Id,
    pub json: String,
}

/// A query filter, as its JSON object text.
#[derive(Clone, Debug, PartialEq, Eq)]
pub struct Filter {
    pub json: String,
}

/// An instruction from the caller to the connection.
#[derive(Clone, Debug, PartialEq, Eq)]
pub enum Command {
    PostEvent(Event),
    Auth(Event),
    FetchEvents(SubscriptionId, Vec<Filter>),
    Exit,
}

/// A message received from the relay. `Ack` is the relay's OK answer to a
/// submitted event: its id, whether it was accepted, and a reason.
#[derive(Clone, Debug, PartialEq, Eq)]
pub enum RelayMessage {
    Auth(String),
    Event(SubscriptionId, Event),
    Closed(SubscriptionId, String),
    Notice(String),
    Eose(SubscriptionId),
    Ack(Id, bool, String),
}

/// The mathematical value of an [`Event`].
pub struct EventView {
    pub id: Seq<char>,
    pub json: Seq<char>,
}

/// The mathematical value of a [`Command`].
pub enum CommandView {
    PostEvent(EventView),
    Auth(EventView),
    FetchEvents(Seq<char>, Seq<Seq<char>>),
    Exit,
}

/// The mathematical value of a [`RelayMessage`].
pub enum RelayMessageView {
    Auth(Seq<char>),
    Event(Seq<char>, EventView),
    Closed(Seq<char>, Seq<char>),
    Notice(Seq<char>),
    Eose(Seq<char>),
    Ack(Seq<char>, bool, Seq<char>),
}

impl View for SubscriptionId {
    type V = Seq<char>;

    open spec fn view(&self) -> Seq<char> {
        self.0@
    }
}

impl View for Id {
    type V = Seq<char>;

    open spec fn view(&self) -> Seq<char> {
        self.0@
    }
}

impl View for Event {
    type V = EventView;

    open spec fn view(&self) -> EventView {
        EventView { id: self.id@, json: self.json@ }
    }
}

impl View for Filter {
    type V = Seq<char>;

    open spec fn view(&self) -> Seq<char> {
        self.json@
    }
}

/// The texts of a list of filters.
pub open spec fn filters_view(fs: Seq<Filter>) -> Seq<Seq<char>> {
    fs.map_values(|f: Filter| f@)
}

impl View for Command {
    type V = CommandView;

    open spec fn view(&self) -> CommandView {
        match self {
            Command::PostEvent(e) => CommandView::PostEvent(e@),
            Command::Auth(e) => CommandView::Auth(e@),
            Command::FetchEvents(s, fs) => CommandView::FetchEvents(s@, filters_view(fs@)),
            Command::Exit => CommandView::Exit,
        }
    }
}

impl View for RelayMessage {
    type V = RelayMessageView;

    open spec fn view(&self) -> RelayMessageView {
        match self {
            RelayMessage::Auth(c) => RelayMessageView::Auth(c@),
            RelayMessage::Event(s, e) => RelayMessageView::Event(s@, e@),
            RelayMessage::Closed(s, r) => RelayMessageView::Closed(s@, r@),
            RelayMessage::Notice(t) => RelayMessageView::Notice(t@),
            RelayMessage::Eose(s) => RelayMessageView::Eose(s@),
            RelayMessage::Ack(i, b, r) => RelayMessageView::Ack(i@, *b, r@),
        }
    }
}

impl SubscriptionId {
    pub fn new(s: &str) -> (r: SubscriptionId)
        ensures
            r@ == s@,
    {
        SubscriptionId(String::from_str(s))
    }

    pub fn as_str(&self) -> (r: &str)
        ensures
            r@ == self@,
    {
        self.0.as_str()
    }

    /// Byte-for-byte equality of two identifiers.
    pub fn same(&self, other: &SubscriptionId) -> (r: bool)
        ensures
            r == (self@ == other@),
    {
        self.0 == other.0
    }

    pub fn duplicate(&self) -> (r: SubscriptionId)
        ensures
            r@ == self@,
    {
        SubscriptionId(self.0.clone())
    }
}

impl Id {
    pub fn new(hex: &str) -> (r: Id)
        ensures
            r@ == hex@,
    {
        Id(String::from_str(hex))
    }

    pub fn same(&self, other: &Id) -> (r: bool)
        ensures
            r == (self@ == other@),
    {
        self.0 == other.0
    }

    pub fn duplicate(&self) -> (r: Id)
        ensures
            r@ == self@,
    {
        Id(self.0.clone())
    }
}

impl Event {
    pub fn new(id: &str, json: &str) -> (r: Event)
        ensures
            r@.id == id@,
            r@.json == json@,
    {
        Event { id: Id::new(id), json: String::from_str(json) }
    }

    pub fn duplicate(&self) -> (r: Event)
        ensures
            r@ == self@,
    {
        Event { id: self.id.duplicate(), json: self.json.clone() }
    }
}

impl Filter {
    pub fn new(json: &str) -> (r: Filter)
        ensures
            r@ == json@,
    {
        Filter { json: String::from_str(json) }
    }

    pub fn duplicate(&self) -> (r: Filter)
        ensures
            r@ == self@,
    {
        Filter { json: self.json.clone() }
    }
}

} // verus!
