//! The human-readable trace of the frames that a connection reads and sends.
//! It is not part of the programmatic contract; the labels are chosen by the
//! caller (coloured, for a terminal).
use vstd::prelude::*;
use crate::connection::{Action, ActionView};
use crate::message::{RelayMessage, RelayMessageView};

verus! {

/// The labels that begin each trace line: one for what the relay sent, one
/// for what is being sent to it.
#[derive(Clone, Debug, PartialEq, Eq)]
pub struct Prefixes {
    pub from_relay: String,
    pub sending: String,
}

/// A non-text frame read from the relay.
#[derive(PartialEq, Eq, Structural, Clone, Copy, Debug)]
pub enum ControlFrame {
    Binary,
    Ping,
    Pong,
}

pub open spec fn bool_text(b: bool) -> Seq<char> {
    if b {
        "true"@
    } else {
        "false"@
    }
}

/// The trace text of a relay message: its tag and its fields.
pub open spec fn message_text(m: RelayMessageView) -> Seq<char> {
    match m {
        RelayMessageView::Auth(c) => "AUTH("@ + c + ")"@,
        RelayMessageView::Event(s, e) => "EVENT("@ + s + ", "@ + e.json + ")"@,
        RelayMessageView::Closed(s, r) => "CLOSED("@ + s + ", "@ + r + ")"@,
        RelayMessageView::Notice(t) => "NOTICE("@ + t + ")"@,
        RelayMessageView::Eose(s) => "EOSE("@ + s + ")"@,
        RelayMessageView::Ack(i, b, r) => "OK("@ + i + ", "@ + bool_text(b) + ", "@ + r + ")"@,
    }
}

pub open spec fn control_text(f: ControlFrame) -> Seq<char> {
    match f {
        ControlFrame::Binary => "Binary message received!!!"@,
        ControlFrame::Ping => "Ping"@,
        ControlFrame::Pong => "Pong"@,
    }
}

/// The trace text of a frame sent to the relay; a delivery sends nothing.
pub open spec fn sent_text(a: ActionView) -> Option<Seq<char>> {
    match a {
        ActionView::Ping => Some("Ping(_)"@),
        ActionView::Transmit(f) => Some("Text("@ + f + ")"@),
        ActionView::Close => Some("Close(_)"@),
        ActionView::Deliver(_) => None,
    }
}

/// The text of a relay message, as [`message_text`] defines it.
pub fn describe_message(m: &RelayMessage) -> (r: String)
    ensures
        r@ == message_text(m@),
{
    match m {
        RelayMessage::Auth(c) => {
            let mut out = String::from_str("AUTH(");
            out.append(c.as_str());
            out.append(")");
            out
        },
        RelayMessage::Event(s, e) => {
            let mut out = String::from_str("EVENT(");
            out.append(s.as_str());
            out.append(", ");
            out.append(e.json.as_str());
            out.append(")");
            out
        },
        RelayMessage::Closed(s, reason) => {
            let mut out = String::from_str("CLOSED(");
            out.append(s.as_str());
            out.append(", ");
            out.append(reason.as_str());
            out.append(")");
            out
        },
        RelayMessage::Notice(t) => {
            let mut out = String::from_str("NOTICE(");
            out.append(t.as_str());
            out.append(")");
            out
        },
        RelayMessage::Eose(s) => {
            let mut out = String::from_str("EOSE(");
            out.append(s.as_str());
            out.append(")");
            out
        },
        RelayMessage::Ack(id, accepted, reason) => {
            let mut out = String::from_str("OK(");
            out.append(id.0.as_str());
            out.append(", ");
            if *accepted {
                out.append("true");
            } else {
                out.append("false");
            }
            out.append(", ");
            out.append(reason.as_str());
            out.append(")");
            out
        },
    }
}

impl Prefixes {
    pub fn new(from_relay: &str, sending: &str) -> (r: Prefixes)
        ensures
            r.from_relay@ == from_relay@,
            r.sending@ == sending@,
    {
        Prefixes { from_relay: String::from_str(from_relay), sending: String::from_str(sending) }
    }

    fn labelled(label: &String, text: &str) -> (r: String)
        ensures
            r@ == label@ + ": "@ + text@,
    {
        let mut out = label.clone();
        out.append(": ");
        out.append(text);
        out
    }

    /// The trace line of a relay message: `<from_relay>: <text>`.
    pub fn received_line(&self, m: &RelayMessage) -> (r: String)
        ensures
            r@ == self.from_relay@ + ": "@ + message_text(m@),
    {
        let text = describe_message(m);
        Self::labelled(&self.from_relay, text.as_str())
    }

    /// The trace line of a binary, ping or pong frame from the relay.
    pub fn control_line(&self, f: ControlFrame) -> (r: String)
        ensures
            r@ == self.from_relay@ + ": "@ + control_text(f),
    {
        match f {
            ControlFrame::Binary => Self::labelled(&self.from_relay, "Binary message received!!!"),
            ControlFrame::Ping => Self::labelled(&self.from_relay, "Ping"),
            ControlFrame::Pong => Self::labelled(&self.from_relay, "Pong"),
        }
    }

    /// The trace line of a frame about to be sent: `<sending>: <text>`.
    pub fn sent_line(&self, a: &Action) -> (r: Option<String>)
        ensures
            r is None <==> sent_text(a@) is None,
            r matches Some(l) ==> l@ == self.sending@ + ": "@ + sent_text(a@)->Some_0,
    {
        match a {
            Action::Ping => Some(Self::labelled(&self.sending, "Ping(_)")),
            Action::Transmit(f) => {
                let mut text = String::from_str("Text(");
                text.append(f.as_str());
                text.append(")");
                Some(Self::labelled(&self.sending, text.as_str()))
            },
            Action::Close => Some(Self::labelled(&self.sending, "Close(_)")),
            Action::Deliver(_) => None,
        }
    }
}

} // verus!
