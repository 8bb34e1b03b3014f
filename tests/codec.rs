use nostr_probe::codec::encode;
use nostr_probe::message::{Command, Event, Filter, SubscriptionId};

#[test]
fn post_event_frame() {
    let e = Event::new("ab01", "{\"id\":\"ab01\"}");
    let f = encode(&Command::PostEvent(e)).unwrap();
    assert_eq!(f, "[\"EVENT\",{\"id\":\"ab01\"}]");
}

#[test]
fn auth_frame() {
    let e = Event::new("cd02", "{\"kind\":22242}");
    let f = encode(&Command::Auth(e)).unwrap();
    assert_eq!(f, "[\"AUTH\",{\"kind\":22242}]");
}

#[test]
fn req_frame_with_filters() {
    let filters = vec![Filter::new("{}"), Filter::new("{\"kinds\":[1]}")];
    let f = encode(&Command::FetchEvents(SubscriptionId::new("sub1"), filters)).unwrap();
    assert_eq!(f, "[\"REQ\",\"sub1\",{},{\"kinds\":[1]}]");
}

#[test]
fn req_frame_without_filters() {
    let f = encode(&Command::FetchEvents(SubscriptionId::new("s"), vec![])).unwrap();
    assert_eq!(f, "[\"REQ\",\"s\"]");
}

#[test]
fn req_frame_escapes_subscription_id() {
    let f = encode(&Command::FetchEvents(SubscriptionId::new("a\"b\\c"), vec![Filter::new("{}")]))
        .unwrap();
    assert_eq!(f, "[\"REQ\",\"a\\\"b\\\\c\",{}]");
}

#[test]
fn exit_has_no_frame() {
    assert_eq!(encode(&Command::Exit), None);
}

use nostr_probe::codec::{decode, DecodeError, Element};
use nostr_probe::message::{Id, RelayMessage};

fn text(s: &str) -> Element {
    Element::Text(s.to_string())
}

#[test]
fn decode_each_message_kind() {
    assert_eq!(decode(&vec![text("AUTH"), text("xyz")]), Ok(RelayMessage::Auth("xyz".to_string())));
    let e = Event::new("e1", "{}");
    assert_eq!(
        decode(&vec![text("EVENT"), text("sub1"), Element::Event(e.clone())]),
        Ok(RelayMessage::Event(SubscriptionId::new("sub1"), e))
    );
    assert_eq!(
        decode(&vec![text("OK"), text("ab"), Element::Flag(true), text("")]),
        Ok(RelayMessage::Ack(Id::new("ab"), true, String::new()))
    );
    assert_eq!(
        decode(&vec![text("EOSE"), text("sub1")]),
        Ok(RelayMessage::Eose(SubscriptionId::new("sub1")))
    );
    assert_eq!(
        decode(&vec![text("CLOSED"), text("sub1"), text("auth-required: x")]),
        Ok(RelayMessage::Closed(SubscriptionId::new("sub1"), "auth-required: x".to_string()))
    );
    assert_eq!(decode(&vec![text("NOTICE"), text("hi")]), Ok(RelayMessage::Notice("hi".to_string())));
}

#[test]
fn decode_rejects_unknown_tags() {
    assert_eq!(decode(&vec![]), Err(DecodeError::UnknownTag));
    assert_eq!(decode(&vec![text("REQ"), text("s")]), Err(DecodeError::UnknownTag));
    assert_eq!(decode(&vec![Element::Flag(true)]), Err(DecodeError::UnknownTag));
    assert_eq!(decode(&vec![text("auth"), text("x")]), Err(DecodeError::UnknownTag));
}

#[test]
fn decode_rejects_bad_shapes() {
    assert_eq!(decode(&vec![text("AUTH")]), Err(DecodeError::BadShape));
    assert_eq!(decode(&vec![text("EVENT"), text("s"), Element::Other]), Err(DecodeError::BadShape));
    assert_eq!(
        decode(&vec![text("OK"), text("ab"), text("true"), text("")]),
        Err(DecodeError::BadShape)
    );
    assert_eq!(decode(&vec![text("EOSE"), text("s"), text("t")]), Err(DecodeError::BadShape));
    assert_eq!(decode(&vec![text("CLOSED"), text("s")]), Err(DecodeError::BadShape));
    assert_eq!(decode(&vec![text("NOTICE"), Element::Other]), Err(DecodeError::BadShape));
}
