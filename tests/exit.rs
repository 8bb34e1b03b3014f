use nostr_probe::exit::{ExitPattern, ExitPredicate};
use nostr_probe::message::{Event, Id, RelayMessage, SubscriptionId};

fn eose(s: &str) -> RelayMessage {
    RelayMessage::Eose(SubscriptionId::new(s))
}

#[test]
fn empty_predicate_matches_nothing() {
    let p = ExitPredicate::new();
    assert!(!p.matches(&eose("a")));
    assert!(!p.matches(&RelayMessage::Notice("n".to_string())));
}

#[test]
fn eose_pattern_matches_same_subscription_only() {
    let mut p = ExitPredicate::new();
    p.add(ExitPattern::Eose(SubscriptionId::new("sub1")));
    assert!(p.matches(&eose("sub1")));
    assert!(!p.matches(&eose("sub2")));
    assert!(!p.matches(&RelayMessage::Closed(SubscriptionId::new("sub1"), String::new())));
}

#[test]
fn auth_and_notice_patterns_match_any_payload() {
    let mut p = ExitPredicate::new();
    p.add(ExitPattern::Auth);
    p.add(ExitPattern::Notice);
    assert!(p.matches(&RelayMessage::Auth("x".to_string())));
    assert!(p.matches(&RelayMessage::Notice("y".to_string())));
    assert!(!p.matches(&eose("z")));
}

#[test]
fn ack_pattern_matches_id_and_verdict() {
    let mut p = ExitPredicate::new();
    p.add(ExitPattern::Ack(Id::new("ff"), true));
    assert!(p.matches(&RelayMessage::Ack(Id::new("ff"), true, "dup".to_string())));
    assert!(!p.matches(&RelayMessage::Ack(Id::new("ff"), false, String::new())));
    assert!(!p.matches(&RelayMessage::Ack(Id::new("ee"), true, String::new())));
}

#[test]
fn event_pattern_matches_subscription() {
    let p = ExitPattern::Event(SubscriptionId::new("s"));
    let e = Event::new("01", "{}");
    assert!(p.matches(&RelayMessage::Event(SubscriptionId::new("s"), e.clone())));
    assert!(!p.matches(&RelayMessage::Event(SubscriptionId::new("t"), e)));
}
