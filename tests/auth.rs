use nostr_probe::auth::{auth_required, has_prefix, AuthAction, AuthRetry, Ending, MAX_CHALLENGES};
use nostr_probe::message::{Command, Event, Filter, Id, RelayMessage, SubscriptionId};

const RELAY: &str = "wss://relay.example.com";

fn sid() -> SubscriptionId {
    SubscriptionId::new("subscription-id")
}

fn fetch() -> Command {
    Command::FetchEvents(sid(), vec![Filter::new("{\"kinds\":[1]}")])
}

fn exchange() -> AuthRetry {
    AuthRetry::new(RELAY, sid(), Filter::new("{\"kinds\":[1]}"))
}

fn credential(id: &str) -> Event {
    Event::new(id, "{\"kind\":22242}")
}

fn count_fetches(acts: &[AuthAction]) -> usize {
    acts.iter().filter(|a| matches!(a, AuthAction::Submit(Command::FetchEvents(_, _)))).count()
}

#[test]
fn start_submits_subscription() {
    assert_eq!(exchange().start(), fetch());
}

#[test]
fn challenge_then_accepted_resubmits_once() {
    let mut a = exchange();
    let acts = a.on_message(RelayMessage::Auth("xyz".to_string()));
    assert_eq!(acts, vec![AuthAction::SignCredential(RELAY.to_string(), "xyz".to_string())]);
    let acts = a.on_credential(credential("c1"));
    assert_eq!(acts, vec![AuthAction::Submit(Command::Auth(credential("c1")))]);
    let acts = a.on_message(RelayMessage::Ack(Id::new("c1"), true, String::new()));
    assert_eq!(acts, vec![AuthAction::Submit(fetch())]);
    let again = a.on_message(RelayMessage::Ack(Id::new("c1"), true, String::new()));
    assert_eq!(count_fetches(&again), 0);
    assert_eq!(a.ending(), None);
}

#[test]
fn rejected_credential_reports_and_disconnects_once() {
    let mut a = exchange();
    a.on_message(RelayMessage::Auth("xyz".to_string()));
    a.on_credential(credential("c1"));
    let acts = a.on_message(RelayMessage::Ack(Id::new("c1"), false, "reason".to_string()));
    assert_eq!(
        acts,
        vec![AuthAction::Report("reason".to_string()), AuthAction::Submit(Command::Exit)]
    );
    assert_eq!(a.ending(), Some(Ending::Rejected));
    assert!(a.on_message(RelayMessage::Ack(Id::new("c1"), true, String::new())).is_empty());
    assert!(a.on_message(RelayMessage::Eose(sid())).is_empty());
}

#[test]
fn ack_of_other_event_is_ignored() {
    let mut a = exchange();
    a.on_message(RelayMessage::Auth("xyz".to_string()));
    a.on_credential(credential("c1"));
    assert!(a.on_message(RelayMessage::Ack(Id::new("other"), true, String::new())).is_empty());
    assert!(a.on_message(RelayMessage::Ack(Id::new("other"), false, String::new())).is_empty());
    assert_eq!(a.ending(), None);
}

#[test]
fn eose_of_our_subscription_completes() {
    let mut a = exchange();
    assert!(a.on_message(RelayMessage::Eose(SubscriptionId::new("other"))).is_empty());
    assert_eq!(a.on_message(RelayMessage::Eose(sid())), vec![AuthAction::Submit(Command::Exit)]);
    assert_eq!(a.ending(), Some(Ending::Completed));
}

#[test]
fn events_of_our_subscription_are_output() {
    let mut a = exchange();
    let e = Event::new("e1", "{}");
    assert_eq!(
        a.on_message(RelayMessage::Event(sid(), e.clone())),
        vec![AuthAction::Output(e.clone())]
    );
    assert!(a.on_message(RelayMessage::Event(SubscriptionId::new("x"), e)).is_empty());
}

#[test]
fn notice_aborts() {
    let mut a = exchange();
    assert_eq!(
        a.on_message(RelayMessage::Notice("slow down".to_string())),
        vec![AuthAction::Submit(Command::Exit)]
    );
    assert_eq!(a.ending(), Some(Ending::Aborted));
}

#[test]
fn closed_for_auth_without_challenge_is_a_violation() {
    let mut a = exchange();
    let acts = a.on_message(RelayMessage::Closed(sid(), "auth-required: log in".to_string()));
    assert_eq!(acts.len(), 2);
    assert!(matches!(acts[0], AuthAction::Report(_)));
    assert_eq!(acts[1], AuthAction::Submit(Command::Exit));
    assert_eq!(a.ending(), Some(Ending::RelayViolation));
}

#[test]
fn closed_for_auth_after_credential_waits_for_verdict() {
    let mut a = exchange();
    a.on_message(RelayMessage::Auth("xyz".to_string()));
    a.on_credential(credential("c1"));
    assert!(a
        .on_message(RelayMessage::Closed(sid(), "auth-required: log in".to_string()))
        .is_empty());
    assert_eq!(
        a.on_message(RelayMessage::Ack(Id::new("c1"), true, String::new())),
        vec![AuthAction::Submit(fetch())]
    );
}

#[test]
fn closed_for_other_reason_completes() {
    let mut a = exchange();
    assert_eq!(
        a.on_message(RelayMessage::Closed(sid(), "error: shutting down".to_string())),
        vec![AuthAction::Submit(Command::Exit)]
    );
    assert_eq!(a.ending(), Some(Ending::Completed));
}

#[test]
fn too_many_challenges_end_the_exchange() {
    let mut a = exchange();
    for i in 0..MAX_CHALLENGES {
        let acts = a.on_message(RelayMessage::Auth(format!("c{}", i)));
        assert!(matches!(acts[0], AuthAction::SignCredential(_, _)));
    }
    let acts = a.on_message(RelayMessage::Auth("one more".to_string()));
    assert_eq!(acts.len(), 2);
    assert_eq!(acts[1], AuthAction::Submit(Command::Exit));
    assert_eq!(a.ending(), Some(Ending::ChallengeLimit));
}

#[test]
fn signing_failure_disconnects() {
    let mut a = exchange();
    a.on_message(RelayMessage::Auth("xyz".to_string()));
    assert_eq!(a.on_signing_failed(), vec![AuthAction::Submit(Command::Exit)]);
    assert_eq!(a.ending(), Some(Ending::SigningFailed));
    assert!(a.on_credential(credential("c1")).is_empty());
}

#[test]
fn credential_without_challenge_is_ignored() {
    let mut a = exchange();
    assert!(a.on_credential(credential("c1")).is_empty());
}

#[test]
fn auth_required_prefix() {
    assert!(auth_required("auth-required: we only serve members"));
    assert!(auth_required("auth-required:"));
    assert!(!auth_required("auth-required"));
    assert!(!auth_required("blocked: auth-required:"));
    assert!(has_prefix("abc", ""));
    assert!(!has_prefix("ab", "abc"));
}
