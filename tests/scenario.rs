use nostr_probe::auth::{AuthAction, AuthRetry};
use nostr_probe::connection::{Action, Connection, ConnectionState, Handshake, LoopEvent};
use nostr_probe::exit::ExitPredicate;
use nostr_probe::message::{Event, Filter, Id, RelayMessage, SubscriptionId};

/// Hands the exchange's commands to the connection and collects the frames
/// that reach the wire.
fn submit(conn: &mut Connection, acts: Vec<AuthAction>, wire: &mut Vec<String>) -> Vec<AuthAction> {
    let mut rest = Vec::new();
    for a in acts {
        match a {
            AuthAction::Submit(cmd) => {
                for out in conn.step(LoopEvent::Received(cmd)) {
                    if let Action::Transmit(f) = out {
                        wire.push(f);
                    }
                }
            }
            other => rest.push(other),
        }
    }
    rest
}

#[test]
fn challenge_accepted_resubmits_once_on_the_wire() {
    let relay = "wss://relay.example.com";
    let mut conn = Connection::new(ExitPredicate::new());
    conn.handshake(Handshake::Accepted).unwrap();
    let mut ex = AuthRetry::new(relay, SubscriptionId::new("subscription-id"), Filter::new("{}"));
    let mut wire = Vec::new();
    submit(&mut conn, vec![AuthAction::Submit(ex.start())], &mut wire);

    let asks = submit(&mut conn, ex.on_message(RelayMessage::Auth("xyz".to_string())), &mut wire);
    assert_eq!(asks, vec![AuthAction::SignCredential(relay.to_string(), "xyz".to_string())]);
    let cred = Event::new("c0ffee", "{\"id\":\"c0ffee\",\"kind\":22242}");
    submit(&mut conn, ex.on_credential(cred), &mut wire);
    let acts = ex.on_message(RelayMessage::Ack(Id::new("c0ffee"), true, String::new()));
    submit(&mut conn, acts, &mut wire);
    let acts = ex.on_message(RelayMessage::Ack(Id::new("c0ffee"), true, String::new()));
    submit(&mut conn, acts, &mut wire);

    let req = "[\"REQ\",\"subscription-id\",{}]".to_string();
    assert_eq!(
        wire,
        vec![
            req.clone(),
            "[\"AUTH\",{\"id\":\"c0ffee\",\"kind\":22242}]".to_string(),
            req,
        ]
    );

    submit(&mut conn, ex.on_message(RelayMessage::Eose(SubscriptionId::new("subscription-id"))), &mut wire);
    assert_eq!(conn.state(), ConnectionState::Closing);
    assert_eq!(wire.len(), 3);
}
