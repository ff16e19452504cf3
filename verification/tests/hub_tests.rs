use chat_system::hub::{Hub, RecvOutcome, ServerCommand};
use chat_system::messages::{Address, ClientToServerMessage, ServerToClientMessage};

fn a1() -> Address {
    Address { a: 127, b: 0, c: 0, d: 1, port: 40001 }
}

fn a2() -> Address {
    Address { a: 127, b: 0, c: 0, d: 1, port: 40002 }
}

#[test]
fn fanout_delivers_to_every_subscriber_exactly_once() {
    let mut hub = Hub::new(16);
    let s1 = hub.subscribe();
    let s2 = hub.subscribe();
    hub.publish(ServerToClientMessage::Ping);
    assert_eq!(hub.recv(s1), RecvOutcome::Event(ServerToClientMessage::Ping));
    assert_eq!(hub.recv(s2), RecvOutcome::Event(ServerToClientMessage::Ping));
    // Exactly once: a second poll finds nothing.
    assert_eq!(hub.recv(s1), RecvOutcome::Empty);
    assert_eq!(hub.recv(s2), RecvOutcome::Empty);
}

#[test]
fn publish_with_zero_subscribers_is_a_noop() {
    let mut hub = Hub::new(4);
    hub.publish(ServerToClientMessage::Ping);
    // A later subscriber does not see it either.
    let s = hub.subscribe();
    assert_eq!(hub.recv(s), RecvOutcome::Empty);
}

#[test]
fn join_visibility() {
    let mut hub = Hub::new(16);
    hub.publish(ServerToClientMessage::Joined(a1()));
    let s = hub.subscribe();
    // Nothing published before the subscription is ever delivered.
    assert_eq!(hub.recv(s), RecvOutcome::Empty);
    // Everything published after it is.
    hub.publish(ServerToClientMessage::Sent("hi".to_string(), a1()));
    assert_eq!(
        hub.recv(s),
        RecvOutcome::Event(ServerToClientMessage::Sent("hi".to_string(), a1()))
    );
}

#[test]
fn lag_reports_the_exact_drop_count_and_resumes() {
    let mut hub = Hub::new(2);
    let s = hub.subscribe();
    for i in 0..5u16 {
        hub.publish(ServerToClientMessage::Joined(Address {
            a: 10,
            b: 0,
            c: 0,
            d: 1,
            port: i,
        }));
    }
    // Backlog 5 over capacity 2: the three oldest are dropped for this
    // subscriber only, and delivery resumes at the oldest retained event.
    assert_eq!(hub.recv(s), RecvOutcome::Lagged(3));
    assert_eq!(
        hub.recv(s),
        RecvOutcome::Event(ServerToClientMessage::Joined(Address { a: 10, b: 0, c: 0, d: 1, port: 3 }))
    );
    assert_eq!(
        hub.recv(s),
        RecvOutcome::Event(ServerToClientMessage::Joined(Address { a: 10, b: 0, c: 0, d: 1, port: 4 }))
    );
    assert_eq!(hub.recv(s), RecvOutcome::Empty);
}

#[test]
fn backlog_exactly_at_capacity_is_not_lag() {
    let mut hub = Hub::new(2);
    let s = hub.subscribe();
    hub.publish(ServerToClientMessage::Joined(a1()));
    hub.publish(ServerToClientMessage::Joined(a2()));
    assert_eq!(hub.recv(s), RecvOutcome::Event(ServerToClientMessage::Joined(a1())));
    assert_eq!(hub.recv(s), RecvOutcome::Event(ServerToClientMessage::Joined(a2())));
    assert_eq!(hub.recv(s), RecvOutcome::Empty);
}

#[test]
fn fanout_preserves_publish_order() {
    let mut hub = Hub::new(8);
    let s = hub.subscribe();
    hub.publish(ServerToClientMessage::Joined(a1()));
    hub.publish(ServerToClientMessage::Sent("one".to_string(), a1()));
    hub.publish(ServerToClientMessage::Sent("two".to_string(), a1()));
    hub.publish(ServerToClientMessage::Left(a1()));
    assert_eq!(hub.recv(s), RecvOutcome::Event(ServerToClientMessage::Joined(a1())));
    assert_eq!(
        hub.recv(s),
        RecvOutcome::Event(ServerToClientMessage::Sent("one".to_string(), a1()))
    );
    assert_eq!(
        hub.recv(s),
        RecvOutcome::Event(ServerToClientMessage::Sent("two".to_string(), a1()))
    );
    assert_eq!(hub.recv(s), RecvOutcome::Event(ServerToClientMessage::Left(a1())));
    assert_eq!(hub.recv(s), RecvOutcome::Empty);
}

#[test]
fn lag_on_one_subscriber_leaves_others_untouched() {
    let mut hub = Hub::new(2);
    let slow = hub.subscribe();
    hub.publish(ServerToClientMessage::Ping);
    hub.publish(ServerToClientMessage::Ping);
    hub.publish(ServerToClientMessage::Ping);
    // A subscriber that joined late has no backlog at all.
    let fresh = hub.subscribe();
    assert_eq!(hub.recv(slow), RecvOutcome::Lagged(1));
    assert_eq!(hub.recv(fresh), RecvOutcome::Empty);
}

#[test]
fn accept_session_announces_join_but_not_to_itself() {
    let mut hub = Hub::new(16);
    let c1 = hub.accept_session(a1());
    // No one else was connected; the new session does not see its own join.
    assert_eq!(hub.recv(c1), RecvOutcome::Empty);
    let c2 = hub.accept_session(a2());
    assert_eq!(hub.recv(c1), RecvOutcome::Event(ServerToClientMessage::Joined(a2())));
    assert_eq!(hub.recv(c2), RecvOutcome::Empty);
}

#[test]
fn session_end_isolates_the_failed_session() {
    let mut hub = Hub::new(16);
    let c1 = hub.accept_session(a1());
    let c2 = hub.accept_session(a2());
    let _ = hub.recv(c1); // Joined(a2)
    // Session 2's transport fails: only session 2 is torn down; the others
    // are told it left, exactly once.
    hub.session_ended(c2, a2());
    assert_eq!(hub.recv(c1), RecvOutcome::Event(ServerToClientMessage::Left(a2())));
    assert_eq!(hub.recv(c1), RecvOutcome::Empty);
}

#[test]
fn inbound_chat_is_republished_with_the_sender_address() {
    let mut hub = Hub::new(16);
    let c1 = hub.accept_session(a1());
    let c2 = hub.accept_session(a2());
    let _ = hub.recv(c1);
    hub.handle_inbound(&ClientToServerMessage::Send("hi".to_string()), a1());
    assert_eq!(
        hub.recv(c2),
        RecvOutcome::Event(ServerToClientMessage::Sent("hi".to_string(), a1()))
    );
    // The sender's own session sees the fan-out too.
    assert_eq!(
        hub.recv(c1),
        RecvOutcome::Event(ServerToClientMessage::Sent("hi".to_string(), a1()))
    );
}

#[test]
fn inbound_ping_publishes_nothing() {
    let mut hub = Hub::new(16);
    let c1 = hub.accept_session(a1());
    hub.handle_inbound(&ClientToServerMessage::Ping, a1());
    assert_eq!(hub.recv(c1), RecvOutcome::Empty);
}

#[test]
fn inbound_leave_is_republished_as_left() {
    let mut hub = Hub::new(16);
    let c1 = hub.accept_session(a1());
    hub.handle_inbound(&ClientToServerMessage::Leave, a2());
    assert_eq!(hub.recv(c1), RecvOutcome::Event(ServerToClientMessage::Left(a2())));
}

#[test]
fn operator_ping_reaches_every_session() {
    let mut hub = Hub::new(16);
    let c1 = hub.accept_session(a1());
    let c2 = hub.accept_session(a2());
    let _ = hub.recv(c1);
    let stop = hub.operator_command(ServerCommand::Ping);
    assert!(!stop);
    assert_eq!(hub.recv(c1), RecvOutcome::Event(ServerToClientMessage::Ping));
    assert_eq!(hub.recv(c2), RecvOutcome::Event(ServerToClientMessage::Ping));
}

#[test]
fn operator_quit_closes_sessions_after_they_drain() {
    let mut hub = Hub::new(16);
    let c1 = hub.accept_session(a1());
    hub.publish(ServerToClientMessage::Ping);
    let stop = hub.operator_command(ServerCommand::Quit);
    assert!(stop);
    // The backlog is still delivered; only then does the session see Closed.
    assert_eq!(hub.recv(c1), RecvOutcome::Event(ServerToClientMessage::Ping));
    assert_eq!(hub.recv(c1), RecvOutcome::Closed);
}
