use chat_system::codec::ProtocolError;
use chat_system::hub::{Hub, RecvOutcome, ServerCommand};
use chat_system::messages::{Address, ClientToServerMessage, ServerToClientMessage};
use chat_system::session::{
    client_session_step, drain_complete, server_session_step, ClientCommand, ClientSessionAction,
    ClientSessionEvent, Notice, ServerSessionAction, ServerSessionEvent, SessionState,
};

fn c1_addr() -> Address {
    Address { a: 127, b: 0, c: 0, d: 1, port: 50001 }
}

fn c2_addr() -> Address {
    Address { a: 127, b: 0, c: 0, d: 1, port: 50002 }
}

#[test]
fn server_step_leave_drains() {
    let (next, act) = server_session_step(
        SessionState::Active,
        ServerSessionEvent::Frame(ClientToServerMessage::Leave),
    );
    assert_eq!(next, SessionState::Draining);
    assert_eq!(act, ServerSessionAction::Farewell);
    assert_eq!(drain_complete(next), SessionState::Closed);
}

#[test]
fn server_step_forwards_other_inbound_messages() {
    let (next, act) = server_session_step(
        SessionState::Active,
        ServerSessionEvent::Frame(ClientToServerMessage::Send("hi".to_string())),
    );
    assert_eq!(next, SessionState::Active);
    assert_eq!(
        act,
        ServerSessionAction::ForwardToHub(ClientToServerMessage::Send("hi".to_string()))
    );
    let (next, act) = server_session_step(
        SessionState::Active,
        ServerSessionEvent::Frame(ClientToServerMessage::Ping),
    );
    assert_eq!(next, SessionState::Active);
    assert_eq!(act, ServerSessionAction::ForwardToHub(ClientToServerMessage::Ping));
}

#[test]
fn server_step_fault_closes_this_session_only() {
    for e in [ProtocolError::Transport, ProtocolError::Framing] {
        let (next, act) =
            server_session_step(SessionState::Active, ServerSessionEvent::Fault(e));
        assert_eq!(next, SessionState::Closed);
        assert_eq!(act, ServerSessionAction::FailSession(e));
    }
}

#[test]
fn server_step_hub_outcomes() {
    let (next, act) = server_session_step(
        SessionState::Active,
        ServerSessionEvent::Hub(RecvOutcome::Event(ServerToClientMessage::Ping)),
    );
    assert_eq!(next, SessionState::Active);
    assert_eq!(act, ServerSessionAction::SendToPeer(ServerToClientMessage::Ping));

    let (next, act) = server_session_step(
        SessionState::Active,
        ServerSessionEvent::Hub(RecvOutcome::Lagged(7)),
    );
    assert_eq!(next, SessionState::Active);
    assert_eq!(act, ServerSessionAction::NoteLag(7));

    let (next, act) = server_session_step(
        SessionState::Active,
        ServerSessionEvent::Hub(RecvOutcome::Empty),
    );
    assert_eq!(next, SessionState::Active);
    assert_eq!(act, ServerSessionAction::Idle);

    let (next, act) = server_session_step(
        SessionState::Active,
        ServerSessionEvent::Hub(RecvOutcome::Closed),
    );
    assert_eq!(next, SessionState::Draining);
    assert_eq!(act, ServerSessionAction::Farewell);
}

#[test]
fn client_step_answers_server_ping() {
    let (next, act) = client_session_step(
        SessionState::Active,
        ClientSessionEvent::Frame(ServerToClientMessage::Ping),
    );
    assert_eq!(next, SessionState::Active);
    assert_eq!(act, ClientSessionAction::AnswerPing);
}

#[test]
fn client_step_surfaces_presence_and_chat() {
    let (_, act) = client_session_step(
        SessionState::Active,
        ClientSessionEvent::Frame(ServerToClientMessage::Joined(c2_addr())),
    );
    assert_eq!(act, ClientSessionAction::Show(Notice::Joined(c2_addr())));
    let (_, act) = client_session_step(
        SessionState::Active,
        ClientSessionEvent::Frame(ServerToClientMessage::Left(c2_addr())),
    );
    assert_eq!(act, ClientSessionAction::Show(Notice::Left(c2_addr())));
    let (_, act) = client_session_step(
        SessionState::Active,
        ClientSessionEvent::Frame(ServerToClientMessage::Sent("yo".to_string(), c1_addr())),
    );
    assert_eq!(act, ClientSessionAction::Show(Notice::Chat("yo".to_string(), c1_addr())));
}

#[test]
fn client_step_commands() {
    let (next, act) = client_session_step(
        SessionState::Active,
        ClientSessionEvent::Command(ClientCommand::Quit),
    );
    assert_eq!(next, SessionState::Draining);
    assert_eq!(act, ClientSessionAction::SendLeave);
    assert_eq!(drain_complete(next), SessionState::Closed);

    let (next, act) = client_session_step(
        SessionState::Active,
        ClientSessionEvent::Command(ClientCommand::Ping),
    );
    assert_eq!(next, SessionState::Active);
    assert_eq!(act, ClientSessionAction::SendToServer(ClientToServerMessage::Ping));

    let (_, act) = client_session_step(
        SessionState::Active,
        ClientSessionEvent::Command(ClientCommand::Send("hey".to_string())),
    );
    assert_eq!(
        act,
        ClientSessionAction::SendToServer(ClientToServerMessage::Send("hey".to_string()))
    );
}

#[test]
fn client_step_fault_is_terminal() {
    let (next, act) = client_session_step(
        SessionState::Active,
        ClientSessionEvent::Fault(ProtocolError::Transport),
    );
    assert_eq!(next, SessionState::Closed);
    assert_eq!(act, ClientSessionAction::FailSession(ProtocolError::Transport));
}

#[test]
fn scenario_two_clients_chat_and_quit() {
    // Server on 127.0.0.1:1234; C1 connects, then C2; C1 chats; C1 quits.
    let mut hub = Hub::new(16);

    // C1 connects: nobody else is subscribed, and C1 sees nothing yet.
    let c1 = hub.accept_session(c1_addr());
    assert_eq!(hub.recv(c1), RecvOutcome::Empty);

    // C2 connects: C1 is told, C2 sees nothing yet.
    let c2 = hub.accept_session(c2_addr());
    assert_eq!(hub.recv(c1), RecvOutcome::Event(ServerToClientMessage::Joined(c2_addr())));
    assert_eq!(hub.recv(c2), RecvOutcome::Empty);

    // C1 sends "hi": its session forwards to the hub, which republishes.
    let (st, act) = server_session_step(
        SessionState::Active,
        ServerSessionEvent::Frame(ClientToServerMessage::Send("hi".to_string())),
    );
    assert_eq!(st, SessionState::Active);
    let forwarded = match act {
        ServerSessionAction::ForwardToHub(m) => m,
        other => panic!("expected a forward, got {:?}", other),
    };
    hub.handle_inbound(&forwarded, c1_addr());
    assert_eq!(
        hub.recv(c2),
        RecvOutcome::Event(ServerToClientMessage::Sent("hi".to_string(), c1_addr()))
    );

    // C1 quits: its client sends Leave; the server session drains and the hub
    // announces the departure to the survivors, exactly once.
    let (st, act) = client_session_step(
        SessionState::Active,
        ClientSessionEvent::Command(ClientCommand::Quit),
    );
    assert_eq!((st, act), (SessionState::Draining, ClientSessionAction::SendLeave));
    let (st, act) = server_session_step(
        SessionState::Active,
        ServerSessionEvent::Frame(ClientToServerMessage::Leave),
    );
    assert_eq!((st, act), (SessionState::Draining, ServerSessionAction::Farewell));
    hub.session_ended(c1, c1_addr());
    // c2 still has its own copy of the chat fan-out pending for c1's slot;
    // drain c2 to the departure notice.
    assert_eq!(hub.recv(c2), RecvOutcome::Event(ServerToClientMessage::Left(c1_addr())));
    assert_eq!(hub.recv(c2), RecvOutcome::Empty);
}

#[test]
fn scenario_operator_ping_echoes_from_every_client() {
    let mut hub = Hub::new(16);
    let c1 = hub.accept_session(c1_addr());
    let c2 = hub.accept_session(c2_addr());
    let _ = hub.recv(c1); // Joined(c2)

    // Operator issues `ping`: every connected session receives it and sends
    // it to its peer.
    assert!(!hub.operator_command(ServerCommand::Ping));
    for id in [c1, c2] {
        let got = hub.recv(id);
        assert_eq!(got, RecvOutcome::Event(ServerToClientMessage::Ping));
        let ev = match got {
            RecvOutcome::Event(m) => m,
            other => panic!("expected an event, got {:?}", other),
        };
        let (st, act) = server_session_step(SessionState::Active, ServerSessionEvent::Hub(RecvOutcome::Event(ev)));
        assert_eq!(st, SessionState::Active);
        assert_eq!(act, ServerSessionAction::SendToPeer(ServerToClientMessage::Ping));
    }

    // Each client answers with a Ping of its own and tells its operator.
    let (st, act) = client_session_step(
        SessionState::Active,
        ClientSessionEvent::Frame(ServerToClientMessage::Ping),
    );
    assert_eq!((st, act), (SessionState::Active, ClientSessionAction::AnswerPing));

    // The answering ping arrives at the server and is only logged.
    hub.handle_inbound(&ClientToServerMessage::Ping, c1_addr());
    assert_eq!(hub.recv(c2), RecvOutcome::Empty);
}
