use trackerconqueror::client::{ClientAction, ClientEvent, ClientSession, Signal};
use trackerconqueror::common::{ServerMessage, WorkStatus};
use trackerconqueror::report::{string_to_ser, SelfExecRequest, SelfExecResult, SelfExecStatus};
use trackerconqueror::server::{initial_records, Reaction, Server};

/// Runs a session against the server until it reports, delivering sends
/// and scheduled signals in order, and delayed signals once all else is done.
fn exchange(server: &mut Server, endpoint: u64, session: &mut ClientSession) -> String {
    let mut pending = vec![ClientEvent::Connected];
    let mut later: Vec<ClientEvent> = Vec::new();
    while !pending.is_empty() || !later.is_empty() {
        let event = if pending.is_empty() { later.remove(0) } else { pending.remove(0) };
        for action in session.on_event(event) {
            match action {
                ClientAction::Send(message) => match server.handle_message(endpoint, message) {
                    Reaction::Reply { message, .. } => pending.push(ClientEvent::Message(message)),
                    Reaction::Sever => pending.push(ClientEvent::Disconnected),
                },
                ClientAction::Schedule(signal) => pending.push(ClientEvent::Signal(signal)),
                ClientAction::ScheduleAfter(signal, _) => later.push(ClientEvent::Signal(signal)),
                ClientAction::Finish(line) => return line,
                ClientAction::Stop | ClientAction::Fail => panic!("session ended without a report"),
            }
        }
    }
    panic!("session never reported")
}

#[test]
fn workers_share_out_units_and_complete_them() {
    let mut server = Server::new(initial_records());
    server.connect(1);
    server.connect(2);

    let mut alice = ClientSession::new("alice".to_string(), Signal::GetUnit);
    let line = exchange(&mut server, 1, &mut alice);
    assert_eq!(line, "getunit,accepted,1");

    let mut bob = ClientSession::new("bob".to_string(), Signal::GetUnit);
    assert_eq!(exchange(&mut server, 2, &mut bob), "getunit,accepted,2");

    let mut mallory = ClientSession::new("bob".to_string(), Signal::CompleteUnit(1, "bob".to_string()));
    assert_eq!(exchange(&mut server, 2, &mut mallory), "complete,denied,0");

    let mut done = ClientSession::new("alice".to_string(), Signal::CompleteUnit(1, "alice".to_string()));
    let line = exchange(&mut server, 1, &mut done);
    assert_eq!(
        string_to_ser(line),
        SelfExecResult { request: SelfExecRequest::Complete, status: SelfExecStatus::Accepted, unit: 0 }
    );
    assert_eq!(server.records()[0].status, WorkStatus::Complete);
    assert_eq!(server.records()[1].status, WorkStatus::Working);
    assert_eq!(server.records()[1].current_worker, "bob");
}

#[test]
fn unknown_client_session_fails() {
    let mut server = Server::new(initial_records());
    let mut session = ClientSession::new("zoe".to_string(), Signal::GetUnit);
    session.on_event(ClientEvent::Connected);
    let actions = session.on_event(ClientEvent::Signal(Signal::GetUnit));
    let reply = match &actions[0] {
        ClientAction::Send(message) => server.handle_message(5, message.clone()),
        other => panic!("unexpected {:?}", other),
    };
    assert_eq!(reply, Reaction::Reply { message: ServerMessage::Unknown, persist: false });
    assert_eq!(session.on_event(ClientEvent::Message(ServerMessage::Unknown)), vec![ClientAction::Fail]);
}
