use trackerconqueror::client::{ClientAction, ClientEvent, ClientSession, Signal, REPORT_DELAY_SECS};
use trackerconqueror::common::{ClientMessage, ServerMessage};
use trackerconqueror::report::{string_to_ser, SelfExecRequest, SelfExecResult, SelfExecStatus};

fn finish_line(actions: Vec<ClientAction>) -> String {
    match actions.as_slice() {
        [ClientAction::Finish(line)] => line.clone(),
        other => panic!("expected a report, got {:?}", other),
    }
}

#[test]
fn get_unit_session() {
    let mut s = ClientSession::new("alice".to_string(), Signal::GetUnit);
    assert_eq!(
        s.on_event(ClientEvent::Connected),
        vec![ClientAction::Schedule(Signal::GetUnit), ClientAction::ScheduleAfter(Signal::Disconnect, REPORT_DELAY_SECS)]
    );
    assert_eq!(
        s.on_event(ClientEvent::Signal(Signal::GetUnit)),
        vec![ClientAction::Send(ClientMessage::RequestOpenWorkUnit)]
    );
    assert_eq!(
        s.on_event(ClientEvent::Message(ServerMessage::Unit(12))),
        vec![ClientAction::Schedule(Signal::TakeUnit(12, "alice".to_string()))]
    );
    assert_eq!(
        s.on_event(ClientEvent::Signal(Signal::TakeUnit(12, "alice".to_string()))),
        vec![ClientAction::Send(ClientMessage::Take(12, "alice".to_string()))]
    );
    assert_eq!(s.on_event(ClientEvent::Message(ServerMessage::Accepted)), vec![]);
    let line = finish_line(s.on_event(ClientEvent::Signal(Signal::Disconnect)));
    assert_eq!(line, "getunit,accepted,12");
    assert_eq!(
        string_to_ser(line),
        SelfExecResult { request: SelfExecRequest::GetUnit, status: SelfExecStatus::Accepted, unit: 12 }
    );
}

#[test]
fn denied_get_unit_session() {
    let mut s = ClientSession::new("bob".to_string(), Signal::GetUnit);
    s.on_event(ClientEvent::Message(ServerMessage::Denied));
    assert_eq!(finish_line(s.on_event(ClientEvent::Signal(Signal::Disconnect))), "getunit,denied,0");
}

#[test]
fn complete_session() {
    let op = Signal::CompleteUnit(4, "carol".to_string());
    let mut s = ClientSession::new("carol".to_string(), op.clone());
    assert_eq!(s.on_event(ClientEvent::Connected)[0], ClientAction::Schedule(op.clone()));
    assert_eq!(
        s.on_event(ClientEvent::Signal(op)),
        vec![ClientAction::Send(ClientMessage::Complete(4, "carol".to_string()))]
    );
    s.on_event(ClientEvent::Message(ServerMessage::Accepted));
    assert_eq!(finish_line(s.on_event(ClientEvent::Signal(Signal::Disconnect))), "complete,accepted,0");
}

#[test]
fn unknown_client_fails_and_disconnect_stops() {
    let mut s = ClientSession::new("dave".to_string(), Signal::GetUnit);
    assert_eq!(s.on_event(ClientEvent::Message(ServerMessage::Unknown)), vec![ClientAction::Fail]);
    assert_eq!(s.on_event(ClientEvent::Disconnected), vec![ClientAction::Stop]);
}

#[test]
fn session_for_other_signal_reports_invalid() {
    let mut s = ClientSession::new("eve".to_string(), Signal::Disconnect);
    assert_eq!(s.report(), "invalid,denied,0");
    assert_eq!(finish_line(s.on_event(ClientEvent::Signal(Signal::Disconnect))), "invalid,denied,0");
}
