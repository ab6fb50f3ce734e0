//! A client session: one request to the server, made over a connection that
//! the caller drives. Each event the connection produces goes through
//! `ClientSession::on_event`, which updates what the session has learned and
//! says what to send, schedule or print.

use vstd::prelude::*;
use crate::common::{ClientMessage, ServerMessage};
use crate::report::{
    SelfExecResult, parse_report_spec, report_line_round_trip, request_named,
    SelfExecRequest, SelfExecStatus, invalid_request_word, report_line, report_line_spec,
    request_word,
};

verus! {

/// Seconds between connecting and reporting.
pub const REPORT_DELAY_SECS: u64 = 10;

/// Work a client session schedules for itself.
#[derive(Debug, Clone, PartialEq, Eq)]
pub enum Signal {
    /// Ask the server for a free unit.
    GetUnit,
    /// Take unit `id` for worker `name`: `TakeUnit(id, name)`.
    TakeUnit(u32, String),
    /// Declare unit `id` complete for worker `name`: `CompleteUnit(id, name)`.
    CompleteUnit(u32, String),
    /// Report and quit.
    Disconnect,
}

fn copy_signal(signal: &Signal) -> (copy: Signal)
    ensures
        copy == *signal,
{
    match signal {
        Signal::GetUnit => Signal::GetUnit,
        Signal::TakeUnit(id, name) => Signal::TakeUnit(*id, name.clone()),
        Signal::CompleteUnit(id, name) => Signal::CompleteUnit(*id, name.clone()),
        Signal::Disconnect => Signal::Disconnect,
    }
}

/// What the connection reports to the session.
#[derive(Debug, Clone, PartialEq, Eq)]
pub enum ClientEvent {
    /// The connection to the server is up.
    Connected,
    /// The server sent this message.
    Message(ServerMessage),
    /// A scheduled signal is due.
    Signal(Signal),
    /// The server went away.
    Disconnected,
}

/// What the session asks of the connection.
#[derive(Debug, Clone, PartialEq, Eq)]
pub enum ClientAction {
    /// Send this message to the server.
    Send(ClientMessage),
    /// Schedule this signal now.
    Schedule(Signal),
    /// Schedule this signal after this many seconds.
    ScheduleAfter(Signal, u64),
    /// Stop the connection.
    Stop,
    /// Print this report line and quit.
    Finish(String),
    /// The server does not know this client; give up.
    Fail,
}

/// The request a signal stands for in the report (`None`: none that the
/// report knows).
pub open spec fn request_of_signal(signal: Signal) -> Option<SelfExecRequest> {
    match signal {
        Signal::GetUnit => Some(SelfExecRequest::GetUnit),
        Signal::CompleteUnit(_, _) => Some(SelfExecRequest::Complete),
        _ => None,
    }
}

/// The report word for an optional request.
pub open spec fn request_word_or_invalid(request: Option<SelfExecRequest>) -> Seq<char> {
    match request {
        Some(r) => request_word(r),
        None => invalid_request_word(),
    }
}

/// A session of `worker` that was started to perform `operation`.
pub struct ClientSession {
    pub worker: String,
    pub operation: Signal,
    /// The server's last answer (`Denied` until it accepts something).
    pub status: SelfExecStatus,
    /// The last unit the server offered (0: none).
    pub open_unit: u32,
}

/// The actions and the new `(status, open_unit)` for an event.
pub open spec fn session_step(
    worker: String,
    operation: Signal,
    status: SelfExecStatus,
    open_unit: u32,
    event: ClientEvent,
) -> (Seq<ClientAction>, SelfExecStatus, u32) {
    match event {
        ClientEvent::Connected => (
            seq![
                ClientAction::Schedule(operation),
                ClientAction::ScheduleAfter(Signal::Disconnect, REPORT_DELAY_SECS),
            ],
            status,
            open_unit,
        ),
        ClientEvent::Message(message) => match message {
            ServerMessage::Unit(id) => (seq![ClientAction::Schedule(Signal::TakeUnit(id, worker))], status, id),
            ServerMessage::Accepted => (Seq::empty(), SelfExecStatus::Accepted, open_unit),
            ServerMessage::Denied => (Seq::empty(), SelfExecStatus::Denied, open_unit),
            ServerMessage::Unknown => (seq![ClientAction::Fail], status, open_unit),
        },
        ClientEvent::Signal(signal) => match signal {
            Signal::GetUnit => (seq![ClientAction::Send(ClientMessage::RequestOpenWorkUnit)], status, open_unit),
            Signal::TakeUnit(id, name) => (seq![ClientAction::Send(ClientMessage::Take(id, name))], status, open_unit),
            Signal::CompleteUnit(id, name) => (
                seq![ClientAction::Send(ClientMessage::Complete(id, name))],
                status,
                open_unit,
            ),
            // The report line itself is given by `ClientSession::on_event`.
            Signal::Disconnect => (Seq::empty(), status, open_unit),
        },
        ClientEvent::Disconnected => (seq![ClientAction::Stop], status, open_unit),
    }
}

impl ClientSession {
    /// A session of `worker` for `operation`, before anything happened.
    pub fn new(worker: String, operation: Signal) -> (session: ClientSession)
        ensures
            session.worker == worker,
            session.operation == operation,
            session.status == SelfExecStatus::Denied,
            session.open_unit == 0,
    {
        ClientSession { worker, operation, status: SelfExecStatus::Denied, open_unit: 0 }
    }

    /// The report line the session prints when it quits.
    pub fn report(&self) -> (line: String)
        ensures
            line@ == report_line_spec(
                request_word_or_invalid(request_of_signal(self.operation)),
                self.status,
                self.open_unit,
            ),
    {
        let request = match &self.operation {
            Signal::GetUnit => Some(SelfExecRequest::GetUnit),
            Signal::CompleteUnit(_, _) => Some(SelfExecRequest::Complete),
            _ => None,
        };
        report_line(request, self.status, self.open_unit)
    }

    /// Takes `event` and says what to do. On a due `Disconnect` signal the
    /// session finishes with its report line; otherwise see `session_step`.
    pub fn on_event(&mut self, event: ClientEvent) -> (actions: Vec<ClientAction>)
        ensures
            final(self).worker == old(self).worker,
            final(self).operation == old(self).operation,
            event == ClientEvent::Signal(Signal::Disconnect) ==> {
                &&& final(self).status == old(self).status
                &&& final(self).open_unit == old(self).open_unit
                &&& actions@.len() == 1
                &&& actions@[0] matches ClientAction::Finish(line) && line@ == report_line_spec(
                    request_word_or_invalid(request_of_signal(old(self).operation)),
                    old(self).status,
                    old(self).open_unit,
                )
            },
            event != ClientEvent::Signal(Signal::Disconnect) ==> (actions@, final(self).status, final(self).open_unit)
                == session_step(
                old(self).worker,
                old(self).operation,
                old(self).status,
                old(self).open_unit,
                event,
            ),
    {
        let mut actions: Vec<ClientAction> = Vec::new();
        match event {
            ClientEvent::Connected => {
                actions.push(ClientAction::Schedule(copy_signal(&self.operation)));
                actions.push(ClientAction::ScheduleAfter(Signal::Disconnect, REPORT_DELAY_SECS));
            },
            ClientEvent::Message(message) => match message {
                ServerMessage::Unit(id) => {
                    actions.push(ClientAction::Schedule(Signal::TakeUnit(id, self.worker.clone())));
                    self.open_unit = id;
                },
                ServerMessage::Accepted => {
                    self.status = SelfExecStatus::Accepted;
                },
                ServerMessage::Denied => {
                    self.status = SelfExecStatus::Denied;
                },
                ServerMessage::Unknown => {
                    actions.push(ClientAction::Fail);
                },
            },
            ClientEvent::Signal(signal) => match signal {
                Signal::GetUnit => {
                    actions.push(ClientAction::Send(ClientMessage::RequestOpenWorkUnit));
                },
                Signal::TakeUnit(id, name) => {
                    actions.push(ClientAction::Send(ClientMessage::Take(id, name)));
                },
                Signal::CompleteUnit(id, name) => {
                    actions.push(ClientAction::Send(ClientMessage::Complete(id, name)));
                },
                Signal::Disconnect => {
                    actions.push(ClientAction::Finish(self.report()));
                },
            },
            ClientEvent::Disconnected => {
                actions.push(ClientAction::Stop);
            },
        }
        actions
    }
}


/// The report a session prints reads back as its request, the server's last
/// answer and the last unit offered; a session run for a signal that names
/// no request prints a report that does not read back.
pub proof fn session_report_reads_back(operation: Signal, status: SelfExecStatus, open_unit: u32)
    ensures
        parse_report_spec(
            report_line_spec(request_word_or_invalid(request_of_signal(operation)), status, open_unit),
        ) == match request_of_signal(operation) {
            Some(request) => Some(SelfExecResult { request, status, unit: open_unit }),
            None => None,
        },
{
    match request_of_signal(operation) {
        Some(request) => {
            report_line_round_trip(SelfExecResult { request, status, unit: open_unit });
        },
        None => {
            let line = report_line_spec(invalid_request_word(), status, open_unit);
            let word = invalid_request_word();
            assert(line =~= word.push(',') + (crate::report::status_word(status).push(',')
                + crate::text::decimal(open_unit as nat)));
            crate::text::lemma_split_concat(word, crate::report::status_word(status).push(',')
                + crate::text::decimal(open_unit as nat), ',');
            crate::text::lemma_split_nonempty(word, ',');
            assert(!word.contains(',')) by {
                if word.contains(',') {
                    let i = choose|i: int| 0 <= i < word.len() && word[i] == ',';
                    assert(false);
                }
            }
            crate::text::lemma_split_without_sep(word, ',');
            assert(crate::text::split_on(line, ',')[0] == word);
            assert(word.len() != request_word(SelfExecRequest::Complete).len());
            assert(word != request_word(SelfExecRequest::GetUnit)) by {
                assert(word[0] != request_word(SelfExecRequest::GetUnit)[0]);
            }
            assert(request_named(word) is None);
        },
    }
}

/// The status a session reports is the server's last answer: `Accepted`
/// after an acceptance, `Denied` after a refusal, whatever came before; no
/// other event changes it, and only an offer changes the unit.
pub proof fn status_is_last_answer(
    worker: String,
    operation: Signal,
    status: SelfExecStatus,
    open_unit: u32,
    event: ClientEvent,
)
    ensures
        ({
            let (_, st, unit) = session_step(worker, operation, status, open_unit, event);
            &&& event == ClientEvent::Message(ServerMessage::Accepted) ==> st == SelfExecStatus::Accepted
            &&& event == ClientEvent::Message(ServerMessage::Denied) ==> st == SelfExecStatus::Denied
            &&& event != ClientEvent::Message(ServerMessage::Accepted) && event != ClientEvent::Message(
                ServerMessage::Denied,
            ) ==> st == status
            &&& (event matches ClientEvent::Message(ServerMessage::Unit(id)) ==> unit == id)
            &&& !(event is Message && event->Message_0 is Unit) ==> unit == open_unit
        }),
{
}

/// What a session does on each event (a due `Disconnect` aside, which
/// finishes with the report): it schedules its operation and, ten seconds
/// later, its report when the connection comes up; it schedules taking an
/// offered unit for its worker; it gives up when the server does not know it;
/// it sends each due signal as the matching message; it stops when the
/// server goes away.
pub proof fn session_actions(
    worker: String,
    operation: Signal,
    status: SelfExecStatus,
    open_unit: u32,
    event: ClientEvent,
)
    ensures
        ({
            let actions = session_step(worker, operation, status, open_unit, event).0;
            match event {
                ClientEvent::Connected => actions == seq![
                    ClientAction::Schedule(operation),
                    ClientAction::ScheduleAfter(Signal::Disconnect, 10),
                ],
                ClientEvent::Message(ServerMessage::Unit(id)) => actions == seq![
                    ClientAction::Schedule(Signal::TakeUnit(id, worker)),
                ],
                ClientEvent::Message(ServerMessage::Unknown) => actions == seq![ClientAction::Fail],
                ClientEvent::Message(_) => actions.len() == 0,
                ClientEvent::Signal(Signal::GetUnit) => actions == seq![
                    ClientAction::Send(ClientMessage::RequestOpenWorkUnit),
                ],
                ClientEvent::Signal(Signal::TakeUnit(id, name)) => actions == seq![
                    ClientAction::Send(ClientMessage::Take(id, name)),
                ],
                ClientEvent::Signal(Signal::CompleteUnit(id, name)) => actions == seq![
                    ClientAction::Send(ClientMessage::Complete(id, name)),
                ],
                ClientEvent::Signal(Signal::Disconnect) => true,
                ClientEvent::Disconnected => actions == seq![ClientAction::Stop],
            }
        }),
{
}

/// An offered unit is claimed for the session's own worker: the offer
/// schedules a take of that unit under the worker's name, and the take sends
/// exactly that request to the server.
pub proof fn offer_is_claimed_for_worker(
    worker: String,
    operation: Signal,
    status: SelfExecStatus,
    open_unit: u32,
    id: u32,
)
    ensures
        ({
            let (actions, st, unit) = session_step(
                worker,
                operation,
                status,
                open_unit,
                ClientEvent::Message(ServerMessage::Unit(id)),
            );
            &&& actions == seq![ClientAction::Schedule(Signal::TakeUnit(id, worker))]
            &&& st == status
            &&& unit == id
            &&& session_step(worker, operation, st, unit, ClientEvent::Signal(Signal::TakeUnit(id, worker))).0
                == seq![ClientAction::Send(ClientMessage::Take(id, worker))]
        }),
{
}

} // verus!
