//! How a client session and the server fit together.

use vstd::prelude::*;
use crate::client::{
    ClientAction, ClientEvent, Signal, request_of_signal, request_word_or_invalid, session_report_reads_back,
    session_step,
};
use crate::common::{ClientMessage, ServerMessage, WorkStatus, WorkUnit};
use crate::report::{SelfExecRequest, SelfExecResult, SelfExecStatus, parse_report_spec, report_line_spec};
use crate::server::{
    Reaction, has_vacant, message_step, offered_unit_can_be_taken, open_unit_answer, slot, well_numbered,
    denied_only_when_all_taken,
};

verus! {

/// A worker that asks a server for a unit while some unit is vacant (in a
/// table numbered by position) is offered the first vacant unit, takes it,
/// and ends with a report that reads back as `getunit,accepted,<unit>`; the
/// server then holds the unit as `Working` for that worker and asks for the
/// table to be saved.
pub proof fn asking_for_a_unit_gets_one(
    units: Seq<WorkUnit>,
    connected: Set<u64>,
    endpoint: u64,
    worker: String,
)
    requires
        well_numbered(units),
        has_vacant(units),
        connected.contains(endpoint),
    ensures
        ({
            let start = SelfExecStatus::Denied;
            // the connection comes up: the session schedules its request
            let (a0, s0, u0) = session_step(worker, Signal::GetUnit, start, 0, ClientEvent::Connected);
            // the request is due: the session asks for a free unit
            let (a1, s1, u1) = session_step(worker, Signal::GetUnit, s0, u0, ClientEvent::Signal(Signal::GetUnit));
            // the server answers with an offer
            let (t1, c1, r1) = message_step(units, connected, endpoint, ClientMessage::RequestOpenWorkUnit);
            let offer = open_unit_answer(units);
            let id = offer->Unit_0;
            // the session schedules the take and sends it when due
            let (a2, s2, u2) = session_step(worker, Signal::GetUnit, s1, u1, ClientEvent::Message(offer));
            let (a3, s3, u3) = session_step(
                worker,
                Signal::GetUnit,
                s2,
                u2,
                ClientEvent::Signal(Signal::TakeUnit(id, worker)),
            );
            // the server accepts the take
            let (t2, c2, r2) = message_step(t1, c1, endpoint, ClientMessage::Take(id, worker));
            let (a4, s4, u4) = session_step(worker, Signal::GetUnit, s3, u3, ClientEvent::Message(ServerMessage::Accepted));
            &&& a0[0] == ClientAction::Schedule(Signal::GetUnit)
            &&& a1 == seq![ClientAction::Send(ClientMessage::RequestOpenWorkUnit)]
            &&& offer is Unit
            &&& r1 == Reaction::Reply { message: offer, persist: false }
            &&& a2 == seq![ClientAction::Schedule(Signal::TakeUnit(id, worker))]
            &&& a3 == seq![ClientAction::Send(ClientMessage::Take(id, worker))]
            &&& r2 == Reaction::Reply { message: ServerMessage::Accepted, persist: true }
            &&& t2[slot(id)].status == WorkStatus::Working
            &&& t2[slot(id)].current_worker == worker
            &&& parse_report_spec(
                report_line_spec(request_word_or_invalid(request_of_signal(Signal::GetUnit)), s4, u4),
            ) == Some(
                SelfExecResult { request: SelfExecRequest::GetUnit, status: SelfExecStatus::Accepted, unit: id },
            )
        }),
{
    denied_only_when_all_taken(units);
    let offer = open_unit_answer(units);
    assert(offer is Unit) by {
        match offer {
            ServerMessage::Unit(_) => {},
            _ => {
                assert(offer == ServerMessage::Denied);
            },
        }
    }
    let id = offer->Unit_0;
    offered_unit_can_be_taken(units, connected, endpoint, id, worker);
    session_report_reads_back(Signal::GetUnit, SelfExecStatus::Accepted, id);
}

} // verus!
