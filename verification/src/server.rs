//! The server's bookkeeping: the table of work units, the set of connected
//! clients, and what the server does with each event it receives. Sockets,
//! encoding and the progress file are the caller's business; this module
//! decides the answer and the new state.

use std::collections::HashMap;
use vstd::prelude::*;
use crate::common::{ClientMessage, ServerMessage, WorkStatus, WorkUnit};

verus! {

broadcast use vstd::std_specs::hash::group_hash_axioms;

/// How many units a fresh progress table holds.
pub const MAX_WORK_UNITS: u32 = 192;

/// What the server keeps about a connected client (nothing so far).
pub struct ClientInfo {}

/// What the server does in answer to a client message.
#[derive(Debug, Clone, Copy, PartialEq, Eq, Structural)]
pub enum Reaction {
    /// Drop the connection the message came on; nothing is sent.
    Sever,
    /// Send `message` back; when `persist` holds the unit table changed and
    /// must be written to the progress file.
    Reply { message: ServerMessage, persist: bool },
}

/// `i` is the position of the first vacant unit.
pub open spec fn is_first_vacant(units: Seq<WorkUnit>, i: int) -> bool {
    &&& 0 <= i < units.len()
    &&& units[i].status == WorkStatus::Vacant
    &&& forall|j: int| 0 <= j < i ==> units[j].status != WorkStatus::Vacant
}

/// Some unit is vacant.
pub open spec fn has_vacant(units: Seq<WorkUnit>) -> bool {
    exists|i: int| 0 <= i < units.len() && units[i].status == WorkStatus::Vacant
}

/// The answer to "which unit is free?": the id of the first vacant unit, or
/// `Denied` when there is none (an id of 0 also reads as "none").
pub open spec fn open_unit_answer(units: Seq<WorkUnit>) -> ServerMessage {
    if has_vacant(units) {
        let i = choose|i: int| is_first_vacant(units, i);
        if units[i].id != 0 {
            ServerMessage::Unit(units[i].id)
        } else {
            ServerMessage::Denied
        }
    } else {
        ServerMessage::Denied
    }
}

/// Unit `id` is looked up at position `id - 1` of the table.
pub open spec fn slot(id: u32) -> int {
    id - 1
}

/// `id` names a position of the table.
pub open spec fn in_table(units: Seq<WorkUnit>, id: u32) -> bool {
    1 <= id <= units.len()
}

/// A take of unit `id` succeeds exactly when the unit is vacant.
pub open spec fn take_allowed(units: Seq<WorkUnit>, id: u32) -> bool {
    units[slot(id)].status == WorkStatus::Vacant
}

/// The table after worker `name` took unit `id`.
pub open spec fn after_take(units: Seq<WorkUnit>, id: u32, name: String) -> Seq<WorkUnit> {
    units.update(
        slot(id),
        WorkUnit { id: units[slot(id)].id, status: WorkStatus::Working, current_worker: name },
    )
}

/// A completion of unit `id` by `name` succeeds exactly when the unit is being
/// worked on by a worker of that name.
pub open spec fn complete_allowed(units: Seq<WorkUnit>, id: u32, name: Seq<char>) -> bool {
    &&& units[slot(id)].status == WorkStatus::Working
    &&& units[slot(id)].current_worker@ == name
}

/// The table after unit `id` was completed.
pub open spec fn after_complete(units: Seq<WorkUnit>, id: u32) -> Seq<WorkUnit> {
    units.update(
        slot(id),
        WorkUnit {
            id: units[slot(id)].id,
            status: WorkStatus::Complete,
            current_worker: units[slot(id)].current_worker,
        },
    )
}

/// The server's step on a message from `endpoint`: the new table, the new set
/// of connected clients and the reaction.
pub open spec fn message_step(
    units: Seq<WorkUnit>,
    connected: Set<u64>,
    endpoint: u64,
    message: ClientMessage,
) -> (Seq<WorkUnit>, Set<u64>, Reaction) {
    match message {
        ClientMessage::InvalidConnection => (units, connected.remove(endpoint), Reaction::Sever),
        _ => if !connected.contains(endpoint) {
            (units, connected, Reaction::Reply { message: ServerMessage::Unknown, persist: false })
        } else {
            match message {
                ClientMessage::RequestOpenWorkUnit => (
                    units,
                    connected,
                    Reaction::Reply { message: open_unit_answer(units), persist: false },
                ),
                ClientMessage::Take(id, name) => if take_allowed(units, id) {
                    (
                        after_take(units, id, name),
                        connected,
                        Reaction::Reply { message: ServerMessage::Accepted, persist: true },
                    )
                } else {
                    (units, connected, Reaction::Reply { message: ServerMessage::Denied, persist: false })
                },
                ClientMessage::Complete(id, name) => if complete_allowed(units, id, name@) {
                    (
                        after_complete(units, id),
                        connected,
                        Reaction::Reply { message: ServerMessage::Accepted, persist: true },
                    )
                } else {
                    (units, connected, Reaction::Reply { message: ServerMessage::Denied, persist: false })
                },
                ClientMessage::InvalidConnection => (units, connected, Reaction::Sever),
            }
        },
    }
}

/// A message from `endpoint` can be handled without looking past the end of
/// the table: a take or completion from a connected client names a unit of
/// the table.
pub open spec fn message_in_table(
    units: Seq<WorkUnit>,
    connected: Set<u64>,
    endpoint: u64,
    message: ClientMessage,
) -> bool {
    connected.contains(endpoint) ==> match message {
        ClientMessage::Take(id, _) => in_table(units, id),
        ClientMessage::Complete(id, _) => in_table(units, id),
        _ => true,
    }
}

/// The worker name of a unit that nobody has taken.
pub open spec fn nobody() -> Seq<char> {
    seq!['n', 'o', 'b', 'o', 'd', 'y']
}

/// Unit ids follow table positions: the unit at position `i` has id `i + 1`.
pub open spec fn well_numbered(units: Seq<WorkUnit>) -> bool {
    forall|i: int| 0 <= i < units.len() ==> #[trigger] units[i].id == i + 1
}

/// The table a server starts from when it has no progress file: units
/// `1..=MAX_WORK_UNITS`, all vacant, worked on by nobody.
pub fn initial_records() -> (records: Vec<WorkUnit>)
    ensures
        records@.len() == MAX_WORK_UNITS,
        well_numbered(records@),
        forall|i: int|
            #![trigger records@[i]]
            0 <= i < records@.len() ==> records@[i].status == WorkStatus::Vacant
                && records@[i].current_worker@ == nobody(),
{
    let mut records: Vec<WorkUnit> = Vec::new();
    for id in 1..MAX_WORK_UNITS + 1
        invariant
            records@.len() == id - 1,
            forall|i: int|
                #![trigger records@[i]]
                0 <= i < records@.len() ==> records@[i].id == i + 1
                    && records@[i].status == WorkStatus::Vacant
                    && records@[i].current_worker@ == nobody(),
    {
        let name = "nobody".to_string();
        proof {
            reveal_strlit("nobody");
            assert(name@ =~= nobody());
        }
        let unit = WorkUnit { id, status: WorkStatus::Vacant, current_worker: name };
        records.push(unit);
        assert(records@[id - 1] == unit);
    }
    records
}

/// The server's state: the unit table and the connected clients, each known
/// by a number that the network layer gives its connection.
pub struct Server {
    records: Vec<WorkUnit>,
    clients: HashMap<u64, ClientInfo>,
}

impl Server {
    /// The unit table.
    pub closed spec fn units(&self) -> Seq<WorkUnit> {
        self.records@
    }

    /// The connected clients.
    pub closed spec fn connected(&self) -> Set<u64> {
        self.clients@.dom()
    }

    /// A server with the given unit table and no connected client.
    pub fn new(records: Vec<WorkUnit>) -> (server: Server)
        ensures
            server.units() == records@,
            server.connected() == Set::<u64>::empty(),
    {
        let clients: HashMap<u64, ClientInfo> = HashMap::new();
        Server { records, clients }
    }

    /// The unit table.
    pub fn records(&self) -> (records: &Vec<WorkUnit>)
        ensures
            records@ == self.units(),
    {
        &self.records
    }

    /// How many clients are connected.
    pub fn client_count(&self) -> (n: usize)
        ensures
            n == self.connected().len(),
    {
        self.clients.len()
    }

    /// Whether `endpoint` is a connected client.
    pub fn is_connected(&self, endpoint: u64) -> (b: bool)
        ensures
            b == self.connected().contains(endpoint),
    {
        self.clients.contains_key(&endpoint)
    }

    /// A client connected on `endpoint`.
    pub fn connect(&mut self, endpoint: u64)
        ensures
            final(self).units() == old(self).units(),
            final(self).connected() == old(self).connected().insert(endpoint),
    {
        self.clients.insert(endpoint, ClientInfo {});
    }

    /// The client on `endpoint`, which is connected, went away.
    pub fn disconnect(&mut self, endpoint: u64)
        requires
            old(self).connected().contains(endpoint),
        ensures
            final(self).units() == old(self).units(),
            final(self).connected() == old(self).connected().remove(endpoint),
    {
        self.clients.remove(&endpoint);
    }

    /// Whether `message` from `endpoint` names only units of the table
    /// (see `message_in_table`); the server cannot handle it otherwise.
    pub fn can_handle(&self, endpoint: u64, message: &ClientMessage) -> (b: bool)
        ensures
            b == message_in_table(self.units(), self.connected(), endpoint, *message),
    {
        if !self.clients.contains_key(&endpoint) {
            return true;
        }
        match message {
            ClientMessage::Take(id, _) => 1 <= *id && (*id as usize) <= self.records.len(),
            ClientMessage::Complete(id, _) => 1 <= *id && (*id as usize) <= self.records.len(),
            _ => true,
        }
    }

    fn first_vacant_answer(&self) -> (answer: ServerMessage)
        ensures
            answer == open_unit_answer(self.units()),
    {
        let n = self.records.len();
        for i in 0..n
            invariant
                n == self.records@.len(),
                forall|j: int| 0 <= j < i ==> self.records@[j].status != WorkStatus::Vacant,
        {
            if self.records[i].status == WorkStatus::Vacant {
                let id = self.records[i].id;
                proof {
                    let units = self.units();
                    assert(is_first_vacant(units, i as int));
                    let c = choose|c: int| is_first_vacant(units, c);
                    assert(c == i) by {
                        if c < i {
                            assert(units[c].status != WorkStatus::Vacant);
                        }
                        if c > i {
                            assert(units[i as int].status != WorkStatus::Vacant);
                        }
                    }
                }
                if id != 0 {
                    return ServerMessage::Unit(id);
                } else {
                    return ServerMessage::Denied;
                }
            }
        }
        ServerMessage::Denied
    }

    /// Handles `message` from `endpoint`: see `message_step`.
    pub fn handle_message(&mut self, endpoint: u64, message: ClientMessage) -> (reaction: Reaction)
        requires
            message_in_table(old(self).units(), old(self).connected(), endpoint, message),
        ensures
            (final(self).units(), final(self).connected(), reaction) == message_step(
                old(self).units(),
                old(self).connected(),
                endpoint,
                message,
            ),
    {
        match message {
            ClientMessage::InvalidConnection => {
                self.clients.remove(&endpoint);
                Reaction::Sever
            },
            ClientMessage::RequestOpenWorkUnit => {
                if !self.clients.contains_key(&endpoint) {
                    return Reaction::Reply { message: ServerMessage::Unknown, persist: false };
                }
                let answer = self.first_vacant_answer();
                Reaction::Reply { message: answer, persist: false }
            },
            ClientMessage::Take(id, name) => {
                if !self.clients.contains_key(&endpoint) {
                    return Reaction::Reply { message: ServerMessage::Unknown, persist: false };
                }
                let i = (id - 1) as usize;
                if self.records[i].status == WorkStatus::Vacant {
                    let unit_id = self.records[i].id;
                    self.records.set(
                        i,
                        WorkUnit { id: unit_id, status: WorkStatus::Working, current_worker: name },
                    );
                    Reaction::Reply { message: ServerMessage::Accepted, persist: true }
                } else {
                    Reaction::Reply { message: ServerMessage::Denied, persist: false }
                }
            },
            ClientMessage::Complete(id, name) => {
                if !self.clients.contains_key(&endpoint) {
                    return Reaction::Reply { message: ServerMessage::Unknown, persist: false };
                }
                let i = (id - 1) as usize;
                if self.records[i].status == WorkStatus::Working && self.records[i].current_worker
                    == name {
                    let unit_id = self.records[i].id;
                    let worker = self.records[i].current_worker.clone();
                    self.records.set(
                        i,
                        WorkUnit { id: unit_id, status: WorkStatus::Complete, current_worker: worker },
                    );
                    Reaction::Reply { message: ServerMessage::Accepted, persist: true }
                } else {
                    Reaction::Reply { message: ServerMessage::Denied, persist: false }
                }
            },
        }
    }
}


/// How far along a unit is.
pub open spec fn progress(status: WorkStatus) -> nat {
    match status {
        WorkStatus::Vacant => 0,
        WorkStatus::Working => 1,
        WorkStatus::Complete => 2,
    }
}

/// No message moves a unit backwards or renumbers it, and the table keeps its
/// size: units go `Vacant -> Working -> Complete` and never back.
pub proof fn units_only_move_forward(
    units: Seq<WorkUnit>,
    connected: Set<u64>,
    endpoint: u64,
    message: ClientMessage,
)
    requires
        message_in_table(units, connected, endpoint, message),
    ensures
        ({
            let after = message_step(units, connected, endpoint, message).0;
            &&& after.len() == units.len()
            &&& forall|i: int|
                #![trigger after[i]]
                0 <= i < units.len() ==> after[i].id == units[i].id && progress(units[i].status)
                    <= progress(after[i].status)
        }),
{
}

/// Numbering by position survives every message.
pub proof fn numbering_is_kept(
    units: Seq<WorkUnit>,
    connected: Set<u64>,
    endpoint: u64,
    message: ClientMessage,
)
    requires
        well_numbered(units),
        message_in_table(units, connected, endpoint, message),
    ensures
        well_numbered(message_step(units, connected, endpoint, message).0),
{
    units_only_move_forward(units, connected, endpoint, message);
    let after = message_step(units, connected, endpoint, message).0;
    assert forall|i: int| 0 <= i < after.len() implies #[trigger] after[i].id == i + 1 by {
        assert(after[i].id == units[i].id);
    }
}

/// A client that is not connected is answered `Unknown` and changes nothing
/// (only an unreadable message, which severs the connection, is different).
pub proof fn strangers_are_unknown(
    units: Seq<WorkUnit>,
    connected: Set<u64>,
    endpoint: u64,
    message: ClientMessage,
)
    requires
        !connected.contains(endpoint),
        !(message is InvalidConnection),
    ensures
        message_step(units, connected, endpoint, message) == (
            units,
            connected,
            Reaction::Reply { message: ServerMessage::Unknown, persist: false },
        ),
{
}

/// The server asks to save the table exactly when a message changed it.
pub proof fn persist_exactly_on_change(
    units: Seq<WorkUnit>,
    connected: Set<u64>,
    endpoint: u64,
    message: ClientMessage,
)
    requires
        message_in_table(units, connected, endpoint, message),
    ensures
        ({
            let (after, _, reaction) = message_step(units, connected, endpoint, message);
            match reaction {
                Reaction::Reply { persist, .. } => persist <==> after != units,
                Reaction::Sever => after == units,
            }
        }),
{
    let (after, _, reaction) = message_step(units, connected, endpoint, message);
    match message {
        ClientMessage::Take(id, name) => {
            if connected.contains(endpoint) && take_allowed(units, id) {
                assert(after[slot(id)].status != units[slot(id)].status);
            }
        },
        ClientMessage::Complete(id, name) => {
            if connected.contains(endpoint) && complete_allowed(units, id, name@) {
                assert(after[slot(id)].status != units[slot(id)].status);
            }
        },
        _ => {},
    }
}

/// The unit offered to a connected client is vacant, and it is the first
/// vacant one; when the server denies the request, no unit with a non-zero id
/// comes first among the vacant ones.
pub proof fn offered_unit_is_first_vacant(units: Seq<WorkUnit>, id: u32)
    requires
        open_unit_answer(units) == ServerMessage::Unit(id),
    ensures
        exists|i: int|
            #![trigger units[i]]
            {
                &&& 0 <= i < units.len()
                &&& units[i].status == WorkStatus::Vacant
                &&& units[i].id == id
                &&& id != 0
                &&& forall|j: int| 0 <= j < i ==> units[j].status != WorkStatus::Vacant
            },
{
    let k = choose|k: int| 0 <= k < units.len() && units[k].status == WorkStatus::Vacant;
    lemma_first_vacant_exists(units, k);
    let i = choose|i: int| is_first_vacant(units, i);
    assert(is_first_vacant(units, i) && units[i].id == id);
    assert(units[i].id == id);
}

/// A connected client asking for a free unit is sent the id of the first
/// vacant unit when that id is not 0, and `Denied` otherwise (no vacant
/// unit, or the first one has id 0); nothing is saved.
pub proof fn request_answer_is_first_vacant(units: Seq<WorkUnit>, connected: Set<u64>, endpoint: u64)
    requires
        connected.contains(endpoint),
    ensures
        ({
            let reaction = message_step(units, connected, endpoint, ClientMessage::RequestOpenWorkUnit).2;
            &&& forall|i: int|
                #![trigger units[i]]
                0 <= i < units.len() && units[i].status == WorkStatus::Vacant && (forall|j: int|
                    0 <= j < i ==> units[j].status != WorkStatus::Vacant) ==> reaction == (if units[i].id
                    != 0 {
                    Reaction::Reply { message: ServerMessage::Unit(units[i].id), persist: false }
                } else {
                    Reaction::Reply { message: ServerMessage::Denied, persist: false }
                })
            &&& (forall|i: int| 0 <= i < units.len() ==> #[trigger] units[i].status != WorkStatus::Vacant)
                ==> reaction == (Reaction::Reply { message: ServerMessage::Denied, persist: false })
        }),
{
    assert forall|i: int|
        #![trigger units[i]]
        0 <= i < units.len() && units[i].status == WorkStatus::Vacant && (forall|j: int|
            0 <= j < i ==> units[j].status != WorkStatus::Vacant) implies message_step(
        units,
        connected,
        endpoint,
        ClientMessage::RequestOpenWorkUnit,
    ).2 == (if units[i].id != 0 {
        Reaction::Reply { message: ServerMessage::Unit(units[i].id), persist: false }
    } else {
        Reaction::Reply { message: ServerMessage::Denied, persist: false }
    }) by {
        assert(is_first_vacant(units, i));
        let c = choose|c: int| is_first_vacant(units, c);
        assert(c == i) by {
            if c < i {
                assert(units[c].status != WorkStatus::Vacant);
            }
            if c > i {
                assert(units[i].status != WorkStatus::Vacant);
            }
        }
    }
    if forall|i: int| 0 <= i < units.len() ==> #[trigger] units[i].status != WorkStatus::Vacant {
        assert(!has_vacant(units));
    }
}

/// An unreadable message severs its connection and forgets the client,
/// whether it was connected or not; the table is untouched.
pub proof fn unreadable_message_severs(units: Seq<WorkUnit>, connected: Set<u64>, endpoint: u64)
    ensures
        ({
            let (after, still, reaction) = message_step(units, connected, endpoint, ClientMessage::InvalidConnection);
            &&& reaction == Reaction::Sever
            &&& after == units
            &&& !still.contains(endpoint)
            &&& forall|e: u64| e != endpoint ==> (still.contains(e) <==> connected.contains(e))
        }),
{
}

/// In a table numbered by position, the server denies a request for a free
/// unit exactly when no unit is vacant.
pub proof fn denied_only_when_all_taken(units: Seq<WorkUnit>)
    requires
        well_numbered(units),
    ensures
        (open_unit_answer(units) == ServerMessage::Denied) <==> !has_vacant(units),
{
    if has_vacant(units) {
        let k = choose|k: int| 0 <= k < units.len() && units[k].status == WorkStatus::Vacant;
        lemma_first_vacant_exists(units, k);
        let i = choose|i: int| is_first_vacant(units, i);
        assert(units[i].id == i + 1);
    }
}

proof fn lemma_first_vacant_exists(units: Seq<WorkUnit>, k: int)
    requires
        0 <= k < units.len(),
        units[k].status == WorkStatus::Vacant,
    ensures
        exists|i: int| is_first_vacant(units, i),
    decreases k,
{
    if forall|j: int| 0 <= j < k ==> units[j].status != WorkStatus::Vacant {
        assert(is_first_vacant(units, k));
    } else {
        let j = choose|j: int| 0 <= j < k && units[j].status == WorkStatus::Vacant;
        lemma_first_vacant_exists(units, j);
    }
}

/// In a table numbered by position, a connected client that was offered a
/// unit and takes it straight away is accepted, and the unit becomes its own.
pub proof fn offered_unit_can_be_taken(
    units: Seq<WorkUnit>,
    connected: Set<u64>,
    endpoint: u64,
    id: u32,
    name: String,
)
    requires
        well_numbered(units),
        connected.contains(endpoint),
        open_unit_answer(units) == ServerMessage::Unit(id),
    ensures
        message_in_table(units, connected, endpoint, ClientMessage::Take(id, name)),
        ({
            let (after, still, reaction) = message_step(units, connected, endpoint, ClientMessage::Take(id, name));
            &&& reaction == Reaction::Reply { message: ServerMessage::Accepted, persist: true }
            &&& still == connected
            &&& after[slot(id)].status == WorkStatus::Working
            &&& after[slot(id)].current_worker == name
        }),
{
    offered_unit_is_first_vacant(units, id);
    let i = choose|i: int| is_first_vacant(units, i) && #[trigger] units[i].id == id;
    assert(units[i].id == i + 1);
}

/// Once a worker holds a unit, nobody can take it again.
pub proof fn taken_unit_cannot_be_taken_again(
    units: Seq<WorkUnit>,
    connected: Set<u64>,
    first: u64,
    second: u64,
    id: u32,
    name: String,
    other: String,
)
    requires
        connected.contains(first),
        connected.contains(second),
        in_table(units, id),
        take_allowed(units, id),
    ensures
        ({
            let after = message_step(units, connected, first, ClientMessage::Take(id, name)).0;
            message_step(after, connected, second, ClientMessage::Take(id, other)) == (
                after,
                connected,
                Reaction::Reply { message: ServerMessage::Denied, persist: false },
            )
        }),
{
}

/// After a worker took a unit, a completion of that unit is accepted exactly
/// when it comes under the same worker name; an accepted completion marks the
/// unit complete and keeps the worker's name.
pub proof fn only_the_taker_completes(
    units: Seq<WorkUnit>,
    connected: Set<u64>,
    first: u64,
    second: u64,
    id: u32,
    name: String,
    claimant: String,
)
    requires
        connected.contains(first),
        connected.contains(second),
        in_table(units, id),
        take_allowed(units, id),
    ensures
        ({
            let after = message_step(units, connected, first, ClientMessage::Take(id, name)).0;
            let (done, _, reaction) = message_step(after, connected, second, ClientMessage::Complete(id, claimant));
            &&& (reaction == Reaction::Reply { message: ServerMessage::Accepted, persist: true })
                <==> claimant@ == name@
            &&& claimant@ == name@ ==> done[slot(id)].status == WorkStatus::Complete
                && done[slot(id)].current_worker == name
        }),
{
}

/// A completed unit can be neither taken nor completed again.
pub proof fn complete_is_final(
    units: Seq<WorkUnit>,
    connected: Set<u64>,
    endpoint: u64,
    id: u32,
    name: String,
)
    requires
        in_table(units, id),
        units[slot(id)].status == WorkStatus::Complete,
    ensures
        message_step(units, connected, endpoint, ClientMessage::Take(id, name)).0 == units,
        message_step(units, connected, endpoint, ClientMessage::Complete(id, name)).0 == units,
{
}

/// A take from a connected client is accepted exactly when the named unit is
/// vacant; an accepted take makes that unit `Working` under the taker's name,
/// keeps its id, and leaves every other unit as it was. A refused take
/// changes nothing.
pub proof fn take_touches_only_its_unit(
    units: Seq<WorkUnit>,
    connected: Set<u64>,
    endpoint: u64,
    id: u32,
    name: String,
)
    requires
        connected.contains(endpoint),
        1 <= id <= units.len(),
    ensures
        ({
            let (after, still, reaction) = message_step(units, connected, endpoint, ClientMessage::Take(id, name));
            &&& still == connected
            &&& after.len() == units.len()
            &&& (reaction == Reaction::Reply { message: ServerMessage::Accepted, persist: true })
                <==> units[id - 1].status == WorkStatus::Vacant
            &&& units[id - 1].status != WorkStatus::Vacant ==> reaction == (Reaction::Reply {
                message: ServerMessage::Denied,
                persist: false,
            }) && after == units
            &&& units[id - 1].status == WorkStatus::Vacant ==> after[id - 1] == (WorkUnit {
                id: units[id - 1].id,
                status: WorkStatus::Working,
                current_worker: name,
            })
            &&& forall|i: int| 0 <= i < units.len() && i != id - 1 ==> #[trigger] after[i] == units[i]
        }),
{
}

/// A completion from a connected client is accepted exactly when the named
/// unit is `Working` under the claimant's name; an accepted completion makes
/// that unit `Complete`, keeps its id and worker, and leaves every other unit
/// as it was. A refused completion changes nothing.
pub proof fn completion_touches_only_its_unit(
    units: Seq<WorkUnit>,
    connected: Set<u64>,
    endpoint: u64,
    id: u32,
    name: String,
)
    requires
        connected.contains(endpoint),
        1 <= id <= units.len(),
    ensures
        ({
            let (after, still, reaction) = message_step(units, connected, endpoint, ClientMessage::Complete(id, name));
            let holds = units[id - 1].status == WorkStatus::Working && units[id - 1].current_worker@ == name@;
            &&& still == connected
            &&& after.len() == units.len()
            &&& (reaction == Reaction::Reply { message: ServerMessage::Accepted, persist: true }) <==> holds
            &&& !holds ==> reaction == (Reaction::Reply { message: ServerMessage::Denied, persist: false })
                && after == units
            &&& holds ==> after[id - 1] == (WorkUnit {
                id: units[id - 1].id,
                status: WorkStatus::Complete,
                current_worker: units[id - 1].current_worker,
            })
            &&& forall|i: int| 0 <= i < units.len() && i != id - 1 ==> #[trigger] after[i] == units[i]
        }),
{
}

/// The only messages the server cannot handle are a take or a completion
/// from a connected client naming a unit outside `1..=units.len()`; the
/// status of the named unit plays no part.
pub proof fn handled_unless_outside_table(
    units: Seq<WorkUnit>,
    connected: Set<u64>,
    endpoint: u64,
    message: ClientMessage,
)
    ensures
        message_in_table(units, connected, endpoint, message) <==> (connected.contains(endpoint)
            ==> match message {
            ClientMessage::Take(id, _) => 1 <= id <= units.len(),
            ClientMessage::Complete(id, _) => 1 <= id <= units.len(),
            _ => true,
        }),
{
}

/// Asking for a free unit never changes the table or the connected clients.
pub proof fn asking_changes_nothing(units: Seq<WorkUnit>, connected: Set<u64>, endpoint: u64)
    ensures
        ({
            let (after, still, _) = message_step(units, connected, endpoint, ClientMessage::RequestOpenWorkUnit);
            after == units && still == connected
        }),
{
}

} // verus!
