//! The miner's plan: which module ids make up a unit, the order in which they
//! are scraped, and what to do with the server's answers. The scraping, the
//! unit files and the client runs are the caller's; each step here says what
//! to do next.

use vstd::prelude::*;
use crate::report::{SelfExecRequest, SelfExecResult, SelfExecStatus};

verus! {

/// How many module ids one unit covers.
pub const MODS_PER_UNIT: u32 = 1000;

/// The largest unit whose module ids all fit in a `u32`.
pub const LAST_UNIT: u32 = 4294967;

/// The first module id of unit `unit`.
pub open spec fn unit_min_spec(unit: int) -> int {
    (unit - 1) * MODS_PER_UNIT + 1
}

/// One past the last module id of unit `unit`.
pub open spec fn unit_max_spec(unit: int) -> int {
    unit * MODS_PER_UNIT + 1
}

/// Unit `unit` exists and its ids fit in a `u32`.
pub open spec fn unit_fits(unit: u32) -> bool {
    1 <= unit && unit_max_spec(unit as int) <= u32::MAX
}

/// The bounds `(first, one past last)` of the module ids of `unit`, when it
/// exists and they fit in a `u32`.
pub fn unit_bounds(unit: u32) -> (bounds: Option<(u32, u32)>)
    ensures
        bounds is Some <==> unit_fits(unit),
        bounds matches Some((lo, hi)) ==> lo == unit_min_spec(unit as int) && hi == unit_max_spec(
            unit as int,
        ),
{
    if unit == 0 || unit > LAST_UNIT {
        None
    } else {
        Some(((unit - 1) * MODS_PER_UNIT + 1, unit * MODS_PER_UNIT + 1))
    }
}

/// Why the miner stops.
#[derive(Debug, Clone, Copy, PartialEq, Eq, Structural)]
pub enum Halt {
    /// The server had no vacant unit, or could not be reached.
    NoVacantUnit,
    /// The unit number has no module ids that fit in a `u32`.
    UnitOutOfRange(u32),
    /// Counting module ids ran past `u32::MAX`.
    CounterOverflow,
}

/// Where the miner is.
#[derive(Debug, Clone, Copy, PartialEq, Eq, Structural)]
pub enum MinerState {
    /// Not started; `custom_unit` (0: none) is a unit to finish first,
    /// starting at module id `start_from`.
    Starting { start_from: u32, custom_unit: u32 },
    /// Waiting for the answer to a request for a unit.
    AwaitingUnit,
    /// Scraping `unit`; `next` is the module id to fetch next; `resumed` tells
    /// a unit finished on request from a fresh one.
    Scraping { unit: u32, next: u32, resumed: bool },
    /// Waiting for the answer to the completion of `unit`.
    AwaitingCompletion { unit: u32, resumed: bool },
    /// The completion was answered and announced.
    Announced,
    /// Stopped for good.
    Halted(Halt),
}

/// What happened since the last action.
#[derive(Debug, Clone, Copy, PartialEq, Eq, Structural)]
pub enum MinerEvent {
    /// The last action is done.
    Ready,
    /// A client run ended with this report.
    Report(SelfExecResult),
}

/// What the miner asks its caller to do.
#[derive(Debug, Clone, Copy, PartialEq, Eq, Structural)]
pub enum MinerAction {
    /// Run a client that asks the server for a unit; answer with its report.
    AskForUnit,
    /// Open the file of `unit` for appending.
    OpenUnit(u32),
    /// Fetch the details of this module id and store them.
    Fetch(u32),
    /// Close the unit's file and run a client that completes `unit`; answer
    /// with its report.
    FinishUnit(u32),
    /// Tell whether the server accepted the completion (`Some(unit)`), and
    /// whether the finished unit was the one resumed on request.
    Announce { accepted_unit: Option<u32>, resumed: bool },
    /// Stop.
    Stop(Halt),
}

/// `next` is still inside the run of ids of `unit` being scraped.
pub open spec fn keeps_scraping(unit: u32, next: u32) -> bool {
    next >= unit_min_spec(unit as int) && next != unit_max_spec(unit as int)
}

/// Scraping `unit` from `start`, or stopping when the unit does not fit.
pub open spec fn begin_unit(unit: u32, start: Option<u32>, resumed: bool) -> (MinerState, MinerAction) {
    if unit_fits(unit) {
        let next = match start {
            Some(s) => s,
            None => unit_min_spec(unit as int) as u32,
        };
        (MinerState::Scraping { unit, next, resumed }, MinerAction::OpenUnit(unit))
    } else {
        (MinerState::Halted(Halt::UnitOutOfRange(unit)), MinerAction::Stop(Halt::UnitOutOfRange(unit)))
    }
}

/// The miner's step: from a state and an event to the next state and action.
pub open spec fn miner_transition(state: MinerState, event: MinerEvent) -> (MinerState, MinerAction) {
    match state {
        MinerState::Starting { start_from, custom_unit } => if custom_unit != 0 {
            begin_unit(custom_unit, Some(start_from), true)
        } else {
            (MinerState::AwaitingUnit, MinerAction::AskForUnit)
        },
        MinerState::AwaitingUnit => match event {
            MinerEvent::Report(report) => match report.status {
                SelfExecStatus::Accepted => begin_unit(report.unit, None, false),
                SelfExecStatus::Denied => (
                    MinerState::Halted(Halt::NoVacantUnit),
                    MinerAction::Stop(Halt::NoVacantUnit),
                ),
            },
            MinerEvent::Ready => (MinerState::AwaitingUnit, MinerAction::AskForUnit),
        },
        MinerState::Scraping { unit, next, resumed } => if keeps_scraping(unit, next) {
            if next == u32::MAX {
                (MinerState::Halted(Halt::CounterOverflow), MinerAction::Fetch(next))
            } else {
                (MinerState::Scraping { unit, next: (next + 1) as u32, resumed }, MinerAction::Fetch(next))
            }
        } else {
            (MinerState::AwaitingCompletion { unit, resumed }, MinerAction::FinishUnit(unit))
        },
        MinerState::AwaitingCompletion { unit, resumed } => match event {
            MinerEvent::Report(report) => (
                MinerState::Announced,
                MinerAction::Announce {
                    accepted_unit: if report.request == SelfExecRequest::Complete && report.status
                        == SelfExecStatus::Accepted {
                        Some(unit)
                    } else {
                        None
                    },
                    resumed,
                },
            ),
            MinerEvent::Ready => (MinerState::AwaitingCompletion { unit, resumed }, MinerAction::FinishUnit(unit)),
        },
        MinerState::Announced => (MinerState::AwaitingUnit, MinerAction::AskForUnit),
        MinerState::Halted(halt) => (MinerState::Halted(halt), MinerAction::Stop(halt)),
    }
}

fn begin(unit: u32, start: Option<u32>, resumed: bool) -> (r: (MinerState, MinerAction))
    ensures
        r == begin_unit(unit, start, resumed),
{
    match unit_bounds(unit) {
        Some((lo, _)) => {
            let next = match start {
                Some(s) => s,
                None => lo,
            };
            (MinerState::Scraping { unit, next, resumed }, MinerAction::OpenUnit(unit))
        },
        None => (MinerState::Halted(Halt::UnitOutOfRange(unit)), MinerAction::Stop(Halt::UnitOutOfRange(unit))),
    }
}

/// A miner that will first finish `custom_unit` from module id `start_from`
/// (when `custom_unit` is not 0) and then keep asking for units.
pub struct Miner {
    pub state: MinerState,
}

impl Miner {
    pub fn new(start_from: u32, custom_unit: u32) -> (miner: Miner)
        ensures
            miner.state == (MinerState::Starting { start_from, custom_unit }),
    {
        Miner { state: MinerState::Starting { start_from, custom_unit } }
    }

    /// Takes `event` and says what to do next: see `miner_transition`.
    pub fn step(&mut self, event: MinerEvent) -> (action: MinerAction)
        ensures
            (final(self).state, action) == miner_transition(old(self).state, event),
    {
        let (state, action) = match self.state {
            MinerState::Starting { start_from, custom_unit } => {
                if custom_unit != 0 {
                    begin(custom_unit, Some(start_from), true)
                } else {
                    (MinerState::AwaitingUnit, MinerAction::AskForUnit)
                }
            },
            MinerState::AwaitingUnit => match event {
                MinerEvent::Report(report) => match report.status {
                    SelfExecStatus::Accepted => begin(report.unit, None, false),
                    SelfExecStatus::Denied => (
                        MinerState::Halted(Halt::NoVacantUnit),
                        MinerAction::Stop(Halt::NoVacantUnit),
                    ),
                },
                MinerEvent::Ready => (MinerState::AwaitingUnit, MinerAction::AskForUnit),
            },
            MinerState::Scraping { unit, next, resumed } => {
                let per_unit: i64 = MODS_PER_UNIT as i64;
                assert(per_unit == 1000);
                let lo: i64 = ((unit as i64) - 1) * per_unit + 1;
                let hi: i64 = (unit as i64) * per_unit + 1;
                if (next as i64) >= lo && (next as i64) != hi {
                    if next == u32::MAX {
                        (MinerState::Halted(Halt::CounterOverflow), MinerAction::Fetch(next))
                    } else {
                        (MinerState::Scraping { unit, next: next + 1, resumed }, MinerAction::Fetch(next))
                    }
                } else {
                    (MinerState::AwaitingCompletion { unit, resumed }, MinerAction::FinishUnit(unit))
                }
            },
            MinerState::AwaitingCompletion { unit, resumed } => match event {
                MinerEvent::Report(report) => {
                    let accepted = report.request == SelfExecRequest::Complete && report.status
                        == SelfExecStatus::Accepted;
                    let accepted_unit = if accepted {
                        Some(unit)
                    } else {
                        None
                    };
                    (MinerState::Announced, MinerAction::Announce { accepted_unit, resumed })
                },
                MinerEvent::Ready => (
                    MinerState::AwaitingCompletion { unit, resumed },
                    MinerAction::FinishUnit(unit),
                ),
            },
            MinerState::Announced => (MinerState::AwaitingUnit, MinerAction::AskForUnit),
            MinerState::Halted(halt) => (MinerState::Halted(halt), MinerAction::Stop(halt)),
        };
        self.state = state;
        action
    }
}


/// Consecutive units cover consecutive runs of exactly `MODS_PER_UNIT` ids:
/// each unit ends where the next one starts.
pub proof fn units_tile_the_ids(unit: int)
    requires
        unit >= 1,
    ensures
        unit_max_spec(unit) - unit_min_spec(unit) == MODS_PER_UNIT,
        unit_max_spec(unit) == unit_min_spec(unit + 1),
{
}

/// Every module id from 1 on belongs to exactly one unit: unit
/// `(id - 1) / MODS_PER_UNIT + 1`.
pub proof fn each_id_has_one_unit(id: int, unit: int)
    requires
        id >= 1,
        unit >= 1,
    ensures
        unit_min_spec((id - 1) / 1000 + 1) <= id < unit_max_spec((id - 1) / 1000 + 1),
        unit_min_spec(unit) <= id < unit_max_spec(unit) ==> unit == (id - 1) / 1000 + 1,
{
    let q = (id - 1) / 1000;
    assert(id - 1 == q * 1000 + (id - 1) % 1000);
    assert(0 <= (id - 1) % 1000 < 1000);
    if unit_min_spec(unit) <= id < unit_max_spec(unit) {
        assert((unit - 1) * 1000 <= id - 1 < unit * 1000);
        assert(unit - 1 == q) by (nonlinear_arith)
            requires
                (unit - 1) * 1000 <= id - 1 < unit * 1000,
                id - 1 == q * 1000 + (id - 1) % 1000,
                0 <= (id - 1) % 1000 < 1000,
        ;
    }
}

/// The state after `k` `Ready` events.
pub open spec fn after_ready(state: MinerState, k: nat) -> MinerState
    decreases k,
{
    if k == 0 {
        state
    } else {
        miner_transition(after_ready(state, (k - 1) as nat), MinerEvent::Ready).0
    }
}

/// Scraping a unit from an id inside it fetches every remaining id of the
/// unit, one per step and in increasing order, and then finishes the unit.
pub proof fn scraping_visits_rest_of_unit(unit: u32, start: u32, resumed: bool, k: nat)
    requires
        unit_fits(unit),
        unit_min_spec(unit as int) <= start <= unit_max_spec(unit as int),
        k <= unit_max_spec(unit as int) - start,
    ensures
        after_ready(MinerState::Scraping { unit, next: start, resumed }, k) == (MinerState::Scraping {
            unit,
            next: (start + k) as u32,
            resumed,
        }),
        k < unit_max_spec(unit as int) - start ==> miner_transition(
            after_ready(MinerState::Scraping { unit, next: start, resumed }, k),
            MinerEvent::Ready,
        ).1 == MinerAction::Fetch((start + k) as u32),
        k == unit_max_spec(unit as int) - start ==> miner_transition(
            after_ready(MinerState::Scraping { unit, next: start, resumed }, k),
            MinerEvent::Ready,
        ) == (MinerState::AwaitingCompletion { unit, resumed }, MinerAction::FinishUnit(unit)),
    decreases k,
{
    if k > 0 {
        scraping_visits_rest_of_unit(unit, start, resumed, (k - 1) as nat);
    }
}

/// A fresh unit is scraped id by id from its first id to its last, exactly
/// `MODS_PER_UNIT` fetches, and then finished.
pub proof fn fresh_unit_fetches_each_id_once(unit: u32, k: nat)
    requires
        unit_fits(unit),
        k <= MODS_PER_UNIT,
    ensures
        ({
            let first = unit_min_spec(unit as int) as u32;
            let state = after_ready(MinerState::Scraping { unit, next: first, resumed: false }, k);
            &&& k < MODS_PER_UNIT ==> miner_transition(state, MinerEvent::Ready).1 == MinerAction::Fetch(
                (first + k) as u32,
            )
            &&& k == MODS_PER_UNIT ==> miner_transition(state, MinerEvent::Ready).1
                == MinerAction::FinishUnit(unit)
        }),
{
    scraping_visits_rest_of_unit(unit, unit_min_spec(unit as int) as u32, false, k);
}

/// A unit the server hands out is scraped from its first id; a refusal stops
/// the miner.
pub proof fn answers_to_a_unit_request(report: SelfExecResult)
    ensures
        report.status == SelfExecStatus::Denied ==> miner_transition(
            MinerState::AwaitingUnit,
            MinerEvent::Report(report),
        ) == (MinerState::Halted(Halt::NoVacantUnit), MinerAction::Stop(Halt::NoVacantUnit)),
        report.status == SelfExecStatus::Accepted && unit_fits(report.unit) ==> miner_transition(
            MinerState::AwaitingUnit,
            MinerEvent::Report(report),
        ) == (MinerState::Scraping {
            unit: report.unit,
            next: unit_min_spec(report.unit as int) as u32,
            resumed: false,
        }, MinerAction::OpenUnit(report.unit)),
{
}


/// The miner's other steps: it starts with the requested unit from the
/// requested id (or asks for a unit when none was requested); while waiting
/// it repeats what it waits on; a completion is announced as accepted exactly
/// when the report is an accepted completion; after announcing it asks for
/// the next unit; a scrape that is not inside its unit's ids finishes at
/// once; and a stopped miner stays stopped.
pub proof fn miner_steps(state: MinerState, event: MinerEvent)
    ensures
        ({
            let (next, action) = miner_transition(state, event);
            match state {
                MinerState::Starting { start_from, custom_unit } => {
                    &&& custom_unit == 0 ==> next == MinerState::AwaitingUnit && action
                        == MinerAction::AskForUnit
                    &&& custom_unit != 0 && 1 <= custom_unit && custom_unit * 1000 + 1 <= u32::MAX
                        ==> next == (MinerState::Scraping {
                        unit: custom_unit,
                        next: start_from,
                        resumed: true,
                    }) && action == MinerAction::OpenUnit(custom_unit)
                    &&& custom_unit * 1000 + 1 > u32::MAX ==> action == MinerAction::Stop(
                        Halt::UnitOutOfRange(custom_unit),
                    )
                },
                MinerState::AwaitingUnit => event == MinerEvent::Ready ==> next == state && action
                    == MinerAction::AskForUnit,
                MinerState::AwaitingCompletion { unit, resumed } => match event {
                    MinerEvent::Ready => next == state && action == MinerAction::FinishUnit(unit),
                    MinerEvent::Report(report) => {
                        &&& next == MinerState::Announced
                        &&& action == (MinerAction::Announce {
                            accepted_unit: if report.request == SelfExecRequest::Complete
                                && report.status == SelfExecStatus::Accepted {
                                Some(unit)
                            } else {
                                None
                            },
                            resumed,
                        })
                    },
                },
                MinerState::Announced => next == MinerState::AwaitingUnit && action
                    == MinerAction::AskForUnit,
                MinerState::Scraping { unit, next: id, resumed } => {
                    &&& (id < (unit - 1) * 1000 + 1 || id == unit * 1000 + 1) ==> next
                        == (MinerState::AwaitingCompletion { unit, resumed }) && action
                        == MinerAction::FinishUnit(unit)
                    &&& !(id < (unit - 1) * 1000 + 1 || id == unit * 1000 + 1) ==> action
                        == MinerAction::Fetch(id) && (id < u32::MAX ==> next == (MinerState::Scraping {
                        unit,
                        next: (id + 1) as u32,
                        resumed,
                    })) && (id == u32::MAX ==> next == MinerState::Halted(Halt::CounterOverflow))
                },
                MinerState::Halted(halt) => next == state && action == MinerAction::Stop(halt),
            }
        }),
{
}

} // verus!
