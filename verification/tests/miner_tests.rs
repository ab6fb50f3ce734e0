use trackerconqueror::miner::{unit_bounds, Halt, Miner, MinerAction, MinerEvent, MinerState, MODS_PER_UNIT};
use trackerconqueror::report::{SelfExecRequest, SelfExecResult, SelfExecStatus};

fn report(request: SelfExecRequest, status: SelfExecStatus, unit: u32) -> MinerEvent {
    MinerEvent::Report(SelfExecResult { request, status, unit })
}

#[test]
fn unit_bounds_formula() {
    assert_eq!(unit_bounds(1), Some((1, 1001)));
    assert_eq!(unit_bounds(2), Some((1001, 2001)));
    assert_eq!(unit_bounds(192), Some((191001, 192001)));
    assert_eq!(unit_bounds(4294967), Some((4294966001, 4294967001)));
    assert_eq!(unit_bounds(0), None);
    assert_eq!(unit_bounds(4294968), None);
}

#[test]
fn fresh_unit_is_scraped_in_order() {
    let mut miner = Miner::new(0, 0);
    assert_eq!(miner.step(MinerEvent::Ready), MinerAction::AskForUnit);
    assert_eq!(miner.step(report(SelfExecRequest::GetUnit, SelfExecStatus::Accepted, 3)), MinerAction::OpenUnit(3));
    for k in 0..MODS_PER_UNIT {
        assert_eq!(miner.step(MinerEvent::Ready), MinerAction::Fetch(2001 + k));
    }
    assert_eq!(miner.step(MinerEvent::Ready), MinerAction::FinishUnit(3));
    assert_eq!(
        miner.step(report(SelfExecRequest::Complete, SelfExecStatus::Accepted, 0)),
        MinerAction::Announce { accepted_unit: Some(3), resumed: false }
    );
    assert_eq!(miner.step(MinerEvent::Ready), MinerAction::AskForUnit);
}

#[test]
fn denied_completion_is_not_announced_as_accepted() {
    let mut miner = Miner { state: MinerState::AwaitingCompletion { unit: 8, resumed: false } };
    assert_eq!(
        miner.step(report(SelfExecRequest::Complete, SelfExecStatus::Denied, 0)),
        MinerAction::Announce { accepted_unit: None, resumed: false }
    );
    let mut miner = Miner { state: MinerState::AwaitingCompletion { unit: 8, resumed: true } };
    assert_eq!(
        miner.step(report(SelfExecRequest::GetUnit, SelfExecStatus::Accepted, 0)),
        MinerAction::Announce { accepted_unit: None, resumed: true }
    );
}

#[test]
fn no_vacant_unit_stops_the_miner() {
    let mut miner = Miner::new(0, 0);
    miner.step(MinerEvent::Ready);
    assert_eq!(miner.step(report(SelfExecRequest::GetUnit, SelfExecStatus::Denied, 0)), MinerAction::Stop(Halt::NoVacantUnit));
    assert_eq!(miner.step(MinerEvent::Ready), MinerAction::Stop(Halt::NoVacantUnit));
}

#[test]
fn unit_zero_is_out_of_range() {
    let mut miner = Miner::new(0, 0);
    miner.step(MinerEvent::Ready);
    assert_eq!(
        miner.step(report(SelfExecRequest::GetUnit, SelfExecStatus::Accepted, 0)),
        MinerAction::Stop(Halt::UnitOutOfRange(0))
    );
}

#[test]
fn resumed_unit_starts_where_asked() {
    let mut miner = Miner::new(1995, 2);
    assert_eq!(miner.step(MinerEvent::Ready), MinerAction::OpenUnit(2));
    for id in 1995..2001 {
        assert_eq!(miner.step(MinerEvent::Ready), MinerAction::Fetch(id));
    }
    assert_eq!(miner.step(MinerEvent::Ready), MinerAction::FinishUnit(2));
    assert_eq!(
        miner.step(report(SelfExecRequest::Complete, SelfExecStatus::Accepted, 0)),
        MinerAction::Announce { accepted_unit: Some(2), resumed: true }
    );
}

#[test]
fn resume_below_the_unit_fetches_nothing() {
    let mut miner = Miner::new(0, 2);
    assert_eq!(miner.step(MinerEvent::Ready), MinerAction::OpenUnit(2));
    assert_eq!(miner.step(MinerEvent::Ready), MinerAction::FinishUnit(2));
}

#[test]
fn counting_past_u32_max_halts() {
    let mut miner = Miner { state: MinerState::Scraping { unit: 1, next: u32::MAX, resumed: true } };
    assert_eq!(miner.step(MinerEvent::Ready), MinerAction::Fetch(u32::MAX));
    assert_eq!(miner.step(MinerEvent::Ready), MinerAction::Stop(Halt::CounterOverflow));
}

#[test]
fn oversized_custom_unit_halts() {
    let mut miner = Miner::new(0, 5_000_000);
    assert_eq!(miner.step(MinerEvent::Ready), MinerAction::Stop(Halt::UnitOutOfRange(5_000_000)));
}
