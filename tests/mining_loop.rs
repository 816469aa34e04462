use spacetraders_miner::cargo::{Cargo, CargoObject, ReservedGoods, SellOrder};
use spacetraders_miner::extraction::{classify_extraction, outcome_from_response, ExtractionOutcome};
use spacetraders_miner::mining::{Action, Event, MiningLoop, Phase};
use spacetraders_miner::nav::NavStatus;

fn slot(symbol: &str, units: u32) -> CargoObject {
    CargoObject {
        description: format!("{} description", symbol),
        name: symbol.to_string(),
        symbol: symbol.to_string(),
        units,
    }
}

fn hold(capacity: u32, slots: Vec<(&str, u32)>) -> Cargo {
    Cargo { capacity, inventory: slots.into_iter().map(|(s, u)| slot(s, u)).collect() }
}

fn json(text: &str) -> serde_json::Value {
    serde_json::from_str(text).unwrap()
}

fn is_sell(a: &Action, symbol: &str, units: u32) -> bool {
    match a {
        Action::Sell(SellOrder { symbol: s, units: u }) => s == symbol && *u == units,
        _ => false,
    }
}

#[test]
fn fixtures_stay_within_capacity() {
    assert!(hold(60, vec![("COPPER_ORE", 40), ("IRON_ORE", 20)]).is_within_capacity());
    assert!(hold(60, vec![("IRON_ORE", 20)]).is_within_capacity());
    assert!(hold(0, vec![]).is_within_capacity());
    assert!(!hold(30, vec![("IRON_ORE", 20), ("ICE_WATER", 11)]).is_within_capacity());
}

#[test]
fn total_units_sums_the_inventory() {
    assert_eq!(hold(60, vec![("COPPER_ORE", 40), ("IRON_ORE", 20)]).total_units(), 60);
    assert_eq!(hold(60, vec![("IRON_ORE", 7), ("ICE_WATER", 5)]).total_units(), 12);
    assert_eq!(hold(10, vec![]).total_units(), 0);
}

#[test]
fn full_iff_units_equal_capacity() {
    assert!(hold(60, vec![("COPPER_ORE", 40), ("IRON_ORE", 20)]).is_full());
    assert!(!hold(60, vec![("COPPER_ORE", 40), ("IRON_ORE", 19)]).is_full());
    assert!(!hold(60, vec![("COPPER_ORE", 40), ("IRON_ORE", 21)]).is_full());
    assert!(hold(0, vec![]).is_full());
}

#[test]
fn partial_hold_goes_back_to_extracting() {
    let mut m = MiningLoop::new(ReservedGoods::standard());
    assert!(matches!(m.step(Event::Extraction(ExtractionOutcome::Extracted)), Action::FetchCargo));
    assert_eq!(m.phase, Phase::CheckingCargo);
    let a = m.step(Event::CargoFetched(hold(60, vec![("IRON_ORE", 59)])));
    assert!(matches!(a, Action::Extract));
    assert_eq!(m.phase, Phase::Extracting);
}

#[test]
fn cooldown_of_42_suspends_for_exactly_42() {
    let body = json(r#"{"error":{"code":4000,"message":"cooldown","data":{"cooldown":{"remainingSeconds":42,"totalSeconds":70}}}}"#);
    let outcome = outcome_from_response(&body);
    assert_eq!(outcome, ExtractionOutcome::Throttled { seconds: 42 });
    let mut m = MiningLoop::new(ReservedGoods::standard());
    let a = m.step(Event::Extraction(outcome));
    assert!(matches!(a, Action::Sleep(42)));
    assert_eq!(m.phase, Phase::CoolingDown);
    assert!(!m.accepts_event(&Event::Docked));
    assert!(!m.accepts_event(&Event::Sold));
    assert!(!m.accepts_event(&Event::Extraction(ExtractionOutcome::Extracted)));
    assert!(m.accepts_event(&Event::CooldownElapsed));
    assert!(matches!(m.step(Event::CooldownElapsed), Action::Extract));
    assert_eq!(m.phase, Phase::Extracting);
}

#[test]
fn missing_remaining_seconds_means_no_wait() {
    // Kept as the loop has always behaved: an unreadable cooldown is zero.
    let body = json(r#"{"error":{"code":4000,"data":{"cooldown":{}}}}"#);
    let outcome = outcome_from_response(&body);
    assert_eq!(outcome, ExtractionOutcome::Throttled { seconds: 0 });
    let mut m = MiningLoop::new(ReservedGoods::standard());
    assert!(matches!(m.step(Event::Extraction(outcome)), Action::Extract));
    assert_eq!(m.phase, Phase::Extracting);

    let malformed = json(r#"{"error":{"code":4000,"data":{"cooldown":{"remainingSeconds":"soon"}}}}"#);
    assert_eq!(outcome_from_response(&malformed), ExtractionOutcome::Throttled { seconds: 0 });
}

#[test]
fn decodes_success_and_other_errors() {
    assert_eq!(outcome_from_response(&json(r#"{"data":{"extraction":{"yield":{"units":20}}}}"#)), ExtractionOutcome::Extracted);
    assert_eq!(outcome_from_response(&json(r#"{"error":null,"data":{}}"#)), ExtractionOutcome::Extracted);
    assert_eq!(
        outcome_from_response(&json(r#"{"error":{"code":4236,"message":"not in orbit"}}"#)),
        ExtractionOutcome::Failed { code: Some(4236) }
    );
    assert_eq!(outcome_from_response(&json(r#"{"error":{"message":"?"}}"#)), ExtractionOutcome::Failed { code: None });
}

#[test]
fn classify_covers_every_branch() {
    assert_eq!(classify_extraction(false, Some(4000), Some(9)), ExtractionOutcome::Extracted);
    assert_eq!(classify_extraction(true, Some(4000), Some(9)), ExtractionOutcome::Throttled { seconds: 9 });
    assert_eq!(classify_extraction(true, Some(4000), None), ExtractionOutcome::Throttled { seconds: 0 });
    assert_eq!(classify_extraction(true, Some(4001), Some(9)), ExtractionOutcome::Failed { code: Some(4001) });
}

#[test]
fn other_failure_retries_immediately() {
    let mut m = MiningLoop::new(ReservedGoods::standard());
    let a = m.step(Event::Extraction(ExtractionOutcome::Failed { code: Some(4236) }));
    assert!(matches!(a, Action::Extract));
    assert_eq!(m.phase, Phase::Extracting);
}

#[test]
fn full_hold_docks_once_and_sells_only_unreserved() {
    let mut m = MiningLoop::new(ReservedGoods::standard());
    m.step(Event::Extraction(ExtractionOutcome::Extracted));
    let a = m.step(Event::CargoFetched(hold(60, vec![("COPPER_ORE", 40), ("IRON_ORE", 20)])));
    assert!(matches!(a, Action::Dock));
    let a = m.step(Event::Docked);
    assert!(is_sell(&a, "IRON_ORE", 20));
    let a = m.step(Event::Sold);
    assert!(matches!(a, Action::Extract));
    assert_eq!(m.phase, Phase::Extracting);
}

#[test]
fn sell_orders_keep_inventory_order() {
    let c = hold(10, vec![("ICE_WATER", 3), ("COPPER_ORE", 2), ("IRON_ORE", 4), ("QUARTZ_SAND", 1)]);
    let orders = c.sell_orders(&ReservedGoods::standard());
    let got: Vec<(String, u32)> = orders.into_iter().map(|o| (o.symbol, o.units)).collect();
    assert_eq!(got, vec![("ICE_WATER".to_string(), 3), ("IRON_ORE".to_string(), 4), ("QUARTZ_SAND".to_string(), 1)]);
    let none = c.sell_orders(&ReservedGoods::new(vec![]));
    assert_eq!(none.len(), 4);
}

#[test]
fn reserved_only_hold_docks_and_sells_nothing() {
    let mut m = MiningLoop::new(ReservedGoods::standard());
    m.step(Event::Extraction(ExtractionOutcome::Extracted));
    assert!(matches!(m.step(Event::CargoFetched(hold(40, vec![("COPPER_ORE", 40)]))), Action::Dock));
    assert!(matches!(m.step(Event::Docked), Action::Extract));
}

#[test]
fn reserved_policy_membership() {
    let p = ReservedGoods::standard();
    assert!(p.contains(&"COPPER_ORE".to_string()));
    assert!(!p.contains(&"IRON_ORE".to_string()));
    let q = ReservedGoods::new(vec!["ICE_WATER".to_string(), "IRON_ORE".to_string()]);
    assert!(q.contains(&"IRON_ORE".to_string()));
    assert!(!q.contains(&"COPPER_ORE".to_string()));
}

/// A stand-in for the game service that tracks the ship's status and hold.
struct FakeShip {
    nav: NavStatus,
    units: u32,
    capacity: u32,
    docks: u32,
    sales: Vec<(String, u32)>,
    extractions: u32,
}

impl FakeShip {
    fn perform(&mut self, action: &Action) -> Event {
        match action {
            Action::Extract => {
                self.extractions += 1;
                self.units += 20;
                Event::Extraction(ExtractionOutcome::Extracted)
            }
            Action::Sleep(_) => Event::CooldownElapsed,
            Action::FetchCargo => {
                let copper = self.units / 2;
                hold_event(self.capacity, copper, self.units - copper)
            }
            Action::Dock => {
                self.docks += 1;
                self.nav = self.nav.dock();
                Event::Docked
            }
            Action::Sell(o) => {
                self.sales.push((o.symbol.clone(), o.units));
                Event::Sold
            }
        }
    }
}

fn hold_event(capacity: u32, copper: u32, iron: u32) -> Event {
    Event::CargoFetched(hold(capacity, vec![("COPPER_ORE", copper), ("IRON_ORE", iron)]))
}

#[test]
fn dock_when_docked_changes_nothing() {
    assert_eq!(NavStatus::Docked.dock(), NavStatus::Docked);
    assert_eq!(NavStatus::InOrbit.dock(), NavStatus::Docked);
    assert_eq!(NavStatus::InOrbit.dock().dock(), NavStatus::InOrbit.dock());
    assert_eq!(NavStatus::InTransit.dock(), NavStatus::InTransit);
    let mut ship = FakeShip { nav: NavStatus::Docked, units: 0, capacity: 60, docks: 0, sales: vec![], extractions: 0 };
    ship.perform(&Action::Dock);
    assert_eq!(ship.nav, NavStatus::Docked);
    ship.perform(&Action::Dock);
    assert_eq!(ship.nav, NavStatus::Docked);
}

#[test]
fn three_extractions_fill_the_hold_then_one_sell_phase() {
    let mut ship = FakeShip { nav: NavStatus::InOrbit, units: 0, capacity: 60, docks: 0, sales: vec![], extractions: 0 };
    let mut m = MiningLoop::new(ReservedGoods::standard());
    let mut phases = vec![m.phase];
    let mut action = Action::Extract;
    while ship.extractions < 3 || !matches!(action, Action::Extract) {
        let event = ship.perform(&action);
        assert!(m.accepts_event(&event));
        action = m.step(event);
        if phases.last() != Some(&m.phase) {
            phases.push(m.phase);
        }
    }
    assert_eq!(
        phases,
        vec![
            Phase::Extracting,
            Phase::CheckingCargo,
            Phase::Extracting,
            Phase::CheckingCargo,
            Phase::Extracting,
            Phase::CheckingCargo,
            Phase::Docking,
            Phase::Selling,
            Phase::Extracting,
        ]
    );
    assert_eq!(ship.docks, 1);
    assert_eq!(ship.nav, NavStatus::Docked);
    assert_eq!(ship.sales, vec![("IRON_ORE".to_string(), 30)]);
}
