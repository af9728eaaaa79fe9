use design_patterns::machine::MachineContext;
use design_patterns::machine::RejectReason;
use design_patterns::machine::State;

#[test]
fn test_state() {
    let mut machine = MachineContext::new(2);

    machine.insert_token();
    machine.dispense();

    machine.insert_token();
    machine.eject_token();

    machine.insert_token();
    machine.dispense();

    machine.insert_token();
}

#[test]
fn test_scenario_two_units_dispense_once() {
    let mut machine = MachineContext::new(2);
    let inserted = machine.insert_token();
    assert!(inserted.accepted);
    let dispensed = machine.dispense();
    assert!(dispensed.accepted);
    assert_eq!(machine.current_state(), State::NoToken);
    assert_eq!(machine.inventory_count(), 1);
}

#[test]
fn test_scenario_last_unit_depletes() {
    let mut machine = MachineContext::new(1);
    machine.insert_token();
    machine.dispense();
    assert_eq!(machine.inventory_count(), 0);
    assert_eq!(machine.current_state(), State::Depleted);

    let rejected = machine.insert_token();
    assert!(!rejected.accepted);
    assert_eq!(rejected.reason, Some(RejectReason::MachineDepleted));
    assert_eq!(machine.current_state(), State::Depleted);
}

#[test]
fn test_scenario_eject_returns_token() {
    let mut machine = MachineContext::new(1);
    machine.insert_token();
    let ejected = machine.eject_token();
    assert!(ejected.accepted);
    assert_eq!(machine.current_state(), State::NoToken);
    assert_eq!(machine.inventory_count(), 1);
}

#[test]
fn test_scenario_dispense_without_token() {
    let mut machine = MachineContext::new(1);
    let rejected = machine.dispense();
    assert!(!rejected.accepted);
    assert_eq!(rejected.reason, Some(RejectReason::NoTokenPresent));
    assert_eq!(machine.current_state(), State::NoToken);
    assert_eq!(machine.inventory_count(), 1);
}

#[test]
fn test_second_insert_rejected() {
    let mut machine = MachineContext::new(3);
    let first = machine.insert_token();
    assert!(first.accepted);
    let second = machine.insert_token();
    assert!(!second.accepted);
    assert_eq!(second.reason, Some(RejectReason::AlreadyHasToken));
    assert_eq!(machine.current_state(), State::TokenHeld);
    assert_eq!(machine.inventory_count(), 3);
}

#[test]
fn test_insert_eject_round_trip_keeps_inventory() {
    let mut machine = MachineContext::new(7);
    machine.insert_token();
    machine.eject_token();
    assert_eq!(machine.current_state(), State::NoToken);
    assert_eq!(machine.inventory_count(), 7);
}

#[test]
fn test_empty_machine_starts_without_token() {
    let machine = MachineContext::new(0);
    assert_eq!(machine.current_state(), State::NoToken);
    assert_eq!(machine.inventory_count(), 0);
}

#[test]
fn test_eject_without_token_rejected() {
    let mut machine = MachineContext::new(2);
    let rejected = machine.eject_token();
    assert!(!rejected.accepted);
    assert_eq!(rejected.reason, Some(RejectReason::NoTokenPresent));
    assert_eq!(machine.current_state(), State::NoToken);
    assert_eq!(machine.inventory_count(), 2);
}

#[test]
fn test_depleted_absorbs_every_operation() {
    let mut machine = MachineContext::new(1);
    machine.insert_token();
    machine.dispense();
    let eject = machine.eject_token();
    assert_eq!(eject.reason, Some(RejectReason::MachineDepleted));
    let dispense = machine.dispense();
    assert_eq!(dispense.reason, Some(RejectReason::MachineDepleted));
    assert_eq!(machine.current_state(), State::Depleted);
    assert_eq!(machine.inventory_count(), 0);
}

#[test]
fn test_accepted_result_reports_resulting_state() {
    let mut machine = MachineContext::new(2);
    let inserted = machine.insert_token();
    assert!(inserted.accepted);
    assert_eq!(inserted.reason, None);
    assert_eq!(inserted.resulting_state, State::TokenHeld);
    let dispensed = machine.dispense();
    assert_eq!(dispensed.resulting_state, State::NoToken);
}
