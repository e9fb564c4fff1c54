use rusk_vm::gas::{GasMeter, GasMeterResult};

#[test]
fn new_meter_is_full() {
    let meter = GasMeter::with_limit(1_000);
    assert_eq!(meter.gas_left(), 1_000);
    assert_eq!(meter.spent(), 0);
}

#[test]
fn charges_within_limit_add_up() {
    let mut meter = GasMeter::with_limit(100);
    for amount in [10u64, 20, 30, 40] {
        assert_eq!(meter.charge(amount), GasMeterResult::Proceed);
    }
    assert_eq!(meter.gas_left(), 0);
    assert_eq!(meter.spent(), 100);
}

#[test]
fn overdraft_runs_out_and_floors_at_zero() {
    let mut meter = GasMeter::with_limit(50);
    assert_eq!(meter.charge(30), GasMeterResult::Proceed);
    assert_eq!(meter.gas_left(), 20);
    let r = meter.charge(21);
    assert!(r.is_out_of_gas());
    assert_eq!(meter.gas_left(), 0);
    assert_eq!(meter.spent(), 50);
    assert!(meter.charge(1).is_out_of_gas());
    assert_eq!(meter.gas_left(), 0);
    assert!(!meter.charge(0).is_out_of_gas());
    assert_eq!(meter.gas_left(), 0);
}

#[test]
fn largest_limit_never_wraps() {
    let mut meter = GasMeter::with_limit(u64::MAX);
    assert_eq!(meter.charge(u64::MAX), GasMeterResult::Proceed);
    assert_eq!(meter.spent(), u64::MAX);
    assert!(meter.charge(u64::MAX).is_out_of_gas());
    assert_eq!(meter.gas_left(), 0);
}

#[test]
fn proceed_is_not_out_of_gas() {
    assert!(!GasMeterResult::Proceed.is_out_of_gas());
    assert!(GasMeterResult::OutOfGas.is_out_of_gas());
}
