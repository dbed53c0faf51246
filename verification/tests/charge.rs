use batsignal::battery::{Battery, BatteryStatus};
use batsignal::charge::{aggregate, AggregateCharge, AggregateError};

fn battery(name: &str, status: BatteryStatus, now: u32, full: u32) -> Battery {
    Battery { name: name.to_string(), status, energy_full: full, energy_now: now }
}

#[test]
fn two_batteries_are_summed_before_dividing() {
    let readings = vec![
        battery("BAT0", BatteryStatus::Discharging, 30, 100),
        battery("BAT1", BatteryStatus::Discharging, 40, 100),
    ];
    assert_eq!(aggregate(&readings), Ok(AggregateCharge { percentage: 35, discharging: true }));
}

#[test]
fn percentage_is_rounded_down() {
    let readings = vec![battery("BAT0", BatteryStatus::Charging, 29, 100)];
    assert_eq!(aggregate(&readings).unwrap().percentage, 29);
    let readings = vec![battery("BAT0", BatteryStatus::Charging, 2, 3)];
    assert_eq!(aggregate(&readings).unwrap().percentage, 66);
    let readings = vec![battery("BAT0", BatteryStatus::Charging, 199, 200)];
    assert_eq!(aggregate(&readings).unwrap().percentage, 99);
}

#[test]
fn one_discharging_battery_is_enough() {
    let readings = vec![
        battery("BAT0", BatteryStatus::Full, 100, 100),
        battery("BAT1", BatteryStatus::Discharging, 50, 100),
        battery("BAT2", BatteryStatus::Charging, 10, 100),
    ];
    assert!(aggregate(&readings).unwrap().discharging);
}

#[test]
fn no_discharging_battery_means_not_discharging() {
    for status in [
        BatteryStatus::Unknown,
        BatteryStatus::Charging,
        BatteryStatus::NotCharging,
        BatteryStatus::Full,
    ] {
        let readings = vec![battery("BAT0", status, 50, 100)];
        assert!(!aggregate(&readings).unwrap().discharging);
    }
}

#[test]
fn no_capacity_is_an_error() {
    let readings = vec![battery("BAT0", BatteryStatus::Discharging, 0, 0)];
    assert_eq!(aggregate(&readings), Err(AggregateError::DivisionByZero));
    let readings = vec![battery("BAT0", BatteryStatus::Discharging, 7, 0)];
    assert_eq!(aggregate(&readings), Err(AggregateError::DivisionByZero));
    assert_eq!(aggregate(&Vec::new()), Err(AggregateError::DivisionByZero));
}

#[test]
fn more_energy_than_capacity_is_not_capped() {
    let readings = vec![battery("BAT0", BatteryStatus::Charging, 101, 100)];
    assert_eq!(aggregate(&readings).unwrap().percentage, 101);
    let readings = vec![
        battery("BAT0", BatteryStatus::Charging, u32::MAX, 1),
        battery("BAT1", BatteryStatus::Charging, u32::MAX, 0),
    ];
    assert_eq!(aggregate(&readings).unwrap().percentage, 200 * (u32::MAX as u128));
}

#[test]
fn order_of_the_readings_does_not_matter() {
    let a = battery("BAT0", BatteryStatus::Charging, 10, 90);
    let b = battery("BAT1", BatteryStatus::Discharging, 55, 70);
    let c = battery("BAT2", BatteryStatus::Full, 33, 33);
    let expected = aggregate(&vec![a.clone(), b.clone(), c.clone()]);
    assert_eq!(expected, Ok(AggregateCharge { percentage: 50, discharging: true }));
    for readings in [
        vec![a.clone(), c.clone(), b.clone()],
        vec![b.clone(), a.clone(), c.clone()],
        vec![b.clone(), c.clone(), a.clone()],
        vec![c.clone(), a.clone(), b.clone()],
        vec![c.clone(), b.clone(), a.clone()],
    ] {
        assert_eq!(aggregate(&readings), expected);
    }
}
