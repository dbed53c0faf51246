use batsignal::battery::{Attribute, Defect, DiscoveryError, ReadError, StatusError};
use batsignal::options::ArgError;
use batsignal::thresholds::{validate, ConfigError, Level, Ranged};

#[test]
fn range_errors_name_the_option_and_the_bound() {
    let e = validate(Some(101), None, None, None, 60).unwrap_err();
    assert_eq!(e.message(), "Option -w must be between 0 and 100");
    let e = validate(None, Some(-1), None, None, 60).unwrap_err();
    assert_eq!(e.message(), "Option -c must be between 0 and 100");
    let e = validate(None, None, Some(300), None, 60).unwrap_err();
    assert_eq!(e.message(), "Option -d must be between 0 and 100");
    let e = validate(None, None, None, Some(-7), 60).unwrap_err();
    assert_eq!(e.message(), "Option -f must be between 0 and 100");
    let e = validate(None, None, None, None, -60).unwrap_err();
    assert_eq!(e.message(), "Option -m must be between 0 and 2147483");
}

#[test]
fn a_negative_bound_is_written_with_its_sign() {
    let e = ConfigError::OutOfRange { setting: Ranged::Full, max: -12 };
    assert_eq!(e.message(), "Option -f must be between 0 and -12");
}

#[test]
fn ordering_errors_name_both_levels() {
    let e = validate(Some(10), Some(10), None, None, 60).unwrap_err();
    assert_eq!(e.message(), "Warning level must be greater than critical");
    let e = validate(Some(15), Some(5), Some(7), None, 60).unwrap_err();
    assert_eq!(e.message(), "critical must be greater than danger");
    let e = validate(Some(15), Some(5), Some(2), Some(1), 60).unwrap_err();
    assert_eq!(e.message(), "full must be greater than warning");
    assert_eq!(Level::Warning.name(), "warning");
    assert_eq!(Level::Danger.name(), "danger");
    assert_eq!(Ranged::Interval.option(), "m");
}

#[test]
fn battery_errors_read_as_sentences() {
    assert_eq!(
        StatusError { found: "Exploding".to_string() }.message(),
        "Failed to parse battery status, found Exploding"
    );
    assert_eq!(
        DiscoveryError::NotFound { name: "BAT9".to_string() }.message(),
        "Battery BAT9 not found"
    );
    assert_eq!(DiscoveryError::NoBatteriesFound.message(), "No batteries found");
    let error = |attribute, defect| ReadError { battery: "BAT0".to_string(), attribute, defect };
    assert_eq!(
        error(Attribute::EnergyNow, Defect::Unparsable).message(),
        "Error parsing energy_now for BAT0"
    );
    assert_eq!(
        error(Attribute::EnergyFull, Defect::Unparsable).message(),
        "Error parsing energy_full for BAT0"
    );
    assert_eq!(
        error(Attribute::Status, Defect::Unparsable).message(),
        "Error parsing status for BAT0"
    );
    assert_eq!(
        error(Attribute::Status, Defect::Missing).message(),
        "Error reading status for BAT0"
    );
}

#[test]
fn argument_errors_read_as_sentences() {
    assert_eq!(
        ArgError::Scan { missing_argument: false, detail: "unknown option -- 'z'".to_string() }
            .message(),
        "Failed to parse args: unknown option -- 'z'"
    );
    assert_eq!(
        ArgError::Unexpected { letter: 'q' }.message(),
        "Failed to parse args: unexpected option -q"
    );
    assert_eq!(ArgError::Number { letter: 'w' }.message(), "Error parsing argument for option w");
    assert_eq!(ArgError::Number { letter: 's' }.message(), "Error parsing argument for option m");
    assert_eq!(ArgError::Battery { name: "B".to_string() }.message(), "Battery B not found");
}
