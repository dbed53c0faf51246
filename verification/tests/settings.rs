use batsignal::battery::{Battery, DiscoveryError};
use batsignal::settings::{handle_battery_names, Settings, Timeout};
use batsignal::thresholds::{ConfigError, Level, Ranged, MAX_INTERVAL};

fn names(list: &[&str]) -> Vec<String> {
    list.iter().map(|s| s.to_string()).collect()
}

#[test]
fn defaults_are_as_documented() {
    let s = Settings::default();
    assert!(s.daemonize);
    assert!(!s.run_once);
    assert!(!s.ignore_missing);
    assert!(s.batteries.is_empty());
    assert_eq!(s.sleep_interval, 60);
    assert_eq!(s.warning, Some(15));
    assert_eq!(s.critical, Some(5));
    assert_eq!(s.danger, Some(2));
    assert_eq!(s.full, None);
    assert_eq!(s.warningmsg, "Battery is low");
    assert_eq!(s.criticalmsg, "Battery is critically low");
    assert_eq!(s.fullmsg, "Battery is full");
    assert_eq!(s.dangercmd, None);
    assert_eq!(s.appname, "batsignal");
    assert_eq!(s.icon, None);
    assert_eq!(s.notification_timeout, Timeout::Never);
}

#[test]
fn valid_settings_come_back_unchanged() {
    let s = Settings::default();
    assert_eq!(s.clone().validate(), Ok(s));
}

#[test]
fn settings_fail_like_their_levels() {
    let mut s = Settings::default();
    s.critical = Some(15);
    assert_eq!(s.validate(), Err(ConfigError::OrderingViolation));
    let mut s = Settings::default();
    s.sleep_interval = -1;
    assert_eq!(
        s.validate(),
        Err(ConfigError::OutOfRange { setting: Ranged::Interval, max: MAX_INTERVAL })
    );
    let mut s = Settings::default();
    s.full = Some(10);
    assert_eq!(
        s.validate(),
        Err(ConfigError::NotMonotonic { offender: Level::Full, reference: Level::Warning })
    );
    let mut s = Settings::default();
    s.danger = Some(101);
    assert_eq!(s.validate(), Err(ConfigError::OutOfRange { setting: Ranged::Danger, max: 100 }));
}

#[test]
fn named_batteries_replace_the_list() {
    let mut s = Settings::default();
    let devices = names(&["BAT0", "BAT1", "AC"]);
    assert_eq!(handle_battery_names(&mut s, "BAT1, BAT0", &devices), Ok(Vec::new()));
    assert_eq!(
        s.batteries,
        vec![
            Battery::new("BAT1".to_string(), true).unwrap(),
            Battery::new("BAT0".to_string(), true).unwrap()
        ]
    );
    assert_eq!(handle_battery_names(&mut s, "AC", &devices), Ok(Vec::new()));
    assert_eq!(s.batteries.len(), 1);
}

#[test]
fn a_missing_name_leaves_the_settings_alone() {
    let mut s = Settings::default();
    let devices = names(&["BAT0"]);
    handle_battery_names(&mut s, "BAT0", &devices).unwrap();
    let before = s.clone();
    assert_eq!(
        handle_battery_names(&mut s, "BAT0,BAT9", &devices),
        Err(DiscoveryError::NotFound { name: "BAT9".to_string() })
    );
    assert_eq!(s, before);
}

#[test]
fn a_missing_name_is_skipped_on_request() {
    let mut s = Settings::default();
    s.ignore_missing = true;
    let devices = names(&["BAT0"]);
    assert_eq!(handle_battery_names(&mut s, "BAT9,BAT0", &devices), Ok(names(&["BAT9"])));
    assert_eq!(s.batteries.len(), 1);
    assert_eq!(s.batteries[0].name, "BAT0");
}
