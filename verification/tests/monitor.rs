use batsignal::battery::{Battery, BatteryStatus};
use batsignal::charge::AggregateError;
use batsignal::monitor::{battery_names, Monitor, Pause};
use batsignal::notify::{notify_cmd, Notice, Urgency};
use batsignal::settings::Settings;
use batsignal::state::AlertState;
use batsignal::thresholds::ConfigError;

fn battery(name: &str, status: BatteryStatus, now: u32, full: u32) -> Battery {
    Battery { name: name.to_string(), status, energy_full: full, energy_now: now }
}

fn discharging(percent: u32) -> Vec<Battery> {
    vec![battery("BAT0", BatteryStatus::Discharging, percent, 100)]
}

fn popup(summary: &str, percent: u32, urgency: Urgency) -> Notice {
    Notice::Popup {
        summary: summary.to_string(),
        body: format!("Battery level: {}%", percent),
        urgency,
    }
}

#[test]
fn notices_follow_the_state() {
    let mut s = Settings::default();
    assert_eq!(notify_cmd(&s, AlertState::Warning, 14), popup("Battery is low", 14, Urgency::Normal));
    assert_eq!(
        notify_cmd(&s, AlertState::Critical, 4),
        popup("Battery is critically low", 4, Urgency::Critical)
    );
    assert_eq!(notify_cmd(&s, AlertState::Full, 100), popup("Battery is full", 100, Urgency::Normal));
    assert_eq!(notify_cmd(&s, AlertState::Danger, 1), Notice::Nothing);
    assert_eq!(notify_cmd(&s, AlertState::Charging, 50), Notice::Nothing);
    assert_eq!(notify_cmd(&s, AlertState::Discharging, 50), Notice::Nothing);
    s.dangercmd = Some("poweroff".to_string());
    assert_eq!(
        notify_cmd(&s, AlertState::Danger, 1),
        Notice::Command { line: "poweroff".to_string() }
    );
    s.warningmsg = "plug in".to_string();
    assert_eq!(notify_cmd(&s, AlertState::Warning, 0), popup("plug in", 0, Urgency::Normal));
}

#[test]
fn invalid_settings_make_no_monitor() {
    let mut s = Settings::default();
    s.warning = Some(5);
    assert_eq!(Monitor::new(s).err(), Some(ConfigError::OrderingViolation));
}

#[test]
fn the_monitor_starts_out_discharging() {
    let m = Monitor::new(Settings::default()).unwrap();
    assert_eq!(m.state(), AlertState::Discharging);
    assert_eq!(m.settings(), &Settings::default());
}

#[test]
fn each_crossing_is_told_once() {
    let mut m = Monitor::new(Settings::default()).unwrap();
    assert_eq!(m.cycle(&discharging(20)), Ok(Notice::Nothing));
    assert_eq!(m.state(), AlertState::Discharging);
    assert_eq!(m.cycle(&discharging(14)), Ok(popup("Battery is low", 14, Urgency::Normal)));
    assert_eq!(m.state(), AlertState::Warning);
    assert_eq!(m.cycle(&discharging(13)), Ok(Notice::Nothing));
    assert_eq!(
        m.cycle(&discharging(4)),
        Ok(popup("Battery is critically low", 4, Urgency::Critical))
    );
    assert_eq!(m.cycle(&discharging(4)), Ok(Notice::Nothing));
    assert_eq!(m.cycle(&discharging(1)), Ok(Notice::Nothing));
    assert_eq!(m.state(), AlertState::Danger);
}

#[test]
fn danger_runs_the_command_once() {
    let mut s = Settings::default();
    s.dangercmd = Some("systemctl hibernate".to_string());
    let mut m = Monitor::new(s).unwrap();
    assert_eq!(
        m.cycle(&discharging(2)),
        Ok(Notice::Command { line: "systemctl hibernate".to_string() })
    );
    assert_eq!(m.cycle(&discharging(2)), Ok(Notice::Nothing));
    assert_eq!(m.cycle(&discharging(1)), Ok(Notice::Nothing));
}

#[test]
fn full_is_told_when_charging_reaches_it() {
    let mut s = Settings::default();
    s.full = Some(90);
    let mut m = Monitor::new(s).unwrap();
    let charging = |p| vec![battery("BAT0", BatteryStatus::Charging, p, 100)];
    assert_eq!(m.cycle(&charging(85)), Ok(Notice::Nothing));
    assert_eq!(m.state(), AlertState::Charging);
    assert_eq!(m.cycle(&charging(92)), Ok(popup("Battery is full", 92, Urgency::Normal)));
    assert_eq!(m.state(), AlertState::Full);
    assert_eq!(m.cycle(&charging(93)), Ok(Notice::Nothing));
}

#[test]
fn readings_without_capacity_leave_the_monitor_alone() {
    let mut m = Monitor::new(Settings::default()).unwrap();
    m.cycle(&discharging(10)).unwrap();
    assert_eq!(m.cycle(&discharging(0).iter().map(|b| {
        let mut b = b.clone();
        b.energy_full = 0;
        b
    }).collect()), Err(AggregateError::DivisionByZero));
    assert_eq!(m.state(), AlertState::Warning);
}

#[test]
fn the_pause_follows_the_settings() {
    let m = Monitor::new(Settings::default()).unwrap();
    assert_eq!(m.pause(), Pause::Sleep { seconds: 60 });
    let mut s = Settings::default();
    s.sleep_interval = 0;
    assert_eq!(Monitor::new(s).unwrap().pause(), Pause::Signal);
    let mut s = Settings::default();
    s.run_once = true;
    assert_eq!(Monitor::new(s).unwrap().pause(), Pause::Stop);
}

#[test]
fn names_are_joined_with_commas() {
    let a = battery("BAT0", BatteryStatus::Full, 1, 1);
    let b = battery("BAT1", BatteryStatus::Full, 1, 1);
    let c = battery("CMB0", BatteryStatus::Full, 1, 1);
    assert_eq!(battery_names(&vec![a.clone()]), "BAT0");
    assert_eq!(battery_names(&vec![a.clone(), b.clone()]), "BAT0, BAT1");
    assert_eq!(battery_names(&vec![a, b, c]), "BAT0, BAT1, CMB0");
    assert_eq!(battery_names(&Vec::new()), "");
}
