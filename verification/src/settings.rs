//! The monitor's settings, their defaults and their validation.

use crate::battery::{
    names_where, resolve_names, unread, Battery, BatteryReading, DiscoveryError,
};
use crate::text::{listed_names, split_names};
use crate::thresholds::{validate, ConfigError, ThresholdSet};
use vstd::prelude::*;

verus! {

/// How long a notification stays on screen.
#[derive(Clone, Copy, Debug, PartialEq, Eq, Structural)]
pub enum Timeout {
    /// As long as the notification server sees fit.
    Default,
    /// Until the user dismisses it.
    Never,
}

/// Everything that can be configured.
#[derive(Clone, Debug, PartialEq, Eq)]
pub struct Settings {
    pub daemonize: bool,
    pub run_once: bool,
    pub ignore_missing: bool,
    pub batteries: Vec<Battery>,
    pub sleep_interval: i32,
    pub warning: Option<i32>,
    pub critical: Option<i32>,
    pub danger: Option<i32>,
    pub full: Option<i32>,
    pub warningmsg: String,
    pub criticalmsg: String,
    pub fullmsg: String,
    pub dangercmd: Option<String>,
    pub appname: String,
    pub icon: Option<String>,
    pub notification_timeout: Timeout,
}

/// The settings as plain values.
pub struct Configuration {
    pub daemonize: bool,
    pub run_once: bool,
    pub ignore_missing: bool,
    pub batteries: Seq<BatteryReading>,
    pub sleep_interval: int,
    pub warning: Option<i32>,
    pub critical: Option<i32>,
    pub danger: Option<i32>,
    pub full: Option<i32>,
    pub warningmsg: Seq<char>,
    pub criticalmsg: Seq<char>,
    pub fullmsg: Seq<char>,
    pub dangercmd: Option<Seq<char>>,
    pub appname: Seq<char>,
    pub icon: Option<Seq<char>>,
    pub notification_timeout: Timeout,
}

impl View for Settings {
    type V = Configuration;

    open spec fn view(&self) -> Configuration {
        Configuration {
            daemonize: self.daemonize,
            run_once: self.run_once,
            ignore_missing: self.ignore_missing,
            batteries: self.batteries.deep_view(),
            sleep_interval: self.sleep_interval as int,
            warning: self.warning,
            critical: self.critical,
            danger: self.danger,
            full: self.full,
            warningmsg: self.warningmsg@,
            criticalmsg: self.criticalmsg@,
            fullmsg: self.fullmsg@,
            dangercmd: self.dangercmd.deep_view(),
            appname: self.appname@,
            icon: self.icon.deep_view(),
            notification_timeout: self.notification_timeout,
        }
    }
}

impl Configuration {
    /// The settings in force where nothing is configured: warn at 15,
    /// critical at 5, danger at 2, no full level, a check every minute.
    pub open spec fn initial() -> Configuration {
        Configuration {
            daemonize: true,
            run_once: false,
            ignore_missing: false,
            batteries: Seq::empty(),
            sleep_interval: 60,
            warning: Some(15i32),
            critical: Some(5i32),
            danger: Some(2i32),
            full: None,
            warningmsg: "Battery is low"@,
            criticalmsg: "Battery is critically low"@,
            fullmsg: "Battery is full"@,
            dangercmd: None,
            appname: "batsignal"@,
            icon: None,
            notification_timeout: Timeout::Never,
        }
    }

    /// The four configured levels.
    pub open spec fn levels(self) -> ThresholdSet {
        ThresholdSet {
            warning: self.warning,
            critical: self.critical,
            danger: self.danger,
            full: self.full,
        }
    }

    /// The first check that these settings fail, if any.
    pub open spec fn fault(self) -> Option<ConfigError> {
        self.levels().fault(self.sleep_interval)
    }
}

impl Default for Settings {
    fn default() -> (r: Settings)
        ensures
            r@ == Configuration::initial(),
    {
        let batteries: Vec<Battery> = Vec::new();
        assert(batteries.deep_view() =~= Seq::empty());
        Settings {
            daemonize: true,
            run_once: false,
            ignore_missing: false,
            batteries,
            sleep_interval: 60,
            warning: Some(15),
            critical: Some(5),
            danger: Some(2),
            full: None,
            warningmsg: "Battery is low".to_owned(),
            criticalmsg: "Battery is critically low".to_owned(),
            fullmsg: "Battery is full".to_owned(),
            dangercmd: None,
            appname: "batsignal".to_owned(),
            icon: None,
            notification_timeout: Timeout::Never,
        }
    }
}

impl Settings {
    /// Hands the settings back if they pass every check, and else the first
    /// check that they fail.
    pub fn validate(self) -> (r: Result<Settings, ConfigError>)
        ensures
            match r {
                Ok(settings) => settings == self && self@.fault() is None && self@.levels().valid(),
                Err(e) => self@.fault() == Some(e),
            },
    {
        match validate(self.warning, self.critical, self.danger, self.full, self.sleep_interval) {
            Ok(_) => Ok(self),
            Err(e) => Err(e),
        }
    }
}

/// Replaces the monitored batteries by those named in a comma-separated
/// list, given the names of the system's devices.
///
/// A name that the system lacks is an error and leaves the settings as
/// they were; with `ignore_missing` set, such names are left out and handed
/// back.
pub fn handle_battery_names(
    settings: &mut Settings,
    battery_names: &str,
    devices: &Vec<String>,
) -> (r: Result<Vec<String>, DiscoveryError>)
    ensures
        match r {
            Ok(skipped) => {
                &&& final(settings)@ == (Configuration {
                    batteries: names_where(
                        listed_names(battery_names@),
                        devices.deep_view(),
                        true,
                    ).map_values(|name: Seq<char>| unread(name)),
                    ..old(settings)@
                })
                &&& skipped.deep_view() == names_where(
                    listed_names(battery_names@),
                    devices.deep_view(),
                    false,
                )
                &&& old(settings).ignore_missing || skipped.len() == 0
            },
            Err(DiscoveryError::NotFound { name }) => {
                &&& *final(settings) == *old(settings)
                &&& !old(settings).ignore_missing
                &&& names_where(listed_names(battery_names@), devices.deep_view(), false).len() > 0
                &&& name@ == names_where(
                    listed_names(battery_names@),
                    devices.deep_view(),
                    false,
                )[0]
            },
            Err(DiscoveryError::NoBatteriesFound) => false,
        },
{
    match resolve_names(split_names(battery_names), devices, settings.ignore_missing) {
        Ok((batteries, skipped)) => {
            settings.batteries = batteries;
            Ok(skipped)
        },
        Err(e) => Err(e),
    }
}

} // verus!
