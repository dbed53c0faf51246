//! What the user is told when the alert state changes.

use crate::number::{decimal, push_decimal};
use crate::settings::{Configuration, Settings};
use crate::state::AlertState;
use crate::text::{chars_of, string_of};
use vstd::prelude::*;

verus! {

/// How pressing a notification is.
#[derive(Clone, Copy, Debug, PartialEq, Eq, Structural)]
pub enum Urgency {
    Normal,
    Critical,
}

/// What is to be done about a new alert state.
#[derive(Clone, Debug, PartialEq, Eq)]
pub enum Notice {
    /// Nothing.
    Nothing,
    /// Show a notification on the desktop.
    Popup { summary: String, body: String, urgency: Urgency },
    /// Hand a command line to the shell.
    Command { line: String },
}

/// A notice as plain values.
pub enum NoticeModel {
    Nothing,
    Popup { summary: Seq<char>, body: Seq<char>, urgency: Urgency },
    Command { line: Seq<char> },
}

impl View for Notice {
    type V = NoticeModel;

    open spec fn view(&self) -> NoticeModel {
        match *self {
            Notice::Nothing => NoticeModel::Nothing,
            Notice::Popup { summary, body, urgency } => NoticeModel::Popup {
                summary: summary@,
                body: body@,
                urgency,
            },
            Notice::Command { line } => NoticeModel::Command { line: line@ },
        }
    }
}

/// The body of every notification: the battery level in percent.
pub open spec fn level_text(percentage: nat) -> Seq<char> {
    "Battery level: "@ + decimal(percentage) + "%"@
}

/// The notice that a state calls for at a given percentage.
///
/// Warning, critical and full show their message, critical as urgent.
/// Danger runs the danger command where one is set and is silent where none
/// is. Charging and discharging are silent.
pub open spec fn notice_for(
    settings: Configuration,
    state: AlertState,
    percentage: nat,
) -> NoticeModel {
    match state {
        AlertState::Warning => NoticeModel::Popup {
            summary: settings.warningmsg,
            body: level_text(percentage),
            urgency: Urgency::Normal,
        },
        AlertState::Critical => NoticeModel::Popup {
            summary: settings.criticalmsg,
            body: level_text(percentage),
            urgency: Urgency::Critical,
        },
        AlertState::Full => NoticeModel::Popup {
            summary: settings.fullmsg,
            body: level_text(percentage),
            urgency: Urgency::Normal,
        },
        AlertState::Danger => match settings.dangercmd {
            Some(line) => NoticeModel::Command { line },
            None => NoticeModel::Nothing,
        },
        _ => NoticeModel::Nothing,
    }
}

/// The body of a notification.
fn level_body(percentage: u128) -> (r: String)
    ensures
        r@ == level_text(percentage as nat),
{
    let mut body = chars_of("Battery level: ");
    push_decimal(&mut body, percentage);
    body.push('%');
    proof {
        reveal_strlit("%");
        assert("%"@ =~= seq!['%']);
        assert(body@ =~= level_text(percentage as nat));
    }
    string_of(&body)
}

/// Decides what to do about a state that has just been entered.
pub fn notify_cmd(settings: &Settings, state: AlertState, charge_percent: u128) -> (r: Notice)
    ensures
        r@ == notice_for(settings@, state, charge_percent as nat),
{
    match state {
        AlertState::Warning => Notice::Popup {
            summary: settings.warningmsg.clone(),
            body: level_body(charge_percent),
            urgency: Urgency::Normal,
        },
        AlertState::Critical => Notice::Popup {
            summary: settings.criticalmsg.clone(),
            body: level_body(charge_percent),
            urgency: Urgency::Critical,
        },
        AlertState::Full => Notice::Popup {
            summary: settings.fullmsg.clone(),
            body: level_body(charge_percent),
            urgency: Urgency::Normal,
        },
        AlertState::Danger => match &settings.dangercmd {
            Some(line) => Notice::Command { line: line.clone() },
            None => Notice::Nothing,
        },
        _ => Notice::Nothing,
    }
}

} // verus!
