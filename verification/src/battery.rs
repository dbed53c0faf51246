//! Batteries: how they are found, named and read.

use crate::number::{parse_u32, u32_value};
use crate::text::{chars_of, contains, occurs_in, push_text, spells, string_of, trim, trimmed};
use vstd::prelude::*;

verus! {

/// What a battery reports about the direction of its charge.
#[derive(Clone, Copy, Debug, PartialEq, Eq, Structural)]
pub enum BatteryStatus {
    Unknown,
    Charging,
    Discharging,
    NotCharging,
    Full,
}

/// A status text that names no status; `found` is the text without the
/// white space around it.
#[derive(Clone, Debug, PartialEq, Eq)]
pub struct StatusError {
    pub found: String,
}

impl StatusError {
    /// The error in words.
    pub open spec fn text(self) -> Seq<char> {
        "Failed to parse battery status, found "@ + self.found@
    }

    /// The error in words.
    pub fn message(&self) -> (r: String)
        ensures
            r@ == self.text(),
    {
        let mut line: Vec<char> = Vec::new();
        push_text(&mut line, "Failed to parse battery status, found ");
        push_text(&mut line, self.found.as_str());
        assert(line@ =~= self.text());
        string_of(&line)
    }
}

/// The status that a name stands for.
pub open spec fn status_named(name: Seq<char>) -> Option<BatteryStatus> {
    if name == "Unknown"@ {
        Some(BatteryStatus::Unknown)
    } else if name == "Charging"@ {
        Some(BatteryStatus::Charging)
    } else if name == "Discharging"@ {
        Some(BatteryStatus::Discharging)
    } else if name == "Not charging"@ {
        Some(BatteryStatus::NotCharging)
    } else if name == "Full"@ {
        Some(BatteryStatus::Full)
    } else {
        None
    }
}

impl BatteryStatus {
    /// Reads a status from its name, with any white space around it.
    pub fn from_str(s: &str) -> (r: Result<BatteryStatus, StatusError>)
        ensures
            match r {
                Ok(status) => status_named(trimmed(s@)) == Some(status),
                Err(e) => status_named(trimmed(s@)) is None && e.found@ == trimmed(s@),
            },
    {
        let name = trim(&chars_of(s));
        if spells(&name, "Unknown") {
            Ok(BatteryStatus::Unknown)
        } else if spells(&name, "Charging") {
            Ok(BatteryStatus::Charging)
        } else if spells(&name, "Discharging") {
            Ok(BatteryStatus::Discharging)
        } else if spells(&name, "Not charging") {
            Ok(BatteryStatus::NotCharging)
        } else if spells(&name, "Full") {
            Ok(BatteryStatus::Full)
        } else {
            Err(StatusError { found: string_of(&name) })
        }
    }
}

/// One monitored battery with its latest reading.
#[derive(Clone, Debug, PartialEq, Eq)]
pub struct Battery {
    pub name: String,
    pub status: BatteryStatus,
    pub energy_full: u32,
    pub energy_now: u32,
}

/// A snapshot of one battery: who it is, what it does, and how much energy
/// it holds out of how much it can hold.
pub struct BatteryReading {
    pub identifier: Seq<char>,
    pub status: BatteryStatus,
    pub energy_now: nat,
    pub energy_full: nat,
}

impl View for Battery {
    type V = BatteryReading;

    open spec fn view(&self) -> BatteryReading {
        BatteryReading {
            identifier: self.name@,
            status: self.status,
            energy_now: self.energy_now as nat,
            energy_full: self.energy_full as nat,
        }
    }
}

impl DeepView for Battery {
    type V = BatteryReading;

    open spec fn deep_view(&self) -> BatteryReading {
        self@
    }
}

/// Why no battery could be resolved.
#[derive(Clone, Debug, PartialEq, Eq)]
pub enum DiscoveryError {
    /// The named battery is not among the system's devices.
    NotFound { name: String },
    /// No device on the system is a battery.
    NoBatteriesFound,
}

impl DiscoveryError {
    /// The error in words.
    pub open spec fn text(self) -> Seq<char> {
        match self {
            DiscoveryError::NotFound { name } => "Battery "@ + name@ + " not found"@,
            DiscoveryError::NoBatteriesFound => "No batteries found"@,
        }
    }

    /// The error in words.
    pub fn message(&self) -> (r: String)
        ensures
            r@ == self.text(),
    {
        let mut line: Vec<char> = Vec::new();
        match self {
            DiscoveryError::NotFound { name } => {
                push_text(&mut line, "Battery ");
                push_text(&mut line, name.as_str());
                push_text(&mut line, " not found");
            },
            DiscoveryError::NoBatteriesFound => {
                push_text(&mut line, "No batteries found");
            },
        }
        assert(line@ =~= self.text());
        string_of(&line)
    }
}

/// The reading of a battery that has not been read yet: discharging and
/// empty.
pub open spec fn unread(name: Seq<char>) -> BatteryReading {
    BatteryReading {
        identifier: name,
        status: BatteryStatus::Discharging,
        energy_now: 0,
        energy_full: 0,
    }
}

/// The attributes that a battery exposes.
#[derive(Clone, Copy, Debug, PartialEq, Eq, Structural)]
pub enum Attribute {
    EnergyNow,
    EnergyFull,
    Status,
}

/// The attributes of one battery as text, each as it was read, or nothing
/// where it could not be read.
#[derive(Clone, Debug, PartialEq, Eq)]
pub struct RawReading {
    pub energy_now: Option<String>,
    pub energy_full: Option<String>,
    pub status: Option<String>,
}

/// The attributes of one battery as sequences of characters.
pub struct RawTexts {
    pub energy_now: Option<Seq<char>>,
    pub energy_full: Option<Seq<char>>,
    pub status: Option<Seq<char>>,
}

impl View for RawReading {
    type V = RawTexts;

    open spec fn view(&self) -> RawTexts {
        RawTexts {
            energy_now: self.energy_now.deep_view(),
            energy_full: self.energy_full.deep_view(),
            status: self.status.deep_view(),
        }
    }
}

impl DeepView for RawReading {
    type V = RawTexts;

    open spec fn deep_view(&self) -> RawTexts {
        self@
    }
}

/// What is wrong with an attribute.
#[derive(Clone, Copy, Debug, PartialEq, Eq, Structural)]
pub enum Defect {
    /// The attribute could not be read.
    Missing,
    /// The attribute's text does not have the form expected of it.
    Unparsable,
}

/// Why a battery has no current reading.
#[derive(Clone, Debug, PartialEq, Eq)]
pub struct ReadError {
    pub battery: String,
    pub attribute: Attribute,
    pub defect: Defect,
}

impl Attribute {
    /// The attribute's name on the system.
    pub open spec fn label(self) -> Seq<char> {
        match self {
            Attribute::EnergyNow => "energy_now"@,
            Attribute::EnergyFull => "energy_full"@,
            Attribute::Status => "status"@,
        }
    }

    /// The attribute's name on the system.
    pub fn name(self) -> (r: &'static str)
        ensures
            r@ == self.label(),
    {
        match self {
            Attribute::EnergyNow => "energy_now",
            Attribute::EnergyFull => "energy_full",
            Attribute::Status => "status",
        }
    }
}

impl ReadError {
    /// The error in words.
    pub open spec fn text(self) -> Seq<char> {
        match self.defect {
            Defect::Missing => "Error reading "@ + self.attribute.label() + " for "@
                + self.battery@,
            Defect::Unparsable => "Error parsing "@ + self.attribute.label() + " for "@
                + self.battery@,
        }
    }

    /// The error in words.
    pub fn message(&self) -> (r: String)
        ensures
            r@ == self.text(),
    {
        let mut line: Vec<char> = Vec::new();
        match self.defect {
            Defect::Missing => {
                push_text(&mut line, "Error reading ");
            },
            Defect::Unparsable => {
                push_text(&mut line, "Error parsing ");
            },
        }
        push_text(&mut line, self.attribute.name());
        push_text(&mut line, " for ");
        push_text(&mut line, self.battery.as_str());
        assert(line@ =~= self.text());
        string_of(&line)
    }
}

/// An energy counter: a 32-bit unsigned number in decimal notation, with
/// any white space around it.
pub open spec fn energy_in(text: Option<Seq<char>>) -> Result<u32, Defect> {
    match text {
        None => Err(Defect::Missing),
        Some(t) => match u32_value(trimmed(t)) {
            Some(v) => Ok(v),
            None => Err(Defect::Unparsable),
        },
    }
}

/// A status: one of the five names, with any white space around it.
pub open spec fn status_in(text: Option<Seq<char>>) -> Result<BatteryStatus, Defect> {
    match text {
        None => Err(Defect::Missing),
        Some(t) => match status_named(trimmed(t)) {
            Some(s) => Ok(s),
            None => Err(Defect::Unparsable),
        },
    }
}

/// The reading that the raw attributes of the battery `name` amount to, or
/// the first attribute that has a defect, taking the energy held, then the
/// capacity, then the status.
pub open spec fn reading_of(name: Seq<char>, raw: RawTexts) -> Result<
    BatteryReading,
    (Attribute, Defect),
> {
    match energy_in(raw.energy_now) {
        Err(d) => Err((Attribute::EnergyNow, d)),
        Ok(now) => match energy_in(raw.energy_full) {
            Err(d) => Err((Attribute::EnergyFull, d)),
            Ok(full) => match status_in(raw.status) {
                Err(d) => Err((Attribute::Status, d)),
                Ok(s) => Ok(
                    BatteryReading {
                        identifier: name,
                        status: s,
                        energy_now: now as nat,
                        energy_full: full as nat,
                    },
                ),
            },
        },
    }
}

/// Reads an energy counter.
fn read_energy(text: &Option<String>) -> (r: Result<u32, Defect>)
    ensures
        r == energy_in(text.deep_view()),
{
    match text {
        None => Err(Defect::Missing),
        Some(t) => match parse_u32(&trim(&chars_of(t.as_str()))) {
            Some(v) => Ok(v),
            None => Err(Defect::Unparsable),
        },
    }
}

/// Reads a status.
fn read_status(text: &Option<String>) -> (r: Result<BatteryStatus, Defect>)
    ensures
        r == status_in(text.deep_view()),
{
    match text {
        None => Err(Defect::Missing),
        Some(t) => match BatteryStatus::from_str(t.as_str()) {
            Ok(s) => Ok(s),
            Err(_) => Err(Defect::Unparsable),
        },
    }
}


impl Battery {
    /// A battery under `name`, given whether the system has a device of
    /// that name.
    pub fn new(name: String, present: bool) -> (r: Result<Battery, DiscoveryError>)
        ensures
            match r {
                Ok(battery) => present && battery@ == unread(name@),
                Err(DiscoveryError::NotFound { name: missing }) => !present && missing@ == name@,
                Err(DiscoveryError::NoBatteriesFound) => false,
            },
    {
        if present {
            Ok(Battery { name, status: BatteryStatus::Discharging, energy_full: 0, energy_now: 0 })
        } else {
            Err(DiscoveryError::NotFound { name })
        }
    }

    /// Replaces the battery's reading by what the raw attributes say. Where
    /// an attribute has a defect the battery is left as it was.
    pub fn update(&mut self, raw: &RawReading) -> (r: Result<(), ReadError>)
        ensures
            match (r, reading_of(old(self).name@, raw@)) {
                (Ok(()), Ok(reading)) => final(self)@ == reading,
                (Err(e), Err((attribute, defect))) => {
                    &&& *final(self) == *old(self)
                    &&& e.battery@ == old(self).name@
                    &&& e.attribute == attribute
                    &&& e.defect == defect
                },
                _ => false,
            },
    {
        let now = match read_energy(&raw.energy_now) {
            Ok(v) => v,
            Err(defect) => {
                return Err(
                    ReadError { battery: self.name.clone(), attribute: Attribute::EnergyNow, defect },
                );
            },
        };
        let full = match read_energy(&raw.energy_full) {
            Ok(v) => v,
            Err(defect) => {
                return Err(
                    ReadError {
                        battery: self.name.clone(),
                        attribute: Attribute::EnergyFull,
                        defect,
                    },
                );
            },
        };
        let status = match read_status(&raw.status) {
            Ok(v) => v,
            Err(defect) => {
                return Err(
                    ReadError { battery: self.name.clone(), attribute: Attribute::Status, defect },
                );
            },
        };
        self.energy_now = now;
        self.energy_full = full;
        self.status = status;
        Ok(())
    }
}

/// The raw attributes of the battery at position `i`; where the list is
/// too short for it, none of them could be read.
pub open spec fn texts_at(raw: Seq<RawTexts>, i: int) -> RawTexts {
    if 0 <= i < raw.len() {
        raw[i]
    } else {
        RawTexts { energy_now: None, energy_full: None, status: None }
    }
}

/// What the battery at position `i` reads now.
pub open spec fn fresh(batteries: Seq<BatteryReading>, raw: Seq<RawTexts>, i: int) -> Result<
    BatteryReading,
    (Attribute, Defect),
> {
    reading_of(batteries[i].identifier, texts_at(raw, i))
}

/// The battery at position `i` reads now as `reading`.
pub open spec fn reads_as(
    batteries: Seq<BatteryReading>,
    raw: Seq<RawTexts>,
    i: int,
    reading: BatteryReading,
) -> bool {
    fresh(batteries, raw, i) matches Ok(r) && r == reading
}

/// The battery at position `i` cannot be read, for that defect of that
/// attribute.
pub open spec fn fails_with(
    batteries: Seq<BatteryReading>,
    raw: Seq<RawTexts>,
    i: int,
    attribute: Attribute,
    defect: Defect,
) -> bool {
    fresh(batteries, raw, i) matches Err(e) && e == (attribute, defect)
}

/// Gives every battery its current reading, in order, and stops at the
/// first battery that has an attribute with a defect: the batteries before
/// it have their new readings, that one and those after it are as they
/// were.
pub fn update_batteries(batteries: &mut Vec<Battery>, raw: &Vec<RawReading>) -> (r: Result<
    (),
    ReadError,
>)
    ensures
        final(batteries).len() == old(batteries).len(),
        match r {
            Ok(()) => forall|i: int|
                0 <= i < old(batteries).len() ==> reads_as(
                    old(batteries).deep_view(),
                    raw.deep_view(),
                    i,
                    #[trigger] final(batteries)[i]@,
                ),
            Err(e) => exists|at: int|
                {
                    &&& 0 <= at < old(batteries).len()
                    &&& forall|i: int|
                        0 <= i < at ==> reads_as(
                            old(batteries).deep_view(),
                            raw.deep_view(),
                            i,
                            #[trigger] final(batteries)[i]@,
                        )
                    &&& forall|i: int|
                        at <= i < old(batteries).len() ==> #[trigger] final(batteries)[i] == old(
                            batteries,
                        )[i]
                    &&& #[trigger] fails_with(
                        old(batteries).deep_view(),
                        raw.deep_view(),
                        at,
                        e.attribute,
                        e.defect,
                    )
                    &&& e.battery@ == old(batteries)[at].name@
                },
        },
{
    let mut i: usize = 0;
    while i < batteries.len()
        invariant
            i <= batteries.len(),
            batteries.len() == old(batteries).len(),
            forall|k: int|
                0 <= k < i ==> reads_as(
                    old(batteries).deep_view(),
                    raw.deep_view(),
                    k,
                    #[trigger] batteries[k]@,
                ),
            forall|k: int| i <= k < batteries.len() ==> #[trigger] batteries[k] == old(batteries)[k],
        decreases batteries.len() - i,
    {
        let updated = if i < raw.len() {
            batteries[i].update(&raw[i])
        } else {
            batteries[i].update(&RawReading { energy_now: None, energy_full: None, status: None })
        };
        match updated {
            Ok(()) => {},
            Err(e) => {
                assert(fails_with(
                    old(batteries).deep_view(),
                    raw.deep_view(),
                    i as int,
                    e.attribute,
                    e.defect,
                ));
                return Err(e);
            },
        }
        i += 1;
    }
    Ok(())
}

/// A device of the system: its name, and the text of its type attribute
/// where it has one.
#[derive(Clone, Debug, PartialEq, Eq)]
pub struct Device {
    pub name: String,
    pub kind: Option<String>,
}

/// A device as sequences of characters.
pub struct DeviceEntry {
    pub name: Seq<char>,
    pub kind: Option<Seq<char>>,
}

impl View for Device {
    type V = DeviceEntry;

    open spec fn view(&self) -> DeviceEntry {
        DeviceEntry { name: self.name@, kind: self.kind.deep_view() }
    }
}

impl DeepView for Device {
    type V = DeviceEntry;

    open spec fn deep_view(&self) -> DeviceEntry {
        self@
    }
}

/// A device is a battery where its type attribute says `Battery`
/// somewhere.
pub open spec fn is_battery(device: DeviceEntry) -> bool {
    match device.kind {
        Some(kind) => occurs_in(kind, "Battery"@),
        None => false,
    }
}

/// The batteries among the devices, in the devices' order, none of them
/// read yet.
pub open spec fn batteries_among(devices: Seq<DeviceEntry>) -> Seq<BatteryReading>
    decreases devices.len(),
{
    if devices.len() == 0 {
        Seq::empty()
    } else if is_battery(devices.last()) {
        batteries_among(devices.drop_last()).push(unread(devices.last().name))
    } else {
        batteries_among(devices.drop_last())
    }
}

/// Picks the batteries among the system's devices. It is an error if there
/// is none.
pub fn find_batteries(devices: &Vec<Device>) -> (r: Result<Vec<Battery>, DiscoveryError>)
    ensures
        match r {
            Ok(found) => found.len() > 0 && found.deep_view() == batteries_among(
                devices.deep_view(),
            ),
            Err(e) => e == DiscoveryError::NoBatteriesFound && batteries_among(
                devices.deep_view(),
            ).len() == 0,
        },
{
    let word = chars_of("Battery");
    let mut found: Vec<Battery> = Vec::new();
    let mut i: usize = 0;
    while i < devices.len()
        invariant
            i <= devices.len(),
            word@ == "Battery"@,
            found.deep_view() == batteries_among(devices.deep_view().take(i as int)),
        decreases devices.len() - i,
    {
        let device = &devices[i];
        let is_one = match &device.kind {
            Some(kind) => contains(&chars_of(kind.as_str()), &word),
            None => false,
        };
        proof {
            let next = devices.deep_view().take(i + 1);
            assert(next.drop_last() =~= devices.deep_view().take(i as int));
            assert(next.last() == device@);
        }
        if is_one {
            let ghost before = found.deep_view();
            found.push(
                Battery {
                    name: device.name.clone(),
                    status: BatteryStatus::Discharging,
                    energy_full: 0,
                    energy_now: 0,
                },
            );
            assert(found.deep_view() =~= before.push(unread(device.name@)));
        }
        i += 1;
    }
    proof {
        assert(devices.deep_view().take(devices.len() as int) =~= devices.deep_view());
    }
    if found.len() > 0 {
        Ok(found)
    } else {
        Err(DiscoveryError::NoBatteriesFound)
    }
}

/// The names, in order, that are among the devices (`present`) or are not
/// (`!present`).
pub open spec fn names_where(names: Seq<Seq<char>>, devices: Seq<Seq<char>>, present: bool) -> Seq<
    Seq<char>,
>
    decreases names.len(),
{
    if names.len() == 0 {
        Seq::empty()
    } else if devices.contains(names.last()) == present {
        names_where(names.drop_last(), devices, present).push(names.last())
    } else {
        names_where(names.drop_last(), devices, present)
    }
}

/// What the first `n` names select stands at the front of what all names
/// select.
pub proof fn lemma_names_where_grows(
    names: Seq<Seq<char>>,
    devices: Seq<Seq<char>>,
    present: bool,
    n: int,
)
    requires
        0 <= n <= names.len(),
    ensures
        names_where(names.take(n), devices, present).is_prefix_of(
            names_where(names, devices, present),
        ),
    decreases names.len() - n,
{
    if n < names.len() {
        lemma_names_where_grows(names, devices, present, n + 1);
        assert(names.take(n + 1).drop_last() =~= names.take(n));
    } else {
        assert(names.take(n) =~= names);
    }
}

/// Whether a name is among the devices' names.
fn is_known(devices: &Vec<String>, name: &String) -> (r: bool)
    ensures
        r == devices.deep_view().contains(name@),
{
    let mut i: usize = 0;
    while i < devices.len()
        invariant
            i <= devices.len(),
            forall|k: int| 0 <= k < i ==> devices.deep_view()[k] != name@,
        decreases devices.len() - i,
    {
        if devices[i] == *name {
            assert(devices.deep_view()[i as int] == name@);
            return true;
        }
        i += 1;
    }
    false
}

/// Makes a battery of each requested name that is among the devices'
/// names, in the order requested.
///
/// A name that is not among them is an error; with `ignore_missing` it is
/// left out instead and handed back in the second list.
pub fn resolve_names(names: Vec<String>, devices: &Vec<String>, ignore_missing: bool) -> (r:
    Result<(Vec<Battery>, Vec<String>), DiscoveryError>)
    ensures
        match r {
            Ok((batteries, skipped)) => {
                &&& batteries.deep_view() == names_where(
                    names.deep_view(),
                    devices.deep_view(),
                    true,
                ).map_values(|name: Seq<char>| unread(name))
                &&& skipped.deep_view() == names_where(
                    names.deep_view(),
                    devices.deep_view(),
                    false,
                )
                &&& ignore_missing || skipped.len() == 0
            },
            Err(DiscoveryError::NotFound { name }) => {
                &&& !ignore_missing
                &&& names_where(names.deep_view(), devices.deep_view(), false).len() > 0
                &&& name@ == names_where(names.deep_view(), devices.deep_view(), false)[0]
            },
            Err(DiscoveryError::NoBatteriesFound) => false,
        },
{
    let ghost wanted = names.deep_view();
    let ghost known = devices.deep_view();
    let mut batteries: Vec<Battery> = Vec::new();
    let mut skipped: Vec<String> = Vec::new();
    let mut i: usize = 0;
    while i < names.len()
        invariant
            i <= names.len(),
            wanted == names.deep_view(),
            known == devices.deep_view(),
            batteries.deep_view() == names_where(wanted.take(i as int), known, true).map_values(
                |name: Seq<char>| unread(name),
            ),
            skipped.deep_view() == names_where(wanted.take(i as int), known, false),
            ignore_missing || skipped.len() == 0,
        decreases names.len() - i,
    {
        let name = names[i].clone();
        let present = is_known(devices, &name);
        proof {
            let next = wanted.take(i + 1);
            assert(next.drop_last() =~= wanted.take(i as int));
            assert(next.last() == name@);
            lemma_names_where_grows(wanted, known, false, i + 1);
        }
        if present {
            let ghost before = batteries.deep_view();
            batteries.push(
                Battery { name, status: BatteryStatus::Discharging, energy_full: 0, energy_now: 0 },
            );
            assert(batteries.deep_view() =~= before.push(unread(name@)));
            assert(batteries.deep_view() =~= names_where(
                wanted.take(i + 1),
                known,
                true,
            ).map_values(|name: Seq<char>| unread(name)));
        } else if ignore_missing {
            let ghost before = skipped.deep_view();
            skipped.push(name);
            assert(skipped.deep_view() =~= before.push(name@));
        } else {
            proof {
                let part = names_where(wanted.take(i + 1), known, false);
                let all = names_where(wanted, known, false);
                assert(part =~= seq![name@]);
                assert(part.is_prefix_of(all));
                assert(all[0] == part[0]);
            }
            return Err(DiscoveryError::NotFound { name });
        }
        i += 1;
    }
    proof {
        assert(wanted.take(names.len() as int) =~= wanted);
    }
    Ok((batteries, skipped))
}

} // verus!
