//! The settings record: which timeframe was asked for, the unit, the
//! coordinates and the credentials, and the rules by which a partly filled
//! record is completed.

use vstd::prelude::*;
use vstd::string::*;
use crate::api_keys::{ApiKeys, ApiKeysView};
use crate::text::{optional_view, same_text, to_uppercase, trim, trimmed, uppercased};

verus! {

/// The span of the forecast that was asked for.
#[derive(Clone, Copy, Debug, PartialEq, Eq, Structural)]
pub enum Timeframe {
    Current,
    Hourly,
    Daily,
}

/// The unit of temperature.
#[derive(Clone, Copy, Debug, PartialEq, Eq, Structural)]
pub enum Unit {
    F,
    C,
}

/// A position, latitude and longitude as decimal text.
#[derive(Clone, Debug, PartialEq, Eq)]
pub struct Coords {
    pub lat: String,
    pub lon: String,
}

/// The settings, each field absent until it was acquired.
#[derive(Clone, Debug, PartialEq, Eq)]
pub struct Config {
    pub timeframe: Option<Timeframe>,
    pub unit: Option<Unit>,
    pub coords: Option<Coords>,
    pub keys: Option<ApiKeys>,
}

/// What is acquired next while the settings are completed.
#[derive(Clone, Copy, Debug, PartialEq, Eq, Structural)]
pub enum Pending {
    Keys,
    Unit,
    Coordinates,
    Nothing,
}

/// How a run starts: with something to ask for, or with the record complete.
#[derive(Clone, Debug, PartialEq, Eq)]
pub enum Started {
    /// The record lacks fields; the first of them is asked for next.
    Ask(Pending, Config),
    /// The record has every field.
    Done(Config),
}

pub struct CoordsView {
    pub lat: Seq<char>,
    pub lon: Seq<char>,
}

pub struct ConfigView {
    pub timeframe: Option<Timeframe>,
    pub unit: Option<Unit>,
    pub coords: Option<CoordsView>,
    pub keys: Option<ApiKeysView>,
}

impl View for Coords {
    type V = CoordsView;

    open spec fn view(&self) -> CoordsView {
        CoordsView { lat: self.lat@, lon: self.lon@ }
    }
}

impl View for Config {
    type V = ConfigView;

    open spec fn view(&self) -> ConfigView {
        ConfigView {
            timeframe: self.timeframe,
            unit: self.unit,
            coords: match self.coords {
                Some(c) => Some(c@),
                None => None,
            },
            keys: match self.keys {
                Some(k) => Some(k@),
                None => None,
            },
        }
    }
}

/// The timeframe that a token names; the match is exact and case-sensitive.
pub open spec fn timeframe_of_token(token: Seq<char>) -> Option<Timeframe> {
    if token == "current"@ {
        Some(Timeframe::Current)
    } else if token == "hourly"@ {
        Some(Timeframe::Hourly)
    } else if token == "daily"@ {
        Some(Timeframe::Daily)
    } else {
        None
    }
}

/// The timeframe for an optional argument: `Current` where there is none.
pub open spec fn timeframe_of_arg(arg: Option<Seq<char>>) -> Option<Timeframe> {
    match arg {
        None => Some(Timeframe::Current),
        Some(token) => timeframe_of_token(token),
    }
}

/// The message that rejects `token`: it names the token.
pub open spec fn rejection_of(token: Seq<char>) -> Seq<char> {
    "Failed to parse input: "@ + token
}

/// The unit that a trimmed, upper-cased token names.
pub open spec fn unit_of_token(token: Seq<char>) -> Option<Unit> {
    if token == "F"@ {
        Some(Unit::F)
    } else if token == "C"@ {
        Some(Unit::C)
    } else {
        None
    }
}

/// The unit that a line of input names, if any.
pub open spec fn unit_of_input(line: Seq<char>) -> Option<Unit> {
    unit_of_token(uppercased(trimmed(line)))
}

/// The name by which the weather service knows a unit.
pub open spec fn unit_system(unit: Unit) -> Seq<char> {
    match unit {
        Unit::F => "imperial"@,
        Unit::C => "metric"@,
    }
}

/// What a record still lacks, in the order in which it is acquired.
pub open spec fn pending_of(c: ConfigView) -> Pending {
    if c.keys is None {
        Pending::Keys
    } else if c.unit is None {
        Pending::Unit
    } else if c.coords is None {
        Pending::Coordinates
    } else {
        Pending::Nothing
    }
}

/// A record with every field present.
pub open spec fn resolved(c: ConfigView) -> bool {
    &&& c.timeframe is Some
    &&& c.unit is Some
    &&& c.coords is Some
    &&& c.keys is Some
}

/// The record after the timeframe argument was applied, where it is accepted.
pub open spec fn with_timeframe(c: ConfigView, arg: Option<Seq<char>>) -> Option<ConfigView> {
    match timeframe_of_arg(arg) {
        Some(t) => Some(ConfigView { timeframe: Some(t), ..c }),
        None => None,
    }
}

/// The record after one answer to the unit prompt.
pub open spec fn with_unit_input(c: ConfigView, line: Seq<char>) -> ConfigView {
    if c.unit is Some {
        c
    } else {
        ConfigView { unit: unit_of_input(line), ..c }
    }
}

/// The views of a list of candidates.
pub open spec fn candidates_view(candidates: Seq<Coords>) -> Seq<CoordsView> {
    Seq::new(candidates.len(), |i: int| candidates[i]@)
}

/// The record after one geocoding lookup: the first candidate is taken.
pub open spec fn with_candidates(c: ConfigView, candidates: Seq<CoordsView>) -> ConfigView {
    if c.coords is Some || candidates.len() == 0 {
        c
    } else {
        ConfigView { coords: Some(candidates[0]), ..c }
    }
}

/// A record is complete exactly when it has a timeframe and nothing is
/// pending.
pub proof fn lemma_resolved_means_nothing_pending(c: ConfigView)
    ensures
        resolved(c) <==> c.timeframe is Some && pending_of(c) == Pending::Nothing,
{
}

/// Completing a record that holds credentials, unit and coordinates asks for
/// nothing: the record is complete once the timeframe is applied. Doing the
/// same again, with the same argument, asks for nothing either and leaves
/// the record as the first time left it.
pub proof fn lemma_rebuild_changes_nothing(stored: ConfigView, arg: Option<Seq<char>>)
    requires
        stored.keys is Some,
        stored.unit is Some,
        stored.coords is Some,
        timeframe_of_arg(arg) is Some,
    ensures
        with_timeframe(stored, arg) is Some,
        pending_of(with_timeframe(stored, arg)->0) == Pending::Nothing,
        resolved(with_timeframe(stored, arg)->0),
        with_timeframe(with_timeframe(stored, arg)->0, arg) == with_timeframe(stored, arg),
{
}

/// A round of a prompt leaves a record alone that already holds what the
/// prompt is for.
pub proof fn lemma_present_fields_stay(c: ConfigView, line: Seq<char>, candidates: Seq<CoordsView>)
    ensures
        c.unit is Some ==> with_unit_input(c, line) == c,
        c.coords is Some ==> with_candidates(c, candidates) == c,
{
}

impl Started {
    /// The record that the run holds.
    pub open spec fn record(self) -> ConfigView {
        match self {
            Started::Ask(_, config) => config@,
            Started::Done(config) => config@,
        }
    }

    /// A run is done exactly when its record has every field; while it is
    /// not, its record has a timeframe, and what it asks for is the first
    /// field that the record lacks.
    pub open spec fn well_formed(self) -> bool {
        match self {
            Started::Done(config) => resolved(config@),
            Started::Ask(pending, config) => {
                &&& config@.timeframe is Some
                &&& pending == pending_of(config@)
                &&& pending != Pending::Nothing
            },
        }
    }
}

/// Resolves the optional timeframe argument: absent means `Current`, one of
/// the three tokens means its timeframe, anything else is rejected with a
/// message that names it.
pub fn resolve_timeframe(arg: &Option<String>) -> (r: Result<Timeframe, String>)
    ensures
        match r {
            Ok(t) => timeframe_of_arg(optional_view(*arg)) == Some(t),
            Err(msg) => {
                &&& timeframe_of_arg(optional_view(*arg)) is None
                &&& *arg matches Some(token)
                &&& msg@ == rejection_of(token@)
            },
        },
{
    match arg {
        None => Ok(Timeframe::Current),
        Some(token) => {
            if same_text(token.as_str(), "current") {
                Ok(Timeframe::Current)
            } else if same_text(token.as_str(), "hourly") {
                Ok(Timeframe::Hourly)
            } else if same_text(token.as_str(), "daily") {
                Ok(Timeframe::Daily)
            } else {
                Err(String::from_str("Failed to parse input: ").concat(token.as_str()))
            }
        },
    }
}

impl Unit {
    /// The unit that a trimmed, upper-cased token names: exactly `F` or `C`.
    pub fn from_token(token: &str) -> (r: Option<Unit>)
        ensures
            r == unit_of_token(token@),
    {
        if same_text(token, "F") {
            Some(Unit::F)
        } else if same_text(token, "C") {
            Some(Unit::C)
        } else {
            None
        }
    }

    /// Reads one answer to the unit prompt: the line is trimmed and
    /// upper-cased, and must then be `F` or `C`.
    pub fn parse(line: &str) -> (r: Option<Unit>)
        ensures
            r == unit_of_input(line@),
    {
        let token = to_uppercase(trim(line));
        Unit::from_token(token.as_str())
    }

    /// The name by which the weather service knows this unit.
    pub fn system(&self) -> (r: &'static str)
        ensures
            r@ == unit_system(*self),
    {
        match self {
            Unit::F => "imperial",
            Unit::C => "metric",
        }
    }
}

impl Coords {
    /// A copy of these coordinates.
    pub fn duplicate(&self) -> (r: Coords)
        ensures
            r@ == self@,
    {
        Coords { lat: self.lat.clone(), lon: self.lon.clone() }
    }
}

impl Config {
    /// The record with no field present: what an absent file stands for.
    pub fn empty() -> (r: Config)
        ensures
            r@ == (ConfigView { timeframe: None, unit: None, coords: None, keys: None }),
    {
        Config { timeframe: None, unit: None, coords: None, keys: None }
    }

    /// Starts a run from the record that was stored: the timeframe argument is
    /// applied to it, and an argument that names no timeframe is rejected
    /// before anything is asked for. A record that then has every field is
    /// handed back as done; any other comes back with what is asked for first.
    pub fn build(arg: Option<String>, stored: Config) -> (r: Result<Started, String>)
        ensures
            r matches Ok(started) ==> started.well_formed(),
            match r {
                Ok(Started::Done(config)) => {
                    &&& Some(config@) == with_timeframe(stored@, optional_view(arg))
                    &&& resolved(config@)
                },
                Ok(Started::Ask(pending, config)) => {
                    &&& Some(config@) == with_timeframe(stored@, optional_view(arg))
                    &&& pending == pending_of(config@)
                    &&& pending != Pending::Nothing
                },
                Err(msg) => {
                    &&& with_timeframe(stored@, optional_view(arg)) is None
                    &&& arg matches Some(token)
                    &&& msg@ == rejection_of(token@)
                },
            },
    {
        let mut config = stored;
        match config.set_timeframe(arg) {
            Ok(_) => match config.pending() {
                Pending::Nothing => Ok(Started::Done(config)),
                pending => Ok(Started::Ask(pending, config)),
            },
            Err(msg) => Err(msg),
        }
    }

    /// Sets the timeframe from the optional argument. An argument that names
    /// no timeframe is rejected and leaves the record as it was.
    pub fn set_timeframe(&mut self, arg: Option<String>) -> (r: Result<(), String>)
        ensures
            match r {
                Ok(_) => Some(final(self)@) == with_timeframe(old(self)@, optional_view(arg)),
                Err(msg) => {
                    &&& with_timeframe(old(self)@, optional_view(arg)) is None
                    &&& arg matches Some(token)
                    &&& msg@ == rejection_of(token@)
                    &&& final(self)@ == old(self)@
                },
            },
    {
        match resolve_timeframe(&arg) {
            Ok(t) => {
                self.timeframe = Some(t);
                Ok(())
            },
            Err(msg) => Err(msg),
        }
    }

    /// Stores the credentials.
    pub fn set_keys(&mut self, keys: ApiKeys)
        ensures
            final(self)@ == (ConfigView { keys: Some(keys@), ..old(self)@ }),
    {
        self.keys = Some(keys);
    }

    /// One round of the unit prompt. A unit already present stays; else the
    /// line is read as a unit and stored if it names one. Returns whether the
    /// record has a unit now.
    pub fn set_unit(&mut self, line: &str) -> (filled: bool)
        ensures
            final(self)@ == with_unit_input(old(self)@, line@),
            filled == final(self)@.unit.is_some(),
    {
        if self.unit.is_some() {
            return true;
        }
        match Unit::parse(line) {
            Some(unit) => {
                self.unit = Some(unit);
                true
            },
            None => false,
        }
    }

    /// One round of the location prompt, given the candidates that the
    /// geocoding lookup ranked for the place entered. Coordinates already
    /// present stay; else the first candidate is stored. Returns whether the
    /// record has coordinates now.
    pub fn set_coords(&mut self, candidates: &Vec<Coords>) -> (filled: bool)
        ensures
            final(self)@ == with_candidates(old(self)@, candidates_view(candidates@)),
            filled == final(self)@.coords.is_some(),
    {
        if self.coords.is_some() {
            return true;
        }
        if candidates.len() == 0 {
            return false;
        }
        self.coords = Some(candidates[0].duplicate());
        true
    }

    /// What is acquired next: the credentials, then the unit, then the
    /// coordinates; nothing once all three are present.
    pub fn pending(&self) -> (r: Pending)
        ensures
            r == pending_of(self@),
    {
        if self.keys.is_none() {
            Pending::Keys
        } else if self.unit.is_none() {
            Pending::Unit
        } else if self.coords.is_none() {
            Pending::Coordinates
        } else {
            Pending::Nothing
        }
    }

    /// Whether every field is present.
    pub fn is_resolved(&self) -> (r: bool)
        ensures
            r == resolved(self@),
    {
        self.timeframe.is_some() && self.unit.is_some() && self.coords.is_some()
            && self.keys.is_some()
    }

    /// The timeframe, if one is set.
    pub fn get_timeframe(&self) -> (r: &Option<Timeframe>)
        ensures
            *r == self@.timeframe,
    {
        &self.timeframe
    }

    /// The unit, if one is set.
    pub fn get_unit(&self) -> (r: &Option<Unit>)
        ensures
            *r == self@.unit,
    {
        &self.unit
    }

    /// The latitude, if coordinates are set.
    pub fn get_lat(&self) -> (r: Option<&String>)
        ensures
            match r {
                Some(lat) => self@.coords is Some && lat@ == self@.coords->0.lat,
                None => self@.coords is None,
            },
    {
        match &self.coords {
            Some(coords) => Some(&coords.lat),
            None => None,
        }
    }

    /// The longitude, if coordinates are set.
    pub fn get_lon(&self) -> (r: Option<&String>)
        ensures
            match r {
                Some(lon) => self@.coords is Some && lon@ == self@.coords->0.lon,
                None => self@.coords is None,
            },
    {
        match &self.coords {
            Some(coords) => Some(&coords.lon),
            None => None,
        }
    }

    /// The key of the weather service, if the keys are set.
    pub fn get_weather_key(&self) -> (r: Option<&String>)
        ensures
            match r {
                Some(key) => self@.keys is Some && key@ == self@.keys->0.weather_key,
                None => self@.keys is None,
            },
    {
        match &self.keys {
            Some(keys) => Some(&keys.weather_key),
            None => None,
        }
    }

    /// The key of the geocoding service, if the keys are set.
    pub fn get_location_key(&self) -> (r: Option<&String>)
        ensures
            match r {
                Some(key) => self@.keys is Some && key@ == self@.keys->0.location_key,
                None => self@.keys is None,
            },
    {
        match &self.keys {
            Some(keys) => Some(&keys.location_key),
            None => None,
        }
    }
}

} // verus!
