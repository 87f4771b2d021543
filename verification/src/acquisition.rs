//! The prompts run over a script of answers: which answer is taken, what the
//! record holds afterwards, and how many lines and lookups were used.

use vstd::prelude::*;
use crate::api_keys::{
    acquire_credential, first_accepted_at, key_acquired, lemma_rejections_then_acceptance,
    prompts_consumed, script_view, ApiKeys, ApiKeysView, Attempt, AttemptView,
};
use crate::arg_parser::{
    candidates_view, pending_of, resolved, unit_of_input, Config, ConfigView, Coords, CoordsView,
    Pending, Started, Unit,
};
use crate::text::{lines_view, trimmed};

verus! {

/// What is answered to the prompts of one run, prompt by prompt and in the
/// order in which each prompt is answered.
#[derive(Clone, Debug, PartialEq, Eq)]
pub struct Answers {
    /// The rounds of the prompt for the weather key.
    pub weather_keys: Vec<Attempt>,
    /// The rounds of the prompt for the geocoding key.
    pub location_keys: Vec<Attempt>,
    /// The lines answered to the unit prompt.
    pub units: Vec<String>,
    /// For each place entered, the candidates that the lookup gave; none
    /// where the lookup failed.
    pub places: Vec<Vec<Coords>>,
}

pub struct AnswersView {
    pub weather_keys: Seq<AttemptView>,
    pub location_keys: Seq<AttemptView>,
    pub units: Seq<Seq<char>>,
    pub places: Seq<Seq<CoordsView>>,
}

/// The views of the candidates of each lookup.
pub open spec fn places_view(places: Seq<Vec<Coords>>) -> Seq<Seq<CoordsView>> {
    Seq::new(places.len(), |i: int| candidates_view(places[i]@))
}

impl View for Answers {
    type V = AnswersView;

    open spec fn view(&self) -> AnswersView {
        AnswersView {
            weather_keys: script_view(self.weather_keys@),
            location_keys: script_view(self.location_keys@),
            units: lines_view(self.units@),
            places: places_view(self.places@),
        }
    }
}

/// Where a run stands after the prompts, with the lines read and the
/// lookups made.
#[derive(Clone, Debug, PartialEq, Eq)]
pub struct Completion {
    pub state: Started,
    pub lines: usize,
    pub lookups: usize,
}

pub struct CompletionView {
    pub config: ConfigView,
    pub lines: nat,
    pub lookups: nat,
}

impl View for Completion {
    type V = CompletionView;

    open spec fn view(&self) -> CompletionView {
        CompletionView {
            config: self.state.record(),
            lines: self.lines as nat,
            lookups: self.lookups as nat,
        }
    }
}

/// Line `n` names a unit and no line before it does.
pub open spec fn unit_named_at(lines: Seq<Seq<char>>, n: int) -> bool {
    &&& 0 <= n < lines.len()
    &&& unit_of_input(lines[n]) is Some
    &&& forall|i: int| 0 <= i < n ==> unit_of_input(#[trigger] lines[i]) is None
}

/// The rounds of the unit prompt that a list of lines is good for: up to and
/// with the first line that names a unit, or all of them.
pub open spec fn unit_rounds(lines: Seq<Seq<char>>) -> nat {
    if exists|n: int| unit_named_at(lines, n) {
        (choose|n: int| unit_named_at(lines, n)) as nat + 1
    } else {
        lines.len()
    }
}

/// The unit that the first line names that names one.
pub open spec fn unit_answered(lines: Seq<Seq<char>>) -> Option<Unit> {
    if exists|n: int| unit_named_at(lines, n) {
        unit_of_input(lines[choose|n: int| unit_named_at(lines, n)])
    } else {
        None
    }
}

/// Lookup `n` gave a candidate and no lookup before it did.
pub open spec fn place_found_at(places: Seq<Seq<CoordsView>>, n: int) -> bool {
    &&& 0 <= n < places.len()
    &&& places[n].len() > 0
    &&& forall|i: int| 0 <= i < n ==> (#[trigger] places[i]).len() == 0
}

/// The rounds of the location prompt that a list of lookups is good for: up
/// to and with the first that gave a candidate, or all of them.
pub open spec fn place_rounds(places: Seq<Seq<CoordsView>>) -> nat {
    if exists|n: int| place_found_at(places, n) {
        (choose|n: int| place_found_at(places, n)) as nat + 1
    } else {
        places.len()
    }
}

/// The first candidate of the first lookup that gave one.
pub open spec fn place_found(places: Seq<Seq<CoordsView>>) -> Option<CoordsView> {
    if exists|n: int| place_found_at(places, n) {
        Some(places[choose|n: int| place_found_at(places, n)][0])
    } else {
        None
    }
}

/// The key prompts: nothing is asked where the record has its keys. Else the
/// weather key is asked for, and once one is accepted the geocoding key; the
/// keys are stored once both are accepted.
pub open spec fn after_keys(c: ConfigView, answers: AnswersView) -> CompletionView {
    if c.keys is Some {
        CompletionView { config: c, lines: 0, lookups: 0 }
    } else {
        match (key_acquired(answers.weather_keys), key_acquired(answers.location_keys)) {
            (None, _) => CompletionView {
                config: c,
                lines: prompts_consumed(answers.weather_keys),
                lookups: 0,
            },
            (Some(_), None) => CompletionView {
                config: c,
                lines: prompts_consumed(answers.weather_keys) + prompts_consumed(
                    answers.location_keys,
                ),
                lookups: 0,
            },
            (Some(weather_key), Some(location_key)) => CompletionView {
                config: ConfigView { keys: Some(ApiKeysView { weather_key, location_key }), ..c },
                lines: prompts_consumed(answers.weather_keys) + prompts_consumed(
                    answers.location_keys,
                ),
                lookups: 0,
            },
        }
    }
}

/// The unit prompt: it is run only where the unit is what the record lacks
/// next.
pub open spec fn after_units(p: CompletionView, answers: AnswersView) -> CompletionView {
    if pending_of(p.config) != Pending::Unit {
        p
    } else {
        CompletionView {
            config: ConfigView { unit: unit_answered(answers.units), ..p.config },
            lines: p.lines + unit_rounds(answers.units),
            lookups: p.lookups,
        }
    }
}

/// The location prompt: it is run only where the coordinates are what the
/// record lacks next; each round reads one line and makes one lookup.
pub open spec fn after_places(p: CompletionView, answers: AnswersView) -> CompletionView {
    if pending_of(p.config) != Pending::Coordinates {
        p
    } else {
        CompletionView {
            config: ConfigView { coords: place_found(answers.places), ..p.config },
            lines: p.lines + place_rounds(answers.places),
            lookups: p.lookups + place_rounds(answers.places),
        }
    }
}

/// The record after all prompts, in their order, with what they used.
pub open spec fn completed(c: ConfigView, answers: AnswersView) -> CompletionView {
    after_places(after_units(after_keys(c, answers), answers), answers)
}

/// At most one line is the first that names a unit.
pub proof fn lemma_unit_named_unique(lines: Seq<Seq<char>>, m: int, n: int)
    requires
        unit_named_at(lines, m),
        unit_named_at(lines, n),
    ensures
        m == n,
{
    if m < n {
        assert(unit_of_input(lines[m]) is None);
    } else if n < m {
        assert(unit_of_input(lines[n]) is None);
    }
}

/// At most one lookup is the first that gave a candidate.
pub proof fn lemma_place_found_unique(places: Seq<Seq<CoordsView>>, m: int, n: int)
    requires
        place_found_at(places, m),
        place_found_at(places, n),
    ensures
        m == n,
{
    if m < n {
        assert(places[m].len() == 0);
    } else if n < m {
        assert(places[n].len() == 0);
    }
}

/// A record that lacks nothing is left as it is, and no line is read and no
/// lookup made for it.
pub proof fn lemma_complete_record_asks_nothing(c: ConfigView, answers: AnswersView)
    requires
        pending_of(c) == Pending::Nothing,
    ensures
        completed(c, answers) == (CompletionView { config: c, lines: 0, lookups: 0 }),
{
}

/// What the record holds when the prompts start, it holds when they end, and
/// the timeframe is never touched.
pub proof fn lemma_present_fields_are_kept(c: ConfigView, answers: AnswersView)
    ensures
        completed(c, answers).config.timeframe == c.timeframe,
        c.keys is Some ==> completed(c, answers).config.keys == c.keys,
        c.unit is Some ==> completed(c, answers).config.unit == c.unit,
        c.coords is Some ==> completed(c, answers).config.coords == c.coords,
{
}

/// The prompts leave a run done exactly when the answers were enough for
/// every field that the record lacked.
pub proof fn lemma_done_when_answers_suffice(c: ConfigView, answers: AnswersView)
    requires
        c.timeframe is Some,
    ensures
        resolved(completed(c, answers).config) <==> {
            &&& c.keys is Some || (key_acquired(answers.weather_keys) is Some && key_acquired(
                answers.location_keys,
            ) is Some)
            &&& c.unit is Some || unit_answered(answers.units) is Some
            &&& c.coords is Some || place_found(answers.places) is Some
        },
{
}

/// A first run: the record holds nothing, each key is accepted at some
/// attempt, some line names a unit and some lookup gives a candidate. Then
/// the record is filled with the accepted keys, that unit and the first
/// candidate of that lookup; the lines read are the attempts and rounds up
/// to and with each of these, and the lookups are the rounds of the location
/// prompt.
pub proof fn lemma_first_run(
    c: ConfigView,
    answers: AnswersView,
    w: int,
    l: int,
    u: int,
    p: int,
)
    requires
        c.keys is None,
        c.unit is None,
        c.coords is None,
        first_accepted_at(answers.weather_keys, w),
        first_accepted_at(answers.location_keys, l),
        unit_named_at(answers.units, u),
        place_found_at(answers.places, p),
    ensures
        completed(c, answers).config == (ConfigView {
            timeframe: c.timeframe,
            unit: unit_of_input(answers.units[u]),
            coords: Some(answers.places[p][0]),
            keys: Some(
                ApiKeysView {
                    weather_key: trimmed(answers.weather_keys[w].line),
                    location_key: trimmed(answers.location_keys[l].line),
                },
            ),
        }),
        pending_of(completed(c, answers).config) == Pending::Nothing,
        completed(c, answers).lines == w + l + u + p + 4,
        completed(c, answers).lookups == p + 1,
{
    lemma_rejections_then_acceptance(answers.weather_keys, w as nat);
    lemma_rejections_then_acceptance(answers.location_keys, l as nat);
    lemma_unit_named_unique(answers.units, choose|n: int| unit_named_at(answers.units, n), u);
    lemma_place_found_unique(answers.places, choose|n: int| place_found_at(answers.places, n), p);
}

/// Runs the unit prompt over a list of lines: each line is one round, until
/// one names a unit. Returns the unit, if one was named, and the rounds used.
pub fn acquire_unit(lines: &Vec<String>) -> (r: (Option<Unit>, usize))
    ensures
        r.0 == unit_answered(lines_view(lines@)),
        r.1 == unit_rounds(lines_view(lines@)),
        r.1 <= lines.len(),
{
    let ghost texts = lines_view(lines@);
    let mut i: usize = 0;
    while i < lines.len()
        invariant
            i <= lines.len(),
            texts == lines_view(lines@),
            forall|j: int| 0 <= j < i ==> unit_of_input(#[trigger] texts[j]) is None,
        decreases lines.len() - i,
    {
        let unit = Unit::parse(lines[i].as_str());
        assert(texts[i as int] == lines[i as int]@);
        if unit.is_some() {
            proof {
                assert(unit_named_at(texts, i as int));
                lemma_unit_named_unique(texts, choose|n: int| unit_named_at(texts, n), i as int);
            }
            return (unit, i + 1);
        }
        i = i + 1;
    }
    (None, i)
}

/// Runs the location prompt over a list of lookups: each lookup is one
/// round, until one gives a candidate, of which the first is taken. Returns
/// the coordinates, if any were found, and the rounds used.
pub fn acquire_coordinates(places: &Vec<Vec<Coords>>) -> (r: (Option<Coords>, usize))
    ensures
        match r.0 {
            Some(coords) => place_found(places_view(places@)) == Some(coords@),
            None => place_found(places_view(places@)) is None,
        },
        r.1 == place_rounds(places_view(places@)),
        r.1 <= places.len(),
{
    let ghost lookups = places_view(places@);
    let mut i: usize = 0;
    while i < places.len()
        invariant
            i <= places.len(),
            lookups == places_view(places@),
            forall|j: int| 0 <= j < i ==> (#[trigger] lookups[j]).len() == 0,
        decreases places.len() - i,
    {
        assert(lookups[i as int] == candidates_view(places[i as int]@));
        if places[i].len() > 0 {
            proof {
                assert(place_found_at(lookups, i as int));
                lemma_place_found_unique(
                    lookups,
                    choose|n: int| place_found_at(lookups, n),
                    i as int,
                );
            }
            return (Some(places[i][0].duplicate()), i + 1);
        }
        i = i + 1;
    }
    (None, i)
}

impl Started {
    /// Runs the prompts over a script of answers, in their order: the keys,
    /// the unit, the coordinates. A field that the record holds is not asked
    /// for, and a run that is done uses no answer. A prompt whose answers run
    /// out before one is accepted leaves its field unset; the prompts behind
    /// it are not run, and the run comes back asking for that field.
    pub fn complete(self, answers: &Answers) -> (r: Completion)
        requires
            self.well_formed(),
            answers.weather_keys.len() + answers.location_keys.len() + answers.units.len()
                + answers.places.len() <= usize::MAX,
        ensures
            r@ == completed(self.record(), answers@),
            r.state.well_formed(),
    {
        let mut config = match self {
            Started::Done(config) => {
                return Completion { state: Started::Done(config), lines: 0, lookups: 0 };
            },
            Started::Ask(_, config) => config,
        };
        let mut lines: usize = 0;
        let mut lookups: usize = 0;
        if config.keys.is_none() {
            let (weather, used) = acquire_credential(&answers.weather_keys);
            lines = used;
            if let Some(weather_key) = weather {
                let (location, used) = acquire_credential(&answers.location_keys);
                lines = lines + used;
                if let Some(location_key) = location {
                    config.set_keys(ApiKeys { weather_key, location_key });
                }
            }
        }
        assert((CompletionView { config: config@, lines: lines as nat, lookups: 0 }) == after_keys(
            self.record(),
            answers@,
        ));
        if config.keys.is_some() && config.unit.is_none() {
            let (unit, used) = acquire_unit(&answers.units);
            lines = lines + used;
            config.unit = unit;
        }
        if config.keys.is_some() && config.unit.is_some() && config.coords.is_none() {
            let (coords, used) = acquire_coordinates(&answers.places);
            lines = lines + used;
            lookups = used;
            config.coords = coords;
        }
        let state = match config.pending() {
            Pending::Nothing => Started::Done(config),
            pending => Started::Ask(pending, config),
        };
        Completion { state, lines, lookups }
    }
}

} // verus!
