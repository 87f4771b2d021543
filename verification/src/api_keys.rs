//! The credentials of the two services, and the rules by which a candidate
//! key is probed and accepted.

use vstd::prelude::*;
use vstd::string::*;
use crate::arg_parser::{Config, ConfigView};
use crate::link::{assemble, params_view, url_with_params, plain_base};
use crate::text::{optional_view, stripped, trimmed};

verus! {

/// The two keys: one for the weather service, one for the geocoding service.
#[derive(Clone, Debug, PartialEq, Eq)]
pub struct ApiKeys {
    pub weather_key: String,
    pub location_key: String,
}

pub struct ApiKeysView {
    pub weather_key: Seq<char>,
    pub location_key: Seq<char>,
}

impl View for ApiKeys {
    type V = ApiKeysView;

    open spec fn view(&self) -> ApiKeysView {
        ApiKeysView { weather_key: self.weather_key@, location_key: self.location_key@ }
    }
}

/// The service that a key is issued for.
#[derive(Clone, Copy, Debug, PartialEq, Eq, Structural)]
pub enum Service {
    Weather,
    Location,
}

/// What became of the probe request made with a candidate key.
#[derive(Clone, Copy, Debug, PartialEq, Eq, Structural)]
pub enum Probe {
    /// The key could not be put into a request URL.
    Malformed,
    /// The request could not be sent, or no response came.
    Unreachable,
    /// The service answered with this status code.
    Status(u16),
}

/// Where the acquisition of one key stands.
#[derive(Clone, Debug, PartialEq, Eq)]
pub enum KeyState {
    Prompting,
    Validated(String),
}

pub enum KeyStateView {
    Prompting,
    Validated(Seq<char>),
}

impl View for KeyState {
    type V = KeyStateView;

    open spec fn view(&self) -> KeyStateView {
        match self {
            KeyState::Prompting => KeyStateView::Prompting,
            KeyState::Validated(key) => KeyStateView::Validated(key@),
        }
    }
}

/// One round of the key prompt: the line entered and what the probe of the
/// key in it gave.
#[derive(Clone, Debug, PartialEq, Eq)]
pub struct Attempt {
    pub line: String,
    pub probe: Probe,
}

pub struct AttemptView {
    pub line: Seq<char>,
    pub probe: Probe,
}

impl View for Attempt {
    type V = AttemptView;

    open spec fn view(&self) -> AttemptView {
        AttemptView { line: self.line@, probe: self.probe }
    }
}

/// What `ApiKeys::request_keys` asks for next, or the keys once both are known.
#[derive(Clone, Debug, PartialEq, Eq)]
pub enum KeyRequest {
    Weather,
    Location,
    Complete(ApiKeys),
}

pub enum KeyRequestView {
    Weather,
    Location,
    Complete(ApiKeysView),
}

impl View for KeyRequest {
    type V = KeyRequestView;

    open spec fn view(&self) -> KeyRequestView {
        match self {
            KeyRequest::Weather => KeyRequestView::Weather,
            KeyRequest::Location => KeyRequestView::Location,
            KeyRequest::Complete(keys) => KeyRequestView::Complete(keys@),
        }
    }
}

/// The page on which a key for `service` is issued.
pub open spec fn sign_up_page(service: Service) -> Seq<char> {
    match service {
        Service::Weather => "https://home.openweathermap.org/users/sign_up"@,
        Service::Location => "https://opencagedata.com/users/sign_up"@,
    }
}

/// The endpoint that the probe of a key for `service` goes to.
pub open spec fn probe_endpoint(service: Service) -> Seq<char> {
    match service {
        Service::Weather => "https://api.openweathermap.org/data/2.5/weather"@,
        Service::Location => "https://api.opencagedata.com/geocode/v1/json"@,
    }
}

/// The query of the probe: a fixed reference request that carries the key.
pub open spec fn probe_params(service: Service, key: Seq<char>) -> Seq<(Seq<char>, Seq<char>)> {
    match service {
        Service::Weather => seq![("lat"@, "37"@), ("lon"@, "95"@), ("appid"@, key)],
        Service::Location => seq![("q"@, "United States"@), ("key"@, key)],
    }
}

/// A probe is accepted exactly when the service answered with a success status.
pub open spec fn accepted(probe: Probe) -> bool {
    probe matches Probe::Status(code) && crate::success_status(code)
}

/// The state after one attempt. A validated key stays; while prompting, an
/// accepted probe validates the trimmed line, anything else prompts again.
pub open spec fn after_attempt(state: KeyStateView, line: Seq<char>, probe: Probe) -> KeyStateView {
    match state {
        KeyStateView::Validated(_) => state,
        KeyStateView::Prompting => if accepted(probe) {
            KeyStateView::Validated(trimmed(line))
        } else {
            KeyStateView::Prompting
        },
    }
}

/// Attempt `n` of the script is accepted and none before it is.
pub open spec fn first_accepted_at(script: Seq<AttemptView>, n: int) -> bool {
    &&& 0 <= n < script.len()
    &&& accepted(script[n].probe)
    &&& forall|i: int| 0 <= i < n ==> !accepted(#[trigger] script[i].probe)
}

/// The prompts that a script consumes: up to and with the first accepted
/// attempt, or all of them where none is accepted.
pub open spec fn prompts_consumed(script: Seq<AttemptView>) -> nat {
    if exists|n: int| first_accepted_at(script, n) {
        (choose|n: int| first_accepted_at(script, n)) as nat + 1
    } else {
        script.len()
    }
}

/// The key that a script yields: the trimmed line of the first accepted
/// attempt, if there is one.
pub open spec fn key_acquired(script: Seq<AttemptView>) -> Option<Seq<char>> {
    if exists|n: int| first_accepted_at(script, n) {
        Some(trimmed(script[choose|n: int| first_accepted_at(script, n)].line))
    } else {
        None
    }
}

/// The views of the attempts of a script.
pub open spec fn script_view(script: Seq<Attempt>) -> Seq<AttemptView> {
    Seq::new(script.len(), |i: int| script[i]@)
}

/// The key that is used where one may be stored and one may have been entered:
/// the stored key wins.
pub open spec fn key_in_use(stored: Option<Seq<char>>, entered: Option<Seq<char>>) -> Option<
    Seq<char>,
> {
    if stored is Some {
        stored
    } else {
        entered
    }
}

/// The weather key that the record stores, if any.
pub open spec fn stored_weather_key(config: ConfigView) -> Option<Seq<char>> {
    match config.keys {
        Some(keys) => Some(keys.weather_key),
        None => None,
    }
}

/// The geocoding key that the record stores, if any.
pub open spec fn stored_location_key(config: ConfigView) -> Option<Seq<char>> {
    match config.keys {
        Some(keys) => Some(keys.location_key),
        None => None,
    }
}

/// What the acquisition of the keys needs next, given the record and the
/// keys entered so far: the weather key first, then the geocoding key, and
/// once both are known the pair of them.
pub open spec fn key_request(
    config: ConfigView,
    weather: Option<Seq<char>>,
    location: Option<Seq<char>>,
) -> KeyRequestView {
    match (
        key_in_use(stored_weather_key(config), weather),
        key_in_use(stored_location_key(config), location),
    ) {
        (None, _) => KeyRequestView::Weather,
        (Some(_), None) => KeyRequestView::Location,
        (Some(weather_key), Some(location_key)) => KeyRequestView::Complete(
            ApiKeysView { weather_key, location_key },
        ),
    }
}

/// At most one attempt of a script is the first accepted one.
pub proof fn lemma_first_accepted_unique(script: Seq<AttemptView>, m: int, n: int)
    requires
        first_accepted_at(script, m),
        first_accepted_at(script, n),
    ensures
        m == n,
{
    if m < n {
        assert(!accepted(script[m].probe));
    } else if n < m {
        assert(!accepted(script[n].probe));
    }
}

/// A service that rejects `n` keys and then accepts one has the acquisition
/// consume exactly `n + 1` prompts, and the key returned is the one entered
/// at the accepted attempt, trimmed.
pub proof fn lemma_rejections_then_acceptance(script: Seq<AttemptView>, n: nat)
    requires
        n < script.len(),
        forall|i: int| 0 <= i < n ==> !accepted(#[trigger] script[i].probe),
        accepted(script[n as int].probe),
    ensures
        prompts_consumed(script) == n + 1,
        key_acquired(script) == Some(trimmed(script[n as int].line)),
{
    assert(first_accepted_at(script, n as int));
    let m = choose|m: int| first_accepted_at(script, m);
    lemma_first_accepted_unique(script, m, n as int);
}

/// No key is acquired from a script in which no probe is accepted, and every
/// prompt of it is consumed.
pub proof fn lemma_no_acceptance_no_key(script: Seq<AttemptView>)
    requires
        forall|i: int| 0 <= i < script.len() ==> !accepted(#[trigger] script[i].probe),
    ensures
        key_acquired(script) is None,
        prompts_consumed(script) == script.len(),
{
}

/// A key that was acquired was entered at an attempt whose probe the service
/// answered with a success status.
pub proof fn lemma_acquired_key_was_accepted(script: Seq<AttemptView>)
    requires
        key_acquired(script) is Some,
    ensures
        exists|n: int|
            0 <= n < script.len() && accepted(#[trigger] script[n].probe) && key_acquired(script)
                == Some(trimmed(script[n].line)),
{
    let n = choose|n: int| first_accepted_at(script, n);
    assert(accepted(script[n].probe));
}

impl Probe {
    /// Whether the probe shows the key to be valid: a success status, nothing else.
    pub fn is_accepted(&self) -> (r: bool)
        ensures
            r == accepted(*self),
    {
        match self {
            Probe::Status(code) => crate::status_is_success(*code),
            _ => false,
        }
    }
}

impl Service {
    /// The page on which a key for this service is issued.
    pub fn sign_up_url(&self) -> (r: &'static str)
        ensures
            r@ == sign_up_page(*self),
    {
        match self {
            Service::Weather => "https://home.openweathermap.org/users/sign_up",
            Service::Location => "https://opencagedata.com/users/sign_up",
        }
    }

    /// The endpoint of the probe request.
    pub fn probe_base(&self) -> (r: &'static str)
        ensures
            r@ == probe_endpoint(*self),
            plain_base(r@),
    {
        proof {
            reveal_strlit("https://api.openweathermap.org/data/2.5/weather");
            reveal_strlit("https://api.opencagedata.com/geocode/v1/json");
        }
        match self {
            Service::Weather => "https://api.openweathermap.org/data/2.5/weather",
            Service::Location => "https://api.opencagedata.com/geocode/v1/json",
        }
    }

    /// The query parameters of the probe request for `key`.
    pub fn probe_query(&self, key: &str) -> (r: Vec<(String, String)>)
        ensures
            params_view(r@) == probe_params(*self, key@),
    {
        let mut params: Vec<(String, String)> = Vec::new();
        match self {
            Service::Weather => {
                params.push((String::from_str("lat"), String::from_str("37")));
                params.push((String::from_str("lon"), String::from_str("95")));
                params.push((String::from_str("appid"), String::from_str(key)));
            },
            Service::Location => {
                params.push((String::from_str("q"), String::from_str("United States")));
                params.push((String::from_str("key"), String::from_str(key)));
            },
        }
        assert(params_view(params@) =~= probe_params(*self, key@));
        params
    }

    /// The URL of the probe request for `key`; `None` where the key cannot be
    /// put into one, which counts as a failed probe.
    pub fn probe_url(&self, key: &str) -> (r: Option<String>)
        ensures
            match r {
                Some(text) => url_with_params(probe_endpoint(*self), probe_params(*self, key@))
                    == Some(text@),
                None => url_with_params(probe_endpoint(*self), probe_params(*self, key@)) is None,
            },
    {
        let params = self.probe_query(key);
        match assemble(self.probe_base(), &params) {
            Ok(text) => Some(text),
            Err(_) => None,
        }
    }
}

impl KeyState {
    /// The key that a line of input proposes: the line without the white
    /// space around it.
    pub fn candidate(line: &str) -> (key: String)
        ensures
            key@ == trimmed(line@),
    {
        stripped(line)
    }

    /// Takes one attempt into account: the line that was entered and what the
    /// probe of its key gave.
    pub fn submit(self, line: &str, probe: Probe) -> (next: KeyState)
        ensures
            next@ == after_attempt(self@, line@, probe),
    {
        match self {
            KeyState::Validated(key) => KeyState::Validated(key),
            KeyState::Prompting => {
                if probe.is_accepted() {
                    KeyState::Validated(KeyState::candidate(line))
                } else {
                    KeyState::Prompting
                }
            },
        }
    }
}

/// Runs the key prompt over a script of attempts: each attempt consumes one
/// prompt until a probe is accepted. Returns the key, if one was accepted,
/// and the number of prompts consumed.
pub fn acquire_credential(script: &Vec<Attempt>) -> (r: (Option<String>, usize))
    ensures
        r.1 == prompts_consumed(script_view(script@)),
        r.1 <= script.len(),
        match r.0 {
            Some(key) => key_acquired(script_view(script@)) == Some(key@),
            None => key_acquired(script_view(script@)) is None,
        },
{
    let ghost attempts = script_view(script@);
    let mut state = KeyState::Prompting;
    let mut i: usize = 0;
    while i < script.len()
        invariant
            i <= script.len(),
            attempts == script_view(script@),
            state@ == KeyStateView::Prompting,
            forall|j: int| 0 <= j < i ==> !accepted(#[trigger] attempts[j].probe),
        decreases script.len() - i,
    {
        let attempt = &script[i];
        state = state.submit(attempt.line.as_str(), attempt.probe);
        i = i + 1;
        match state {
            KeyState::Validated(key) => {
                proof {
                    assert(attempts[i - 1] == attempt@);
                    lemma_rejections_then_acceptance(attempts, (i - 1) as nat);
                }
                return (Some(key), i);
            },
            KeyState::Prompting => {
                state = KeyState::Prompting;
                assert(attempts[i - 1] == attempt@);
            },
        }
    }
    proof {
        lemma_no_acceptance_no_key(attempts);
    }
    (None, i)
}

impl ApiKeys {
    /// Decides what the acquisition of the keys needs next. A key that the
    /// record stores is used as it is; else the key that was entered and
    /// validated, once there is one. The weather key is asked for before the
    /// geocoding key.
    pub fn request_keys(config: &Config, weather: Option<String>, location: Option<String>) -> (r:
        KeyRequest)
        ensures
            r@ == key_request(config@, optional_view(weather), optional_view(location)),
    {
        let weather_key = match config.get_weather_key() {
            Some(key) => key.clone(),
            None => match weather {
                Some(key) => key,
                None => {
                    return KeyRequest::Weather;
                },
            },
        };
        let location_key = match config.get_location_key() {
            Some(key) => key.clone(),
            None => match location {
                Some(key) => key,
                None => {
                    return KeyRequest::Location;
                },
            },
        };
        KeyRequest::Complete(ApiKeys { weather_key, location_key })
    }
}

} // verus!
