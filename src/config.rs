//! The middleware's configuration: read once from the host's JSON, with
//! documented defaults for whatever is missing.

use vstd::prelude::*;
use crate::error::TreblleError;
use crate::json::{Json, JsonV};
use crate::logger::{level_named, LogLevel};
use crate::text::{lower_of, str_eq, to_lowercase, views_of};

verus! {

/// The sensitive-key pattern used when the configuration names none.
pub const DEFAULT_SENSITIVE_KEYS_REGEX: &'static str =
    "(?i)(password|pwd|secret|password_confirmation|cc|card_number|ccv|ssn|credit_score)";

/// The collector endpoints used when the configuration names none.
pub open spec fn default_urls() -> Seq<Seq<char>> {
    seq![
        "https://rocknrolla.treblle.com"@,
        "https://punisher.treblle.com"@,
        "https://sicario.treblle.com"@,
    ]
}

/// The collector endpoints used when the configuration names none.
pub fn default_api_urls() -> (r: Vec<String>)
    ensures
        views_of(r@) == default_urls(),
{
    let mut v: Vec<String> = Vec::new();
    v.push(String::from_str("https://rocknrolla.treblle.com"));
    v.push(String::from_str("https://punisher.treblle.com"));
    v.push(String::from_str("https://sicario.treblle.com"));
    assert(views_of(v@) =~= default_urls());
    v
}

/// The configuration of the middleware.
pub struct Config {
    pub treblle_api_urls: Vec<String>,
    pub api_key: String,
    pub project_id: String,
    pub route_blacklist: Vec<String>,
    pub sensitive_keys_regex: String,
    pub buffer_response: bool,
    pub log_level: LogLevel,
    pub root_ca_path: Option<String>,
}

/// The value of the first entry named `key` when `v` is an object.
pub open spec fn json_get(v: JsonV, key: Seq<char>) -> Option<JsonV> {
    match v {
        JsonV::Object(entries) => entries_get(entries, key),
        _ => None,
    }
}

/// The value of the first entry named `key`.
pub open spec fn entries_get(entries: Seq<(Seq<char>, JsonV)>, key: Seq<char>) -> Option<JsonV>
    decreases entries.len(),
{
    if entries.len() == 0 {
        None
    } else if entries[0].0 == key {
        Some(entries[0].1)
    } else {
        entries_get(entries.drop_first(), key)
    }
}

/// The strings among `items`, in order; other items are skipped.
pub open spec fn string_items(items: Seq<JsonV>) -> Seq<Seq<char>>
    decreases items.len(),
{
    if items.len() == 0 {
        Seq::empty()
    } else {
        let rest = string_items(items.drop_last());
        match items.last() {
            JsonV::Str(s) => rest.push(s),
            _ => rest,
        }
    }
}

/// A list of strings at `key`, or `fallback` when there is no array there.
pub open spec fn string_list_at(v: JsonV, key: Seq<char>, fallback: Seq<Seq<char>>) -> Seq<Seq<char>> {
    match json_get(v, key) {
        Some(JsonV::Array(items)) => string_items(items),
        _ => fallback,
    }
}

/// The string at `key`, if there is one.
pub open spec fn string_at(v: JsonV, key: Seq<char>) -> Option<Seq<char>> {
    match json_get(v, key) {
        Some(JsonV::Str(s)) => Some(s),
        _ => None,
    }
}

/// `bufferResponse`: a boolean, or a string that reads `true` in any case.
pub open spec fn buffer_flag(v: JsonV) -> bool {
    match json_get(v, "bufferResponse"@) {
        Some(JsonV::Bool(b)) => b,
        Some(JsonV::Str(s)) => lower_of(s) == "true"@,
        _ => false,
    }
}

/// `logLevel`: the level its name stands for, ignoring case; `Off` otherwise.
pub open spec fn configured_level(v: JsonV) -> LogLevel {
    match string_at(v, "logLevel"@) {
        Some(s) => level_named(lower_of(s)),
        None => LogLevel::Off,
    }
}

/// Whether `c` holds what `from_value` reads out of `v`.
pub open spec fn config_from(c: Config, v: JsonV) -> bool {
    &&& views_of(c.treblle_api_urls@) == string_list_at(v, "treblleApiUrls"@, default_urls())
    &&& c.api_key@ == match string_at(v, "apiKey"@) {
        Some(s) => s,
        None => Seq::empty(),
    }
    &&& c.project_id@ == match string_at(v, "projectId"@) {
        Some(s) => s,
        None => Seq::empty(),
    }
    &&& views_of(c.route_blacklist@) == string_list_at(v, "routeBlacklist"@, Seq::empty())
    &&& c.sensitive_keys_regex@ == match string_at(v, "sensitiveKeysRegex"@) {
        Some(s) => s,
        None => DEFAULT_SENSITIVE_KEYS_REGEX@,
    }
    &&& c.buffer_response == buffer_flag(v)
    &&& c.log_level == configured_level(v)
    &&& match c.root_ca_path {
        Some(p) => string_at(v, "rootCaPath"@) == Some(p@),
        None => string_at(v, "rootCaPath"@) is None,
    }
}

/// Whether `c` is the fallback configuration.
pub open spec fn is_fallback(c: Config) -> bool {
    &&& views_of(c.treblle_api_urls@) == default_urls()
    &&& c.api_key@.len() == 0
    &&& c.project_id@.len() == 0
    &&& c.route_blacklist@.len() == 0
    &&& c.sensitive_keys_regex@ == DEFAULT_SENSITIVE_KEYS_REGEX@
    &&& !c.buffer_response
    &&& c.log_level == LogLevel::Off
    &&& c.root_ca_path is None
}

/// Whether `c` has the fields the collector requires.
pub open spec fn config_valid(c: Config) -> bool {
    c.api_key@.len() > 0 && c.project_id@.len() > 0
}

/// The value of the first entry named `key`, when `value` is an object.
pub fn get_field<'a>(value: &'a Json, key: &str) -> (r: Option<&'a Json>)
    ensures
        match r {
            Some(j) => json_get(value@, key@) == Some(j@),
            None => json_get(value@, key@) is None,
        },
{
    match value {
        Json::Object(entries) => {
            let ghost es = match value@ {
                JsonV::Object(es) => es,
                _ => Seq::empty(),
            };
            let mut i: usize = 0;
            assert(es.skip(0) =~= es);
            while i < entries.len()
                invariant
                    *value == Json::Object(*entries),
                    value@ == JsonV::Object(es),
                    es.len() == entries.len(),
                    forall|k: int| 0 <= k < entries.len() ==> es[k] == (entries@[k].0@, entries@[k].1@),
                    i <= entries.len(),
                    entries_get(es, key@) == entries_get(es.skip(i as int), key@),
                decreases entries.len() - i,
            {
                assert(es.skip(i as int).drop_first() =~= es.skip(i + 1));
                if str_eq(entries[i].0.as_str(), key) {
                    return Some(&entries[i].1);
                }
                i = i + 1;
            }
            None
        },
        _ => None,
    }
}

/// The strings of a JSON array, in order; other items are skipped.
fn strings_of(items: &Vec<Json>) -> (r: Vec<String>)
    ensures
        views_of(r@) == string_items(items@.map_values(|j: Json| j@)),
{
    let ghost model = items@.map_values(|j: Json| j@);
    let mut out: Vec<String> = Vec::new();
    let mut i: usize = 0;
    while i < items.len()
        invariant
            model == items@.map_values(|j: Json| j@),
            i <= items.len(),
            views_of(out@) == string_items(model.take(i as int)),
        decreases items.len() - i,
    {
        assert(model.take(i + 1).drop_last() =~= model.take(i as int));
        match &items[i] {
            Json::Str(s) => {
                out.push(s.clone());
                assert(views_of(out@) =~= views_of(out@.drop_last()).push(s@));
            },
            _ => {},
        }
        i = i + 1;
    }
    assert(model.take(i as int) =~= model);
    out
}

/// A list of strings at `key`, or `None` when there is no array there.
fn string_list(value: &Json, key: &str) -> (r: Option<Vec<String>>)
    ensures
        match r {
            Some(v) => match json_get(value@, key@) {
                Some(JsonV::Array(items)) => views_of(v@) == string_items(items),
                _ => false,
            },
            None => !(json_get(value@, key@) matches Some(JsonV::Array(_))),
        },
{
    match get_field(value, key) {
        Some(Json::Array(items)) => {
            let r = strings_of(items);
            proof {
                if let Some(JsonV::Array(ms)) = json_get(value@, key@) {
                    assert(ms =~= items@.map_values(|j: Json| j@));
                }
            }
            Some(r)
        },
        _ => None,
    }
}

/// The string at `key`, if there is one.
fn string_field(value: &Json, key: &str) -> (r: Option<String>)
    ensures
        match r {
            Some(s) => string_at(value@, key@) == Some(s@),
            None => string_at(value@, key@) is None,
        },
{
    match get_field(value, key) {
        Some(Json::Str(s)) => Some(s.clone()),
        _ => None,
    }
}

impl Config {
    /// Reads the configuration out of the host's JSON; each missing or
    /// ill-typed field takes its default.
    pub fn from_value(value: &Json) -> (r: Config)
        ensures
            config_from(r, value@),
    {
        let treblle_api_urls = match string_list(value, "treblleApiUrls") {
            Some(v) => v,
            None => default_api_urls(),
        };
        let api_key = match string_field(value, "apiKey") {
            Some(s) => s,
            None => String::new(),
        };
        let project_id = match string_field(value, "projectId") {
            Some(s) => s,
            None => String::new(),
        };
        let route_blacklist = match string_list(value, "routeBlacklist") {
            Some(v) => v,
            None => {
                let v: Vec<String> = Vec::new();
                assert(views_of(v@) =~= Seq::<Seq<char>>::empty());
                v
            },
        };
        let sensitive_keys_regex = match string_field(value, "sensitiveKeysRegex") {
            Some(s) => s,
            None => String::from_str(DEFAULT_SENSITIVE_KEYS_REGEX),
        };
        let buffer_response = match get_field(value, "bufferResponse") {
            Some(Json::Bool(b)) => *b,
            Some(Json::Str(s)) => {
                let lowered = to_lowercase(s.as_str());
                str_eq(lowered.as_str(), "true")
            },
            _ => false,
        };
        let log_level = match string_field(value, "logLevel") {
            Some(s) => LogLevel::from_str(s.as_str()),
            None => LogLevel::Off,
        };
        let root_ca_path = string_field(value, "rootCaPath");
        Config {
            treblle_api_urls,
            api_key,
            project_id,
            route_blacklist,
            sensitive_keys_regex,
            buffer_response,
            log_level,
            root_ca_path,
        }
    }

    /// The configuration used when the host's JSON cannot be read.
    pub fn fallback() -> (r: Config)
        ensures
            is_fallback(r),
    {
        let route_blacklist: Vec<String> = Vec::new();
        Config {
            treblle_api_urls: default_api_urls(),
            api_key: String::new(),
            project_id: String::new(),
            route_blacklist,
            sensitive_keys_regex: String::from_str(DEFAULT_SENSITIVE_KEYS_REGEX),
            buffer_response: false,
            log_level: LogLevel::Off,
            root_ca_path: None,
        }
    }

    /// Checks that the API key and the project id are set.
    pub fn validate(&self) -> (r: Result<(), TreblleError>)
        ensures
            r is Ok <==> config_valid(*self),
            r matches Err(e) ==> e is Config,
    {
        if self.api_key.as_str().is_empty() {
            return Err(TreblleError::Config(String::from_str("API key is required")));
        }
        if self.project_id.as_str().is_empty() {
            return Err(TreblleError::Config(String::from_str("Project ID is required")));
        }
        Ok(())
    }

    /// The configuration to run with, given what reading and parsing the
    /// host's JSON gave, and the failures to log, in order. A parse failure
    /// gives the fallback; an invalid configuration is kept, and reported.
    pub fn get_or_fallback(parsed: Result<Json, TreblleError>) -> (r: (Config, Vec<TreblleError>))
        ensures
            match parsed {
                Ok(v) => config_from(r.0, v@),
                Err(_) => is_fallback(r.0),
            },
            r.1.len() == (if parsed is Err { 1int } else { 0 }) + (if config_valid(r.0) { 0int } else { 1 }),
            parsed is Err ==> r.1@[0] == parsed->Err_0,
            forall|i: int| (if parsed is Err { 1int } else { 0 }) <= i < r.1.len() ==> r.1@[i] is Config,
    {
        let mut errors: Vec<TreblleError> = Vec::new();
        let config = match parsed {
            Ok(v) => Self::from_value(&v),
            Err(e) => {
                errors.push(e);
                Self::fallback()
            },
        };
        match config.validate() {
            Ok(()) => {},
            Err(e) => errors.push(e),
        }
        (config, errors)
    }
}

} // verus!
