use vstd::prelude::*;
use vstd::string::*;
use crate::error::CommitError;
use crate::models::ModelInfo;

verus! {

#[verifier::external_type_specification]
#[verifier::external_body]
pub struct ExConfigError(config::ConfigError);

#[verifier::external_type_specification]
#[verifier::external_body]
pub struct ExJsonError(serde_json::Error);

/// The pretty-printed JSON object whose string members are `entries`.
pub uninterp spec fn pretty_json_object(entries: Seq<(Seq<char>, Seq<char>)>) -> Seq<char>;

/// Relies on the config crate: `config::File::from_str` with the JSON format,
/// `ConfigBuilder::build` and `Config::get_string`. Nothing is stated of the
/// outcome: the crate walks the parsed members in hash-map order, so a text
/// whose keys overlap as paths may read differently from one call to the next.
#[verifier::external_body]
fn config_get_string(text: &str, key: &str) -> (r: Result<String, config::ConfigError>) {
    config::Config::builder()
        .add_source(config::File::from_str(text, config::FileFormat::Json))
        .build()
        .and_then(|c| c.get_string(key))
}

/// The views of key-value pairs of strings.
pub open spec fn entries_view(entries: Seq<(String, String)>) -> Seq<(Seq<char>, Seq<char>)> {
    entries.map_values(|e: (String, String)| (e.0@, e.1@))
}

/// Relies on `serde_json::to_string_pretty` on a `serde_json::Map` of string
/// values: the text depends on the entries alone, and it cannot fail, since
/// the keys are strings and serialising a string value does not fail.
#[verifier::external_body]
fn to_pretty_json(entries: Vec<(String, String)>) -> (r: Result<String, serde_json::Error>)
    ensures
        r is Ok,
        r matches Ok(s) ==> s@ == pretty_json_object(entries_view(entries@)),
{
    let object: serde_json::Map<String, serde_json::Value> = entries
        .into_iter()
        .map(|(k, v)| (k, serde_json::Value::String(v)))
        .collect();
    serde_json::to_string_pretty(&object)
}

/// Key of the API key in the settings file.
pub const APIKEY_KEY: &'static str = "apikey";

/// Key of the model in the settings file.
pub const MODEL_KEY: &'static str = "model";

/// The user's settings: an API key and the selected model.
#[derive(Debug, Clone)]
pub struct Settings {
    pub apikey: Option<String>,
    pub model: Option<String>,
}

impl Settings {
    /// Settings before any configuration: the API key comes from an explicit
    /// fallback source, such as an environment variable, and no model is chosen.
    pub fn new(default_apikey: Option<String>) -> (s: Settings)
        ensures
            s.apikey == default_apikey,
            s.model is None,
    {
        Settings { apikey: default_apikey, model: None }
    }

    /// The settings that configuration ends with: an API key, which must not
    /// be empty, and a model.
    pub fn configured(apikey: &str, model: &str) -> (r: Result<Settings, CommitError>)
        ensures
            apikey@.len() == 0 <==> r is Err,
            r matches Err(e) ==> e == CommitError::Configuration,
            r matches Ok(s) ==> s.is_complete() && s.apikey->0@ == apikey@ && s.model->0@
                == model@,
    {
        if apikey.is_empty() {
            Err(CommitError::Configuration)
        } else {
            Ok(Settings { apikey: Some(apikey.to_owned()), model: Some(model.to_owned()) })
        }
    }

    /// Both fields are present and the API key is not empty.
    pub open spec fn is_complete(&self) -> bool {
        &&& self.apikey matches Some(k) && k@.len() > 0
        &&& self.model is Some
    }
}

/// The key-value record that is persisted for an API key and a model.
pub open spec fn settings_record(apikey: Seq<char>, model: Seq<char>) -> Seq<(Seq<char>, Seq<char>)> {
    seq![(APIKEY_KEY@, apikey), (MODEL_KEY@, model)]
}

/// The value of the first entry of `record` under `key`.
pub open spec fn record_lookup(record: Seq<(Seq<char>, Seq<char>)>, key: Seq<char>) -> Option<Seq<char>>
    decreases record.len(),
{
    if record.len() == 0 {
        None
    } else if record[0].0 == key {
        Some(record[0].1)
    } else {
        record_lookup(record.drop_first(), key)
    }
}

/// In the record that is written for an API key and a model, a lookup of
/// the API-key key gives that key and a lookup of the model key that model.
pub proof fn lemma_settings_record_lookup(apikey: Seq<char>, model: Seq<char>)
    ensures
        record_lookup(settings_record(apikey, model), APIKEY_KEY@) == Some(apikey),
        record_lookup(settings_record(apikey, model), MODEL_KEY@) == Some(model),
{
    reveal_strlit("apikey");
    reveal_strlit("model");
    let r = settings_record(apikey, model);
    assert(APIKEY_KEY@ != MODEL_KEY@) by {
        assert(APIKEY_KEY@[0] != MODEL_KEY@[0]);
    }
    assert(r[0].0 == APIKEY_KEY@);
    assert(record_lookup(r, APIKEY_KEY@) == Some(apikey));
    assert(r.drop_first()[0].0 == MODEL_KEY@);
    assert(record_lookup(r.drop_first(), MODEL_KEY@) == Some(model));
    assert(record_lookup(r, MODEL_KEY@) == Some(model));
}

/// The answer to the API-key prompt: required, so an empty answer is refused.
pub fn check_api_key(input: &str) -> (r: Result<String, CommitError>)
    ensures
        input@.len() == 0 <==> r == Err::<String, CommitError>(CommitError::Configuration),
        r matches Ok(k) ==> k@ == input@,
{
    if input.is_empty() {
        Err(CommitError::Configuration)
    } else {
        Ok(input.to_owned())
    }
}

/// The identifiers of a model listing.
pub open spec fn ids_of(models: Seq<ModelInfo>) -> Seq<Seq<char>> {
    models.map_values(|m: ModelInfo| m.id@)
}

/// The views of a sequence of strings.
pub open spec fn views_of(ss: Seq<String>) -> Seq<Seq<char>> {
    ss.map_values(|s: String| s@)
}

/// The identifiers of a model listing, in order.
pub fn model_ids(models: &Vec<ModelInfo>) -> (ids: Vec<String>)
    ensures
        views_of(ids@) == ids_of(models@),
{
    let mut ids: Vec<String> = Vec::new();
    let mut i: usize = 0;
    while i < models.len()
        invariant
            i <= models@.len(),
            ids@.len() == i,
            forall|j: int| 0 <= j < i ==> #[trigger] ids@[j]@ == models@[j].id@,
        decreases models@.len() - i,
    {
        let id = models[i].id.clone();
        ids.push(id);
        i = i + 1;
    }
    assert(views_of(ids@) =~= ids_of(models@));
    ids
}

/// Whether two strings hold the same characters.
pub fn str_eq(a: &str, b: &str) -> (r: bool)
    ensures
        r == (a@ == b@),
{
    let n = a.unicode_len();
    if n != b.unicode_len() {
        return false;
    }
    let mut i: usize = 0;
    while i < n
        invariant
            n == a@.len(),
            n == b@.len(),
            i <= n,
            forall|j: int| 0 <= j < i ==> a@[j] == b@[j],
        decreases n - i,
    {
        if a.get_char(i) != b.get_char(i) {
            return false;
        }
        i = i + 1;
    }
    assert(a@ =~= b@);
    true
}

/// Whether `model` is the identifier of an entry of the listing.
pub fn contains_model(models: &Vec<ModelInfo>, model: &str) -> (r: bool)
    ensures
        r == ids_of(models@).contains(model@),
{
    let mut i: usize = 0;
    while i < models.len()
        invariant
            i <= models@.len(),
            forall|j: int| 0 <= j < i ==> models@[j].id@ != model@,
        decreases models@.len() - i,
    {
        if str_eq(models[i].id.as_str(), model) {
            assert(ids_of(models@)[i as int] == model@);
            return true;
        }
        i = i + 1;
    }
    assert(!ids_of(models@).contains(model@)) by {
        if ids_of(models@).contains(model@) {
            let j = choose|j: int| 0 <= j < ids_of(models@).len() && ids_of(models@)[j] == model@;
            assert(models@[j].id@ == model@);
        }
    }
    false
}

/// Whether `model` is offered by the provider, given the result of the
/// model-listing call: a failed listing is passed on, never read as `false`.
pub fn validate_model(
    listing: Result<Vec<ModelInfo>, CommitError>,
    model: &str,
) -> (r: Result<bool, CommitError>)
    ensures
        listing matches Err(e) ==> r == Err::<bool, CommitError>(e),
        listing matches Ok(ms) ==> r == Ok::<bool, CommitError>(ids_of(ms@).contains(model@)),
{
    match listing {
        Ok(ms) => Ok(contains_model(&ms, model)),
        Err(e) => Err(e),
    }
}

/// The text of the settings file for an API key and a model: a pretty-printed
/// JSON object of the two keys. An empty API key is refused.
pub fn encode_settings(apikey: &str, model: &str) -> (r: Result<String, CommitError>)
    ensures
        apikey@.len() == 0 ==> r == Err::<String, CommitError>(CommitError::Configuration),
        apikey@.len() > 0 ==> r is Ok,
        r matches Ok(text) ==> text@ == pretty_json_object(settings_record(apikey@, model@)),
        r matches Err(e) ==> e == CommitError::Configuration,
{
    if apikey.is_empty() {
        return Err(CommitError::Configuration);
    }
    let entries = vec![
        (APIKEY_KEY.to_owned(), apikey.to_owned()),
        (MODEL_KEY.to_owned(), model.to_owned()),
    ];
    assert(entries_view(entries@) =~= settings_record(apikey@, model@));
    match to_pretty_json(entries) {
        Ok(text) => Ok(text),
        Err(_) => Err(CommitError::Configuration),
    }
}

/// The settings from the values read for the two keys: both must be present.
pub fn settings_from_values(
    apikey: Option<String>,
    model: Option<String>,
) -> (r: Result<Settings, CommitError>)
    ensures
        (apikey is Some && model is Some) <==> r is Ok,
        r matches Ok(s) ==> s.apikey == apikey && s.model == model,
        r matches Err(e) ==> e == CommitError::Configuration,
{
    match (apikey, model) {
        (Some(k), Some(m)) => Ok(Settings { apikey: Some(k), model: Some(m) }),
        _ => Err(CommitError::Configuration),
    }
}

/// The settings read from the text of the settings file: both keys must be
/// present. What the config crate reads for each key is not stated; given
/// the two values, the outcome is that of `settings_from_values`.
pub fn load_settings(text: &str) -> (r: Result<Settings, CommitError>)
    ensures
        r matches Ok(s) ==> s.apikey is Some && s.model is Some,
        r matches Err(e) ==> e == CommitError::Configuration,
{
    let apikey = match config_get_string(text, APIKEY_KEY) {
        Ok(k) => Some(k),
        Err(_) => None,
    };
    let model = match config_get_string(text, MODEL_KEY) {
        Ok(m) => Some(m),
        Err(_) => None,
    };
    settings_from_values(apikey, model)
}

} // verus!
