//! The user's settings and their JSON form.
//!
//! The settings file is read and written by the caller; here the settings
//! are turned into the JSON value that is written, and read back from one.

use vstd::prelude::*;
use crate::json::{find_from, member, JsonValue};

verus! {

/// The API keys that the user has entered, each of them optional.
#[derive(Debug, PartialEq, Eq)]
pub struct ApiKeys {
    pub fal: Option<String>,
    pub replicate: Option<String>,
    pub hf: Option<String>,
    pub gpt: Option<String>,
    pub grok: Option<String>,
    pub runpod: Option<String>,
    pub runpod_endpoint: Option<String>,
}

/// The user's settings.
#[derive(Debug, PartialEq, Eq)]
pub struct Settings {
    pub api_keys: Option<ApiKeys>,
}

/// API keys as mathematics.
pub struct ApiKeysView {
    pub fal: Option<Seq<char>>,
    pub replicate: Option<Seq<char>>,
    pub hf: Option<Seq<char>>,
    pub gpt: Option<Seq<char>>,
    pub grok: Option<Seq<char>>,
    pub runpod: Option<Seq<char>>,
    pub runpod_endpoint: Option<Seq<char>>,
}

/// Settings as mathematics.
pub struct SettingsView {
    pub api_keys: Option<ApiKeysView>,
}

/// An optional text as mathematics.
pub open spec fn text_view(t: Option<String>) -> Option<Seq<char>> {
    match t {
        Some(s) => Some(s@),
        None => None,
    }
}

impl View for ApiKeys {
    type V = ApiKeysView;

    open spec fn view(&self) -> ApiKeysView {
        ApiKeysView {
            fal: text_view(self.fal),
            replicate: text_view(self.replicate),
            hf: text_view(self.hf),
            gpt: text_view(self.gpt),
            grok: text_view(self.grok),
            runpod: text_view(self.runpod),
            runpod_endpoint: text_view(self.runpod_endpoint),
        }
    }
}

impl View for Settings {
    type V = SettingsView;

    open spec fn view(&self) -> SettingsView {
        SettingsView {
            api_keys: match self.api_keys {
                Some(keys) => Some(keys@),
                None => None,
            },
        }
    }
}

impl Default for Settings {
    /// Settings without any key.
    fn default() -> (r: Settings)
        ensures
            r@ == (SettingsView { api_keys: None }),
    {
        Settings { api_keys: None }
    }
}

/// The services that a key can be kept for.
#[derive(Clone, Copy, Debug, PartialEq, Eq, Structural)]
pub enum Service {
    Fal,
    Replicate,
    Hf,
    Gpt,
    Grok,
    RunPod,
    RunPodEndpoint,
}

/// Why a JSON value is no settings.
#[derive(Clone, Copy, Debug, PartialEq, Eq, Structural)]
pub enum SettingsError {
    /// The value is not an object.
    NotAnObject,
    /// The member `api_keys` is neither an object nor null.
    KeysNotAnObject,
    /// The key of this service is neither a string nor null.
    KeyNotText(Service),
}

/// The name under which the key of a service is kept.
pub open spec fn key_name(service: Service) -> Seq<char> {
    match service {
        Service::Fal => "FAL"@,
        Service::Replicate => "Replicate"@,
        Service::Hf => "HF"@,
        Service::Gpt => "GPT"@,
        Service::Grok => "Grok"@,
        Service::RunPod => "RunPod"@,
        Service::RunPodEndpoint => "RunPodEndpoint"@,
    }
}

/// The text shown for a value that is no settings.
pub open spec fn error_text(e: SettingsError) -> Seq<char> {
    match e {
        SettingsError::NotAnObject => "Ошибка парсинга настроек: ожидался объект"@,
        SettingsError::KeysNotAnObject => "Ошибка парсинга настроек: api_keys не является объектом"@,
        SettingsError::KeyNotText(service) => "Ошибка парсинга настроек: ключ не является строкой: "@
            + key_name(service),
    }
}

/// What a value says of an optional text: null says that there is none.
pub open spec fn optional_text(v: JsonValue) -> Option<Option<Seq<char>>> {
    match v {
        JsonValue::Null => Some(None),
        JsonValue::Text(s) => Some(Some(s@)),
        _ => None,
    }
}

/// The key of a service in the object of keys: absent and null both say
/// that there is none; anything but a string is refused.
pub open spec fn parsed_key(keys: JsonValue, service: Service) -> Result<
    Option<Seq<char>>,
    SettingsError,
> {
    match member(keys, key_name(service)) {
        None => Ok(None),
        Some(v) => match optional_text(v) {
            Some(text) => Ok(text),
            None => Err(SettingsError::KeyNotText(service)),
        },
    }
}

/// The keys that an object of keys holds. Members under other names are
/// passed over.
pub open spec fn parsed_keys(keys: JsonValue) -> Result<ApiKeysView, SettingsError> {
    if !(keys is Object) {
        Err(SettingsError::KeysNotAnObject)
    } else if parsed_key(keys, Service::Fal) is Err {
        Err(parsed_key(keys, Service::Fal)->Err_0)
    } else if parsed_key(keys, Service::Replicate) is Err {
        Err(parsed_key(keys, Service::Replicate)->Err_0)
    } else if parsed_key(keys, Service::Hf) is Err {
        Err(parsed_key(keys, Service::Hf)->Err_0)
    } else if parsed_key(keys, Service::Gpt) is Err {
        Err(parsed_key(keys, Service::Gpt)->Err_0)
    } else if parsed_key(keys, Service::Grok) is Err {
        Err(parsed_key(keys, Service::Grok)->Err_0)
    } else if parsed_key(keys, Service::RunPod) is Err {
        Err(parsed_key(keys, Service::RunPod)->Err_0)
    } else if parsed_key(keys, Service::RunPodEndpoint) is Err {
        Err(parsed_key(keys, Service::RunPodEndpoint)->Err_0)
    } else {
        Ok(
            ApiKeysView {
                fal: parsed_key(keys, Service::Fal)->Ok_0,
                replicate: parsed_key(keys, Service::Replicate)->Ok_0,
                hf: parsed_key(keys, Service::Hf)->Ok_0,
                gpt: parsed_key(keys, Service::Gpt)->Ok_0,
                grok: parsed_key(keys, Service::Grok)->Ok_0,
                runpod: parsed_key(keys, Service::RunPod)->Ok_0,
                runpod_endpoint: parsed_key(keys, Service::RunPodEndpoint)->Ok_0,
            },
        )
    }
}

/// The settings that a JSON value holds.
pub open spec fn parsed(v: JsonValue) -> Result<SettingsView, SettingsError> {
    if !(v is Object) {
        Err(SettingsError::NotAnObject)
    } else {
        match member(v, "api_keys"@) {
            None => Ok(SettingsView { api_keys: None }),
            Some(JsonValue::Null) => Ok(SettingsView { api_keys: None }),
            Some(keys) => match parsed_keys(keys) {
                Ok(found) => Ok(SettingsView { api_keys: Some(found) }),
                Err(e) => Err(e),
            },
        }
    }
}

/// What reading the settings gives: without a file the defaults, else what
/// the file's value holds.
pub open spec fn loaded(contents: Option<JsonValue>) -> Result<SettingsView, SettingsError> {
    match contents {
        None => Ok(SettingsView { api_keys: None }),
        Some(v) => parsed(v),
    }
}

/// The name under which the key of a service is kept.
pub fn service_name(service: Service) -> (r: &'static str)
    ensures
        r@ == key_name(service),
{
    match service {
        Service::Fal => "FAL",
        Service::Replicate => "Replicate",
        Service::Hf => "HF",
        Service::Gpt => "GPT",
        Service::Grok => "Grok",
        Service::RunPod => "RunPod",
        Service::RunPodEndpoint => "RunPodEndpoint",
    }
}

impl SettingsError {
    /// Renders the failure as the text a user reads.
    pub fn message(&self) -> (r: String)
        ensures
            r@ == error_text(*self),
    {
        match self {
            SettingsError::NotAnObject => String::from_str(
                "Ошибка парсинга настроек: ожидался объект",
            ),
            SettingsError::KeysNotAnObject => String::from_str(
                "Ошибка парсинга настроек: api_keys не является объектом",
            ),
            SettingsError::KeyNotText(service) => String::from_str(
                "Ошибка парсинга настроек: ключ не является строкой: ",
            ).concat(service_name(*service)),
        }
    }
}

fn read_key(keys: &JsonValue, service: Service) -> (r: Result<Option<String>, SettingsError>)
    ensures
        match r {
            Ok(text) => parsed_key(*keys, service) == Ok::<Option<Seq<char>>, SettingsError>(
                text_view(text),
            ),
            Err(e) => parsed_key(*keys, service) == Err::<Option<Seq<char>>, SettingsError>(e),
        },
{
    match keys.get(service_name(service)) {
        None => Ok(None),
        Some(JsonValue::Null) => Ok(None),
        Some(JsonValue::Text(s)) => Ok(Some(s.clone())),
        Some(_) => Err(SettingsError::KeyNotText(service)),
    }
}

fn read_keys(keys: &JsonValue) -> (r: Result<ApiKeys, SettingsError>)
    ensures
        match r {
            Ok(found) => parsed_keys(*keys) == Ok::<ApiKeysView, SettingsError>(found@),
            Err(e) => parsed_keys(*keys) == Err::<ApiKeysView, SettingsError>(e),
        },
{
    match keys {
        JsonValue::Object(_) => {},
        _ => {
            return Err(SettingsError::KeysNotAnObject);
        },
    }
    let fal = match read_key(keys, Service::Fal) {
        Ok(text) => text,
        Err(e) => {
            return Err(e);
        },
    };
    let replicate = match read_key(keys, Service::Replicate) {
        Ok(text) => text,
        Err(e) => {
            return Err(e);
        },
    };
    let hf = match read_key(keys, Service::Hf) {
        Ok(text) => text,
        Err(e) => {
            return Err(e);
        },
    };
    let gpt = match read_key(keys, Service::Gpt) {
        Ok(text) => text,
        Err(e) => {
            return Err(e);
        },
    };
    let grok = match read_key(keys, Service::Grok) {
        Ok(text) => text,
        Err(e) => {
            return Err(e);
        },
    };
    let runpod = match read_key(keys, Service::RunPod) {
        Ok(text) => text,
        Err(e) => {
            return Err(e);
        },
    };
    let runpod_endpoint = match read_key(keys, Service::RunPodEndpoint) {
        Ok(text) => text,
        Err(e) => {
            return Err(e);
        },
    };
    Ok(ApiKeys { fal, replicate, hf, gpt, grok, runpod, runpod_endpoint })
}

/// Reads the settings: `contents` is the value of the settings file, or
/// `None` where there is no file, which gives the defaults.
pub fn load_settings(contents: Option<JsonValue>) -> (r: Result<Settings, SettingsError>)
    ensures
        match r {
            Ok(settings) => loaded(contents) == Ok::<SettingsView, SettingsError>(settings@),
            Err(e) => loaded(contents) == Err::<SettingsView, SettingsError>(e),
        },
        contents is None ==> r is Ok,
{
    match contents {
        None => Ok(Settings::default()),
        Some(v) => {
            match v {
                JsonValue::Object(_) => {},
                _ => {
                    return Err(SettingsError::NotAnObject);
                },
            }
            match v.get("api_keys") {
                None => Ok(Settings { api_keys: None }),
                Some(JsonValue::Null) => Ok(Settings { api_keys: None }),
                Some(keys) => match read_keys(keys) {
                    Ok(found) => Ok(Settings { api_keys: Some(found) }),
                    Err(e) => Err(e),
                },
            }
        },
    }
}

/// The place of a service's key in the object of keys that is written.
pub open spec fn slot(service: Service) -> int {
    match service {
        Service::Fal => 0,
        Service::Replicate => 1,
        Service::Hf => 2,
        Service::Gpt => 3,
        Service::Grok => 4,
        Service::RunPod => 5,
        Service::RunPodEndpoint => 6,
    }
}

/// The key of a service among the keys.
pub open spec fn key_of(keys: ApiKeysView, service: Service) -> Option<Seq<char>> {
    match service {
        Service::Fal => keys.fal,
        Service::Replicate => keys.replicate,
        Service::Hf => keys.hf,
        Service::Gpt => keys.gpt,
        Service::Grok => keys.grok,
        Service::RunPod => keys.runpod,
        Service::RunPodEndpoint => keys.runpod_endpoint,
    }
}

/// The value is the written form of the keys: an object of seven members,
/// one for each service in its place, a string for a key and null for none.
pub open spec fn is_saved_keys(v: JsonValue, keys: ApiKeysView) -> bool {
    &&& v matches JsonValue::Object(members)
    &&& members@.len() == 7
    &&& forall|service: Service|
        {
            &&& (#[trigger] members@[slot(service)]).0@ == key_name(service)
            &&& optional_text(members@[slot(service)].1) == Some(key_of(keys, service))
        }
}

/// The value is the written form of the settings: an object with the one
/// member `api_keys`, which is null or the written form of the keys.
pub open spec fn is_saved(v: JsonValue, settings: SettingsView) -> bool {
    &&& v matches JsonValue::Object(members)
    &&& members@.len() == 1
    &&& members@[0].0@ == "api_keys"@
    &&& match settings.api_keys {
        None => members@[0].1 == JsonValue::Null,
        Some(keys) => is_saved_keys(members@[0].1, keys),
    }
}

/// No two services keep their key under the same name.
pub proof fn lemma_key_names_differ()
    ensures
        forall|a: Service, b: Service| a != b ==> key_name(a) != key_name(b),
{
    reveal_strlit("FAL");
    reveal_strlit("Replicate");
    reveal_strlit("HF");
    reveal_strlit("GPT");
    reveal_strlit("Grok");
    reveal_strlit("RunPod");
    reveal_strlit("RunPodEndpoint");
    assert("FAL"@.len() == 3 && "FAL"@[0] == 'F');
    assert("Replicate"@.len() == 9);
    assert("HF"@.len() == 2);
    assert("GPT"@.len() == 3 && "GPT"@[0] == 'G');
    assert("Grok"@.len() == 4);
    assert("RunPod"@.len() == 6);
    assert("RunPodEndpoint"@.len() == 14);
}

/// A member whose key no earlier member has is the one that a lookup finds.
pub proof fn lemma_find_at(members: Seq<(String, JsonValue)>, key: Seq<char>, from: int, at: int)
    requires
        0 <= from <= at < members.len(),
        members[at].0@ == key,
        forall|i: int| from <= i < at ==> (#[trigger] members[i]).0@ != key,
    ensures
        find_from(members, key, from) == at,
    decreases at - from,
{
    if from < at {
        lemma_find_at(members, key, from + 1, at);
    }
}

/// Reading the written form of keys gives the keys back.
pub proof fn lemma_keys_round_trip(v: JsonValue, keys: ApiKeysView)
    requires
        is_saved_keys(v, keys),
    ensures
        parsed_keys(v) == Ok::<ApiKeysView, SettingsError>(keys),
{
    lemma_key_names_differ();
    let members = v->Object_0@;
    assert forall|service: Service|
        #[trigger] parsed_key(v, service) == Ok::<Option<Seq<char>>, SettingsError>(
            key_of(keys, service),
        ) by {
        let at = slot(service);
        assert forall|i: int| 0 <= i < at implies (#[trigger] members[i]).0@ != key_name(
            service,
        ) by {
            let other = if i == 0 {
                Service::Fal
            } else if i == 1 {
                Service::Replicate
            } else if i == 2 {
                Service::Hf
            } else if i == 3 {
                Service::Gpt
            } else if i == 4 {
                Service::Grok
            } else if i == 5 {
                Service::RunPod
            } else {
                Service::RunPodEndpoint
            };
            assert(slot(other) == i);
            assert(members[slot(other)].0@ == key_name(other));
        }
        assert(members[slot(service)].0@ == key_name(service));
        lemma_find_at(members, key_name(service), 0, at);
    }
    assert(parsed_key(v, Service::Fal) is Ok);
    assert(parsed_key(v, Service::Replicate) is Ok);
    assert(parsed_key(v, Service::Hf) is Ok);
    assert(parsed_key(v, Service::Gpt) is Ok);
    assert(parsed_key(v, Service::Grok) is Ok);
    assert(parsed_key(v, Service::RunPod) is Ok);
    assert(parsed_key(v, Service::RunPodEndpoint) is Ok);
}

/// Settings that were saved are loaded again as they were.
pub proof fn lemma_settings_round_trip(v: JsonValue, settings: SettingsView)
    requires
        is_saved(v, settings),
    ensures
        loaded(Some(v)) == Ok::<SettingsView, SettingsError>(settings),
{
    let members = v->Object_0@;
    assert(find_from(members, "api_keys"@, 0) == 0);
    match settings.api_keys {
        None => {},
        Some(keys) => {
            lemma_keys_round_trip(members[0].1, keys);
        },
    }
}

fn key_member(service: Service, text: &Option<String>) -> (r: (String, JsonValue))
    ensures
        r.0@ == key_name(service),
        optional_text(r.1) == Some(text_view(*text)),
{
    let value = match text {
        Some(s) => JsonValue::Text(s.clone()),
        None => JsonValue::Null,
    };
    (String::from_str(service_name(service)), value)
}

fn keys_json(keys: &ApiKeys) -> (r: JsonValue)
    ensures
        is_saved_keys(r, keys@),
{
    let mut members: Vec<(String, JsonValue)> = Vec::new();
    members.push(key_member(Service::Fal, &keys.fal));
    members.push(key_member(Service::Replicate, &keys.replicate));
    members.push(key_member(Service::Hf, &keys.hf));
    members.push(key_member(Service::Gpt, &keys.gpt));
    members.push(key_member(Service::Grok, &keys.grok));
    members.push(key_member(Service::RunPod, &keys.runpod));
    members.push(key_member(Service::RunPodEndpoint, &keys.runpod_endpoint));
    JsonValue::Object(members)
}

/// The JSON value under which the settings are written. Loading it gives
/// the settings back.
pub fn save_settings(settings: &Settings) -> (r: JsonValue)
    ensures
        is_saved(r, settings@),
        loaded(Some(r)) == Ok::<SettingsView, SettingsError>(settings@),
{
    let value = match &settings.api_keys {
        Some(keys) => keys_json(keys),
        None => JsonValue::Null,
    };
    let mut members: Vec<(String, JsonValue)> = Vec::new();
    members.push((String::from_str("api_keys"), value));
    let r = JsonValue::Object(members);
    proof {
        lemma_settings_round_trip(r, settings@);
    }
    r
}

} // verus!
