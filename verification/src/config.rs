//! The agent's configuration and how command-line overrides apply to it.
use vstd::prelude::*;

verus! {

/// What the agent runs with: where the model is served, how to reach the
/// admin, how many turns of context it keeps and where it saves its data.
pub struct Config {
    pub endpoint: String,
    pub token: Option<String>,
    pub model: String,
    pub webhook: String,
    pub context_size: usize,
    pub system_prompt: String,
    pub data_path: Option<String>,
}

/// The path the configuration is read from when none is given.
pub open spec fn default_config_path() -> Seq<char> {
    "config.toml"@
}

/// The path of the configuration file: the override when there is one,
/// else `config.toml`.
pub fn config_path(path_override: Option<String>) -> (r: String)
    ensures
        r@ == (match path_override {
            Some(p) => p@,
            None => default_config_path(),
        }),
{
    match path_override {
        Some(p) => p,
        None => String::from_str("config.toml"),
    }
}

/// The path of the save file: the configured one, else `data.json`.
pub open spec fn save_file(c: Config) -> Seq<char> {
    match c.data_path {
        Some(p) => p@,
        None => "data.json"@,
    }
}

/// The path of the save file that the configuration names.
pub fn save_file_path(config: &Config) -> (r: String)
    ensures
        r@ == save_file(*config),
{
    match &config.data_path {
        Some(p) => p.clone(),
        None => String::from_str("data.json"),
    }
}

/// The configuration that results from applying the given overrides to a
/// loaded one: each override that is present replaces its field.
pub open spec fn overridden(
    c: Config,
    endpoint: Option<String>,
    token: Option<String>,
    model: Option<String>,
    data_path: Option<String>,
) -> Config {
    Config {
        endpoint: match endpoint {
            Some(e) => e,
            None => c.endpoint,
        },
        token: match token {
            Some(t) => Some(t),
            None => c.token,
        },
        model: match model {
            Some(m) => m,
            None => c.model,
        },
        data_path: match data_path {
            Some(d) => Some(d),
            None => c.data_path,
        },
        ..c
    }
}

/// Applies the command-line overrides to the configuration read from the
/// configuration file.
pub fn load_config(
    loaded: Config,
    endpoint_override: Option<String>,
    token_override: Option<String>,
    model_override: Option<String>,
    data_path_override: Option<String>,
) -> (r: Config)
    ensures
        r == overridden(loaded, endpoint_override, token_override, model_override, data_path_override),
{
    let mut config = loaded;
    if let Some(endpoint) = endpoint_override {
        config.endpoint = endpoint;
    }
    if let Some(token) = token_override {
        config.token = Some(token);
    }
    if let Some(model) = model_override {
        config.model = model;
    }
    if let Some(data_path) = data_path_override {
        config.data_path = Some(data_path);
    }
    config
}

/// An override that is given always wins, whatever the file held; a field
/// without an override keeps the file's value; the fields that cannot be
/// overridden never change.
pub proof fn lemma_overrides_win(
    c: Config,
    endpoint: Option<String>,
    token: Option<String>,
    model: Option<String>,
    data_path: Option<String>,
)
    ensures
        ({
            let r = overridden(c, endpoint, token, model, data_path);
            &&& endpoint matches Some(e) ==> r.endpoint == e
            &&& endpoint is None ==> r.endpoint == c.endpoint
            &&& token matches Some(t) ==> r.token == Some(t)
            &&& token is None ==> r.token == c.token
            &&& model matches Some(m) ==> r.model == m
            &&& model is None ==> r.model == c.model
            &&& data_path matches Some(d) ==> r.data_path == Some(d)
            &&& data_path is None ==> r.data_path == c.data_path
            &&& r.webhook == c.webhook
            &&& r.context_size == c.context_size
            &&& r.system_prompt == c.system_prompt
        }),
{
}

/// The save file is the configured path whenever one is configured, and
/// `data.json` otherwise.
pub proof fn lemma_save_file_choice(c: Config)
    ensures
        c.data_path matches Some(p) ==> save_file(c) == p@,
        c.data_path is None ==> save_file(c) == "data.json"@,
{
}

/// Without overrides the loaded configuration stands as it is.
pub proof fn lemma_no_override_keeps_config(c: Config)
    ensures
        overridden(c, None, None, None, None) == c,
{
}

/// Applying the same overrides a second time changes nothing more.
pub proof fn lemma_override_idempotent(
    c: Config,
    endpoint: Option<String>,
    token: Option<String>,
    model: Option<String>,
    data_path: Option<String>,
)
    ensures
        overridden(overridden(c, endpoint, token, model, data_path), endpoint, token, model, data_path)
            == overridden(c, endpoint, token, model, data_path),
{
}

} // verus!
