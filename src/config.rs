use vstd::prelude::*;

verus! {

/// The port the language-model backend listens on.
pub const INFERENCE_PORT: u16 = 11434;

/// The process settings the bot reads at start-up.
#[derive(Clone, Copy, Debug, PartialEq, Eq, Structural)]
pub enum ConfigVar {
    Username,
    Password,
    OllamaUrl,
    OllamaModel,
    HomeserverUrl,
}

pub open spec fn var_name(v: ConfigVar) -> Seq<char> {
    match v {
        ConfigVar::Username => "OLLAMA_USERNAME"@,
        ConfigVar::Password => "OLLAMA_PASSWORD"@,
        ConfigVar::OllamaUrl => "OLLAMA_URL"@,
        ConfigVar::OllamaModel => "OLLAMA_MODEL"@,
        ConfigVar::HomeserverUrl => "HOMESERVER_URL"@,
    }
}

impl ConfigVar {
    /// The name of the environment variable that holds this setting.
    pub fn name(&self) -> (r: &'static str)
        ensures
            r@ == var_name(*self),
    {
        match self {
            ConfigVar::Username => "OLLAMA_USERNAME",
            ConfigVar::Password => "OLLAMA_PASSWORD",
            ConfigVar::OllamaUrl => "OLLAMA_URL",
            ConfigVar::OllamaModel => "OLLAMA_MODEL",
            ConfigVar::HomeserverUrl => "HOMESERVER_URL",
        }
    }
}

/// A setting that is absent or empty.
#[derive(Clone, Copy, Debug, PartialEq, Eq, Structural)]
pub enum ConfigError {
    Missing(ConfigVar),
    Empty(ConfigVar),
}

/// The settings of one run of the bot, each present and non-empty.
#[derive(Clone, Debug)]
pub struct BotConfig {
    pub username: String,
    pub password: String,
    pub ollama_url: String,
    pub ollama_model: String,
    pub homeserver_url: String,
}

/// The fault of one setting, if it has one.
pub open spec fn fault(v: ConfigVar, value: Option<String>) -> Option<ConfigError> {
    match value {
        None => Some(ConfigError::Missing(v)),
        Some(s) => if s@.len() == 0 {
            Some(ConfigError::Empty(v))
        } else {
            None
        },
    }
}

/// The first fault among the settings, taken in the order of the parameters.
pub open spec fn first_fault(
    username: Option<String>,
    password: Option<String>,
    ollama_url: Option<String>,
    ollama_model: Option<String>,
    homeserver_url: Option<String>,
) -> Option<ConfigError> {
    if fault(ConfigVar::Username, username) is Some {
        fault(ConfigVar::Username, username)
    } else if fault(ConfigVar::Password, password) is Some {
        fault(ConfigVar::Password, password)
    } else if fault(ConfigVar::OllamaUrl, ollama_url) is Some {
        fault(ConfigVar::OllamaUrl, ollama_url)
    } else if fault(ConfigVar::OllamaModel, ollama_model) is Some {
        fault(ConfigVar::OllamaModel, ollama_model)
    } else {
        fault(ConfigVar::HomeserverUrl, homeserver_url)
    }
}

fn check_var(v: ConfigVar, value: Option<String>) -> (r: Result<String, ConfigError>)
    ensures
        fault(v, value) is Some <==> r is Err,
        r is Err ==> r->Err_0 == fault(v, value)->Some_0,
        r is Ok ==> value == Some(r->Ok_0),
{
    match value {
        None => Err(ConfigError::Missing(v)),
        Some(s) => if s.as_str().is_empty() {
            Err(ConfigError::Empty(v))
        } else {
            Ok(s)
        },
    }
}

impl BotConfig {
    /// Builds the settings from the values found, `None` for an absent one.
    /// Fails with the first setting that is absent or empty.
    pub fn from_values(
        username: Option<String>,
        password: Option<String>,
        ollama_url: Option<String>,
        ollama_model: Option<String>,
        homeserver_url: Option<String>,
    ) -> (r: Result<BotConfig, ConfigError>)
        ensures
            r is Err <==> first_fault(username, password, ollama_url, ollama_model, homeserver_url) is Some,
            r is Err ==> r->Err_0 == first_fault(
                username,
                password,
                ollama_url,
                ollama_model,
                homeserver_url,
            )->Some_0,
            r is Ok ==> username == Some(r->Ok_0.username) && password == Some(r->Ok_0.password)
                && ollama_url == Some(r->Ok_0.ollama_url) && ollama_model == Some(
                r->Ok_0.ollama_model,
            ) && homeserver_url == Some(r->Ok_0.homeserver_url),
    {
        let username = match check_var(ConfigVar::Username, username) {
            Ok(s) => s,
            Err(e) => return Err(e),
        };
        let password = match check_var(ConfigVar::Password, password) {
            Ok(s) => s,
            Err(e) => return Err(e),
        };
        let ollama_url = match check_var(ConfigVar::OllamaUrl, ollama_url) {
            Ok(s) => s,
            Err(e) => return Err(e),
        };
        let ollama_model = match check_var(ConfigVar::OllamaModel, ollama_model) {
            Ok(s) => s,
            Err(e) => return Err(e),
        };
        let homeserver_url = match check_var(ConfigVar::HomeserverUrl, homeserver_url) {
            Ok(s) => s,
            Err(e) => return Err(e),
        };
        Ok(BotConfig { username, password, ollama_url, ollama_model, homeserver_url })
    }
}

} // verus!
