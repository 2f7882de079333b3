//! Which credential and which environment the command line works with.

use vstd::prelude::*;
use vstd::string::*;
use crate::client::{production_url, staging_url, BillplzClient, Environment};

verus! {

/// What the configuration file gave. Either entry may be missing.
#[derive(Debug, Clone, PartialEq, Eq)]
pub struct FileConfig {
    pub api_key: Option<String>,
    pub environment: Option<String>,
}

/// The settings in force.
#[derive(Debug, Clone, PartialEq, Eq)]
pub struct Config {
    pub api_key: String,
    pub environment: String,
}

/// [`Config`] as plain mathematical values.
pub struct ConfigView {
    pub api_key: Seq<char>,
    pub environment: Seq<char>,
}

impl DeepView for Config {
    type V = ConfigView;

    open spec fn deep_view(&self) -> ConfigView {
        ConfigView { api_key: self.api_key@, environment: self.environment@ }
    }
}

impl View for Config {
    type V = ConfigView;

    open spec fn view(&self) -> ConfigView {
        self.deep_view()
    }
}

/// What is reported when neither source gives a credential.
pub const MISSING_API_KEY: &'static str =
    "API key not found. Set BILLPLZ_API_KEY env var or add api_key to ~/.billplz/config.toml";

/// What is reported when neither source gives a credential.
pub open spec fn missing_api_key() -> Seq<char> {
    MISSING_API_KEY@
}

/// The value in force for one setting: the environment variable where it is
/// set, else the file's entry.
pub open spec fn chosen(
    from_env: Option<Seq<char>>,
    from_file: Option<Seq<char>>,
) -> Option<Seq<char>> {
    if from_env is Some {
        from_env
    } else {
        from_file
    }
}

/// The settings that the two sources give together. An environment variable
/// overrides the file. Without a credential there are no settings; without an
/// environment it is staging.
pub open spec fn resolved(
    env_api_key: Option<Seq<char>>,
    env_environment: Option<Seq<char>>,
    file_api_key: Option<Seq<char>>,
    file_environment: Option<Seq<char>>,
) -> Result<ConfigView, Seq<char>> {
    match chosen(env_api_key, file_api_key) {
        None => Err(missing_api_key()),
        Some(api_key) => Ok(
            ConfigView {
                api_key,
                environment: match chosen(env_environment, file_environment) {
                    Some(environment) => environment,
                    None => "staging"@,
                },
            },
        ),
    }
}

/// The environment a setting names: production for the word `production`,
/// staging for every other text.
pub open spec fn named_environment(name: Seq<char>) -> Environment {
    if name == "production"@ {
        Environment::Production
    } else {
        Environment::Staging
    }
}

impl Config {
    /// Settles the settings from what the environment variables and the
    /// file gave.
    pub fn resolve(
        env_api_key: Option<String>,
        env_environment: Option<String>,
        file: FileConfig,
    ) -> (r: Result<Config, String>)
        ensures
            match r {
                Ok(config) => resolved(
                    env_api_key.deep_view(),
                    env_environment.deep_view(),
                    file.api_key.deep_view(),
                    file.environment.deep_view(),
                ) == Ok::<ConfigView, Seq<char>>(config@),
                Err(message) => resolved(
                    env_api_key.deep_view(),
                    env_environment.deep_view(),
                    file.api_key.deep_view(),
                    file.environment.deep_view(),
                ) == Err::<ConfigView, Seq<char>>(message@),
            },
    {
        let api_key = match env_api_key {
            Some(key) => key,
            None => match file.api_key {
                Some(key) => key,
                None => {
                    return Err(String::from_str(MISSING_API_KEY));
                },
            },
        };
        let environment = match env_environment {
            Some(environment) => environment,
            None => match file.environment {
                Some(environment) => environment,
                None => String::from_str("staging"),
            },
        };
        Ok(Config { api_key, environment })
    }

    /// The client for these settings.
    pub fn into_client(self) -> (client: BillplzClient)
        ensures
            client@.api_key == self.api_key@,
            client@.environment == Some(named_environment(self.environment@)),
            client@.base_url == match named_environment(self.environment@) {
                Environment::Production => production_url(),
                Environment::Staging => staging_url(),
            },
    {
        let production = String::from_str("production");
        let environment = if self.environment == production {
            Environment::Production
        } else {
            Environment::Staging
        };
        BillplzClient::new(environment, self.api_key.as_str())
    }
}

} // verus!
