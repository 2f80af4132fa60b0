//! The settings that the client starts with.

use vstd::prelude::*;
use crate::error::ConfigError;

verus! {

/// The four settings: the credentials, the market to trade and the strategy
/// to run. The settings hold a secret and are not printed.
#[derive(PartialEq, Eq)]
pub struct Config {
    pub api_key: String,
    pub api_secret: String,
    pub market: String,
    pub strategy: String,
}

/// Something that holds the settings.
pub trait ConfigProvider {
    fn get_config(&self) -> &Config;
}

/// The settings read from the environment of the process.
pub struct DotEnvConfigProvider(Config);

/// The settings that four values make, each of which may be missing, or the
/// first of them that is missing, in the order key, secret, market,
/// strategy.
pub open spec fn config_of(
    api_key: Option<String>,
    api_secret: Option<String>,
    market: Option<String>,
    strategy: Option<String>,
) -> Result<Config, ConfigError> {
    match (api_key, api_secret, market, strategy) {
        (None, _, _, _) => Err(ConfigError::MissingApiKey),
        (Some(_), None, _, _) => Err(ConfigError::MissingApiSecret),
        (Some(_), Some(_), None, _) => Err(ConfigError::MissingMarket),
        (Some(_), Some(_), Some(_), None) => Err(ConfigError::MissingStrategy),
        (Some(api_key), Some(api_secret), Some(market), Some(strategy)) => Ok(
            Config { api_key, api_secret, market, strategy },
        ),
    }
}

impl Config {
    /// Makes the settings from the values of `API_KEY`, `API_SECRET`,
    /// `MARKET` and `STRATEGY`, each `None` where the variable is not set.
    pub fn build(
        api_key: Option<String>,
        api_secret: Option<String>,
        market: Option<String>,
        strategy: Option<String>,
    ) -> (r: Result<Config, ConfigError>)
        ensures
            r == config_of(api_key, api_secret, market, strategy),
    {
        let api_key = match api_key {
            Some(value) => value,
            None => {
                return Err(ConfigError::MissingApiKey);
            },
        };
        let api_secret = match api_secret {
            Some(value) => value,
            None => {
                return Err(ConfigError::MissingApiSecret);
            },
        };
        let market = match market {
            Some(value) => value,
            None => {
                return Err(ConfigError::MissingMarket);
            },
        };
        let strategy = match strategy {
            Some(value) => value,
            None => {
                return Err(ConfigError::MissingStrategy);
            },
        };
        Ok(Config { api_key, api_secret, market, strategy })
    }
}

impl DotEnvConfigProvider {
    /// The settings that the provider holds.
    pub closed spec fn config(&self) -> Config {
        self.0
    }

    /// A provider of the settings `config`.
    pub fn new(config: Config) -> (provider: DotEnvConfigProvider)
        ensures
            provider.config() == config,
    {
        DotEnvConfigProvider(config)
    }
}

impl ConfigProvider for DotEnvConfigProvider {
    fn get_config(&self) -> (config: &Config)
        ensures
            *config == self.config(),
    {
        &self.0
    }
}

} // verus!
