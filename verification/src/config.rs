//! What a run is configured with.

use vstd::prelude::*;

verus! {

/// The settings of a run: where the audio files go, which playlist is
/// mirrored, and how the download provider is reached.
#[derive(Debug, PartialEq, Eq)]
pub struct Config {
    pub dir: String,
    pub play_id: i64,
    pub lx_api_url: String,
    pub lx_api_key: String,
    /// Whether the certificate of the server that the audio is fetched from
    /// may go unchecked. No other request is ever sent that way.
    pub relaxed_tls: bool,
}

/// The mathematical value of a [`Config`].
pub struct ConfigView {
    pub dir: Seq<char>,
    pub play_id: int,
    pub lx_api_url: Seq<char>,
    pub lx_api_key: Seq<char>,
    pub relaxed_tls: bool,
}

impl View for Config {
    type V = ConfigView;

    open spec fn view(&self) -> ConfigView {
        ConfigView {
            dir: self.dir@,
            play_id: self.play_id as int,
            lx_api_url: self.lx_api_url@,
            lx_api_key: self.lx_api_key@,
            relaxed_tls: self.relaxed_tls,
        }
    }
}

/// A setting without which no run can start.
#[derive(Debug, Clone, Copy, PartialEq, Eq, Structural)]
pub enum ConfigError {
    /// The address of the download provider is not set.
    MissingApiUrl,
    /// The key for the download provider is not set.
    MissingApiKey,
}

/// The settings made of these values, or the first of them that is
/// missing: the address is looked at before the key.
pub open spec fn assembled(
    dir: Seq<char>,
    play_id: int,
    lx_api_url: Option<Seq<char>>,
    lx_api_key: Option<Seq<char>>,
    relaxed_tls: bool,
) -> Result<ConfigView, ConfigError> {
    match lx_api_url {
        None => Err(ConfigError::MissingApiUrl),
        Some(url) => match lx_api_key {
            None => Err(ConfigError::MissingApiKey),
            Some(key) => Ok(
                ConfigView { dir, play_id, lx_api_url: url, lx_api_key: key, relaxed_tls },
            ),
        },
    }
}

/// The characters of a string that may be missing.
pub open spec fn chars_of_option(s: Option<String>) -> Option<Seq<char>> {
    match s {
        Some(s) => Some(s@),
        None => None,
    }
}

impl Config {
    /// Puts the settings together from what the command line and the
    /// environment gave. The address and the key of the download provider
    /// are required. Unchecked certificates are allowed only where
    /// `relaxed_tls` says so, and then only for fetching audio.
    pub fn get(
        dir: String,
        play_id: i64,
        lx_api_url: Option<String>,
        lx_api_key: Option<String>,
        relaxed_tls: bool,
    ) -> (config: Result<Config, ConfigError>)
        ensures
            match config {
                Ok(config) => assembled(
                    dir@,
                    play_id as int,
                    chars_of_option(lx_api_url),
                    chars_of_option(lx_api_key),
                    relaxed_tls,
                ) == Ok::<ConfigView, ConfigError>(config@),
                Err(why) => assembled(
                    dir@,
                    play_id as int,
                    chars_of_option(lx_api_url),
                    chars_of_option(lx_api_key),
                    relaxed_tls,
                ) == Err::<ConfigView, ConfigError>(why),
            },
    {
        let lx_api_url = match lx_api_url {
            Some(url) => url,
            None => return Err(ConfigError::MissingApiUrl),
        };
        let lx_api_key = match lx_api_key {
            Some(key) => key,
            None => return Err(ConfigError::MissingApiKey),
        };
        Ok(Config { dir, play_id, lx_api_url, lx_api_key, relaxed_tls })
    }
}

impl ConfigError {
    /// The name of the environment variable that is not set.
    pub fn variable(&self) -> (name: &'static str)
        ensures
            name@ == match *self {
                ConfigError::MissingApiUrl => "LX_API_URL"@,
                ConfigError::MissingApiKey => "LX_API_KEY"@,
            },
    {
        match self {
            ConfigError::MissingApiUrl => "LX_API_URL",
            ConfigError::MissingApiKey => "LX_API_KEY",
        }
    }
}

} // verus!
