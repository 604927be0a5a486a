//! The configuration, made once at the start from what the environment
//! holds: the credential for the chat service, and whether the console shows
//! icons.

use vstd::prelude::*;

use crate::text::chars_of;

verus! {

/// What the program runs with.
#[derive(Debug)]
pub struct Config {
    /// The credential that every call of the chat service carries.
    pub api_key: String,
    /// Whether the markers on the console begin with an icon.
    pub use_icons: bool,
}

/// A `Config` as plain values.
pub struct ConfigView {
    pub api_key: Seq<char>,
    pub use_icons: bool,
}

impl View for Config {
    type V = ConfigView;

    open spec fn view(&self) -> ConfigView {
        ConfigView { api_key: self.api_key@, use_icons: self.use_icons }
    }
}

/// Why there is no configuration.
#[derive(Clone, Copy, Debug, PartialEq, Eq, Structural)]
pub enum ConfigError {
    /// The environment holds no credential.
    MissingCredential,
}

/// The word `true`, in small or capital letters or a mix of both.
pub open spec fn is_true_word(value: Seq<char>) -> bool {
    &&& value.len() == 4
    &&& (value[0] == 't' || value[0] == 'T')
    &&& (value[1] == 'r' || value[1] == 'R')
    &&& (value[2] == 'u' || value[2] == 'U')
    &&& (value[3] == 'e' || value[3] == 'E')
}

/// Whether icons are wanted: only where the flag is set to the word `true`.
pub open spec fn icons_wanted(flag: Option<Seq<char>>) -> bool {
    match flag {
        Some(value) => is_true_word(value),
        None => false,
    }
}

/// The configuration for the given credential and flag, or the error in its
/// place.
pub open spec fn configured(api_key: Option<Seq<char>>, icon_flag: Option<Seq<char>>) -> Result<
    ConfigView,
    ConfigError,
> {
    match api_key {
        Some(key) => Ok(ConfigView { api_key: key, use_icons: icons_wanted(icon_flag) }),
        None => Err(ConfigError::MissingCredential),
    }
}

/// The view of a configuration or of the error in its place.
pub open spec fn config_view(r: Result<Config, ConfigError>) -> Result<ConfigView, ConfigError> {
    match r {
        Ok(config) => Ok(config@),
        Err(e) => Err(e),
    }
}

/// Whether `value` is the word `true`, in whatever case its letters are.
pub fn is_true(value: &str) -> (r: bool)
    ensures
        r == is_true_word(value@),
{
    let v = chars_of(value);
    v.len() == 4 && (v[0] == 't' || v[0] == 'T') && (v[1] == 'r' || v[1] == 'R') && (v[2] == 'u'
        || v[2] == 'U') && (v[3] == 'e' || v[3] == 'E')
}

/// The configuration, from the credential and the icon flag as the
/// environment holds them; `None` stands for a variable that is not set.
/// The credential is required. Icons are off unless the flag says `true`.
pub fn configure(api_key: Option<String>, icon_flag: Option<String>) -> (r: Result<
    Config,
    ConfigError,
>)
    ensures
        config_view(r) == configured(api_key.deep_view(), icon_flag.deep_view()),
{
    match api_key {
        Some(key) => {
            let use_icons = match &icon_flag {
                Some(value) => is_true(value.as_str()),
                None => false,
            };
            Ok(Config { api_key: key, use_icons })
        },
        None => Err(ConfigError::MissingCredential),
    }
}

} // verus!
