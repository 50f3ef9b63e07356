//! The user configuration: the stored credential and the rendering options,
//! and the paths of the directory and file that hold it.

use vstd::prelude::*;

use crate::text::trim_chars;
use crate::text::trimmed;

verus! {

/// The stored configuration: the API credential and the options sent with
/// every query.
pub struct Config {
    pub app_id: String,
    pub background: String,
    pub foreground: String,
    pub font_size: u32,
    pub units: String,
}

/// The background colour a fresh configuration starts with.
pub open spec fn default_background() -> Seq<char> {
    "FFFFFF"@
}

/// The foreground colour a fresh configuration starts with.
pub open spec fn default_foreground() -> Seq<char> {
    "000000"@
}

/// The font size a fresh configuration starts with.
pub open spec fn default_font_size() -> u32 {
    14
}

/// The unit system a fresh configuration starts with.
pub open spec fn default_units() -> Seq<char> {
    "metric"@
}

impl Config {
    /// Whether every option besides the credential holds its default value.
    pub open spec fn has_default_options(self) -> bool {
        &&& self.background@ == default_background()
        &&& self.foreground@ == default_foreground()
        &&& self.font_size == default_font_size()
        &&& self.units@ == default_units()
    }

    /// A fresh configuration holding the given credential and the default
    /// rendering options.
    pub fn with_app_id(app_id: String) -> (c: Config)
        ensures
            c.app_id@ == app_id@,
            c.has_default_options(),
    {
        Config {
            app_id,
            background: "FFFFFF".to_owned(),
            foreground: "000000".to_owned(),
            font_size: 14,
            units: "metric".to_owned(),
        }
    }

    /// The configuration that an entered credential produces: the entered line
    /// is trimmed of surrounding whitespace and every option takes its default.
    pub fn from_entered_key(raw: &str) -> (c: Config)
        ensures
            c.app_id@ == trimmed(raw@),
            c.has_default_options(),
    {
        Config::with_app_id(trim_chars(raw))
    }
}

/// The directory that holds the configuration file, from the two environment
/// values that decide it: the explicit configuration home wins, the home
/// directory's `.config` is the fallback, and with neither there is no
/// directory.
pub fn config_dir(xdg_config_home: Option<String>, home: Option<String>) -> (r: Option<String>)
    ensures
        xdg_config_home matches Some(x) ==> (r matches Some(p) && p@ == x@ + "/wa-cli"@),
        xdg_config_home is None ==> (home matches Some(h) ==> (r matches Some(p) && p@ == h@
            + "/.config/wa-cli"@)),
        xdg_config_home is None && home is None ==> r is None,
{
    match xdg_config_home {
        Some(x) => Some(x.concat("/wa-cli")),
        None => match home {
            Some(h) => Some(h.concat("/.config/wa-cli")),
            None => None,
        },
    }
}

/// The path of the configuration file inside its directory.
pub fn config_file_path(dir: &str) -> (r: String)
    ensures
        r@ == dir@ + "/config.toml"@,
{
    dir.to_owned().concat("/config.toml")
}

} // verus!
