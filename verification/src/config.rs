use vstd::prelude::*;
use crate::color::{is_hex_color, is_valid_hex_color, parse_rrggbbaa, hex_color_value, Rgba8};

verus! {

/// Settings read from the configuration file.
pub struct Config {
    pub general: ConfigGeneral,
    pub appearance: ConfigAppearance,
}

/// Where screenshots go and whether the desktop is told about them.
pub struct ConfigGeneral {
    pub save_path: String,
    pub enable_notifications: bool,
}

/// How the selection overlay looks.
pub struct ConfigAppearance {
    pub rect_color: String,
}

/// The message for a `rect_color` that is not a hex colour.
pub open spec fn rect_color_error() -> Seq<char> {
    "invalid value for 'rect_color': valid value is '#rrggbb' or '#rrggbbaa'."@
}

/// The message for a save directory that does not exist.
pub open spec fn save_dir_error(dir: Seq<char>) -> Seq<char> {
    "invalid value for 'save_path': directory '"@ + dir + "' does not exist."@
}

/// The default save directory under a home directory.
pub open spec fn default_save_path(home: Seq<char>) -> Seq<char> {
    home + "/Pictures/Screenshots"@
}

/// Name of the result of std's `Path::parent` on a path given as text.
pub uninterp spec fn path_parent(path: Seq<char>) -> Option<Seq<char>>;

/// std's `Path::parent`: the path without its final component, or `None`
/// for the empty path or a root. The contract names the result
/// (`path_parent`) and states the documented case of the empty path; the
/// parent of a path given as UTF-8 text is itself UTF-8, so it is returned
/// as text unchanged.
#[verifier::external_body]
fn parent_of(path: &str) -> (r: Option<String>)
    ensures
        match r {
            Some(p) => path_parent(path@) == Some(p@),
            None => path_parent(path@) is None,
        },
        path@.len() == 0 ==> r is None,
{
    std::path::Path::new(path).parent().map(|p| p.to_string_lossy().into_owned())
}

/// The directory that must exist for a save path: its parent, unless the
/// path has none or the parent is empty (a bare file name).
pub open spec fn required_dir(save_path: Seq<char>) -> Option<Seq<char>> {
    match path_parent(save_path) {
        Some(p) => if p.len() > 0 { Some(p) } else { None },
        None => None,
    }
}

/// `base` joined with a relative component that holds no separator, as
/// `PathBuf::push` does on Unix: a `/` goes between them unless `base` is
/// empty or already ends with one.
pub open spec fn join_component(base: Seq<char>, component: Seq<char>) -> Seq<char> {
    if base.len() == 0 || base.last() == '/' {
        base + component
    } else {
        base + "/"@ + component
    }
}

/// Where the configuration file lives: `$XDG_CONFIG_HOME/ricture/config.toml`,
/// or `$HOME/.config/ricture/config.toml` when the first is not set.
pub open spec fn config_path_of(xdg_config_home: Option<Seq<char>>, home: Seq<char>) -> Seq<char> {
    let base = match xdg_config_home {
        Some(x) => x,
        None => join_component(home, ".config"@),
    };
    join_component(join_component(base, "ricture"@), "config.toml"@)
}

fn join(base: String, component: &str) -> (r: String)
    ensures
        r@ == join_component(base@, component@),
{
    let n = base.unicode_len();
    if n == 0 || base.as_str().get_char(n - 1) == '/' {
        base.concat(component)
    } else {
        base.concat("/").concat(component)
    }
}

/// The path of the configuration file, given `$XDG_CONFIG_HOME` and `$HOME`
/// (each `None` where unset); `$HOME` is only read when the first is unset.
pub fn config_path(xdg_config_home: Option<String>, home: Option<String>) -> (r: String)
    requires
        xdg_config_home is Some || home is Some,
    ensures
        r@ == config_path_of(
            match xdg_config_home {
                Some(x) => Some(x@),
                None => None,
            },
            match home {
                Some(h) => h@,
                None => Seq::empty(),
            },
        ),
{
    let base = match xdg_config_home {
        Some(x) => x,
        None => join(home.unwrap(), ".config"),
    };
    join(join(base, "ricture"), "config.toml")
}

/// The outcome of checking a configuration, given whether its save
/// directory exists: the general section's error first, then the
/// appearance's.
pub open spec fn config_check(config: &Config, save_dir_exists: bool) -> Result<(), Seq<char>> {
    match required_dir(config.general.save_path@) {
        Some(d) if !save_dir_exists => Err(save_dir_error(d)),
        _ => if is_hex_color(config.appearance.rect_color@) {
            Ok(())
        } else {
            Err(rect_color_error())
        },
    }
}

/// A save path whose directory is missing fails the whole check with the
/// `save_path` message for that directory, whatever the colour; a check
/// that passes means the directory, where one is needed, exists and the
/// colour is `#rrggbb[aa]`.
pub proof fn law_missing_save_dir_fails_check(config: &Config, save_dir_exists: bool)
    ensures
        !save_dir_exists ==> (required_dir(config.general.save_path@) matches Some(d) ==> config_check(
            config,
            save_dir_exists,
        ) == Err::<(), Seq<char>>(save_dir_error(d))),
        config_check(config, save_dir_exists) is Ok ==> (required_dir(config.general.save_path@) is None
            || save_dir_exists) && is_hex_color(config.appearance.rect_color@),
        (required_dir(config.general.save_path@) is None || save_dir_exists) ==> (config_check(
            config,
            save_dir_exists,
        ) is Ok <==> is_hex_color(config.appearance.rect_color@)),
{
}

/// A configuration that passes its check has a colour that
/// [`AppConfig::from_config`] accepts.
pub proof fn law_checked_config_has_valid_color(config: &Config, save_dir_exists: bool)
    requires
        config_check(config, save_dir_exists) is Ok,
    ensures
        is_hex_color(config.appearance.rect_color@),
{
}

/// The default selection colour, `#ffffff`, passes the colour check, so a
/// freshly written default configuration is accepted.
pub proof fn law_default_color_is_valid()
    ensures
        is_hex_color("#ffffff"@),
        hex_color_value("#ffffff"@) == (Rgba8 { r: 255, g: 255, b: 255, a: 255 }),
{
    reveal_strlit("#ffffff");
}

impl ConfigGeneral {
    /// The default general settings for a user whose home directory is
    /// `home`: screenshots go to `~/Pictures/Screenshots`, no notifications.
    pub fn for_home(home: &str) -> (r: ConfigGeneral)
        ensures
            r.save_path@ == default_save_path(home@),
            !r.enable_notifications,
    {
        let save_path = String::from_str(home).concat("/Pictures/Screenshots");
        ConfigGeneral { save_path, enable_notifications: false }
    }

    /// The directory that has to exist before a screenshot can be saved to
    /// `save_path`; an empty path needs none.
    pub fn save_dir(&self) -> (r: Option<String>)
        ensures
            match r {
                Some(d) => required_dir(self.save_path@) == Some(d@),
                None => required_dir(self.save_path@) is None,
            },
            self.save_path@.len() == 0 ==> r is None,
    {
        match parent_of(self.save_path.as_str()) {
            Some(p) => {
                if p.unicode_len() > 0 {
                    Some(p)
                } else {
                    None
                }
            },
            None => None,
        }
    }

    /// Checks the save path, given whether [`ConfigGeneral::save_dir`]'s
    /// directory exists: a required directory that is missing is an error,
    /// and an empty save path is always accepted.
    pub fn validate(&self, save_dir_exists: bool) -> (r: Result<(), String>)
        ensures
            match required_dir(self.save_path@) {
                Some(d) => if save_dir_exists {
                    r is Ok
                } else {
                    r matches Err(e) && e@ == save_dir_error(d)
                },
                None => r is Ok,
            },
            self.save_path@.len() == 0 ==> r is Ok,
    {
        match self.save_dir() {
            Some(d) => {
                if save_dir_exists {
                    Ok(())
                } else {
                    let msg = String::from_str("invalid value for 'save_path': directory '").concat(
                        d.as_str(),
                    ).concat("' does not exist.");
                    Err(msg)
                }
            },
            None => Ok(()),
        }
    }
}

impl ConfigAppearance {
    /// The default appearance: an opaque white selection border.
    pub fn default_appearance() -> (r: ConfigAppearance)
        ensures
            r.rect_color@ == "#ffffff"@,
    {
        ConfigAppearance { rect_color: String::from_str("#ffffff") }
    }

    /// Checks that `rect_color` is `#rrggbb` or `#rrggbbaa`.
    pub fn validate(&self) -> (r: Result<(), String>)
        ensures
            if is_hex_color(self.rect_color@) {
                r is Ok
            } else {
                r matches Err(e) && e@ == rect_color_error()
            },
    {
        if is_valid_hex_color(self.rect_color.as_str()) {
            Ok(())
        } else {
            Err(
                String::from_str(
                    "invalid value for 'rect_color': valid value is '#rrggbb' or '#rrggbbaa'.",
                ),
            )
        }
    }
}

impl Config {
    /// The default configuration for a user whose home directory is `home`.
    pub fn for_home(home: &str) -> (r: Config)
        ensures
            r.general.save_path@ == default_save_path(home@),
            !r.general.enable_notifications,
            r.appearance.rect_color@ == "#ffffff"@,
    {
        Config { general: ConfigGeneral::for_home(home), appearance: ConfigAppearance::default_appearance() }
    }

    /// Checks the whole configuration; the general section's error is
    /// reported before the appearance's.
    pub fn validate(&self, save_dir_exists: bool) -> (r: Result<(), String>)
        ensures
            match r {
                Ok(()) => config_check(self, save_dir_exists) is Ok,
                Err(e) => config_check(self, save_dir_exists) == Err::<(), Seq<char>>(e@),
            },
            self.general.save_path@.len() == 0 ==> (r is Ok <==> is_hex_color(self.appearance.rect_color@)),
            !save_dir_exists ==> (required_dir(self.general.save_path@) matches Some(d) ==> (r matches Err(e)
                && e@ == save_dir_error(d))),
            r is Ok ==> (required_dir(self.general.save_path@) is None || save_dir_exists) && is_hex_color(
                self.appearance.rect_color@,
            ),
            (required_dir(self.general.save_path@) is None || save_dir_exists) ==> (r is Ok <==> is_hex_color(
                self.appearance.rect_color@,
            )),
    {
        let g = self.general.validate(save_dir_exists);
        let a = self.appearance.validate();
        if let Err(e) = g {
            return Err(e);
        }
        if let Err(e) = a {
            return Err(e);
        }
        Ok(())
    }
}

impl Default for ConfigAppearance {
    /// An opaque white selection border.
    fn default() -> (r: ConfigAppearance)
        ensures
            r.rect_color@ == "#ffffff"@,
    {
        ConfigAppearance::default_appearance()
    }
}

impl Default for AppConfig {
    /// An opaque white selection border.
    fn default() -> (r: AppConfig)
        ensures
            r.rect_color == (Rgba8 { r: 255, g: 255, b: 255, a: 255 }),
    {
        AppConfig::default_config()
    }
}

/// What the overlay needs from the configuration.
pub struct AppConfig {
    pub rect_color: Rgba8,
}

impl AppConfig {
    /// The overlay's defaults: an opaque white selection border.
    pub fn default_config() -> (r: AppConfig)
        ensures
            r.rect_color == (Rgba8 { r: 255, g: 255, b: 255, a: 255 }),
    {
        AppConfig { rect_color: Rgba8 { r: 255, g: 255, b: 255, a: 255 } }
    }

    /// The overlay settings of a configuration whose colour has been
    /// validated.
    pub fn from_config(config: &Config) -> (r: AppConfig)
        requires
            is_hex_color(config.appearance.rect_color@),
        ensures
            r.rect_color == hex_color_value(config.appearance.rect_color@),
    {
        AppConfig { rect_color: parse_rrggbbaa(config.appearance.rect_color.as_str()) }
    }
}

} // verus!
