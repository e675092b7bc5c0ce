//! The tool's own settings: where the game is installed, and whether a
//! publish may replace an existing copy without asking.
//!
//! A [`Config`] is an ordinary value. Whoever starts the tool loads it once,
//! hands it to the operations that need it, and saves it after every change.

use vstd::prelude::*;
use vstd::string::*;
use crate::error::{Error, ErrorKind, ErrorView};
use crate::paths::{Location, LocationView};
use crate::text::{
    bool_of, bool_text, clone_text, joined, joined3, lowercase, lowered, parse_bool,
    same_text, text_of, trimmed, trimmed_of, write_bool,
};

verus! {

/// The name of the settings file inside the tool's directory.
pub const CONFIG_FILE_NAME: &'static str = "Config.toml";

/// The key of the game's installation directory.
pub const FIELD_PATH_GAME: &'static str = "path_game";

/// The key of the switch that lets a publish replace without asking.
pub const FIELD_NO_ASK: &'static str = "no_ask";

/// Where the game lies below the installation directory of its launcher.
pub const PATH_SEG_RIMWORLD: &'static str = "steamapps/common/RimWorld";

/// The directory of mods below the game's installation directory.
pub const PATH_SEG_MODS: &'static str = "Mods";

/// The first lines of a settings file that the tool wrote itself.
pub const GENERATED_MARK: &'static str =
    "# This file was generated by rimpub, do not edit manually\n\n";

/// The tool's settings.
#[derive(Debug)]
pub struct Config {
    /// The game's installation directory, if it is known.
    pub path_game: Option<String>,
    /// Whether an existing copy is replaced without asking.
    pub no_ask: bool,
}

/// What a [`Config`] stands for.
pub struct ConfigView {
    pub path_game: Option<Seq<char>>,
    pub no_ask: bool,
}

impl View for Config {
    type V = ConfigView;

    open spec fn view(&self) -> ConfigView {
        ConfigView { path_game: text_of(self.path_game), no_ask: self.no_ask }
    }
}

impl Default for Config {
    fn default() -> (r: Config)
        ensures
            r@ == (ConfigView { path_game: None, no_ask: false }),
    {
        Config { path_game: None, no_ask: false }
    }
}

/// A change to the settings, with the value as the operator wrote it.
#[derive(Debug)]
pub enum ConfigChange {
    PathGame(String),
    NoAsk(String),
}

/// The request to save the settings after a change.
#[derive(Clone, Copy, Debug, PartialEq, Eq, Structural)]
pub struct SaveRequest {
    /// Whether the file is to start with [`GENERATED_MARK`].
    pub mark_generated: bool,
}

/// What was found where the settings are kept.
#[derive(Debug)]
pub enum StoreProbe {
    /// The tool's directory does not exist: this is the first run.
    NoDirectory,
    /// The directory exists, the settings file does not.
    NoFile,
    /// The file could not be read, for the reason given.
    Unreadable(String),
    /// The file could not be parsed, for the reason given.
    Malformed(String),
    /// The file was read and parsed.
    Loaded(Config),
}

/// What loading the settings asks for next.
#[derive(Debug)]
pub enum LoadStep {
    /// The settings are these.
    Use(Config),
    /// Default settings are to be made and saved, after the tool's directory
    /// has been created where `create_directory` says so.
    MakeDefault { create_directory: bool },
    /// Loading has failed.
    Fail(Error),
}

/// What the value of a key is: the directory as it is written, the switch
/// as `true` or `false`, and nothing for an unset directory or another key.
pub open spec fn field_of(config: ConfigView, field: Seq<char>) -> Option<Seq<char>> {
    if field == FIELD_PATH_GAME@ {
        config.path_game
    } else if field == FIELD_NO_ASK@ {
        Some(bool_text(config.no_ask))
    } else {
        None
    }
}

/// The message for a key that the settings do not have.
pub open spec fn unknown_key_message(key: Seq<char>) -> Seq<char> {
    "Unexpected key "@ + key + " provided"@
}

/// The message for a value of the switch that is no boolean.
pub open spec fn invalid_bool_message(value: Seq<char>) -> Seq<char> {
    "Invalid value for 'no_ask': expected a boolean, got '"@ + value + "'"@
}

/// The settings after the directory is set to `path`.
pub open spec fn with_path_game(config: ConfigView, path: Seq<char>) -> ConfigView {
    ConfigView { path_game: Some(path), no_ask: config.no_ask }
}

/// The settings after the switch is set to `value`.
pub open spec fn with_no_ask(config: ConfigView, value: bool) -> ConfigView {
    ConfigView { path_game: config.path_game, no_ask: value }
}

/// The settings after `set` of a key in lowercase `field` to `value`, whose
/// trimmed form is `trimmed`; or the failure, which names the key as the
/// operator wrote it.
pub open spec fn set_of(
    config: ConfigView,
    key: Seq<char>,
    field: Seq<char>,
    value: Seq<char>,
    trimmed: Seq<char>,
) -> Result<ConfigView, ErrorView> {
    if field == FIELD_PATH_GAME@ {
        Ok(with_path_game(config, trimmed))
    } else if field == FIELD_NO_ASK@ {
        match bool_of(value) {
            Some(b) => Ok(with_no_ask(config, b)),
            None => Err(
                ErrorView { kind: ErrorKind::Config, message: invalid_bool_message(value) },
            ),
        }
    } else {
        Err(ErrorView { kind: ErrorKind::Config, message: unknown_key_message(key) })
    }
}

impl Config {
    /// The settings with which the tool runs, from the result of loading
    /// them: a failure to load is reported as such.
    pub fn init(loaded: Result<Config, Error>) -> (r: Result<Config, Error>)
        ensures
            match loaded {
                Ok(config) => r is Ok && r->Ok_0@ == config@,
                Err(e) => r is Err && r->Err_0@ == (ErrorView {
                    kind: e.kind,
                    message: "Failed to load config file: "@ + e.message@,
                }),
            },
    {
        match loaded {
            Ok(config) => Ok(config),
            Err(e) => Err(e.within("Failed to load config file: ")),
        }
    }

    /// Decides how the settings are loaded from what was found on disk. On
    /// the first run, and when the file is gone, default settings are made; a
    /// file that cannot be read or parsed is a failure.
    pub fn load(probe: StoreProbe) -> (r: LoadStep)
        ensures
            match probe {
                StoreProbe::NoDirectory => r matches LoadStep::MakeDefault { create_directory }
                    && create_directory,
                StoreProbe::NoFile => r matches LoadStep::MakeDefault { create_directory }
                    && !create_directory,
                StoreProbe::Unreadable(detail) => r matches LoadStep::Fail(e) && e@ == (ErrorView {
                    kind: ErrorKind::Filesystem,
                    message: detail@,
                }),
                StoreProbe::Malformed(detail) => r matches LoadStep::Fail(e) && e@ == (ErrorView {
                    kind: ErrorKind::Config,
                    message: detail@,
                }),
                StoreProbe::Loaded(config) => r matches LoadStep::Use(c) && c@ == config@,
            },
    {
        match probe {
            StoreProbe::NoDirectory => LoadStep::MakeDefault { create_directory: true },
            StoreProbe::NoFile => LoadStep::MakeDefault { create_directory: false },
            StoreProbe::Unreadable(detail) => LoadStep::Fail(
                Error::of(ErrorKind::Filesystem, detail),
            ),
            StoreProbe::Malformed(detail) => LoadStep::Fail(Error::of(ErrorKind::Config, detail)),
            StoreProbe::Loaded(config) => LoadStep::Use(config),
        }
    }

    /// The failure to create the tool's directory on the first run.
    pub fn directory_failure(detail: &str) -> (r: Error)
        ensures
            r@ == (ErrorView {
                kind: ErrorKind::Filesystem,
                message: "Failed to create config directory: "@ + detail@,
            }),
    {
        Error::new(ErrorKind::Filesystem, "Failed to create config directory: ", detail)
    }

    /// Where the game would lie if its launcher is installed at the place
    /// that `steam` gives: that place is then to be resolved on disk. A
    /// lookup that failed gives no place.
    pub fn game_candidate(steam: &Result<Option<String>, Error>) -> (r: Option<Location>)
        ensures
            match *steam {
                Ok(Some(install)) => r is Some && r->0@ == (LocationView {
                    base: install@,
                    below: seq![PATH_SEG_RIMWORLD@],
                }),
                _ => r is None,
            },
    {
        match steam {
            Ok(Some(install)) => {
                let place = Location::new(install.as_str()).join(PATH_SEG_RIMWORLD);
                assert(place@.below =~= seq![PATH_SEG_RIMWORLD@]);
                Some(place)
            },
            _ => None,
        }
    }

    /// The default settings: the game's directory where it was found, and
    /// the switch off.
    pub fn default_make(path_game: Option<String>) -> (r: Config)
        ensures
            r@ == (ConfigView { path_game: text_of(path_game), no_ask: false }),
    {
        Config { path_game, no_ask: false }
    }

    /// The text of the settings file, from the settings as they were
    /// rendered: the mark first where the file is marked as generated.
    pub fn save(rendered: &str, mark_generated: bool) -> (r: String)
        ensures
            r@ == if mark_generated {
                GENERATED_MARK@ + rendered@
            } else {
                rendered@
            },
    {
        if mark_generated {
            joined(GENERATED_MARK, rendered)
        } else {
            rendered.to_owned()
        }
    }

    /// The value of the key that `field` names in lowercase.
    pub fn field(&self, field: &str) -> (r: Option<String>)
        ensures
            text_of(r) == field_of(self@, field@),
    {
        if same_text(field, FIELD_PATH_GAME) {
            clone_text(&self.path_game)
        } else if same_text(field, FIELD_NO_ASK) {
            Some(write_bool(self.no_ask))
        } else {
            None
        }
    }

    /// The value of a key, whatever the case it is written in.
    pub fn get(&self, key: &str) -> (r: Option<String>)
        ensures
            text_of(r) == field_of(self@, lowered(key@)),
    {
        let field = lowercase(key);
        self.field(field.as_str())
    }

    /// A copy of the settings.
    pub fn get_clone(&self) -> (r: Config)
        ensures
            r@ == self@,
    {
        Config { path_game: clone_text(&self.path_game), no_ask: self.no_ask }
    }

    /// The directory of mods of the game, if the game's directory is known.
    pub fn get_path_mods(&self) -> (r: Result<Option<Location>, Error>)
        ensures
            r is Ok,
            match self@.path_game {
                Some(game) => r->Ok_0 is Some && r->Ok_0->0@ == (LocationView {
                    base: game,
                    below: seq![PATH_SEG_MODS@],
                }),
                None => r->Ok_0 is None,
            },
    {
        match &self.path_game {
            Some(game) => {
                let place = Location::new(game.as_str()).join(PATH_SEG_MODS);
                assert(place@.below =~= seq![PATH_SEG_MODS@]);
                Ok(Some(place))
            },
            None => Ok(None),
        }
    }

    /// Sets the game's directory to `path` as it stands.
    pub fn put_path_game(&mut self, path: String)
        ensures
            final(self)@ == with_path_game(old(self)@, path@),
    {
        self.path_game = Some(path);
    }

    /// Makes one change and asks for the settings to be saved. The
    /// directory is stored without the whitespace around it; the switch has
    /// to be `true` or `false`. A change that fails leaves the settings as
    /// they were.
    pub fn write(&mut self, change: ConfigChange) -> (r: Result<SaveRequest, Error>)
        ensures
            match change {
                ConfigChange::PathGame(value) => r == Ok::<SaveRequest, Error>(
                    SaveRequest { mark_generated: true },
                ) && final(self)@ == with_path_game(old(self)@, trimmed_of(value@)),
                ConfigChange::NoAsk(value) => match bool_of(value@) {
                    Some(b) => r == Ok::<SaveRequest, Error>(SaveRequest { mark_generated: true })
                        && final(self)@ == with_no_ask(old(self)@, b),
                    None => r is Err && r->Err_0@ == (ErrorView {
                        kind: ErrorKind::Config,
                        message: invalid_bool_message(value@),
                    }) && final(self)@ == old(self)@,
                },
            },
    {
        match change {
            ConfigChange::PathGame(value) => {
                self.put_path_game(trimmed(value.as_str()));
                Ok(SaveRequest { mark_generated: true })
            },
            ConfigChange::NoAsk(value) => match parse_bool(value.as_str()) {
                Some(b) => {
                    self.no_ask = b;
                    Ok(SaveRequest { mark_generated: true })
                },
                None => Err(
                    Error::of(
                        ErrorKind::Config,
                        joined3(
                            "Invalid value for 'no_ask': expected a boolean, got '",
                            value.as_str(),
                            "'",
                        ),
                    ),
                ),
            },
        }
    }

    /// Sets the key that `field` names in lowercase, and that the operator
    /// wrote as `key`, to `value`.
    pub fn set_field(&mut self, key: &str, field: &str, value: &str) -> (r: Result<
        SaveRequest,
        Error,
    >)
        ensures
            match set_of(old(self)@, key@, field@, value@, trimmed_of(value@)) {
                Ok(config) => r == Ok::<SaveRequest, Error>(SaveRequest { mark_generated: true })
                    && final(self)@ == config,
                Err(e) => r is Err && r->Err_0@ == e && final(self)@ == old(self)@,
            },
    {
        if same_text(field, FIELD_PATH_GAME) {
            self.write(ConfigChange::PathGame(value.to_owned()))
        } else if same_text(field, FIELD_NO_ASK) {
            self.write(ConfigChange::NoAsk(value.to_owned()))
        } else {
            Err(Error::of(ErrorKind::Config, joined3("Unexpected key ", key, " provided")))
        }
    }

    /// Sets a key, whatever the case it is written in, and asks for the
    /// settings to be saved. A key that does not exist and a value that does
    /// not fit are failures, and leave the settings as they were.
    pub fn set(&mut self, key: &str, value: &str) -> (r: Result<SaveRequest, Error>)
        ensures
            match set_of(old(self)@, key@, lowered(key@), value@, trimmed_of(value@)) {
                Ok(config) => r == Ok::<SaveRequest, Error>(SaveRequest { mark_generated: true })
                    && final(self)@ == config,
                Err(e) => r is Err && r->Err_0@ == e && final(self)@ == old(self)@,
            },
    {
        let field = lowercase(key);
        self.set_field(key, field.as_str(), value)
    }
}

/// The arguments of the `config` command.
#[derive(Debug)]
pub struct ConfigArgs {
    pub command: ConfigCommand,
}

/// What the `config` command is asked to do.
#[derive(Debug)]
pub enum ConfigCommand {
    /// Show one value, or all of them.
    Get(ConfigGetArgs),
    /// Set one value.
    SetValue(ConfigSetArgs),
    /// Check whether the settings can be used.
    Check,
}

/// The arguments of `config get`.
#[derive(Debug)]
pub struct ConfigGetArgs {
    /// The key to show; without it, everything is shown.
    pub key: Option<String>,
}

/// The arguments of `config set`.
#[derive(Debug)]
pub struct ConfigSetArgs {
    pub key: String,
    pub value: String,
}

/// How a check of the settings ended.
#[derive(Debug)]
pub enum CheckVerdict {
    /// The game's directory is set and exists.
    Ready,
    /// The game's directory is set to a path that does not exist.
    Missing(String),
    /// The game's directory is not set.
    NotConfigured,
}

/// What the `config` command answers.
#[derive(Debug)]
pub enum ConfigReply {
    /// The key holds this value, to be shown as [`value_line`] writes it.
    Value { key: String, value: String },
    /// The key exists and holds nothing: there is nothing to show.
    NotSet(String),
    /// The settings have no such key: there is nothing to show.
    UnknownKey(String),
    /// All the settings, to be shown.
    Whole(Config),
    /// The settings were changed and are to be saved.
    Changed(SaveRequest),
    /// Whether this path exists is to be found out; [`check_path`] then
    /// gives the verdict.
    Probe(String),
    /// The check is done.
    Checked(CheckVerdict),
}

/// How a key and its value are shown.
pub open spec fn value_line_of(key: Seq<char>, value: Seq<char>) -> Seq<char> {
    "'"@ + key + "' = "@ + value
}

/// Writes a key and its value as they are shown.
pub fn value_line(key: &str, value: &str) -> (r: String)
    ensures
        r@ == value_line_of(key@, value@),
{
    let mut out = joined3("'", key, "' = ");
    out.append(value);
    out
}

/// The message for a path whose existence could not be found out.
pub open spec fn check_failure_message(path: Seq<char>, detail: Seq<char>) -> Seq<char> {
    "Failed to read configured 'path_mods': "@ + path + " - "@ + detail
}

/// The verdict of a check on a game directory that is set to `path`, from
/// what was found out about it: that it exists, that it does not, or why
/// that could not be found out, which is a failure.
pub fn check_path(path: &str, found: Result<bool, String>) -> (r: Result<CheckVerdict, Error>)
    ensures
        match found {
            Ok(true) => r matches Ok(CheckVerdict::Ready),
            Ok(false) => r matches Ok(CheckVerdict::Missing(p)) && p@ == path@,
            Err(detail) => r is Err && r->Err_0@ == (ErrorView {
                kind: ErrorKind::Filesystem,
                message: check_failure_message(path@, detail@),
            }),
        },
{
    match found {
        Ok(true) => Ok(CheckVerdict::Ready),
        Ok(false) => Ok(CheckVerdict::Missing(path.to_owned())),
        Err(detail) => {
            let mut message = joined3("Failed to read configured 'path_mods': ", path, " - ");
            message.append(detail.as_str());
            Err(Error::of(ErrorKind::Filesystem, message))
        },
    }
}

impl CheckVerdict {
    /// Whether the settings can be used.
    pub fn passed(&self) -> (r: bool)
        ensures
            r == (*self is Ready),
    {
        match self {
            CheckVerdict::Ready => true,
            _ => false,
        }
    }
}

impl ConfigArgs {
    /// Carries the command out on the settings and says what is to be shown
    /// or done next. `get` and `check` leave the settings as they are; `set`
    /// changes them as [`Config::set`] does.
    pub fn run(&self, config: &mut Config) -> (r: Result<ConfigReply, Error>)
        ensures
            match self.command {
                ConfigCommand::Get(ConfigGetArgs { key: Some(key) }) => {
                    &&& final(config)@ == old(config)@
                    &&& match field_of(old(config)@, lowered(key@)) {
                        Some(value) => r matches Ok(ConfigReply::Value { key: k, value: v }) && k@
                            == key@ && v@ == value,
                        None => if lowered(key@) == FIELD_PATH_GAME@ {
                            r matches Ok(ConfigReply::NotSet(k)) && k@ == FIELD_PATH_GAME@
                        } else {
                            r matches Ok(ConfigReply::UnknownKey(k)) && k@ == key@
                        },
                    }
                },
                ConfigCommand::Get(ConfigGetArgs { key: None }) => {
                    &&& final(config)@ == old(config)@
                    &&& r matches Ok(ConfigReply::Whole(all)) && all@ == old(config)@
                },
                ConfigCommand::SetValue(ConfigSetArgs { key, value }) => match set_of(
                    old(config)@,
                    key@,
                    lowered(key@),
                    value@,
                    trimmed_of(value@),
                ) {
                    Ok(changed) => {
                        &&& final(config)@ == changed
                        &&& r matches Ok(ConfigReply::Changed(request)) && request.mark_generated
                    },
                    Err(e) => {
                        &&& final(config)@ == old(config)@
                        &&& r matches Err(failure) && failure@ == e
                    },
                },
                ConfigCommand::Check => {
                    &&& final(config)@ == old(config)@
                    &&& match old(config)@.path_game {
                        Some(path) => r matches Ok(ConfigReply::Probe(p)) && p@ == path,
                        None => r matches Ok(ConfigReply::Checked(CheckVerdict::NotConfigured)),
                    }
                },
            },
    {
        match &self.command {
            ConfigCommand::Get(args) => match &args.key {
                Some(key) => {
                    let field = lowercase(key.as_str());
                    match config.field(field.as_str()) {
                        Some(value) => Ok(ConfigReply::Value { key: key.clone(), value }),
                        None => if same_text(field.as_str(), FIELD_PATH_GAME) {
                            Ok(ConfigReply::NotSet(field))
                        } else {
                            Ok(ConfigReply::UnknownKey(key.clone()))
                        },
                    }
                },
                None => Ok(ConfigReply::Whole(config.get_clone())),
            },
            ConfigCommand::SetValue(args) => {
                match config.set(args.key.as_str(), args.value.as_str()) {
                    Ok(request) => Ok(ConfigReply::Changed(request)),
                    Err(e) => Err(e),
                }
            },
            ConfigCommand::Check => match &config.path_game {
                Some(path) => Ok(ConfigReply::Probe(path.clone())),
                None => Ok(ConfigReply::Checked(CheckVerdict::NotConfigured)),
            },
        }
    }
}

} // verus!
