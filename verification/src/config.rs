//! Settings of the server and the way they are resolved.
//!
//! A setting comes from up to four layers, the later ones winning: the
//! built-in default, the environment, the command line, and a file of
//! overrides. The first three are settled before this module is reached and
//! arrive as a [`Config`]; the file, when one is named, arrives as a
//! [`ConfigFile`] in which every setting may be absent. [`Config::load`] lays
//! the file over the rest, setting by setting.

use std::path::PathBuf;
use vstd::prelude::*;
use vstd::string::*;

verus! {

/// Host the server binds to when nothing else names one.
pub const DEFAULT_HOST: &'static str = "127.0.0.1";

/// Port the server binds to when nothing else names one.
pub const DEFAULT_PORT: u16 = 9001;

/// Directory the server stores objects under when nothing else names one.
pub const DEFAULT_ROOT: &'static str = "./s3-data";

/// Access key that is accepted when nothing else names one.
pub const DEFAULT_ACCESS_KEY: &'static str = "admin";

/// Secret key that is accepted when nothing else names one.
pub const DEFAULT_SECRET_KEY: &'static str = "admin";

/// `std::path::PathBuf`, carried through as an opaque value: nothing in this
/// crate looks inside a path.
#[verifier::external_type_specification]
#[verifier::external_body]
pub struct ExPathBuf(std::path::PathBuf);

/// `Clone` for `std::path::PathBuf`: the copy is the same path.
pub assume_specification[ <std::path::PathBuf as std::clone::Clone>::clone ](
    path: &std::path::PathBuf,
) -> (copy: std::path::PathBuf)
    ensures
        copy == *path,
;

/// The settings the server runs with. Every setting but `config_file` always
/// has a value: there is no unset state to fall back from later.
#[derive(Debug, PartialEq, Eq)]
pub struct Config {
    /// File of overrides named on the command line, if any.
    pub config_file: Option<PathBuf>,
    /// Address to bind to.
    pub host: String,
    /// Port to bind to.
    pub port: u16,
    /// Directory under which objects are stored.
    pub root: PathBuf,
    /// Access key of the one credential pair.
    pub access_key: String,
    /// Secret key of the one credential pair.
    pub secret_key: String,
}

/// What a file of overrides holds: any setting may be absent, and an absent
/// setting overrides nothing.
#[derive(Debug, PartialEq, Eq)]
pub struct ConfigFile {
    pub host: Option<String>,
    pub port: Option<u16>,
    pub root: Option<PathBuf>,
    pub access_key: Option<String>,
    pub secret_key: Option<String>,
}

/// Why the settings could not be resolved.
#[derive(Clone, Debug, PartialEq, Eq)]
pub enum ConfigError {
    /// A file of overrides is named, but nothing was read from it.
    Missing,
    /// The named file could not be read; the text says why.
    Unreadable(String),
    /// The named file was read but is not a document of the expected shape;
    /// the text says why.
    Malformed(String),
}

impl Clone for Config {
    fn clone(&self) -> (copy: Config)
        ensures
            copy == *self,
    {
        Config {
            config_file: self.config_file.clone(),
            host: self.host.clone(),
            port: self.port,
            root: self.root.clone(),
            access_key: self.access_key.clone(),
            secret_key: self.secret_key.clone(),
        }
    }
}

impl Clone for ConfigFile {
    fn clone(&self) -> (copy: ConfigFile)
        ensures
            copy == *self,
    {
        ConfigFile {
            host: self.host.clone(),
            port: self.port,
            root: self.root.clone(),
            access_key: self.access_key.clone(),
            secret_key: self.secret_key.clone(),
        }
    }
}

/// Value of a setting once an optional override has been laid over it.
pub open spec fn overlay<T>(base: T, over: Option<T>) -> T {
    match over {
        Some(value) => value,
        None => base,
    }
}

/// The settings that result from laying `file` over `base`, setting by
/// setting. The name of the file itself is not a setting of the file.
pub open spec fn merged(base: Config, file: ConfigFile) -> Config {
    Config {
        config_file: base.config_file,
        host: overlay(base.host, file.host),
        port: overlay(base.port, file.port),
        root: overlay(base.root, file.root),
        access_key: overlay(base.access_key, file.access_key),
        secret_key: overlay(base.secret_key, file.secret_key),
    }
}

/// What resolution yields for settings `base` and for what came of reading
/// the file they name.
pub open spec fn resolved(
    base: Config,
    file: Option<Result<ConfigFile, ConfigError>>,
) -> Result<Config, ConfigError> {
    if base.config_file is None {
        Ok(base)
    } else {
        match file {
            Some(Ok(overrides)) => Ok(merged(base, overrides)),
            Some(Err(error)) => Err(error),
            None => Err(ConfigError::Missing),
        }
    }
}

/// The character that stands for a decimal digit.
pub open spec fn digit_char(digit: nat) -> char
    recommends
        digit < 10,
{
    if digit == 0 {
        '0'
    } else if digit == 1 {
        '1'
    } else if digit == 2 {
        '2'
    } else if digit == 3 {
        '3'
    } else if digit == 4 {
        '4'
    } else if digit == 5 {
        '5'
    } else if digit == 6 {
        '6'
    } else if digit == 7 {
        '7'
    } else if digit == 8 {
        '8'
    } else {
        '9'
    }
}

/// A number written in decimal, without sign or leading zeros.
pub open spec fn decimal(n: nat) -> Seq<char>
    decreases n,
{
    if n < 10 {
        seq![digit_char(n)]
    } else {
        decimal(n / 10).push(digit_char(n % 10))
    }
}

/// The text `host:port` of an address.
pub open spec fn address_text(host: Seq<char>, port: u16) -> Seq<char> {
    host + seq![':'] + decimal(port as nat)
}

/// One decimal digit as text.
fn digit_text(digit: u16) -> (text: &'static str)
    requires
        digit < 10,
    ensures
        text@ == seq![digit_char(digit as nat)],
{
    proof {
        reveal_strlit("0");
        reveal_strlit("1");
        reveal_strlit("2");
        reveal_strlit("3");
        reveal_strlit("4");
        reveal_strlit("5");
        reveal_strlit("6");
        reveal_strlit("7");
        reveal_strlit("8");
        reveal_strlit("9");
    }
    let text = if digit == 0 {
        "0"
    } else if digit == 1 {
        "1"
    } else if digit == 2 {
        "2"
    } else if digit == 3 {
        "3"
    } else if digit == 4 {
        "4"
    } else if digit == 5 {
        "5"
    } else if digit == 6 {
        "6"
    } else if digit == 7 {
        "7"
    } else if digit == 8 {
        "8"
    } else {
        "9"
    };
    assert(text@ =~= seq![digit_char(digit as nat)]);
    text
}

/// A port number written in decimal.
fn port_text(port: u16) -> (text: String)
    ensures
        text@ == decimal(port as nat),
    decreases port,
{
    if port < 10 {
        String::from_str(digit_text(port))
    } else {
        let mut text = port_text(port / 10);
        text.append(digit_text(port % 10));
        assert(text@ =~= decimal(port as nat));
        text
    }
}

impl Config {
    /// Lays a file of overrides over these settings: a setting that the file
    /// holds takes the file's value, every other setting keeps its own.
    pub fn merge(self, file: ConfigFile) -> (result: Config)
        ensures
            result == merged(self, file),
    {
        let mut config = self;
        if let Some(host) = file.host {
            config.host = host;
        }
        if let Some(port) = file.port {
            config.port = port;
        }
        if let Some(root) = file.root {
            config.root = root;
        }
        if let Some(access_key) = file.access_key {
            config.access_key = access_key;
        }
        if let Some(secret_key) = file.secret_key {
            config.secret_key = secret_key;
        }
        config
    }

    /// Resolves the settings. `cli` holds what defaults, environment and
    /// command line give; `file` is what came of reading the file that
    /// `cli.config_file` names, or `None` where no file was read.
    ///
    /// With no file named, `cli` is the answer whatever `file` holds. With a
    /// file named, its contents are laid over `cli`; a file that could not be
    /// read or understood, or that was not read at all, fails the resolution
    /// as a whole.
    pub fn load(cli: Config, file: Option<Result<ConfigFile, ConfigError>>) -> (result: Result<
        Config,
        ConfigError,
    >)
        ensures
            result == resolved(cli, file),
    {
        if cli.config_file.is_none() {
            return Ok(cli);
        }
        match file {
            Some(Ok(overrides)) => Ok(cli.merge(overrides)),
            Some(Err(error)) => Err(error),
            None => Err(ConfigError::Missing),
        }
    }

    /// The address to listen on, written as `host:port` with the port in
    /// decimal. Whether the text names a socket address is for the one who
    /// binds it to find out.
    pub fn socket_addr(&self) -> (text: String)
        ensures
            text@ == address_text(self.host@, self.port),
    {
        let mut text = self.host.clone();
        proof {
            reveal_strlit(":");
        }
        text.append(":");
        let port = port_text(self.port);
        text.append(port.as_str());
        assert(text@ =~= address_text(self.host@, self.port));
        text
    }
}

/// Resolution leaves no setting open. Where it succeeds, every setting of
/// the result is a value that one of the layers gave: the one that `cli`
/// holds, or the one that the file holds.
pub proof fn resolution_settles_every_setting(
    cli: Config,
    file: Option<Result<ConfigFile, ConfigError>>,
)
    ensures
        resolved(cli, file) matches Ok(config) ==> config.config_file == cli.config_file,
        resolved(cli, file) matches Ok(config) ==> config.host == cli.host || (file matches Some(
            Ok(overrides),
        ) && overrides.host == Some(config.host)),
        resolved(cli, file) matches Ok(config) ==> config.port == cli.port || (file matches Some(
            Ok(overrides),
        ) && overrides.port == Some(config.port)),
        resolved(cli, file) matches Ok(config) ==> config.root == cli.root || (file matches Some(
            Ok(overrides),
        ) && overrides.root == Some(config.root)),
        resolved(cli, file) matches Ok(config) ==> config.access_key == cli.access_key || (
        file matches Some(Ok(overrides)) && overrides.access_key == Some(config.access_key)),
        resolved(cli, file) matches Ok(config) ==> config.secret_key == cli.secret_key || (
        file matches Some(Ok(overrides)) && overrides.secret_key == Some(config.secret_key)),
{
}

/// The file wins, setting by setting. With a file named and read, a setting
/// that the file holds takes the file's value whatever `cli` holds, and a
/// setting that the file lacks keeps the value `cli` holds.
pub proof fn file_settings_dominate(cli: Config, overrides: ConfigFile)
    requires
        cli.config_file is Some,
    ensures
        resolved(cli, Some(Ok(overrides))) is Ok,
        overrides.host matches Some(host) ==> resolved(cli, Some(Ok(overrides)))->Ok_0.host == host,
        overrides.host is None ==> resolved(cli, Some(Ok(overrides)))->Ok_0.host == cli.host,
        overrides.port matches Some(port) ==> resolved(cli, Some(Ok(overrides)))->Ok_0.port == port,
        overrides.port is None ==> resolved(cli, Some(Ok(overrides)))->Ok_0.port == cli.port,
        overrides.root matches Some(root) ==> resolved(cli, Some(Ok(overrides)))->Ok_0.root == root,
        overrides.root is None ==> resolved(cli, Some(Ok(overrides)))->Ok_0.root == cli.root,
        overrides.access_key matches Some(key) ==> resolved(
            cli,
            Some(Ok(overrides)),
        )->Ok_0.access_key == key,
        overrides.access_key is None ==> resolved(cli, Some(Ok(overrides)))->Ok_0.access_key
            == cli.access_key,
        overrides.secret_key matches Some(key) ==> resolved(
            cli,
            Some(Ok(overrides)),
        )->Ok_0.secret_key == key,
        overrides.secret_key is None ==> resolved(cli, Some(Ok(overrides)))->Ok_0.secret_key
            == cli.secret_key,
{
}

/// A file that is named has to be read and understood. With a file named,
/// resolution succeeds only on the contents of that file; a failure to read
/// or to understand it is the failure of the resolution, and so is the lack
/// of any reading.
pub proof fn named_file_must_load(cli: Config, file: Option<Result<ConfigFile, ConfigError>>)
    requires
        cli.config_file is Some,
    ensures
        resolved(cli, file) is Ok <==> file matches Some(Ok(_)),
        file matches Some(Err(error)) ==> resolved(cli, file) == Err::<Config, ConfigError>(error),
        file is None ==> resolved(cli, file) == Err::<Config, ConfigError>(ConfigError::Missing),
{
}

/// With no file named, resolution cannot fail: it yields `cli` as it is,
/// whatever is handed in as the outcome of a reading.
pub proof fn unnamed_file_never_fails(cli: Config, file: Option<Result<ConfigFile, ConfigError>>)
    requires
        cli.config_file is None,
    ensures
        resolved(cli, file) == Ok::<Config, ConfigError>(cli),
{
}

} // verus!
