//! Runtime configuration: API base URL precedence (CLI, environment, config file, default)
//! and the platform config directory.
use vstd::prelude::*;

use crate::paths::{joined_path, path_join};
use crate::text::{concat2, is_blank, opt_text, trim, trim_text};

verus! {

/// Environment variable used to override the MESHH API base URL.
pub const ENV_API_BASE_URL: &'static str = "MESHH_API_BASE_URL";

/// Production MESHH API base URL used when no override is configured.
pub const DEFAULT_API_BASE_URL: &'static str = "https://api.meshh.ai";

/// Directory name of MESHH inside the platform config directory.
pub const APP_CONFIG_DIR_NAME: &'static str = "meshh";

/// File name of the MESHH config file.
pub const CONFIG_FILE_NAME: &'static str = "config.json";

/// Source that provided the resolved API base URL.
#[derive(Debug, Clone, Copy, PartialEq, Eq)]
pub enum ApiBaseUrlSource {
    Cli,
    Environment,
    ConfigFile,
    Default,
}

/// Human-readable name of a configuration source.
pub open spec fn source_label(source: ApiBaseUrlSource) -> Seq<char> {
    match source {
        ApiBaseUrlSource::Cli => "CLI flag"@,
        ApiBaseUrlSource::Environment => "environment variable"@,
        ApiBaseUrlSource::ConfigFile => "config file"@,
        ApiBaseUrlSource::Default => "default"@,
    }
}

impl ApiBaseUrlSource {
    /// Returns the human-readable name of the source.
    pub fn label(&self) -> (r: &'static str)
        ensures
            r@ == source_label(*self),
    {
        match self {
            ApiBaseUrlSource::Cli => "CLI flag",
            ApiBaseUrlSource::Environment => "environment variable",
            ApiBaseUrlSource::ConfigFile => "config file",
            ApiBaseUrlSource::Default => "default",
        }
    }
}

/// Errors produced while loading runtime configuration.
#[derive(Debug, PartialEq, Eq)]
pub enum ConfigError {
    MissingConfigDirectory,
    NonUnicodeEnvironmentVariable { name: &'static str },
    EmptyApiBaseUrl { source: ApiBaseUrlSource },
    ReadConfigFile { path: String, detail: String },
    ParseConfigFile { path: String, detail: String },
}

/// User-facing description of a configuration error.
pub open spec fn config_error_text(error: ConfigError) -> Seq<char> {
    match error {
        ConfigError::MissingConfigDirectory => "could not determine a platform config directory; set HOME or APPDATA"@,
        ConfigError::NonUnicodeEnvironmentVariable { name } => name@ + " must contain valid unicode"@,
        ConfigError::EmptyApiBaseUrl { source } => "API base URL from "@ + source_label(source)
            + " cannot be empty"@,
        ConfigError::ReadConfigFile { path, .. } => "could not read config file "@ + path@,
        ConfigError::ParseConfigFile { path, .. } => "could not parse config file "@ + path@,
    }
}

/// Description of the underlying failure, where the error has one.
pub open spec fn config_error_cause(error: ConfigError) -> Option<Seq<char>> {
    match error {
        ConfigError::ReadConfigFile { detail, .. } => Some(detail@),
        ConfigError::ParseConfigFile { detail, .. } => Some(detail@),
        _ => None,
    }
}

impl ConfigError {
    /// Returns the description of the underlying failure, where the error has one.
    pub fn cause(&self) -> (r: Option<String>)
        ensures
            opt_text(r) == config_error_cause(*self),
    {
        match self {
            ConfigError::ReadConfigFile { detail, .. } => Some(detail.clone()),
            ConfigError::ParseConfigFile { detail, .. } => Some(detail.clone()),
            _ => None,
        }
    }

    /// Returns the user-facing description of the error.
    pub fn message(&self) -> (r: String)
        ensures
            r@ == config_error_text(*self),
    {
        match self {
            ConfigError::MissingConfigDirectory => "could not determine a platform config directory; set HOME or APPDATA".to_owned(),
            ConfigError::NonUnicodeEnvironmentVariable { name } => concat2(
                name,
                " must contain valid unicode",
            ),
            ConfigError::EmptyApiBaseUrl { source } => {
                let mut r = concat2("API base URL from ", source.label());
                r.append(" cannot be empty");
                r
            },
            ConfigError::ReadConfigFile { path, .. } => concat2(
                "could not read config file ",
                path.as_str(),
            ),
            ConfigError::ParseConfigFile { path, .. } => concat2(
                "could not parse config file ",
                path.as_str(),
            ),
        }
    }
}

/// Parsed MESHH config file.
#[derive(Debug, Default, PartialEq, Eq)]
pub struct FileConfig {
    api_base_url: Option<String>,
}

impl FileConfig {
    /// API base URL text the file configures.
    pub closed spec fn url_text(&self) -> Option<Seq<char>> {
        opt_text(self.api_base_url)
    }

    /// Creates a config-file value.
    pub fn new(api_base_url: Option<String>) -> (r: Self)
        ensures
            r.url_text() == opt_text(api_base_url),
    {
        FileConfig { api_base_url }
    }

    /// Returns the API base URL configured in the file.
    pub fn api_base_url(&self) -> (r: Option<&str>)
        ensures
            crate::text::opt_str_text(r) == self.url_text(),
    {
        match &self.api_base_url {
            Some(u) => Some(u.as_str()),
            None => None,
        }
    }

    /// Moves the configured API base URL out of the file value.
    pub fn into_api_base_url(self) -> (r: Option<String>)
        ensures
            opt_text(r) == self.url_text(),
    {
        self.api_base_url
    }
}

impl Clone for FileConfig {
    fn clone(&self) -> (r: Self)
        ensures
            r == *self,
    {
        FileConfig { api_base_url: self.api_base_url.clone() }
    }
}

/// Already-collected configuration values in precedence order.
#[derive(Debug, Default, PartialEq, Eq)]
pub struct ConfigSources {
    cli_api_base_url: Option<String>,
    env_api_base_url: Option<String>,
    config_file: Option<FileConfig>,
}

impl ConfigSources {
    /// The CLI value.
    pub closed spec fn cli_text(&self) -> Option<Seq<char>> {
        opt_text(self.cli_api_base_url)
    }

    /// The environment value.
    pub closed spec fn env_text(&self) -> Option<Seq<char>> {
        opt_text(self.env_api_base_url)
    }

    /// The API base URL of the config file, when a file with one was read.
    pub closed spec fn file_text(&self) -> Option<Seq<char>> {
        match self.config_file {
            Some(f) => f.url_text(),
            None => None,
        }
    }

    /// Sources with no value at all.
    pub fn empty() -> (r: Self)
        ensures
            r.cli_text() is None,
            r.env_text() is None,
            r.file_text() is None,
    {
        ConfigSources { cli_api_base_url: None, env_api_base_url: None, config_file: None }
    }

    /// Sets the API base URL value provided by CLI flags.
    pub fn with_cli_api_base_url(self, value: Option<String>) -> (r: Self)
        ensures
            r.cli_text() == opt_text(value),
            r.env_text() == self.env_text(),
            r.file_text() == self.file_text(),
    {
        ConfigSources { cli_api_base_url: value, ..self }
    }

    /// Sets the API base URL value provided by the process environment.
    pub fn with_env_api_base_url(self, value: Option<String>) -> (r: Self)
        ensures
            r.cli_text() == self.cli_text(),
            r.env_text() == opt_text(value),
            r.file_text() == self.file_text(),
    {
        ConfigSources { env_api_base_url: value, ..self }
    }

    /// Sets the parsed config file, when a config file exists.
    pub fn with_config_file(self, value: Option<FileConfig>) -> (r: Self)
        ensures
            r.cli_text() == self.cli_text(),
            r.env_text() == self.env_text(),
            r.file_text() == match value {
                Some(f) => f.url_text(),
                None => None,
            },
    {
        ConfigSources { config_file: value, ..self }
    }
}

/// Runtime configuration assembled from CLI, environment, config files, and defaults.
#[derive(Debug, PartialEq, Eq)]
pub struct RuntimeConfig {
    api_base_url: String,
    api_base_url_source: ApiBaseUrlSource,
}

/// The highest-precedence value among the sources, with the source that gave it.
pub open spec fn chosen_value(sources: ConfigSources) -> (Seq<char>, ApiBaseUrlSource) {
    if sources.cli_text() is Some {
        (sources.cli_text()->0, ApiBaseUrlSource::Cli)
    } else if sources.env_text() is Some {
        (sources.env_text()->0, ApiBaseUrlSource::Environment)
    } else if sources.file_text() is Some {
        (sources.file_text()->0, ApiBaseUrlSource::ConfigFile)
    } else {
        (DEFAULT_API_BASE_URL@, ApiBaseUrlSource::Default)
    }
}

/// What resolving a value from a source gives: the trimmed value, or an error for a blank one.
pub open spec fn value_outcome(
    value: Seq<char>,
    source: ApiBaseUrlSource,
    r: Result<RuntimeConfig, ConfigError>,
) -> bool {
    &&& (r is Ok <==> !is_blank(value))
    &&& r matches Ok(c) ==> c.base_url_text() == trim(value) && c.source() == source
    &&& r matches Err(e) ==> e == ConfigError::EmptyApiBaseUrl { source }
}

/// Whatever source gives the API base URL, a configuration resolved from it holds a URL that
/// is already trimmed and not empty: trimming it again changes nothing.
pub proof fn law_resolved_url_is_trimmed(
    value: Seq<char>,
    source: ApiBaseUrlSource,
    r: Result<RuntimeConfig, ConfigError>,
)
    requires
        value_outcome(value, source, r),
    ensures
        r matches Ok(c) ==> trim(c.base_url_text()) == c.base_url_text()
            && c.base_url_text().len() > 0,
{
    crate::text::lemma_trim_idempotent(value);
    lemma_trim_empty_iff_blank(value);
}

/// A trimmed text is empty exactly when the text is blank.
pub proof fn lemma_trim_empty_iff_blank(s: Seq<char>)
    ensures
        (trim(s).len() == 0) <==> is_blank(s),
    decreases s.len(),
{
    lemma_trim_start_empty_iff_blank(s);
    let t = crate::text::trim_start(s);
    if t.len() > 0 {
        assert(!crate::text::is_whitespace(t[0]));
        lemma_trim_end_keeps_first(t);
    }
}

proof fn lemma_trim_start_empty_iff_blank(s: Seq<char>)
    ensures
        (crate::text::trim_start(s).len() == 0) <==> is_blank(s),
        crate::text::trim_start(s).len() > 0 ==> !crate::text::is_whitespace(
            crate::text::trim_start(s)[0],
        ),
    decreases s.len(),
{
    if s.len() > 0 && crate::text::is_whitespace(s[0]) {
        let t = s.drop_first();
        lemma_trim_start_empty_iff_blank(t);
        if is_blank(t) {
            assert forall|i: int| 0 <= i < s.len() implies crate::text::is_whitespace(
                #[trigger] s[i],
            ) by {
                if i > 0 {
                    assert(s[i] == t[i - 1]);
                }
            }
        }
        if is_blank(s) {
            assert forall|i: int| 0 <= i < t.len() implies crate::text::is_whitespace(
                #[trigger] t[i],
            ) by {
                assert(t[i] == s[i + 1]);
            }
        }
    } else if s.len() > 0 {
        assert(!crate::text::is_whitespace(s[0]));
    }
}

proof fn lemma_trim_end_keeps_first(t: Seq<char>)
    requires
        t.len() > 0,
        !crate::text::is_whitespace(t[0]),
    ensures
        crate::text::trim_end(t).len() > 0,
    decreases t.len(),
{
    if crate::text::is_whitespace(t.last()) {
        assert(t.len() > 1);
        lemma_trim_end_keeps_first(t.drop_last());
    }
}

impl RuntimeConfig {
    /// The resolved API base URL.
    pub closed spec fn base_url_text(&self) -> Seq<char> {
        self.api_base_url@
    }

    /// The source of the resolved API base URL.
    pub closed spec fn source(&self) -> ApiBaseUrlSource {
        self.api_base_url_source
    }

    /// Builds runtime configuration from CLI values and built-in defaults.
    pub fn from_cli(api_base_url: Option<String>) -> (r: Self)
        requires
            api_base_url matches Some(v) ==> !is_blank(v@),
        ensures
            api_base_url matches Some(v) ==> r.base_url_text() == trim(v@) && r.source()
                == ApiBaseUrlSource::Cli,
            api_base_url is None ==> r.base_url_text() == trim(DEFAULT_API_BASE_URL@)
                && r.source() == ApiBaseUrlSource::Default,
    {
        let sources = ConfigSources::empty().with_cli_api_base_url(api_base_url);
        proof {
            reveal_strlit("https://api.meshh.ai");
            assert(!crate::text::is_whitespace(DEFAULT_API_BASE_URL@[0]));
        }
        match RuntimeConfig::resolve(sources) {
            Ok(c) => c,
            Err(_) => {
                proof {
                    assert(false);
                }
                RuntimeConfig {
                    api_base_url: DEFAULT_API_BASE_URL.to_owned(),
                    api_base_url_source: ApiBaseUrlSource::Default,
                }
            },
        }
    }

    /// Resolves runtime configuration from already-collected sources: the CLI value wins,
    /// then the environment, then the config file, then the built-in default.
    pub fn resolve(sources: ConfigSources) -> (r: Result<Self, ConfigError>)
        ensures
            value_outcome(chosen_value(sources).0, chosen_value(sources).1, r),
    {
        let ConfigSources { cli_api_base_url, env_api_base_url, config_file } = sources;
        if let Some(value) = cli_api_base_url {
            return RuntimeConfig::from_value(value, ApiBaseUrlSource::Cli);
        }
        if let Some(value) = env_api_base_url {
            return RuntimeConfig::from_value(value, ApiBaseUrlSource::Environment);
        }
        if let Some(file) = config_file {
            if let Some(value) = file.into_api_base_url() {
                return RuntimeConfig::from_value(value, ApiBaseUrlSource::ConfigFile);
            }
        }
        RuntimeConfig::from_value(DEFAULT_API_BASE_URL.to_owned(), ApiBaseUrlSource::Default)
    }

    /// Returns the resolved API base URL.
    pub fn api_base_url(&self) -> (r: &str)
        ensures
            r@ == self.base_url_text(),
    {
        self.api_base_url.as_str()
    }

    /// Returns the source that provided the resolved API base URL.
    pub fn api_base_url_source(&self) -> (r: ApiBaseUrlSource)
        ensures
            r == self.source(),
    {
        self.api_base_url_source
    }

    /// Trims a configured value, rejecting one that is blank.
    pub fn from_value(value: String, source: ApiBaseUrlSource) -> (r: Result<Self, ConfigError>)
        ensures
            value_outcome(value@, source, r),
    {
        let trimmed = trim_text(value.as_str());
        proof {
            lemma_trim_empty_iff_blank(value@);
        }
        if trimmed.as_str().is_empty() {
            return Err(ConfigError::EmptyApiBaseUrl { source });
        }
        Ok(RuntimeConfig { api_base_url: trimmed, api_base_url_source: source })
    }
}

/// Options for loading configuration from process-local sources.
#[derive(Debug, PartialEq, Eq)]
pub struct ConfigLoadOptions {
    cli_api_base_url: Option<String>,
    config_path: Option<String>,
}

impl ConfigLoadOptions {
    /// The CLI value.
    pub closed spec fn cli_text(&self) -> Option<Seq<char>> {
        opt_text(self.cli_api_base_url)
    }

    /// The explicit config file path.
    pub closed spec fn path_text(&self) -> Option<Seq<char>> {
        opt_text(self.config_path)
    }

    /// Creates load options from a CLI API base URL override.
    pub fn new(cli_api_base_url: Option<String>) -> (r: Self)
        ensures
            r.cli_text() == opt_text(cli_api_base_url),
            r.path_text() is None,
    {
        ConfigLoadOptions { cli_api_base_url, config_path: None }
    }

    /// Uses an explicit config file path instead of the platform default.
    pub fn with_config_path(self, config_path: &str) -> (r: Self)
        ensures
            r.cli_text() == self.cli_text(),
            r.path_text() == Some(config_path@),
    {
        ConfigLoadOptions { config_path: Some(config_path.to_owned()), ..self }
    }

    /// Returns the explicit config file path, when one was given.
    pub fn config_path(&self) -> (r: Option<&str>)
        ensures
            crate::text::opt_str_text(r) == self.path_text(),
    {
        match &self.config_path {
            Some(p) => Some(p.as_str()),
            None => None,
        }
    }
}

/// Next step of loading configuration. The environment is consulted only when no CLI value
/// was given, and the config file is read only when neither gave a value.
#[derive(Debug, PartialEq, Eq)]
pub enum ConfigLoadStep {
    ReadEnvironment,
    ReadConfigFile { path: Option<String> },
    Finished(Result<RuntimeConfig, ConfigError>),
}

/// Starts loading: a CLI value decides the result without reading anything else.
pub fn load_start(options: &ConfigLoadOptions) -> (r: ConfigLoadStep)
    ensures
        options.cli_text() is None ==> r == ConfigLoadStep::ReadEnvironment,
        options.cli_text() matches Some(v) ==> r matches ConfigLoadStep::Finished(res)
            && value_outcome(v, ApiBaseUrlSource::Cli, res),
{
    match &options.cli_api_base_url {
        Some(v) => ConfigLoadStep::Finished(
            RuntimeConfig::from_value(v.clone(), ApiBaseUrlSource::Cli),
        ),
        None => ConfigLoadStep::ReadEnvironment,
    }
}

/// Continues loading with the value of `MESHH_API_BASE_URL` (or the error reading it).
pub fn load_after_environment(
    options: &ConfigLoadOptions,
    env_value: Result<Option<String>, ConfigError>,
) -> (r: ConfigLoadStep)
    ensures
        env_value matches Err(e) ==> r == ConfigLoadStep::Finished(Err(e)),
        env_value matches Ok(Some(v)) ==> r matches ConfigLoadStep::Finished(res) && value_outcome(
            v@,
            ApiBaseUrlSource::Environment,
            res,
        ),
        env_value matches Ok(None) ==> r matches ConfigLoadStep::ReadConfigFile { path }
            && opt_text(path) == options.path_text(),
{
    match env_value {
        Err(e) => ConfigLoadStep::Finished(Err(e)),
        Ok(Some(v)) => ConfigLoadStep::Finished(
            RuntimeConfig::from_value(v, ApiBaseUrlSource::Environment),
        ),
        Ok(None) => ConfigLoadStep::ReadConfigFile { path: options.config_path.clone() },
    }
}

/// Finishes loading with the config file (absent when no file exists) or the error reading it.
pub fn load_after_config_file(file: Result<Option<FileConfig>, ConfigError>) -> (r: Result<
    RuntimeConfig,
    ConfigError,
>)
    ensures
        file matches Err(e) ==> r == Err::<RuntimeConfig, ConfigError>(e),
        file matches Ok(Some(f)) ==> (f.url_text() matches Some(v) ==> value_outcome(
            v,
            ApiBaseUrlSource::ConfigFile,
            r,
        )),
        file matches Ok(o) ==> ((o is None || o->0.url_text() is None) ==> value_outcome(
            DEFAULT_API_BASE_URL@,
            ApiBaseUrlSource::Default,
            r,
        )),
{
    match file {
        Err(e) => Err(e),
        Ok(f) => RuntimeConfig::resolve(ConfigSources::empty().with_config_file(f)),
    }
}

/// Platform name under which the config directory is `%APPDATA%\meshh`.
pub const WINDOWS_OS: &'static str = "windows";

/// Platform name under which the config directory is `~/Library/Application Support/meshh`.
pub const MACOS_OS: &'static str = "macos";

/// Environment values that locate the platform config directory.
#[derive(Debug, PartialEq, Eq)]
pub struct ConfigDirEnvironment {
    pub xdg_config_home: Option<String>,
    pub home: Option<String>,
    pub app_data: Option<String>,
}

/// An environment path counts only when it is set and non-empty.
pub open spec fn usable_path(o: Option<String>) -> Option<Seq<char>> {
    match o {
        Some(p) => if p@.len() > 0 {
            Some(p@)
        } else {
            None
        },
        None => None,
    }
}

/// Config directory the platform rules give for the environment values.
pub open spec fn config_dir_spec(os: Seq<char>, env: ConfigDirEnvironment) -> Option<Seq<char>> {
    if os == WINDOWS_OS@ {
        match usable_path(env.app_data) {
            Some(a) => Some(joined_path(a, APP_CONFIG_DIR_NAME@)),
            None => None,
        }
    } else if os == MACOS_OS@ {
        match usable_path(env.home) {
            Some(h) => Some(
                joined_path(
                    joined_path(joined_path(h, "Library"@), "Application Support"@),
                    APP_CONFIG_DIR_NAME@,
                ),
            ),
            None => None,
        }
    } else {
        match usable_path(env.xdg_config_home) {
            Some(x) => Some(joined_path(x, APP_CONFIG_DIR_NAME@)),
            None => match usable_path(env.home) {
                Some(h) => Some(joined_path(joined_path(h, ".config"@), APP_CONFIG_DIR_NAME@)),
                None => None,
            },
        }
    }
}

fn usable(o: &Option<String>) -> (r: Option<&str>)
    ensures
        crate::text::opt_str_text(r) == usable_path(*o),
{
    match o {
        Some(p) => if p.as_str().is_empty() {
            None
        } else {
            Some(p.as_str())
        },
        None => None,
    }
}

/// Returns the platform config directory used by MESHH: `%APPDATA%\meshh` on Windows,
/// `~/Library/Application Support/meshh` on macOS, else `$XDG_CONFIG_HOME/meshh` or
/// `~/.config/meshh`.
pub fn default_config_dir(os: &str, env: &ConfigDirEnvironment) -> (r: Result<String, ConfigError>)
    ensures
        config_dir_spec(os@, *env) matches Some(d) ==> r matches Ok(p) && p@ == d,
        config_dir_spec(os@, *env) is None ==> r == Err::<String, ConfigError>(
            ConfigError::MissingConfigDirectory,
        ),
{
    if crate::text::str_eq(os, WINDOWS_OS) {
        match usable(&env.app_data) {
            Some(a) => Ok(path_join(a, APP_CONFIG_DIR_NAME)),
            None => Err(ConfigError::MissingConfigDirectory),
        }
    } else if crate::text::str_eq(os, MACOS_OS) {
        match usable(&env.home) {
            Some(h) => {
                let library = path_join(h, "Library");
                let support = path_join(library.as_str(), "Application Support");
                Ok(path_join(support.as_str(), APP_CONFIG_DIR_NAME))
            },
            None => Err(ConfigError::MissingConfigDirectory),
        }
    } else {
        match usable(&env.xdg_config_home) {
            Some(x) => Ok(path_join(x, APP_CONFIG_DIR_NAME)),
            None => match usable(&env.home) {
                Some(h) => {
                    let dot_config = path_join(h, ".config");
                    Ok(path_join(dot_config.as_str(), APP_CONFIG_DIR_NAME))
                },
                None => Err(ConfigError::MissingConfigDirectory),
            },
        }
    }
}

/// Returns the platform config file path used by MESHH: `config.json` in the config directory.
pub fn default_config_path(os: &str, env: &ConfigDirEnvironment) -> (r: Result<String, ConfigError>)
    ensures
        config_dir_spec(os@, *env) matches Some(d) ==> r matches Ok(p) && p@ == joined_path(
            d,
            CONFIG_FILE_NAME@,
        ),
        config_dir_spec(os@, *env) is None ==> r == Err::<String, ConfigError>(
            ConfigError::MissingConfigDirectory,
        ),
{
    let dir = default_config_dir(os, env)?;
    Ok(path_join(dir.as_str(), CONFIG_FILE_NAME))
}

/// Joins a file name to a directory path with the platform path rules.
pub fn join_path(base: &str, component: &str) -> (r: String)
    ensures
        r@ == joined_path(base@, component@),
{
    path_join(base, component)
}

/// On Windows the config directory is `meshh` under `APPDATA`, whatever `HOME` and
/// `XDG_CONFIG_HOME` hold (two environments that agree on `APPDATA` give the same directory);
/// with `APPDATA` unset or empty there is none.
pub proof fn law_windows_config_dir_is_under_app_data(
    env: ConfigDirEnvironment,
    other: ConfigDirEnvironment,
)
    ensures
        env.app_data matches Some(a) ==> (a@.len() > 0 ==> config_dir_spec("windows"@, env) == Some(
            joined_path(a@, "meshh"@),
        )),
        env.app_data matches Some(a) ==> (a@.len() == 0 ==> config_dir_spec("windows"@, env) is None),
        env.app_data is None ==> config_dir_spec("windows"@, env) is None,
        env.app_data == other.app_data ==> config_dir_spec("windows"@, env) == config_dir_spec(
            "windows"@,
            other,
        ),
{
}

/// On macOS the config directory is `Library/Application Support/meshh` under `HOME`, whatever
/// `APPDATA` and `XDG_CONFIG_HOME` hold (two environments that agree on `HOME` give the same
/// directory); with `HOME` unset or empty there is none.
pub proof fn law_macos_config_dir_is_under_home(env: ConfigDirEnvironment, other: ConfigDirEnvironment)
    ensures
        env.home matches Some(h) ==> (h@.len() > 0 ==> config_dir_spec("macos"@, env) == Some(
            joined_path(joined_path(joined_path(h@, "Library"@), "Application Support"@), "meshh"@),
        )),
        env.home matches Some(h) ==> (h@.len() == 0 ==> config_dir_spec("macos"@, env) is None),
        env.home is None ==> config_dir_spec("macos"@, env) is None,
        env.home == other.home ==> config_dir_spec("macos"@, env) == config_dir_spec(
            "macos"@,
            other,
        ),
{
    reveal_strlit("macos");
    reveal_strlit("windows");
    assert("macos"@ != "windows"@) by {
        assert("macos"@[0] != "windows"@[0]);
    }
}

/// Elsewhere the config directory is `meshh` under `XDG_CONFIG_HOME` when it is set and not
/// empty, else `.config/meshh` under `HOME`; `APPDATA` plays no part (two environments that agree
/// on the other two give the same directory), and with neither variable usable there is none.
pub proof fn law_other_config_dir_prefers_xdg(
    os: Seq<char>,
    env: ConfigDirEnvironment,
    other: ConfigDirEnvironment,
)
    requires
        os != "windows"@,
        os != "macos"@,
    ensures
        env.xdg_config_home matches Some(x) ==> (x@.len() > 0 ==> config_dir_spec(os, env) == Some(
            joined_path(x@, "meshh"@),
        )),
        usable_path(env.xdg_config_home) is None ==> (env.home matches Some(h) ==> (h@.len() > 0
            ==> config_dir_spec(os, env) == Some(
            joined_path(joined_path(h@, ".config"@), "meshh"@),
        ))),
        usable_path(env.xdg_config_home) is None && usable_path(env.home) is None
            ==> config_dir_spec(os, env) is None,
        env.xdg_config_home == other.xdg_config_home && env.home == other.home ==> config_dir_spec(
            os,
            env,
        ) == config_dir_spec(os, other),
{
}

/// The config file is `config.json` in the config directory, and that directory is named
/// `meshh`: the path `default_config_path` gives for a directory `d` is `d` joined with
/// `config.json`.
pub proof fn law_config_file_is_config_json(d: Seq<char>)
    ensures
        joined_path(d, CONFIG_FILE_NAME@) == joined_path(d, "config.json"@),
        APP_CONFIG_DIR_NAME@ == "meshh"@,
{
}

} // verus!
