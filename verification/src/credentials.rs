//! Destination-scoped bearer tokens and the file that stores them.
use vstd::prelude::*;

use crate::config::{ConfigDirEnvironment, ConfigError, config_dir_spec, config_error_text, default_config_dir};
use crate::paths::{file_name_of, joined_path, parent_of, path_file_name, path_join, path_parent};
use crate::text::{concat2, decimal, decimal_text, decimal_text_wide, is_blank, str_is_blank};

verus! {

/// Name of the credentials file inside the MESHH config directory.
pub const CREDENTIALS_FILE_NAME: &'static str = "credentials.json";

/// What the debug rendering of a token shows in place of its value.
pub const REDACTED_TOKEN_TEXT: &'static str = "BearerToken([redacted])";

/// Destination-scoped bearer token used by Meshh API calls.
#[derive(PartialEq, Eq)]
pub struct BearerToken(String);

impl BearerToken {
    /// The token value.
    pub closed spec fn text(&self) -> Seq<char> {
        self.0@
    }

    /// Creates a token value, rejecting empty or whitespace-only input.
    pub fn new(value: &str) -> (r: Result<Self, CredentialError>)
        ensures
            r is Ok <==> !is_blank(value@),
            r matches Ok(t) ==> t.text() == value@,
            r matches Err(e) ==> e == CredentialError::EmptyToken,
    {
        if str_is_blank(value) {
            return Err(CredentialError::EmptyToken);
        }
        Ok(BearerToken(value.to_owned()))
    }

    /// Returns the token string for authenticated API calls.
    pub fn as_str(&self) -> (r: &str)
        ensures
            r@ == self.text(),
    {
        self.0.as_str()
    }

    /// Returns the debug rendering of the token, which never shows its value.
    pub fn debug_text(&self) -> (r: &'static str)
        ensures
            r@ == REDACTED_TOKEN_TEXT@,
    {
        REDACTED_TOKEN_TEXT
    }
}

impl Clone for BearerToken {
    fn clone(&self) -> (r: Self)
        ensures
            r.text() == self.text(),
    {
        BearerToken(self.0.clone())
    }
}

/// Errors produced by credential validation or storage. I/O and JSON failures carry the
/// failing path and a description of the failure.
#[derive(Debug, PartialEq, Eq)]
pub enum CredentialError {
    EmptyToken,
    ConfigDirectory { source: ConfigError },
    CreateCredentialDirectory { path: String, detail: String },
    ReadTokenFile { path: String, detail: String },
    WriteTokenFile { path: String, detail: String },
    DeleteTokenFile { path: String, detail: String },
    ParseTokenFile { path: String, detail: String },
    InvalidStoredToken { path: String },
}

/// User-facing description of a credential error.
pub open spec fn credential_error_text(error: CredentialError) -> Seq<char> {
    match error {
        CredentialError::EmptyToken => "credential token cannot be empty"@,
        CredentialError::ConfigDirectory { .. } => "could not determine credential directory"@,
        CredentialError::CreateCredentialDirectory { path, .. } => "could not create credential directory "@
            + path@,
        CredentialError::ReadTokenFile { path, .. } => "could not read credential file "@ + path@,
        CredentialError::WriteTokenFile { path, .. } => "could not write credential file "@ + path@,
        CredentialError::DeleteTokenFile { path, .. } => "could not delete credential file "@
            + path@,
        CredentialError::ParseTokenFile { path, .. } => "could not parse credential file "@ + path@,
        CredentialError::InvalidStoredToken { path } => "credential file "@ + path@
            + " has an invalid token"@,
    }
}

/// Description of the underlying failure, where the error has one.
pub open spec fn credential_error_cause(error: CredentialError) -> Option<Seq<char>> {
    match error {
        CredentialError::ConfigDirectory { source } => Some(config_error_text(source)),
        CredentialError::CreateCredentialDirectory { detail, .. } => Some(detail@),
        CredentialError::ReadTokenFile { detail, .. } => Some(detail@),
        CredentialError::WriteTokenFile { detail, .. } => Some(detail@),
        CredentialError::DeleteTokenFile { detail, .. } => Some(detail@),
        CredentialError::ParseTokenFile { detail, .. } => Some(detail@),
        _ => None,
    }
}

impl CredentialError {
    /// Returns the user-facing description of the error.
    pub fn message(&self) -> (r: String)
        ensures
            r@ == credential_error_text(*self),
    {
        match self {
            CredentialError::EmptyToken => "credential token cannot be empty".to_owned(),
            CredentialError::ConfigDirectory { .. } => "could not determine credential directory".to_owned(),
            CredentialError::CreateCredentialDirectory { path, .. } => concat2(
                "could not create credential directory ",
                path.as_str(),
            ),
            CredentialError::ReadTokenFile { path, .. } => concat2(
                "could not read credential file ",
                path.as_str(),
            ),
            CredentialError::WriteTokenFile { path, .. } => concat2(
                "could not write credential file ",
                path.as_str(),
            ),
            CredentialError::DeleteTokenFile { path, .. } => concat2(
                "could not delete credential file ",
                path.as_str(),
            ),
            CredentialError::ParseTokenFile { path, .. } => concat2(
                "could not parse credential file ",
                path.as_str(),
            ),
            CredentialError::InvalidStoredToken { path } => {
                let mut r = concat2("credential file ", path.as_str());
                r.append(" has an invalid token");
                r
            },
        }
    }

    /// Returns the description of the underlying failure, where the error has one.
    pub fn cause(&self) -> (r: Option<String>)
        ensures
            crate::text::opt_text(r) == credential_error_cause(*self),
    {
        match self {
            CredentialError::ConfigDirectory { source } => Some(source.message()),
            CredentialError::CreateCredentialDirectory { detail, .. } => Some(detail.clone()),
            CredentialError::ReadTokenFile { detail, .. } => Some(detail.clone()),
            CredentialError::WriteTokenFile { detail, .. } => Some(detail.clone()),
            CredentialError::DeleteTokenFile { detail, .. } => Some(detail.clone()),
            CredentialError::ParseTokenFile { detail, .. } => Some(detail.clone()),
            _ => None,
        }
    }
}

/// Credentials file path the platform rules give for the environment values.
pub open spec fn credentials_path_spec(os: Seq<char>, env: ConfigDirEnvironment) -> Option<
    Seq<char>,
> {
    match config_dir_spec(os, env) {
        Some(d) => Some(joined_path(d, CREDENTIALS_FILE_NAME@)),
        None => None,
    }
}

/// Returns the platform credentials file path used by Meshh: `credentials.json` in the
/// config directory.
pub fn default_credentials_path(os: &str, env: &ConfigDirEnvironment) -> (r: Result<
    String,
    CredentialError,
>)
    ensures
        credentials_path_spec(os@, *env) matches Some(p) ==> (r matches Ok(q) && q@ == p),
        credentials_path_spec(os@, *env) is None ==> r == Err::<String, CredentialError>(
            CredentialError::ConfigDirectory { source: ConfigError::MissingConfigDirectory },
        ),
{
    match default_config_dir(os, env) {
        Ok(dir) => Ok(path_join(dir.as_str(), CREDENTIALS_FILE_NAME)),
        Err(source) => Err(CredentialError::ConfigDirectory { source }),
    }
}

/// File-backed credential store used when no OS keychain backend is available.
#[derive(Debug, PartialEq, Eq)]
pub struct FileCredentialStore {
    path: String,
}

impl FileCredentialStore {
    /// The backing file path.
    pub closed spec fn path_text(&self) -> Seq<char> {
        self.path@
    }

    /// Creates a credential store backed by an explicit file path.
    pub fn new(path: &str) -> (r: Self)
        ensures
            r.path_text() == path@,
    {
        FileCredentialStore { path: path.to_owned() }
    }

    /// Creates a credential store under the platform Meshh config directory.
    pub fn new_default(os: &str, env: &ConfigDirEnvironment) -> (r: Result<Self, CredentialError>)
        ensures
            credentials_path_spec(os@, *env) matches Some(p) ==> (r matches Ok(s) && s.path_text()
                == p),
            credentials_path_spec(os@, *env) is None ==> (r matches Err(e) && e
                == (CredentialError::ConfigDirectory {
                source: ConfigError::MissingConfigDirectory,
            })),
    {
        let path = default_credentials_path(os, env)?;
        Ok(FileCredentialStore { path })
    }

    /// Returns the backing file path.
    pub fn path(&self) -> (r: &str)
        ensures
            r@ == self.path_text(),
    {
        self.path.as_str()
    }

    /// Turns the token read from the credentials file into a bearer token; a blank stored
    /// token is reported against the file.
    pub fn stored_token(&self, token: &str) -> (r: Result<BearerToken, CredentialError>)
        ensures
            r is Ok <==> !is_blank(token@),
            r matches Ok(t) ==> t.text() == token@,
            r matches Err(e) ==> (e matches CredentialError::InvalidStoredToken { path } && path@
                == self.path_text()),
    {
        match BearerToken::new(token) {
            Ok(t) => Ok(t),
            Err(_) => Err(CredentialError::InvalidStoredToken { path: self.path.clone() }),
        }
    }

    /// Path of the temporary file a new token is written to before it replaces the store.
    pub fn temporary_path(&self, pid: u32, unique: u128) -> (r: String)
        ensures
            r@ == temporary_path_of(self.path_text(), pid as nat, unique as nat),
    {
        temporary_secret_file_path(self.path.as_str(), pid, unique)
    }
}

/// File name of the temporary copy: `.<name>.tmp-<pid>-<unique>`.
pub open spec fn temporary_file_name(name: Seq<char>, pid: nat, unique: nat) -> Seq<char> {
    "."@ + name + ".tmp-"@ + decimal(pid) + "-"@ + decimal(unique)
}

/// Temporary path beside a secret file: in its parent directory (the current directory when
/// it has none), named after its file name (`credentials` when it has none).
pub open spec fn temporary_path_of(path: Seq<char>, pid: nat, unique: nat) -> Seq<char> {
    let parent = match parent_of(path) {
        Some(p) => p,
        None => "."@,
    };
    let name = match file_name_of(path) {
        Some(n) => n,
        None => "credentials"@,
    };
    joined_path(parent, temporary_file_name(name, pid, unique))
}

/// Returns the temporary path beside a secret file (see `temporary_path_of`), for a process
/// ID and a unique number.
pub fn temporary_secret_file_path(path: &str, pid: u32, unique: u128) -> (r: String)
    ensures
        r@ == temporary_path_of(path@, pid as nat, unique as nat),
{
    let parent = match path_parent(path) {
        Some(p) => p,
        None => ".".to_owned(),
    };
    let name = match path_file_name(path) {
        Some(n) => n,
        None => "credentials".to_owned(),
    };
    let mut file_name = concat2(".", name.as_str());
    file_name.append(".tmp-");
    file_name.append(decimal_text(pid as u64).as_str());
    file_name.append("-");
    file_name.append(decimal_text_wide(unique).as_str());
    path_join(parent.as_str(), file_name.as_str())
}

} // verus!
