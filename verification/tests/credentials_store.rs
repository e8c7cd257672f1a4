use meshh_tui::config::{ConfigDirEnvironment, ConfigError};
use meshh_tui::credentials::{
    BearerToken, CredentialError, FileCredentialStore, default_credentials_path,
    temporary_secret_file_path,
};

#[test]
fn bearer_token_debug_output_is_redacted() {
    let token = BearerToken::new("secret-token").unwrap();

    let debug = token.debug_text();

    assert!(debug.contains("[redacted]"));
    assert!(!debug.contains("secret-token"));
}

#[test]
fn blank_tokens_are_rejected() {
    assert_eq!(
        BearerToken::new("  \t").map(|t| t.as_str().to_owned()),
        Err(CredentialError::EmptyToken)
    );
    assert_eq!(BearerToken::new(" tok ").unwrap().as_str(), " tok ");
    assert_eq!(
        CredentialError::EmptyToken.message(),
        "credential token cannot be empty"
    );
}

#[test]
fn stored_blank_token_is_reported_against_the_file() {
    let store = FileCredentialStore::new("/tmp/meshh/credentials.json");
    assert_eq!(store.path(), "/tmp/meshh/credentials.json");
    let error = store.stored_token(" ").err().unwrap();
    assert_eq!(
        error,
        CredentialError::InvalidStoredToken {
            path: "/tmp/meshh/credentials.json".to_owned()
        }
    );
    assert_eq!(
        error.message(),
        "credential file /tmp/meshh/credentials.json has an invalid token"
    );
    assert_eq!(store.stored_token("abc").unwrap().as_str(), "abc");
}

#[test]
fn credential_error_messages_name_the_file() {
    let path = "/x/credentials.json".to_owned();
    let detail = "permission denied".to_owned();
    let cases = vec![
        (
            CredentialError::CreateCredentialDirectory {
                path: "/x".to_owned(),
                detail: detail.clone(),
            },
            "could not create credential directory /x",
        ),
        (
            CredentialError::ReadTokenFile {
                path: path.clone(),
                detail: detail.clone(),
            },
            "could not read credential file /x/credentials.json",
        ),
        (
            CredentialError::WriteTokenFile {
                path: path.clone(),
                detail: detail.clone(),
            },
            "could not write credential file /x/credentials.json",
        ),
        (
            CredentialError::DeleteTokenFile {
                path: path.clone(),
                detail: detail.clone(),
            },
            "could not delete credential file /x/credentials.json",
        ),
        (
            CredentialError::ParseTokenFile {
                path: path.clone(),
                detail: detail.clone(),
            },
            "could not parse credential file /x/credentials.json",
        ),
        (
            CredentialError::ConfigDirectory {
                source: ConfigError::MissingConfigDirectory,
            },
            "could not determine credential directory",
        ),
    ];
    for (error, text) in cases {
        assert_eq!(error.message(), text);
        assert!(error.cause().is_some());
    }
    assert!(CredentialError::EmptyToken.cause().is_none());
}

#[test]
fn default_credentials_file_lives_in_the_config_directory() {
    let env = ConfigDirEnvironment {
        xdg_config_home: Some("/xdg".to_owned()),
        home: None,
        app_data: None,
    };
    assert_eq!(
        default_credentials_path("linux", &env).unwrap(),
        "/xdg/meshh/credentials.json"
    );
    let store = FileCredentialStore::new_default("linux", &env).unwrap();
    assert_eq!(store.path(), "/xdg/meshh/credentials.json");

    let empty = ConfigDirEnvironment {
        xdg_config_home: None,
        home: None,
        app_data: None,
    };
    assert_eq!(
        default_credentials_path("linux", &empty).unwrap_err(),
        CredentialError::ConfigDirectory {
            source: ConfigError::MissingConfigDirectory
        }
    );
}

#[test]
fn temporary_file_sits_beside_the_secret_file() {
    assert_eq!(
        temporary_secret_file_path("/x/credentials.json", 42, 1234567890123456789012),
        "/x/.credentials.json.tmp-42-1234567890123456789012"
    );
    let store = FileCredentialStore::new("/x/credentials.json");
    assert_eq!(store.temporary_path(7, 0), "/x/.credentials.json.tmp-7-0");
}
