use meshh_tui::api::{ApiError, TransportError};
use meshh_tui::config::{ApiBaseUrlSource, ConfigError};
use meshh_tui::credentials::CredentialError;
use meshh_tui::login::LoginError;
use meshh_tui::release_audit::ReleaseAuditViolationKind;
use meshh_tui::update::UpdateError;

#[test]
fn api_errors_never_show_response_bodies() {
    let auth = ApiError::Authentication {
        operation: "listing deliveries",
        status: 401,
        body: "secret body".to_owned(),
    };
    assert_eq!(
        auth.message(),
        "MESHH rejected the stored token while listing deliveries (HTTP 401); run `meshh login` again"
    );
    assert_eq!(
        ApiError::Transport {
            source: TransportError::new("connection refused")
        }
        .message(),
        "network error while contacting MESHH: connection refused"
    );
    assert_eq!(
        ApiError::InvalidResponse {
            message: "missing field".to_owned()
        }
        .message(),
        "invalid MESHH API response: missing field"
    );
}

#[test]
fn config_errors_describe_the_source() {
    let read = ConfigError::ReadConfigFile {
        path: "/c.json".to_owned(),
        detail: "permission denied".to_owned(),
    };
    assert_eq!(read.message(), "could not read config file /c.json");
    assert_eq!(read.cause(), Some("permission denied".to_owned()));
    assert_eq!(ConfigError::MissingConfigDirectory.cause(), None);
    for (source, label) in [
        (ApiBaseUrlSource::Cli, "CLI flag"),
        (ApiBaseUrlSource::Environment, "environment variable"),
        (ApiBaseUrlSource::ConfigFile, "config file"),
        (ApiBaseUrlSource::Default, "default"),
    ] {
        assert_eq!(source.label(), label);
        assert_eq!(
            ConfigError::EmptyApiBaseUrl { source }.message(),
            format!("API base URL from {label} cannot be empty")
        );
    }
}

#[test]
fn login_errors_keep_their_cause() {
    let api = LoginError::Api {
        source: ApiError::InvalidResponse {
            message: "bad".to_owned(),
        },
    };
    assert_eq!(api.message(), "could not contact the Meshh login API");
    assert_eq!(api.cause(), Some("invalid MESHH API response: bad".to_owned()));
    let credential = LoginError::Credential {
        source: CredentialError::EmptyToken,
    };
    assert_eq!(credential.message(), "could not store Meshh credentials");
    assert_eq!(
        credential.cause(),
        Some("credential token cannot be empty".to_owned())
    );
    let output = LoginError::Output {
        detail: "broken pipe".to_owned(),
    };
    assert_eq!(output.message(), "could not write login instructions");
    assert_eq!(output.cause(), Some("broken pipe".to_owned()));
    assert_eq!(
        LoginError::Interrupted.message(),
        "login interrupted before browser approval"
    );
    assert_eq!(LoginError::Interrupted.cause(), None);
}

#[test]
fn every_update_error_has_a_description() {
    let d = || "boom".to_owned();
    let cases = vec![
        (
            UpdateError::Config(ConfigError::MissingConfigDirectory),
            "could not determine a platform config directory; set HOME or APPDATA",
        ),
        (
            UpdateError::DecodeRelease { detail: d() },
            "could not decode latest release response: boom",
        ),
        (UpdateError::Output { detail: d() }, "could not write update output: boom"),
        (UpdateError::ReadCache { detail: d() }, "could not read update cache: boom"),
        (UpdateError::EncodeCache { detail: d() }, "could not encode update cache: boom"),
        (UpdateError::WriteCache { detail: d() }, "could not write update cache: boom"),
        (
            UpdateError::CurrentExecutable { detail: d() },
            "could not locate current executable: boom",
        ),
        (
            UpdateError::MissingInstallDirectory,
            "could not determine current install directory",
        ),
        (
            UpdateError::MissingReleaseAsset {
                version: "v1.0.0".to_owned(),
                target: "x86_64-unknown-linux-gnu".to_owned(),
            },
            "release v1.0.0 does not include a x86_64-unknown-linux-gnu update archive",
        ),
        (
            UpdateError::CreateTempDir { detail: d() },
            "could not create update work directory: boom",
        ),
        (
            UpdateError::DownloadReleaseAsset { detail: d() },
            "could not download release asset: boom",
        ),
        (
            UpdateError::ReleaseAssetStatus {
                status: 404,
                body: String::new(),
            },
            "release asset download returned HTTP 404",
        ),
        (
            UpdateError::ReleaseAssetStatus {
                status: 404,
                body: "gone".to_owned(),
            },
            "release asset download returned HTTP 404: gone",
        ),
        (UpdateError::ReadReleaseAsset { detail: d() }, "could not read release asset: boom"),
        (
            UpdateError::DecodeReleaseAsset { detail: d() },
            "release asset was not valid UTF-8: boom",
        ),
        (
            UpdateError::ChecksumMismatch {
                expected: "aa".to_owned(),
                actual: "bb".to_owned(),
            },
            "release archive checksum mismatch: expected aa, got bb",
        ),
        (UpdateError::WriteUpdateFile { detail: d() }, "could not write update file: boom"),
        (UpdateError::ReadUpdateFile { detail: d() }, "could not read update file: boom"),
        (
            UpdateError::DecodeCommandOutput { detail: d() },
            "command output was not valid UTF-8: boom",
        ),
        (
            UpdateError::UnsafeArchiveEntry {
                entry: "../x".to_owned(),
            },
            "release archive contained unsafe entry `../x`",
        ),
        (
            UpdateError::MissingArchiveBinary {
                path: "d/meshh".to_owned(),
            },
            "release archive did not contain d/meshh",
        ),
        (
            UpdateError::DuplicateArchiveBinary {
                path: "d/meshh".to_owned(),
            },
            "release archive contained duplicate d/meshh entries",
        ),
        (
            UpdateError::ArchiveBinaryNotRegular {
                path: "d/meshh".to_owned(),
            },
            "release archive binary was not a regular file: d/meshh",
        ),
        (
            UpdateError::InstallDirectory { detail: d() },
            "could not create install directory: boom",
        ),
        (UpdateError::InstallBinary { detail: d() }, "could not install release binary: boom"),
    ];
    for (error, text) in cases {
        assert_eq!(error.message(), text);
    }
}

#[test]
fn violation_kinds_describe_what_was_found() {
    assert_eq!(
        ReleaseAuditViolationKind::InternalIdentifierField {
            field: "route_id".to_owned()
        }
        .text(),
        "internal identifier field: route_id"
    );
    assert_eq!(
        ReleaseAuditViolationKind::LocalOnlyPath {
            fragment: "/home/".to_owned()
        }
        .text(),
        "local-only path fragment: /home/"
    );
}
