use meshh_tui::config::{
    ApiBaseUrlSource, ConfigDirEnvironment, ConfigError, ConfigLoadOptions, ConfigLoadStep,
    ConfigSources, DEFAULT_API_BASE_URL, FileConfig, RuntimeConfig, default_config_dir,
    default_config_path, join_path, load_after_config_file, load_after_environment, load_start,
};

#[test]
fn api_base_url_precedence_is_cli_env_config_file_default() {
    let file_config = FileConfig::new(Some("https://config.example".to_owned()));

    let default_config = RuntimeConfig::resolve(ConfigSources::default()).unwrap();
    assert_eq!(default_config.api_base_url(), DEFAULT_API_BASE_URL);
    assert_eq!(
        default_config.api_base_url_source(),
        ApiBaseUrlSource::Default
    );

    let from_file = RuntimeConfig::resolve(
        ConfigSources::default().with_config_file(Some(file_config.clone())),
    )
    .unwrap();
    assert_eq!(from_file.api_base_url(), "https://config.example");
    assert_eq!(
        from_file.api_base_url_source(),
        ApiBaseUrlSource::ConfigFile
    );

    let from_env = RuntimeConfig::resolve(
        ConfigSources::default()
            .with_env_api_base_url(Some("https://env.example".to_owned()))
            .with_config_file(Some(file_config.clone())),
    )
    .unwrap();
    assert_eq!(from_env.api_base_url(), "https://env.example");
    assert_eq!(
        from_env.api_base_url_source(),
        ApiBaseUrlSource::Environment
    );

    let from_cli = RuntimeConfig::resolve(
        ConfigSources::default()
            .with_cli_api_base_url(Some("https://cli.example".to_owned()))
            .with_env_api_base_url(Some("https://env.example".to_owned()))
            .with_config_file(Some(file_config)),
    )
    .unwrap();
    assert_eq!(from_cli.api_base_url(), "https://cli.example");
    assert_eq!(from_cli.api_base_url_source(), ApiBaseUrlSource::Cli);
}

#[test]
fn rejects_empty_api_base_url_from_highest_precedence_source() {
    let error = RuntimeConfig::resolve(
        ConfigSources::default()
            .with_cli_api_base_url(Some(" ".to_owned()))
            .with_env_api_base_url(Some("https://env.example".to_owned())),
    )
    .unwrap_err();

    assert!(matches!(
        error,
        ConfigError::EmptyApiBaseUrl {
            source: ApiBaseUrlSource::Cli
        }
    ));
    assert_eq!(
        error.message(),
        "API base URL from CLI flag cannot be empty"
    );
}

#[test]
fn resolved_urls_are_trimmed() {
    let config = RuntimeConfig::resolve(
        ConfigSources::default().with_env_api_base_url(Some("  https://env.example \n".to_owned())),
    )
    .unwrap();
    assert_eq!(config.api_base_url(), "https://env.example");
}

#[test]
fn file_without_url_falls_back_to_default() {
    let config =
        RuntimeConfig::resolve(ConfigSources::default().with_config_file(Some(FileConfig::new(None))))
            .unwrap();
    assert_eq!(config.api_base_url(), DEFAULT_API_BASE_URL);
    assert_eq!(config.api_base_url_source(), ApiBaseUrlSource::Default);
}

#[test]
fn from_cli_uses_the_default_when_no_value_is_given() {
    let config = RuntimeConfig::from_cli(None);
    assert_eq!(config.api_base_url(), "https://api.meshh.ai");
    let config = RuntimeConfig::from_cli(Some("https://cli.example".to_owned()));
    assert_eq!(config.api_base_url_source(), ApiBaseUrlSource::Cli);
}

#[test]
fn cli_api_base_url_wins_without_parsing_malformed_config_file() {
    let options = ConfigLoadOptions::new(Some("https://cli.example".to_owned()))
        .with_config_path("/nonexistent/config.json");

    let ConfigLoadStep::Finished(result) = load_start(&options) else {
        panic!("a CLI value decides without reading anything else");
    };
    let config = result.unwrap();

    assert_eq!(config.api_base_url(), "https://cli.example");
    assert_eq!(config.api_base_url_source(), ApiBaseUrlSource::Cli);
}

#[test]
fn env_api_base_url_wins_without_parsing_malformed_config_file() {
    let options = ConfigLoadOptions::new(None).with_config_path("/nonexistent/config.json");
    assert_eq!(load_start(&options), ConfigLoadStep::ReadEnvironment);

    let ConfigLoadStep::Finished(result) =
        load_after_environment(&options, Ok(Some("https://env.example".to_owned())))
    else {
        panic!("an environment value decides without reading the config file");
    };
    let config = result.unwrap();
    assert_eq!(config.api_base_url(), "https://env.example");
    assert_eq!(config.api_base_url_source(), ApiBaseUrlSource::Environment);
}

#[test]
fn config_file_is_read_from_the_explicit_path_when_nothing_else_is_set() {
    let options = ConfigLoadOptions::new(None).with_config_path("/etc/meshh/config.json");
    match load_after_environment(&options, Ok(None)) {
        ConfigLoadStep::ReadConfigFile { path } => {
            assert_eq!(path.as_deref(), Some("/etc/meshh/config.json"))
        }
        other => panic!("expected to read the config file, got {other:?}"),
    }

    let config = load_after_config_file(Ok(Some(FileConfig::new(Some(
        "https://file.example".to_owned(),
    )))))
    .unwrap();
    assert_eq!(config.api_base_url(), "https://file.example");
    assert_eq!(config.api_base_url_source(), ApiBaseUrlSource::ConfigFile);

    let error = load_after_config_file(Err(ConfigError::ParseConfigFile {
        path: "/etc/meshh/config.json".to_owned(),
        detail: "expected value".to_owned(),
    }))
    .unwrap_err();
    assert_eq!(
        error.message(),
        "could not parse config file /etc/meshh/config.json"
    );
}

#[test]
fn environment_errors_stop_loading() {
    let options = ConfigLoadOptions::new(None);
    let step = load_after_environment(
        &options,
        Err(ConfigError::NonUnicodeEnvironmentVariable {
            name: "MESHH_API_BASE_URL",
        }),
    );
    let ConfigLoadStep::Finished(Err(error)) = step else {
        panic!("expected the environment error");
    };
    assert_eq!(
        error.message(),
        "MESHH_API_BASE_URL must contain valid unicode"
    );
}

#[test]
fn config_directory_follows_platform_rules() {
    let env = ConfigDirEnvironment {
        xdg_config_home: Some("/xdg".to_owned()),
        home: Some("/home/alice".to_owned()),
        app_data: None,
    };
    assert_eq!(
        default_config_dir("linux", &env).unwrap(),
        join_path("/xdg", "meshh")
    );
    assert_eq!(
        default_config_path("linux", &env).unwrap(),
        join_path(&join_path("/xdg", "meshh"), "config.json")
    );

    let env = ConfigDirEnvironment {
        xdg_config_home: Some(String::new()),
        home: Some("/home/alice".to_owned()),
        app_data: None,
    };
    assert_eq!(
        default_config_dir("linux", &env).unwrap(),
        join_path(&join_path("/home/alice", ".config"), "meshh")
    );

    let env = ConfigDirEnvironment {
        xdg_config_home: None,
        home: Some("/Users/alice".to_owned()),
        app_data: None,
    };
    assert_eq!(
        default_config_dir("macos", &env).unwrap(),
        join_path(
            &join_path(&join_path("/Users/alice", "Library"), "Application Support"),
            "meshh"
        )
    );

    let env = ConfigDirEnvironment {
        xdg_config_home: None,
        home: None,
        app_data: None,
    };
    assert_eq!(
        default_config_dir("windows", &env).unwrap_err(),
        ConfigError::MissingConfigDirectory
    );
    assert_eq!(
        ConfigError::MissingConfigDirectory.message(),
        "could not determine a platform config directory; set HOME or APPDATA"
    );
}

#[test]
fn joining_paths_adds_a_separator() {
    assert_eq!(join_path("/base", "meshh"), "/base/meshh");
}
