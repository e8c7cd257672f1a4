use meshh_tui::release::{
    check_archive_entries, check_archive_verbose_listing, check_report, hex_sha256, parse_checksum,
    safe_archive_entry, text_lines, verify_sha256,
};
use meshh_tui::update::{
    InstallStep, after_install, command_outcome, CachedUpdateCheck, LatestRelease, ReleaseAsset, ReleasePackage, UpdateCheck, UpdateError,
    UpdateNotice, cache_entry, cache_is_fresh, cached_update_check, check_status_error, clipped,
    current_version_tag, release_target, select_release_package,
};
use meshh_tui::version::{compare_versions, version_is_newer};

#[test]
fn semantic_versions_compare_numerically() {
    assert!(compare_versions("v0.1.10", "v0.1.9").is_gt());
    assert!(compare_versions("v0.2.0", "v0.1.99").is_gt());
    assert!(compare_versions("v0.1.1", "v0.1.1").is_eq());
    assert!(compare_versions("v0.1", "v0.1.0").is_eq());
    assert!(compare_versions("v0.2.0", "v0.2.0-rc.1").is_gt());
    assert!(compare_versions("v0.2.0-rc.2", "v0.2.0-rc.1").is_gt());
    assert!(compare_versions("v0.2.0-rc.1", "v0.2.0").is_lt());
}

#[test]
fn version_order_is_antisymmetric_on_examples() {
    let pairs = [
        ("v1.2.3", "v1.2.4"),
        ("1.0.0-alpha", "1.0.0-alpha.1"),
        ("1.0.0-alpha.beta", "1.0.0-beta"),
        ("1.0.0-2", "1.0.0-11"),
        ("1.0.0-rc.1", "1.0.0-rc.1"),
        ("not-a-version", "v1.0.0"),
    ];
    for (a, b) in pairs {
        assert_eq!(compare_versions(a, b), compare_versions(b, a).reverse());
        assert!(!(version_is_newer(a, b) && version_is_newer(b, a)));
    }
    assert!(compare_versions("1.0.0-alpha.1", "1.0.0-alpha").is_gt());
    assert!(compare_versions("1.0.0-11", "1.0.0-2").is_gt());
}

#[test]
fn update_check_builds_notice_only_for_installable_newer_release() {
    let newer = UpdateCheck::new("v0.1.1", "v0.1.2", None, Some(package()));
    assert!(newer.update_available());
    assert!(newer.installable_update_available());
    assert_eq!(
        newer.notice().unwrap().message(),
        "Update available: v0.1.2 - run 'meshh update'"
    );

    let unavailable = UpdateCheck::new("v0.1.1", "v0.1.2", None, None);
    assert!(unavailable.update_available());
    assert!(!unavailable.installable_update_available());
    assert!(unavailable.notice().is_none());

    let current = UpdateCheck::new("v0.1.1", "v0.1.1", None, None);
    assert!(!current.update_available());
    assert!(!current.installable_update_available());
    assert!(current.notice().is_none());
}

#[test]
fn cached_update_check_preserves_installable_notice_state() {
    let cached = cached_update_check(CachedUpdateCheck {
        latest_version: "v0.1.2".to_owned(),
        html_url: None,
        installable: true,
    });

    assert!(cached.update_available());
    assert!(cached.installable_update_available());
    assert!(cached.notice().is_some());
}

#[test]
fn cache_round_trip_keeps_what_the_notice_needs() {
    let check = UpdateCheck::new(
        "v0.1.0",
        "v0.3.0",
        Some("https://example.test/r".to_owned()),
        Some(package()),
    );
    let entry = cache_entry(&check);
    assert_eq!(entry.latest_version, "v0.3.0");
    assert!(entry.installable);
    let restored = cached_update_check(entry);
    assert_eq!(restored.current_version(), current_version_tag());
    assert_eq!(restored.notice(), check.notice());
    assert!(cache_is_fresh(60 * 60 * 24));
    assert!(!cache_is_fresh(60 * 60 * 24 + 1));
}

#[test]
fn current_version_tag_is_prefixed() {
    assert_eq!(current_version_tag(), "v0.1.0");
    assert_eq!(UpdateNotice::new("v9").latest_version(), "v9");
}

#[test]
fn selects_current_target_release_package() {
    let target = release_target("linux", "x86_64").unwrap();
    let version = "0.1.2";
    let archive_name = format!("meshh_{version}_{}.tar.gz", target.triple);
    let checksum_name = format!("{archive_name}.sha256");
    let release = LatestRelease {
        tag_name: format!("v{version}"),
        html_url: Some("https://github.com/meshhai/meshh-tui/releases/tag/v0.1.2".to_owned()),
        assets: vec![
            ReleaseAsset {
                name: archive_name.clone(),
                browser_download_url: format!("https://example.test/{archive_name}"),
            },
            ReleaseAsset {
                name: checksum_name.clone(),
                browser_download_url: format!("https://example.test/{checksum_name}"),
            },
        ],
    };

    let package = select_release_package(&release, "linux", "x86_64").unwrap();

    assert_eq!(package.archive_name, archive_name);
    assert_eq!(package.checksum_name, checksum_name);
    assert_eq!(
        package.archive_dir,
        format!("meshh_{version}_{}", target.triple)
    );
    assert!(select_release_package(&release, "macos", "aarch64").is_none());

    let check = UpdateCheck::from_latest_release("v0.1.0", &release, "linux", "x86_64");
    assert!(check.installable_update_available());
    assert_eq!(check.package().unwrap().archive_url, package.archive_url);
}

#[test]
fn unsupported_targets_are_reported() {
    assert_eq!(
        release_target("macos", "aarch64").unwrap().triple,
        "aarch64-apple-darwin"
    );
    assert_eq!(
        release_target("macos", "x86_64").unwrap().triple,
        "x86_64-apple-darwin"
    );
    let error = release_target("windows", "x86_64").unwrap_err();
    assert_eq!(
        error,
        UpdateError::UnsupportedTarget {
            os: "windows".to_owned(),
            arch: "x86_64".to_owned()
        }
    );
    assert_eq!(error.message(), "unsupported update target: windows-x86_64");
}

#[test]
fn parses_and_verifies_release_checksum() {
    let archive_name = "meshh_0.1.2_aarch64-apple-darwin.tar.gz";
    let bytes = b"release archive";
    let checksum = format!("{}  {archive_name}\n", hex_sha256(bytes));

    let expected_hash = parse_checksum(&checksum, archive_name).unwrap();

    verify_sha256(bytes, &expected_hash).unwrap();
    assert!(verify_sha256(b"tampered", &expected_hash).is_err());
}

#[test]
fn sha256_of_known_input() {
    assert_eq!(
        hex_sha256(b"abc"),
        "ba7816bf8f01cfea414140de5dae2223b00361a396177a9cb410ff61f20015ad"
    );
}

#[test]
fn checksum_files_are_validated() {
    let hash = "BA7816BF8F01CFEA414140DE5DAE2223B00361A396177A9CB410FF61F20015AD";
    assert_eq!(
        parse_checksum(&format!("{hash} *dist/a.tar.gz"), "a.tar.gz").unwrap(),
        hash.to_ascii_lowercase()
    );
    assert_eq!(parse_checksum(hash, "a.tar.gz").unwrap(), hash.to_ascii_lowercase());
    assert_eq!(
        parse_checksum(" \n", "a.tar.gz").unwrap_err().message(),
        "invalid checksum: checksum file was empty"
    );
    assert_eq!(
        parse_checksum("abc a.tar.gz", "a.tar.gz")
            .unwrap_err()
            .message(),
        "invalid checksum: checksum file did not start with a SHA256 hex digest"
    );
    assert_eq!(
        parse_checksum(&format!("{hash} b.tar.gz"), "a.tar.gz")
            .unwrap_err()
            .message(),
        "invalid checksum: checksum file referenced unexpected archive `b.tar.gz`"
    );
    let mismatch = verify_sha256(b"abc", "00").unwrap_err();
    assert!(matches!(mismatch, UpdateError::ChecksumMismatch { .. }));
}

#[test]
fn clipped_truncates_on_character_boundaries() {
    let value = "é".repeat(501);
    let clipped = clipped(&value);

    assert_eq!(clipped.chars().count(), 503);
    assert!(clipped.ends_with("..."));
}

#[test]
fn short_bodies_are_not_clipped() {
    assert_eq!(clipped("short"), "short");
    assert_eq!(
        check_status_error(404, "not found").message(),
        "update check returned HTTP 404: not found"
    );
    assert_eq!(
        check_status_error(500, "").message(),
        "update check returned HTTP 500"
    );
}

#[test]
fn archive_entries_must_stay_inside_the_archive_directory() {
    let dir = "meshh_0.1.2_x86_64-unknown-linux-gnu";
    assert!(safe_archive_entry(dir, dir));
    assert!(safe_archive_entry(&format!("{dir}/meshh"), dir));
    assert!(!safe_archive_entry("", dir));
    assert!(!safe_archive_entry("/etc/passwd", dir));
    assert!(!safe_archive_entry("..", dir));
    assert!(!safe_archive_entry("../x", dir));
    assert!(!safe_archive_entry(&format!("{dir}/.."), dir));
    assert!(!safe_archive_entry(&format!("{dir}/../x"), dir));
    assert!(!safe_archive_entry("other/meshh", dir));

    let ok = format!("{dir}/\n{dir}/meshh\n{dir}/README.md\n");
    assert!(check_archive_entries(&ok, dir).is_ok());
    assert_eq!(
        check_archive_entries(&format!("{dir}/meshh\n../evil\n"), dir),
        Err(UpdateError::UnsafeArchiveEntry {
            entry: "../evil".to_owned()
        })
    );
    assert_eq!(
        check_archive_entries(&format!("{dir}/README.md\n"), dir),
        Err(UpdateError::MissingArchiveBinary {
            path: format!("{dir}/meshh")
        })
    );
    assert_eq!(
        check_archive_entries(&format!("{dir}/meshh\r\n{dir}/meshh\n"), dir),
        Err(UpdateError::DuplicateArchiveBinary {
            path: format!("{dir}/meshh")
        })
    );
}

#[test]
fn verbose_listing_requires_one_regular_binary() {
    let dir = "meshh_0.1.2_x86_64-unknown-linux-gnu";
    let regular = format!("-rwxr-xr-x user/group 10 2026-01-01 00:00 {dir}/meshh\n");
    assert!(check_archive_verbose_listing(&regular, dir).is_ok());
    let link = format!("lrwxrwxrwx user/group 0 2026-01-01 00:00 {dir}/meshh\n");
    assert_eq!(
        check_archive_verbose_listing(&link, dir),
        Err(UpdateError::ArchiveBinaryNotRegular {
            path: format!("{dir}/meshh")
        })
    );
    assert_eq!(
        check_archive_verbose_listing("", dir),
        Err(UpdateError::DuplicateArchiveBinary {
            path: format!("{dir}/meshh")
        })
    );
}

#[test]
fn lines_split_like_str_lines() {
    assert_eq!(text_lines("a\r\nb\n\nc"), vec!["a", "b", "", "c"]);
    assert_eq!(text_lines("a\n"), vec!["a"]);
    assert!(text_lines("").is_empty());
}

#[test]
fn check_report_describes_the_update() {
    let check = UpdateCheck::new(
        "v0.1.0",
        "v0.2.0",
        Some("https://example.test/r".to_owned()),
        None,
    );
    assert_eq!(
        check_report(&check),
        "Current version: v0.1.0\nLatest version:  v0.2.0\n\nUpdate available.\nRelease: https://example.test/r\nNo update archive is available for this platform.\n"
    );
    let current = UpdateCheck::new("v0.2.0", "v0.2.0", None, None);
    assert_eq!(
        check_report(&current),
        "Current version: v0.2.0\nLatest version:  v0.2.0\n\nmeshh is up to date.\n"
    );
}

fn package() -> ReleasePackage {
    ReleasePackage {
        archive_name: "meshh_0.1.2_aarch64-apple-darwin.tar.gz".to_owned(),
        archive_url: "https://example.test/archive.tar.gz".to_owned(),
        checksum_name: "meshh_0.1.2_aarch64-apple-darwin.tar.gz.sha256".to_owned(),
        checksum_url: "https://example.test/archive.tar.gz.sha256".to_owned(),
        archive_dir: "meshh_0.1.2_aarch64-apple-darwin".to_owned(),
    }
}

#[test]
fn version_order_is_transitive_on_a_chain() {
    let chain = [
        "v0.9.9",
        "v1.0.0-alpha",
        "v1.0.0-alpha.1",
        "v1.0.0-alpha.beta",
        "v1.0.0-beta.2",
        "v1.0.0-beta.11",
        "v1.0.0-rc.1",
        "v1.0.0",
        "v1.0.1",
        "v1.1",
    ];
    for (i, a) in chain.iter().enumerate() {
        for b in &chain[i + 1..] {
            assert!(compare_versions(a, b).is_lt(), "{a} < {b}");
        }
    }
}

#[test]
fn io_failures_are_described_with_their_cause() {
    let cases = vec![
        (
            UpdateError::CheckRequest { detail: "dns".to_owned() },
            "could not check for updates: dns",
        ),
        (
            UpdateError::DecodeCache { detail: "eof".to_owned() },
            "could not decode update cache: eof",
        ),
        (
            UpdateError::InstallFailed { status: "exit status: 1".to_owned() },
            "install failed with exit status: 1",
        ),
        (
            UpdateError::Command {
                operation: "listing release archive",
                detail: "not found".to_owned(),
            },
            "could not run command while listing release archive: not found",
        ),
        (
            UpdateError::CommandStatus {
                operation: "extracting release archive",
                status: "exit status: 2".to_owned(),
            },
            "command failed with exit status: 2 while extracting release archive",
        ),
    ];
    for (error, text) in cases {
        assert_eq!(error.message(), text);
    }
    assert_eq!(
        UpdateError::CheckRequest { detail: "dns".to_owned() }.cause(),
        Some("dns".to_owned())
    );
    assert_eq!(UpdateError::MissingInstallDirectory.cause(), None);

    assert_eq!(after_install(true, false), InstallStep::Installed);
    assert_eq!(after_install(false, true), InstallStep::RetryWithSudo);
    assert_eq!(after_install(false, false), InstallStep::Failed);
    assert!(command_outcome("listing", true, "exit status: 0").is_ok());
    assert_eq!(
        command_outcome("listing", false, "exit status: 2"),
        Err(UpdateError::CommandStatus {
            operation: "listing",
            status: "exit status: 2".to_owned()
        })
    );
}

#[test]
fn leading_v_and_build_metadata_are_ignored() {
    assert!(compare_versions("v1.2.0+abc", "1.2").is_eq());
    assert!(compare_versions(" v1.2.3+build.7 ", "1.2.3").is_eq());
    assert!(compare_versions("v1.2.3+x", "1.2.4").is_lt());
}

#[test]
fn unparsed_versions_compare_as_raw_text() {
    assert_eq!(compare_versions("latest", "v1.0"), "latest".cmp("v1.0"));
    assert_eq!(compare_versions("v1.0", "latest"), "v1.0".cmp("latest"));
    assert!(compare_versions("latest", "latest").is_eq());
}

#[test]
fn several_leading_vs_and_surrounding_spaces_are_ignored() {
    assert!(compare_versions("vv1.2.0", "1.2").is_eq());
    assert!(compare_versions("  v1.2.3  ", "1.2.3").is_eq());
    assert!(compare_versions("v1.2.3+a+b", "1.2.3").is_eq());
    assert!(compare_versions("1.2.3+meta", "v1.2.3").is_eq());
}

#[test]
fn sha256_hex_digest_has_sixty_four_digits() {
    let digest = hex_sha256(b"");
    assert_eq!(digest.len(), 64);
    assert_eq!(
        digest,
        "e3b0c44298fc1c149afbf4c8996fb92427ae41e4649b934ca495991b7852b855"
    );
}
