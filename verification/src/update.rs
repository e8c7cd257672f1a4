//! Release update checks: update notices, release package selection, the update cache and
//! the errors of checking for and installing updates.
use vstd::prelude::*;

use crate::config::ConfigError;
use crate::text::{
    chars_of, char_is_whitespace, concat2, concat3, decimal_text, has_prefix, has_suffix,
    is_whitespace, opt_text, push_char, str_eq, string_from_chars, string_from_range,
    text_ends_with, text_starts_with, trim_start,
};
use crate::version::{is_newer, split_on, strip_leading, version_is_newer};

verus! {

/// Version of this client.
pub const PACKAGE_VERSION: &'static str = "0.1.0";

/// GitHub repository that publishes MESHH releases.
pub const DEFAULT_REPO: &'static str = "meshhai/meshh-tui";

/// Name of the installed binary.
pub const BINARY_NAME: &'static str = "meshh";

/// File name of the update-check cache inside the config directory.
pub const UPDATE_CACHE_FILE_NAME: &'static str = "update-check.json";

/// Seconds an update-check cache stays fresh.
pub const UPDATE_CACHE_TTL_SECS: u64 = 86400;

/// Longest response body, in characters, that error messages repeat.
pub const CLIP_MAX_CHARS: usize = 500;

/// Text of the notice shown in the terminal UI for a newer release.
pub open spec fn notice_text(latest_version: Seq<char>) -> Seq<char> {
    "Update available: "@ + latest_version + " - run 'meshh update'"@
}

/// User-visible update notice rendered by the TUI.
#[derive(Debug, PartialEq, Eq)]
pub struct UpdateNotice {
    latest_version: String,
}

impl UpdateNotice {
    /// The newest available release tag.
    pub closed spec fn version_text(&self) -> Seq<char> {
        self.latest_version@
    }

    /// Creates a notice for a newer release tag.
    pub fn new(latest_version: &str) -> (r: Self)
        ensures
            r.version_text() == latest_version@,
    {
        UpdateNotice { latest_version: latest_version.to_owned() }
    }

    /// Returns the newest available release tag.
    pub fn latest_version(&self) -> (r: &str)
        ensures
            r@ == self.version_text(),
    {
        self.latest_version.as_str()
    }

    /// Returns the compact message shown in the terminal UI.
    pub fn message(&self) -> (r: String)
        ensures
            r@ == notice_text(self.version_text()),
    {
        concat3("Update available: ", self.latest_version.as_str(), " - run 'meshh update'")
    }
}

impl Clone for UpdateNotice {
    fn clone(&self) -> (r: Self)
        ensures
            r == *self,
    {
        UpdateNotice { latest_version: self.latest_version.clone() }
    }
}

/// Tag of the running client version, `v` followed by the package version.
pub open spec fn current_version_text() -> Seq<char> {
    "v"@ + PACKAGE_VERSION@
}

/// Returns the tag of the running client version.
pub fn current_version_tag() -> (r: String)
    ensures
        r@ == current_version_text(),
{
    concat2("v", PACKAGE_VERSION)
}

/// Release archive and checksum published for one platform.
#[derive(Debug, PartialEq, Eq)]
pub struct ReleasePackage {
    pub archive_name: String,
    pub archive_url: String,
    pub checksum_name: String,
    pub checksum_url: String,
    pub archive_dir: String,
}

impl Clone for ReleasePackage {
    fn clone(&self) -> (r: Self)
        ensures
            r == *self,
    {
        ReleasePackage {
            archive_name: self.archive_name.clone(),
            archive_url: self.archive_url.clone(),
            checksum_name: self.checksum_name.clone(),
            checksum_url: self.checksum_url.clone(),
            archive_dir: self.archive_dir.clone(),
        }
    }
}

/// Result of checking the latest release.
#[derive(Debug, PartialEq, Eq)]
pub struct UpdateCheck {
    current_version: String,
    latest_version: String,
    html_url: Option<String>,
    package: Option<ReleasePackage>,
    installable: bool,
    update_available: bool,
}

impl UpdateCheck {
    /// Running client version.
    pub closed spec fn current_text(&self) -> Seq<char> {
        self.current_version@
    }

    /// Latest release tag.
    pub closed spec fn latest_text(&self) -> Seq<char> {
        self.latest_version@
    }

    /// Release page URL.
    pub closed spec fn html_url_text(&self) -> Option<Seq<char>> {
        opt_text(self.html_url)
    }

    /// Release package for this platform.
    pub closed spec fn package_value(&self) -> Option<ReleasePackage> {
        self.package
    }

    /// Whether a release package can be installed on this platform.
    pub closed spec fn is_installable(&self) -> bool {
        self.installable
    }

    /// Whether the latest release is newer than the running version.
    pub closed spec fn is_update(&self) -> bool {
        self.update_available
    }

    /// Builds a check result from a fetched release: an update is available when the latest
    /// version is newer, and installable when a package for this platform was found.
    pub fn new(
        current_version: &str,
        latest_version: &str,
        html_url: Option<String>,
        package: Option<ReleasePackage>,
    ) -> (r: Self)
        ensures
            r.current_text() == current_version@,
            r.latest_text() == latest_version@,
            r.html_url_text() == opt_text(html_url),
            r.package_value() == package,
            r.is_installable() == package is Some,
            r.is_update() == is_newer(latest_version@, current_version@),
    {
        let update_available = version_is_newer(latest_version, current_version);
        let installable = package.is_some();
        UpdateCheck {
            current_version: current_version.to_owned(),
            latest_version: latest_version.to_owned(),
            html_url,
            package,
            installable,
            update_available,
        }
    }

    /// Builds a check result from the cache, which keeps whether a package was installable
    /// but not the package itself.
    pub fn cached(
        current_version: &str,
        latest_version: &str,
        html_url: Option<String>,
        installable: bool,
    ) -> (r: Self)
        ensures
            r.current_text() == current_version@,
            r.latest_text() == latest_version@,
            r.html_url_text() == opt_text(html_url),
            r.package_value() is None,
            r.is_installable() == installable,
            r.is_update() == is_newer(latest_version@, current_version@),
    {
        let update_available = version_is_newer(latest_version, current_version);
        UpdateCheck {
            current_version: current_version.to_owned(),
            latest_version: latest_version.to_owned(),
            html_url,
            package: None,
            installable,
            update_available,
        }
    }

    /// Builds a check result from the latest release and this platform.
    pub fn from_latest_release(current_version: &str, latest: &LatestRelease, os: &str, arch: &str) -> (r:
        Self)
        ensures
            r.current_text() == current_version@,
            r.latest_text() == latest.tag_name@,
            r.html_url_text() == opt_text(latest.html_url),
            package_choice(latest, os@, arch@, r.package_value()),
            r.is_installable() == package_published(latest, os@, arch@),
            r.is_update() == is_newer(latest.tag_name@, current_version@),
    {
        let package = select_release_package(latest, os, arch);
        UpdateCheck::new(current_version, latest.tag_name.as_str(), latest.html_url.clone(), package)
    }

    /// Returns the running client version.
    pub fn current_version(&self) -> (r: &str)
        ensures
            r@ == self.current_text(),
    {
        self.current_version.as_str()
    }

    /// Returns the latest release tag.
    pub fn latest_version(&self) -> (r: &str)
        ensures
            r@ == self.latest_text(),
    {
        self.latest_version.as_str()
    }

    /// Returns the latest release page URL, when GitHub provided one.
    pub fn html_url(&self) -> (r: Option<&str>)
        ensures
            crate::text::opt_str_text(r) == self.html_url_text(),
    {
        match &self.html_url {
            Some(u) => Some(u.as_str()),
            None => None,
        }
    }

    /// Returns whether the latest release is newer than the running version.
    pub fn update_available(&self) -> (r: bool)
        ensures
            r == self.is_update(),
    {
        self.update_available
    }

    /// Returns whether a newer release can be installed on this platform.
    pub fn installable_update_available(&self) -> (r: bool)
        ensures
            r == (self.is_update() && self.is_installable()),
    {
        self.update_available && self.installable
    }

    /// Returns the release package for the current platform, when the release publishes one.
    pub fn package(&self) -> (r: Option<&ReleasePackage>)
        ensures
            r matches Some(p) ==> self.package_value() == Some(*p),
            r is None ==> self.package_value() is None,
    {
        match &self.package {
            Some(p) => Some(p),
            None => None,
        }
    }

    /// Returns whether a package for this platform was found.
    pub fn installable(&self) -> (r: bool)
        ensures
            r == self.is_installable(),
    {
        self.installable
    }

    /// Converts an installable available update into a TUI notice.
    pub fn notice(&self) -> (r: Option<UpdateNotice>)
        ensures
            (self.is_update() && self.is_installable()) ==> (r matches Some(n) && n.version_text()
                == self.latest_text()),
            !(self.is_update() && self.is_installable()) ==> r is None,
    {
        if self.installable_update_available() {
            Some(UpdateNotice::new(self.latest_version.as_str()))
        } else {
            None
        }
    }
}

/// What the update cache stores about the last check.
#[derive(Debug, PartialEq, Eq)]
pub struct CachedUpdateCheck {
    pub latest_version: String,
    pub html_url: Option<String>,
    pub installable: bool,
}

/// Rebuilds a check result for the running version from the cache.
pub fn cached_update_check(cache: CachedUpdateCheck) -> (r: UpdateCheck)
    ensures
        r.current_text() == current_version_text(),
        r.latest_text() == cache.latest_version@,
        r.html_url_text() == opt_text(cache.html_url),
        r.package_value() is None,
        r.is_installable() == cache.installable,
        r.is_update() == is_newer(cache.latest_version@, current_version_text()),
{
    let current = current_version_tag();
    UpdateCheck::cached(current.as_str(), cache.latest_version.as_str(), cache.html_url, cache.installable)
}

/// Cache contents for a check result.
pub fn cache_entry(check: &UpdateCheck) -> (r: CachedUpdateCheck)
    ensures
        r.latest_version@ == check.latest_text(),
        opt_text(r.html_url) == check.html_url_text(),
        r.installable == check.is_installable(),
{
    CachedUpdateCheck {
        latest_version: check.latest_version.clone(),
        html_url: check.html_url.clone(),
        installable: check.installable,
    }
}

/// Whether a cache written `age_seconds` ago is still fresh (at most one day old).
pub fn cache_is_fresh(age_seconds: u64) -> (r: bool)
    ensures
        r == (age_seconds <= UPDATE_CACHE_TTL_SECS),
{
    age_seconds <= UPDATE_CACHE_TTL_SECS
}

/// One asset of a GitHub release.
#[derive(Debug, PartialEq, Eq)]
pub struct ReleaseAsset {
    pub name: String,
    pub browser_download_url: String,
}

/// The latest GitHub release.
#[derive(Debug, PartialEq, Eq)]
pub struct LatestRelease {
    pub tag_name: String,
    pub html_url: Option<String>,
    pub assets: Vec<ReleaseAsset>,
}

/// Rust target triple of a release build.
#[derive(Debug, PartialEq, Eq)]
pub struct ReleaseTarget {
    pub triple: String,
}

/// Target triple published for an operating system and architecture.
pub open spec fn target_triple(os: Seq<char>, arch: Seq<char>) -> Option<Seq<char>> {
    if os == "macos"@ && arch == "aarch64"@ {
        Some("aarch64-apple-darwin"@)
    } else if os == "macos"@ && arch == "x86_64"@ {
        Some("x86_64-apple-darwin"@)
    } else if os == "linux"@ && arch == "x86_64"@ {
        Some("x86_64-unknown-linux-gnu"@)
    } else {
        None
    }
}

/// Returns the release target for an operating system and architecture
/// (as `std::env::consts::OS` and `ARCH` name them).
pub fn release_target(os: &str, arch: &str) -> (r: Result<ReleaseTarget, UpdateError>)
    ensures
        target_triple(os@, arch@) matches Some(t) ==> r matches Ok(rt) && rt.triple@ == t,
        target_triple(os@, arch@) is None ==> (r matches Err(UpdateError::UnsupportedTarget {
            os: o,
            arch: a,
        }) && o@ == os@ && a@ == arch@),
{
    let triple = if str_eq(os, "macos") && str_eq(arch, "aarch64") {
        "aarch64-apple-darwin"
    } else if str_eq(os, "macos") && str_eq(arch, "x86_64") {
        "x86_64-apple-darwin"
    } else if str_eq(os, "linux") && str_eq(arch, "x86_64") {
        "x86_64-unknown-linux-gnu"
    } else {
        return Err(UpdateError::UnsupportedTarget { os: os.to_owned(), arch: arch.to_owned() });
    };
    Ok(ReleaseTarget { triple: triple.to_owned() })
}

/// Name of the release archive for a version number and target.
pub open spec fn archive_name_of(version_number: Seq<char>, triple: Seq<char>) -> Seq<char> {
    "meshh_"@ + version_number + "_"@ + triple + ".tar.gz"@
}

/// Directory inside the release archive for a version number and target.
pub open spec fn archive_dir_of(version_number: Seq<char>, triple: Seq<char>) -> Seq<char> {
    "meshh_"@ + version_number + "_"@ + triple
}

/// Index of the first asset named `name`, or the number of assets.
pub open spec fn asset_index(assets: Seq<ReleaseAsset>, name: Seq<char>, from: int) -> int
    decreases assets.len() - from,
{
    if from < 0 || from >= assets.len() {
        assets.len() as int
    } else if assets[from].name@ == name {
        from
    } else {
        asset_index(assets, name, from + 1)
    }
}

/// Whether a package describes the archive and checksum assets of a release for a target.
pub open spec fn package_matches(release: LatestRelease, triple: Seq<char>, p: ReleasePackage) -> bool {
    let vn = strip_leading(release.tag_name@, 'v');
    let archive_name = archive_name_of(vn, triple);
    let checksum_name = archive_name + ".sha256"@;
    let ai = asset_index(release.assets@, archive_name, 0);
    let ci = asset_index(release.assets@, checksum_name, 0);
    &&& ai < release.assets@.len()
    &&& ci < release.assets@.len()
    &&& p.archive_name@ == archive_name
    &&& p.archive_url@ == release.assets@[ai].browser_download_url@
    &&& p.checksum_name@ == checksum_name
    &&& p.checksum_url@ == release.assets@[ci].browser_download_url@
    &&& p.archive_dir@ == archive_dir_of(vn, triple)
}

/// Whether a release publishes both the archive and its checksum for a platform.
pub open spec fn package_published(release: &LatestRelease, os: Seq<char>, arch: Seq<char>) -> bool {
    match target_triple(os, arch) {
        Some(t) => {
            let vn = strip_leading(release.tag_name@, 'v');
            let archive_name = archive_name_of(vn, t);
            let checksum_name = archive_name + ".sha256"@;
            asset_index(release.assets@, archive_name, 0) < release.assets@.len() && asset_index(
                release.assets@,
                checksum_name,
                0,
            ) < release.assets@.len()
        },
        None => false,
    }
}

/// The package chosen for a platform: present exactly when the release publishes it, and
/// then naming the first asset with each name.
pub open spec fn package_choice(
    release: &LatestRelease,
    os: Seq<char>,
    arch: Seq<char>,
    p: Option<ReleasePackage>,
) -> bool {
    &&& (p is Some == package_published(release, os, arch))
    &&& p matches Some(pk) ==> target_triple(os, arch) is Some && package_matches(
        *release,
        target_triple(os, arch)->0,
        pk,
    )
}

fn find_asset(assets: &Vec<ReleaseAsset>, name: &str) -> (r: usize)
    ensures
        r == asset_index(assets@, name@, 0),
{
    let mut i: usize = 0;
    while i < assets.len() && !str_eq(assets[i].name.as_str(), name)
        invariant
            i <= assets.len(),
            asset_index(assets@, name@, 0) == asset_index(assets@, name@, i as int),
        decreases assets.len() - i,
    {
        i = i + 1;
    }
    i
}

fn strip_leading_v(s: &str) -> (r: String)
    ensures
        r@ == strip_leading(s@, 'v'),
{
    let chars = chars_of(s);
    let mut i: usize = 0;
    proof {
        assert(chars@.subrange(0, chars@.len() as int) =~= chars@);
    }
    while i < chars.len() && chars[i] == 'v'
        invariant
            i <= chars.len(),
            chars@ == s@,
            strip_leading(s@, 'v') == strip_leading(chars@.subrange(i as int, chars@.len() as int), 'v'),
        decreases chars.len() - i,
    {
        assert(chars@.subrange(i as int, chars@.len() as int).drop_first() =~= chars@.subrange(
            i + 1,
            chars@.len() as int,
        ));
        i = i + 1;
    }
    string_from_range(&chars, i, chars.len())
}

/// Picks the release package for a platform (see `selected_package`).
pub fn select_release_package(release: &LatestRelease, os: &str, arch: &str) -> (r: Option<
    ReleasePackage,
>)
    ensures
        package_choice(release, os@, arch@, r),
{
    let target = match release_target(os, arch) {
        Ok(t) => t,
        Err(_) => {
            return None;
        },
    };
    let version_number = strip_leading_v(release.tag_name.as_str());
    let mut archive_name = concat3("meshh_", version_number.as_str(), "_");
    archive_name.append(target.triple.as_str());
    let archive_dir = archive_name.clone();
    archive_name.append(".tar.gz");
    let checksum_name = concat2(archive_name.as_str(), ".sha256");
    let ai = find_asset(&release.assets, archive_name.as_str());
    if ai >= release.assets.len() {
        return None;
    }
    let ci = find_asset(&release.assets, checksum_name.as_str());
    if ci >= release.assets.len() {
        return None;
    }
    let p = ReleasePackage {
        archive_name,
        archive_url: release.assets[ai].browser_download_url.clone(),
        checksum_name,
        checksum_url: release.assets[ci].browser_download_url.clone(),
        archive_dir,
    };
    proof {
        assert(package_matches(*release, target.triple@, p));
    }
    Some(p)
}

/// A text cut to its first 500 characters, with `...` appended when it was longer.
pub open spec fn clipped_text(value: Seq<char>) -> Seq<char> {
    if value.len() <= CLIP_MAX_CHARS {
        value
    } else {
        value.take(CLIP_MAX_CHARS as int) + "..."@
    }
}

/// Shortens a response body for an error message, cutting on character boundaries.
pub fn clipped(value: &str) -> (r: String)
    ensures
        r@ == clipped_text(value@),
{
    let chars = chars_of(value);
    if chars.len() <= CLIP_MAX_CHARS {
        return value.to_owned();
    }
    let mut r = string_from_range(&chars, 0, CLIP_MAX_CHARS);
    r.append("...");
    r
}

/// Errors produced while checking for or installing updates. Failures of I/O, HTTP, JSON,
/// UTF-8 decoding or a child process carry the description of the failure (`detail`) or the
/// exit status text (`status`).
#[derive(Debug, PartialEq, Eq)]
#[allow(inconsistent_fields)]
pub enum UpdateError {
    Config(ConfigError),
    UnsupportedTarget { os: String, arch: String },
    CheckRequest { detail: String },
    CheckStatus { status: u16, body: String },
    DecodeRelease { detail: String },
    Output { detail: String },
    ReadCache { detail: String },
    DecodeCache { detail: String },
    EncodeCache { detail: String },
    WriteCache { detail: String },
    CurrentExecutable { detail: String },
    MissingInstallDirectory,
    MissingReleaseAsset { version: String, target: String },
    CreateTempDir { detail: String },
    DownloadReleaseAsset { detail: String },
    ReleaseAssetStatus { status: u16, body: String },
    ReadReleaseAsset { detail: String },
    DecodeReleaseAsset { detail: String },
    InvalidChecksum { message: String },
    ChecksumMismatch { expected: String, actual: String },
    WriteUpdateFile { detail: String },
    ReadUpdateFile { detail: String },
    DecodeCommandOutput { detail: String },
    UnsafeArchiveEntry { entry: String },
    MissingArchiveBinary { path: String },
    DuplicateArchiveBinary { path: String },
    ArchiveBinaryNotRegular { path: String },
    InstallDirectory { detail: String },
    InstallBinary { detail: String },
    InstallFailed { status: String },
    Command { operation: &'static str, detail: String },
    CommandStatus { operation: &'static str, status: String },
}

/// Text of an HTTP status failure: the status, then the body when there is one.
pub open spec fn status_text(prefix: Seq<char>, status: u16, body: Seq<char>) -> Seq<char> {
    if body.len() == 0 {
        prefix + crate::text::decimal(status as nat)
    } else {
        prefix + crate::text::decimal(status as nat) + ": "@ + body
    }
}

/// User-facing description of an update error.
pub open spec fn update_error_text(e: UpdateError) -> Seq<char> {
    match e {
        UpdateError::Config(c) => crate::config::config_error_text(c),
        UpdateError::UnsupportedTarget { os, arch } => "unsupported update target: "@ + os@ + "-"@
            + arch@,
        UpdateError::CheckRequest { detail } => "could not check for updates: "@ + detail@,
        UpdateError::CheckStatus { status, body } => status_text(
            "update check returned HTTP "@,
            status,
            body@,
        ),
        UpdateError::DecodeRelease { detail } => "could not decode latest release response: "@
            + detail@,
        UpdateError::Output { detail } => "could not write update output: "@ + detail@,
        UpdateError::ReadCache { detail } => "could not read update cache: "@ + detail@,
        UpdateError::DecodeCache { detail } => "could not decode update cache: "@ + detail@,
        UpdateError::EncodeCache { detail } => "could not encode update cache: "@ + detail@,
        UpdateError::WriteCache { detail } => "could not write update cache: "@ + detail@,
        UpdateError::CurrentExecutable { detail } => "could not locate current executable: "@
            + detail@,
        UpdateError::MissingInstallDirectory => "could not determine current install directory"@,
        UpdateError::MissingReleaseAsset { version, target } => "release "@ + version@
            + " does not include a "@ + target@ + " update archive"@,
        UpdateError::CreateTempDir { detail } => "could not create update work directory: "@
            + detail@,
        UpdateError::DownloadReleaseAsset { detail } => "could not download release asset: "@
            + detail@,
        UpdateError::ReleaseAssetStatus { status, body } => status_text(
            "release asset download returned HTTP "@,
            status,
            body@,
        ),
        UpdateError::ReadReleaseAsset { detail } => "could not read release asset: "@ + detail@,
        UpdateError::DecodeReleaseAsset { detail } => "release asset was not valid UTF-8: "@
            + detail@,
        UpdateError::InvalidChecksum { message } => "invalid checksum: "@ + message@,
        UpdateError::ChecksumMismatch { expected, actual } => "release archive checksum mismatch: expected "@
            + expected@ + ", got "@ + actual@,
        UpdateError::WriteUpdateFile { detail } => "could not write update file: "@ + detail@,
        UpdateError::ReadUpdateFile { detail } => "could not read update file: "@ + detail@,
        UpdateError::DecodeCommandOutput { detail } => "command output was not valid UTF-8: "@
            + detail@,
        UpdateError::UnsafeArchiveEntry { entry } => "release archive contained unsafe entry `"@
            + entry@ + "`"@,
        UpdateError::MissingArchiveBinary { path } => "release archive did not contain "@ + path@,
        UpdateError::DuplicateArchiveBinary { path } => "release archive contained duplicate "@
            + path@ + " entries"@,
        UpdateError::ArchiveBinaryNotRegular { path } => "release archive binary was not a regular file: "@
            + path@,
        UpdateError::InstallDirectory { detail } => "could not create install directory: "@
            + detail@,
        UpdateError::InstallBinary { detail } => "could not install release binary: "@ + detail@,
        UpdateError::InstallFailed { status } => "install failed with "@ + status@,
        UpdateError::Command { operation, detail } => "could not run command while "@ + operation@
            + ": "@ + detail@,
        UpdateError::CommandStatus { operation, status } => "command failed with "@ + status@
            + " while "@ + operation@,
    }
}

/// Description of the underlying failure, where the error has one.
pub open spec fn update_error_cause(e: UpdateError) -> Option<Seq<char>> {
    match e {
        UpdateError::Config(c) => Some(crate::config::config_error_text(c)),
        UpdateError::CheckRequest { detail } => Some(detail@),
        UpdateError::DecodeRelease { detail } => Some(detail@),
        UpdateError::Output { detail } => Some(detail@),
        UpdateError::ReadCache { detail } => Some(detail@),
        UpdateError::DecodeCache { detail } => Some(detail@),
        UpdateError::EncodeCache { detail } => Some(detail@),
        UpdateError::WriteCache { detail } => Some(detail@),
        UpdateError::CurrentExecutable { detail } => Some(detail@),
        UpdateError::CreateTempDir { detail } => Some(detail@),
        UpdateError::DownloadReleaseAsset { detail } => Some(detail@),
        UpdateError::ReadReleaseAsset { detail } => Some(detail@),
        UpdateError::DecodeReleaseAsset { detail } => Some(detail@),
        UpdateError::WriteUpdateFile { detail } => Some(detail@),
        UpdateError::ReadUpdateFile { detail } => Some(detail@),
        UpdateError::DecodeCommandOutput { detail } => Some(detail@),
        UpdateError::InstallDirectory { detail } => Some(detail@),
        UpdateError::InstallBinary { detail } => Some(detail@),
        UpdateError::Command { detail, .. } => Some(detail@),
        _ => None,
    }
}

fn status_message(prefix: &str, status: u16, body: &str) -> (r: String)
    ensures
        r@ == status_text(prefix@, status, body@),
{
    let digits = decimal_text(status as u64);
    let mut r = concat2(prefix, digits.as_str());
    if !body.is_empty() {
        r.append(": ");
        r.append(body);
    }
    r
}

impl UpdateError {
    /// Returns the user-facing description of the error.
    pub fn message(&self) -> (r: String)
        ensures
            r@ == update_error_text(*self),
    {
        match self {
            UpdateError::Config(c) => c.message(),
            UpdateError::UnsupportedTarget { os, arch } => {
                let mut r = concat3("unsupported update target: ", os.as_str(), "-");
                r.append(arch.as_str());
                r
            },
            UpdateError::CheckRequest { detail } => concat2("could not check for updates: ", detail.as_str()),
            UpdateError::CheckStatus { status, body } => status_message(
                "update check returned HTTP ",
                *status,
                body.as_str(),
            ),
            UpdateError::DecodeRelease { detail } => concat2(
                "could not decode latest release response: ",
                detail.as_str(),
            ),
            UpdateError::Output { detail } => concat2("could not write update output: ", detail.as_str()),
            UpdateError::ReadCache { detail } => concat2("could not read update cache: ", detail.as_str()),
            UpdateError::DecodeCache { detail } => concat2("could not decode update cache: ", detail.as_str()),
            UpdateError::EncodeCache { detail } => concat2("could not encode update cache: ", detail.as_str()),
            UpdateError::WriteCache { detail } => concat2("could not write update cache: ", detail.as_str()),
            UpdateError::CurrentExecutable { detail } => concat2(
                "could not locate current executable: ",
                detail.as_str(),
            ),
            UpdateError::MissingInstallDirectory => "could not determine current install directory".to_owned(),
            UpdateError::MissingReleaseAsset { version, target } => {
                let mut r = concat3("release ", version.as_str(), " does not include a ");
                r.append(target.as_str());
                r.append(" update archive");
                r
            },
            UpdateError::CreateTempDir { detail } => concat2(
                "could not create update work directory: ",
                detail.as_str(),
            ),
            UpdateError::DownloadReleaseAsset { detail } => concat2(
                "could not download release asset: ",
                detail.as_str(),
            ),
            UpdateError::ReleaseAssetStatus { status, body } => status_message(
                "release asset download returned HTTP ",
                *status,
                body.as_str(),
            ),
            UpdateError::ReadReleaseAsset { detail } => concat2("could not read release asset: ", detail.as_str()),
            UpdateError::DecodeReleaseAsset { detail } => concat2(
                "release asset was not valid UTF-8: ",
                detail.as_str(),
            ),
            UpdateError::InvalidChecksum { message } => concat2("invalid checksum: ", message.as_str()),
            UpdateError::ChecksumMismatch { expected, actual } => {
                let mut r = concat3(
                    "release archive checksum mismatch: expected ",
                    expected.as_str(),
                    ", got ",
                );
                r.append(actual.as_str());
                r
            },
            UpdateError::WriteUpdateFile { detail } => concat2("could not write update file: ", detail.as_str()),
            UpdateError::ReadUpdateFile { detail } => concat2("could not read update file: ", detail.as_str()),
            UpdateError::DecodeCommandOutput { detail } => concat2(
                "command output was not valid UTF-8: ",
                detail.as_str(),
            ),
            UpdateError::UnsafeArchiveEntry { entry } => concat3(
                "release archive contained unsafe entry `",
                entry.as_str(),
                "`",
            ),
            UpdateError::MissingArchiveBinary { path } => concat2(
                "release archive did not contain ",
                path.as_str(),
            ),
            UpdateError::DuplicateArchiveBinary { path } => concat3(
                "release archive contained duplicate ",
                path.as_str(),
                " entries",
            ),
            UpdateError::ArchiveBinaryNotRegular { path } => concat2(
                "release archive binary was not a regular file: ",
                path.as_str(),
            ),
            UpdateError::InstallDirectory { detail } => concat2(
                "could not create install directory: ",
                detail.as_str(),
            ),
            UpdateError::InstallBinary { detail } => concat2("could not install release binary: ", detail.as_str()),
            UpdateError::InstallFailed { status } => concat2("install failed with ", status.as_str()),
            UpdateError::Command { operation, detail } => {
                let mut r = concat3("could not run command while ", operation, ": ");
                r.append(detail.as_str());
                r
            },
            UpdateError::CommandStatus { operation, status } => {
                let mut r = concat3("command failed with ", status.as_str(), " while ");
                r.append(operation);
                r
            },
        }
    }

    /// Returns the description of the underlying failure, where the error has one.
    pub fn cause(&self) -> (r: Option<String>)
        ensures
            opt_text(r) == update_error_cause(*self),
    {
        match self {
            UpdateError::Config(c) => Some(c.message()),
            UpdateError::CheckRequest { detail } => Some(detail.clone()),
            UpdateError::DecodeRelease { detail } => Some(detail.clone()),
            UpdateError::Output { detail } => Some(detail.clone()),
            UpdateError::ReadCache { detail } => Some(detail.clone()),
            UpdateError::DecodeCache { detail } => Some(detail.clone()),
            UpdateError::EncodeCache { detail } => Some(detail.clone()),
            UpdateError::WriteCache { detail } => Some(detail.clone()),
            UpdateError::CurrentExecutable { detail } => Some(detail.clone()),
            UpdateError::CreateTempDir { detail } => Some(detail.clone()),
            UpdateError::DownloadReleaseAsset { detail } => Some(detail.clone()),
            UpdateError::ReadReleaseAsset { detail } => Some(detail.clone()),
            UpdateError::DecodeReleaseAsset { detail } => Some(detail.clone()),
            UpdateError::WriteUpdateFile { detail } => Some(detail.clone()),
            UpdateError::ReadUpdateFile { detail } => Some(detail.clone()),
            UpdateError::DecodeCommandOutput { detail } => Some(detail.clone()),
            UpdateError::InstallDirectory { detail } => Some(detail.clone()),
            UpdateError::InstallBinary { detail } => Some(detail.clone()),
            UpdateError::Command { detail, .. } => Some(detail.clone()),
            _ => None,
        }
    }
}

/// Next step after the plain `install` of a new binary: done when it succeeded; otherwise
/// retried with `sudo` when that command exists, else failed.
#[derive(Debug, Clone, Copy, PartialEq, Eq)]
pub enum InstallStep {
    Installed,
    RetryWithSudo,
    Failed,
}

/// Decides the step after the plain `install` of a new binary (see `InstallStep`).
pub fn after_install(succeeded: bool, sudo_available: bool) -> (r: InstallStep)
    ensures
        succeeded ==> r == InstallStep::Installed,
        !succeeded && sudo_available ==> r == InstallStep::RetryWithSudo,
        !succeeded && !sudo_available ==> r == InstallStep::Failed,
{
    if succeeded {
        InstallStep::Installed
    } else if sudo_available {
        InstallStep::RetryWithSudo
    } else {
        InstallStep::Failed
    }
}

/// Checks how a child process ended: its exit status text is reported when it failed.
pub fn command_outcome(operation: &'static str, succeeded: bool, status: &str) -> (r: Result<
    (),
    UpdateError,
>)
    ensures
        succeeded ==> r is Ok,
        !succeeded ==> (r matches Err(UpdateError::CommandStatus { operation: o, status: s }) && o
            == operation && s@ == status@),
{
    if succeeded {
        Ok(())
    } else {
        Err(UpdateError::CommandStatus { operation, status: status.to_owned() })
    }
}

/// Error for a failed update check request, with the body shortened.
pub fn check_status_error(status: u16, body: &str) -> (r: UpdateError)
    ensures
        r matches UpdateError::CheckStatus { status: s, body: b } && s == status && b@
            == clipped_text(body@),
{
    UpdateError::CheckStatus { status, body: clipped(body) }
}

/// Error for a failed release asset download, with the body shortened.
pub fn asset_status_error(status: u16, body: &str) -> (r: UpdateError)
    ensures
        r matches UpdateError::ReleaseAssetStatus { status: s, body: b } && s == status && b@
            == clipped_text(body@),
{
    UpdateError::ReleaseAssetStatus { status, body: clipped(body) }
}

/// Error for a release without an archive for the target.
pub fn missing_release_asset(check: &UpdateCheck, target: &ReleaseTarget) -> (r: UpdateError)
    ensures
        r matches UpdateError::MissingReleaseAsset { version, target: t } && version@
            == check.latest_text() && t@ == target.triple@,
{
    UpdateError::MissingReleaseAsset {
        version: check.latest_version.clone(),
        target: target.triple.clone(),
    }
}

} // verus!
