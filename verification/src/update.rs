//! Self-update decisions: release tags, platform names and whether to install.
//!
//! Downloading, unpacking and replacing the executable are the application's
//! I/O; this module decides what to fetch and whether to install it.
use semver::Version;
use vstd::prelude::*;
use crate::text::{concat2, concat3, has_prefix, starts_with, str_eq, trim_start_matches, trim_start_str};

verus! {

/// The GitHub repository that publishes releases.
pub const REPO: &'static str = "AJI1026/OneMini-CLI";

/// The version of this package.
pub fn current_version() -> (r: &'static str)
    ensures
        r@ == "0.1.0"@,
{
    "0.1.0"
}

/// `v` with a leading `v` (`0.1.1` becomes `v0.1.1`).
pub open spec fn normalize_tag_spec(v: Seq<char>) -> Seq<char> {
    if has_prefix(v, "v"@) { v } else { "v"@ + v }
}

/// A release tag from a version: a `v` is put in front unless it is there.
pub fn normalize_tag(v: &str) -> (r: String)
    ensures
        r@ == normalize_tag_spec(v@),
{
    if starts_with(v, "v") {
        crate::text::owned(v)
    } else {
        concat2("v", v)
    }
}

/// The order of one version relative to another.
#[derive(Debug, Clone, Copy, PartialEq, Eq, Structural)]
pub enum VersionOrder {
    Older,
    Same,
    Newer,
}

/// Whether `semver::Version::parse` accepts a text.
pub uninterp spec fn semver_parses(s: Seq<char>) -> bool;

/// How `semver` orders the version `a` relative to `b` (both parse).
pub uninterp spec fn semver_order(a: Seq<char>, b: Seq<char>) -> VersionOrder;

/// `semver::Version::parse(s).is_ok()`.
#[verifier::external_body]
fn version_parses(s: &str) -> (r: bool)
    ensures
        r == semver_parses(s@),
{
    Version::parse(s).is_ok()
}

/// `a` relative to `b` by `semver::Version`'s order (`<` and `==`).
#[verifier::external_body]
fn version_order(a: &str, b: &str) -> (r: VersionOrder)
    requires
        semver_parses(a@),
        semver_parses(b@),
    ensures
        r == semver_order(a@, b@),
{
    let (x, y) = (Version::parse(a).unwrap(), Version::parse(b).unwrap());
    if x < y {
        VersionOrder::Older
    } else if x == y {
        VersionOrder::Same
    } else {
        VersionOrder::Newer
    }
}

/// What an update run does.
#[derive(Debug, Clone, Copy, PartialEq, Eq, Structural)]
pub enum UpdateAction {
    /// The remote release is this version: nothing to do.
    UpToDate,
    /// The remote release is older and `--force` was not given.
    SkipOlder,
    /// `--check` only: report that a newer release exists.
    ReportAvailable,
    /// Download and install the release.
    Install,
}

/// The action for a remote release in the given order relative to the
/// running version.
pub open spec fn update_action_spec(remote: VersionOrder, force: bool, check_only: bool) -> UpdateAction {
    if remote != VersionOrder::Newer && !force {
        if remote == VersionOrder::Same { UpdateAction::UpToDate } else { UpdateAction::SkipOlder }
    } else if check_only {
        UpdateAction::ReportAvailable
    } else {
        UpdateAction::Install
    }
}

/// Decides what to do with a remote release: a release that is not newer is
/// left alone unless forced; `--check` only reports.
pub fn decide_update(remote: VersionOrder, force: bool, check_only: bool) -> (r: UpdateAction)
    ensures
        r == update_action_spec(remote, force, check_only),
{
    if remote != VersionOrder::Newer && !force {
        if remote == VersionOrder::Same {
            UpdateAction::UpToDate
        } else {
            UpdateAction::SkipOlder
        }
    } else if check_only {
        UpdateAction::ReportAvailable
    } else {
        UpdateAction::Install
    }
}

/// The message for a version that does not parse.
pub open spec fn invalid_version_message(s: Seq<char>) -> Seq<char> {
    "无效版本号: "@ + s
}

/// Plans an update from the running version and the release tag: the tag may
/// carry a leading `v`. Fails when either version does not parse.
pub fn plan_update(current: &str, tag: &str, force: bool, check_only: bool) -> (r: Result<UpdateAction, String>)
    ensures
        !semver_parses(current@) ==> r is Err && r->Err_0@ == invalid_version_message(current@),
        semver_parses(current@) && !semver_parses(trim_start_str(tag@, "v"@)) ==> r is Err
            && r->Err_0@ == invalid_version_message(trim_start_str(tag@, "v"@)),
        semver_parses(current@) && semver_parses(trim_start_str(tag@, "v"@)) ==> r == Ok::<UpdateAction, String>(
            update_action_spec(semver_order(trim_start_str(tag@, "v"@), current@), force, check_only)),
{
    if !version_parses(current) {
        return Err(concat2("无效版本号: ", current));
    }
    let remote = trim_start_matches(tag, "v");
    if !version_parses(remote.as_str()) {
        return Err(concat2("无效版本号: ", remote.as_str()));
    }
    let order = version_order(remote.as_str(), current);
    Ok(decide_update(order, force, check_only))
}

/// What `update` was asked to do.
pub struct UpdateOptions {
    /// Only report whether a newer release exists.
    pub check_only: bool,
    /// A release to install in place of the latest.
    pub version: Option<String>,
    /// Install even where the release is not newer.
    pub force: bool,
}

impl UpdateOptions {
    /// The release tag asked for (`None`: the latest).
    pub fn requested_tag(&self) -> (r: Option<String>)
        ensures
            match self.version {
                Some(v) => r matches Some(t) && t@ == normalize_tag_spec(v@),
                None => r is None,
            },
    {
        match &self.version {
            Some(v) => Some(normalize_tag(v.as_str())),
            None => None,
        }
    }

    /// Plans the update to the release `tag` (see `plan_update`).
    pub fn plan(&self, current: &str, tag: &str) -> (r: Result<UpdateAction, String>)
        ensures
            !semver_parses(current@) ==> r is Err && r->Err_0@ == invalid_version_message(current@),
            semver_parses(current@) && !semver_parses(trim_start_str(tag@, "v"@)) ==> r is Err
                && r->Err_0@ == invalid_version_message(trim_start_str(tag@, "v"@)),
            semver_parses(current@) && semver_parses(trim_start_str(tag@, "v"@)) ==> r == Ok::<UpdateAction, String>(
                update_action_spec(semver_order(trim_start_str(tag@, "v"@), current@), self.force, self.check_only)),
    {
        plan_update(current, tag, self.force, self.check_only)
    }
}

/// The release name of a platform (`x86_64-unknown-linux-gnu`), or the
/// message for an operating system or architecture without releases.
pub open spec fn platform_tag_spec(os: Seq<char>, arch: Seq<char>) -> Result<Seq<char>, Seq<char>> {
    if os != "macos"@ && os != "linux"@ {
        Err("不支持的操作系统: "@ + os + "（仅 macOS / Linux 支持 onemini update）"@)
    } else if arch != "x86_64"@ && arch != "aarch64"@ {
        Err("不支持架构: "@ + arch)
    } else {
        Ok(arch + "-"@ + (if os == "macos"@ { "apple-darwin"@ } else { "unknown-linux-gnu"@ }))
    }
}

/// The release name of the platform given by `std::env::consts::{OS, ARCH}`.
pub fn platform_tag(os: &str, arch: &str) -> (r: Result<String, String>)
    ensures
        match platform_tag_spec(os@, arch@) {
            Ok(s) => r is Ok && r->Ok_0@ == s,
            Err(e) => r is Err && r->Err_0@ == e,
        },
{
    let os_tag = if str_eq(os, "macos") {
        "apple-darwin"
    } else if str_eq(os, "linux") {
        "unknown-linux-gnu"
    } else {
        return Err(concat3("不支持的操作系统: ", os, "（仅 macOS / Linux 支持 onemini update）"));
    };
    if !str_eq(arch, "x86_64") && !str_eq(arch, "aarch64") {
        return Err(concat2("不支持架构: ", arch));
    }
    Ok(concat3(arch, "-", os_tag))
}

/// The address of a release archive.
pub open spec fn archive_url_spec(tag: Seq<char>, platform: Seq<char>) -> Seq<char> {
    "https://github.com/"@ + "AJI1026/OneMini-CLI"@ + "/releases/download/"@ + tag + "/onemini-"@ + platform + ".tar.gz"@
}

/// The download address of the archive of `tag` for `platform`.
pub fn archive_url(tag: &str, platform: &str) -> (r: String)
    ensures
        r@ == archive_url_spec(tag@, platform@),
{
    let mut s = concat3("https://github.com/", REPO, "/releases/download/");
    s.append(tag);
    s.append("/onemini-");
    s.append(platform);
    s.append(".tar.gz");
    proof {
        reveal_strlit("AJI1026/OneMini-CLI");
    }
    s
}

/// The GitHub API address of a tagged release, or of the latest one.
pub fn release_api_url(tag: Option<&str>) -> (r: String)
    ensures
        match tag {
            Some(t) => r@ == "https://api.github.com/repos/"@ + "AJI1026/OneMini-CLI"@ + "/releases/tags/"@ + t@,
            None => r@ == "https://api.github.com/repos/"@ + "AJI1026/OneMini-CLI"@ + "/releases/latest"@,
        },
{
    let base = concat2("https://api.github.com/repos/", REPO);
    proof {
        reveal_strlit("AJI1026/OneMini-CLI");
    }
    match tag {
        Some(t) => concat3(base.as_str(), "/releases/tags/", t),
        None => concat2(base.as_str(), "/releases/latest"),
    }
}

/// Putting a `v` in front twice changes nothing more than once.
pub proof fn lemma_normalize_tag_idempotent(v: Seq<char>)
    ensures
        normalize_tag_spec(normalize_tag_spec(v)) == normalize_tag_spec(v),
{
    reveal_strlit("v");
    if !has_prefix(v, "v"@) {
        assert(("v"@ + v).subrange(0, 1) =~= "v"@);
    }
}

/// Without `--force`, a release that is not newer is never installed nor
/// announced.
pub proof fn lemma_no_downgrade_without_force(remote: VersionOrder, check_only: bool)
    requires
        remote != VersionOrder::Newer,
    ensures
        update_action_spec(remote, false, check_only) == UpdateAction::UpToDate
            || update_action_spec(remote, false, check_only) == UpdateAction::SkipOlder,
{
}

/// A newer release is installed unless only checking.
pub proof fn lemma_newer_installs(force: bool)
    ensures
        update_action_spec(VersionOrder::Newer, force, false) == UpdateAction::Install,
        update_action_spec(VersionOrder::Newer, force, true) == UpdateAction::ReportAvailable,
{
}

} // verus!
