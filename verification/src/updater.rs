//! Updates from the official GitHub repository: where the manifest and the
//! release page are, how a check falls back to bypassing the proxy, what a
//! failure reports, and the marker that tells the installer's relaunch apart
//! from a cold start.

use vstd::prelude::*;
use crate::text::{push_str, str_is};

verus! {

/// Official release repository (owner/repo).
pub const UPDATE_REPO: &'static str = "JackPolaris/memreduct-rs";

/// Deadline for a manifest request, in seconds. Without one a check against
/// an unreachable endpoint hangs until the OS gives up, minutes later.
pub const CHECK_TIMEOUT_SECS: u64 = 30;

/// Deadline for the installer download, in seconds: generous, since it covers
/// the whole body on a slow link.
pub const DOWNLOAD_TIMEOUT_SECS: u64 = 300;

/// Name of the marker file, in the data directory, written just before the
/// installer runs and consumed by the next start of the app.
pub const RELAUNCH_MARKER: &'static str = "relaunched-after-update.flag";

// ---------------------------------------------------------------------------
// Where the manifest is
// ---------------------------------------------------------------------------

/// The release target triple for the architecture name `arch`
/// (`std::env::consts::ARCH`).
pub open spec fn triple_spec(arch: Seq<char>) -> Seq<char> {
    if arch == "aarch64"@ {
        "aarch64-pc-windows-msvc"@
    } else if arch == "x86"@ {
        "i686-pc-windows-msvc"@
    } else {
        "x86_64-pc-windows-msvc"@
    }
}

/// Map an architecture name to its release target triple: 32-bit builds must
/// not fall back to the x86_64 manifest.
pub fn triple_for(arch: &str) -> (t: &'static str)
    ensures
        t@ == triple_spec(arch@),
{
    if str_is(arch, "aarch64") {
        "aarch64-pc-windows-msvc"
    } else if str_is(arch, "x86") {
        "i686-pc-windows-msvc"
    } else {
        "x86_64-pc-windows-msvc"
    }
}

/// The prefix every manifest URL shares.
pub const MANIFEST_BASE: &'static str =
    "https://github.com/JackPolaris/memreduct-rs/releases/latest/download/update-";

/// Full URL of the update manifest for the architecture `arch`: the file name
/// carries the target triple of the running build.
pub fn manifest_url(arch: &str) -> (u: String)
    ensures
        u@ == MANIFEST_BASE@ + triple_spec(arch@) + ".json"@,
{
    let mut u = String::from_str(MANIFEST_BASE);
    push_str(&mut u, triple_for(arch));
    push_str(&mut u, ".json");
    u
}

/// Human-facing "latest release" page (the manifest is machine JSON, useless
/// to link the UI at).
pub fn release_page_url() -> (u: String)
    ensures
        u@ == "https://github.com/JackPolaris/memreduct-rs/releases/latest"@,
{
    String::from_str("https://github.com/JackPolaris/memreduct-rs/releases/latest")
}

// ---------------------------------------------------------------------------
// The parsed endpoint
// ---------------------------------------------------------------------------

/// `url::Url`, carried through to the updater as an opaque value.
#[verifier::external_type_specification]
#[verifier::external_body]
pub struct ExUrl(url::Url);

/// What `url::Url::parse` gives for `input`: the URL it builds, or the text
/// of its error.
pub uninterp spec fn url_parse(input: Seq<char>) -> Result<url::Url, Seq<char>>;

/// `url::Url::parse`: parses an absolute URL.
///
/// The contract claims that the outcome — the URL built, or the error reported
/// by its display text — is a function of `input` alone (the parser reads
/// nothing else); which inputs the WHATWG parser accepts, and what the URL it
/// builds holds, is not spelled out.
#[verifier::external_body]
fn parse_url(input: &str) -> (r: Result<url::Url, String>)
    ensures
        match r {
            Ok(u) => url_parse(input@) == Ok::<url::Url, Seq<char>>(u),
            Err(t) => url_parse(input@) == Err::<url::Url, Seq<char>>(t@),
        },
{
    match url::Url::parse(input) {
        Ok(u) => Ok(u),
        Err(e) => Err(format!("{e}")),
    }
}

/// The message for an update endpoint that `error` rejected.
pub fn invalid_endpoint_message(endpoint: &str, error: &str) -> (m: String)
    ensures
        m@ == "更新地址无效("@ + endpoint@ + "):"@ + error@,
{
    let mut m = String::from_str("更新地址无效(");
    push_str(&mut m, endpoint);
    push_str(&mut m, "):");
    push_str(&mut m, error);
    m
}

/// The endpoint `endpoint` as a URL, or the message saying why it is not one.
pub fn endpoint_url(endpoint: &str) -> (r: Result<url::Url, String>)
    ensures
        match url_parse(endpoint@) {
            Ok(u) => r matches Ok(v) && v == u,
            Err(t) => r matches Err(m) && m@ == "更新地址无效("@ + endpoint@ + "):"@ + t,
        },
{
    match parse_url(endpoint) {
        Ok(u) => Ok(u),
        Err(e) => Err(invalid_endpoint_message(endpoint, e.as_str())),
    }
}

/// The endpoint of the updater for the architecture `arch`.
pub fn updater_endpoint(arch: &str) -> (r: Result<url::Url, String>)
    ensures
        match url_parse(MANIFEST_BASE@ + triple_spec(arch@) + ".json"@) {
            Ok(u) => r matches Ok(v) && v == u,
            Err(t) => r matches Err(m) && m@ == "更新地址无效("@ + MANIFEST_BASE@ + triple_spec(
                arch@,
            ) + ".json"@ + "):"@ + t,
        },
{
    let endpoint = manifest_url(arch);
    endpoint_url(endpoint.as_str())
}

// ---------------------------------------------------------------------------
// Checking, with the proxy bypassed on a second try
// ---------------------------------------------------------------------------

/// Human-readable failure message, with the context needed to act on it.
pub open spec fn check_failed_text(endpoint: Seq<char>, current: Seq<char>, reason: Seq<char>) -> Seq<
    char,
> {
    "检查更新失败(当前 v"@ + current + "):"@ + reason + "\n更新地址:"@ + endpoint
        + "\n若持续失败,通常是网络或代理无法访问 github.com ——\n被代理拦截时,插件会把它报告成「未找到发布」而不是网络错误。"@
}

/// The failure message of a check against `endpoint` from version `current`.
pub fn check_failed(endpoint: &str, current: &str, reason: &str) -> (m: String)
    ensures
        m@ == check_failed_text(endpoint@, current@, reason@),
{
    let mut m = String::from_str("检查更新失败(当前 v");
    push_str(&mut m, current);
    push_str(&mut m, "):");
    push_str(&mut m, reason);
    push_str(&mut m, "\n更新地址:");
    push_str(&mut m, endpoint);
    push_str(
        &mut m,
        "\n若持续失败,通常是网络或代理无法访问 github.com ——\n被代理拦截时,插件会把它报告成「未找到发布」而不是网络错误。",
    );
    m
}

/// The reason reported when both attempts failed.
pub fn retry_failure_reason(first: &str, second: &str) -> (r: String)
    ensures
        r@ == first@ + "(忽略代理重试亦失败:"@ + second@ + ")"@,
{
    let mut r = String::from_str(first);
    push_str(&mut r, "(忽略代理重试亦失败:");
    push_str(&mut r, second);
    push_str(&mut r, ")");
    r
}

/// Where a check stands.
#[derive(Debug, Clone)]
pub enum CheckStep {
    /// The manifest was fetched; `via_no_proxy` tells whether it took the
    /// direct route, which the download then keeps.
    Done { via_no_proxy: bool },
    /// The request through the proxy failed: try again bypassing it.
    RetryWithoutProxy { first_error: String },
    /// Both attempts failed.
    Failed { message: String },
}

/// The step after the check through the system proxy.
///
/// A proxy that filters `github.com` is answered with a non-2xx status, which
/// the plugin reports as "no release found", not as a network error; one retry
/// with the proxy bypassed turns "updates never work" into "updates work".
pub fn after_proxy_check(outcome: Result<(), String>) -> (s: CheckStep)
    ensures
        match outcome {
            Ok(()) => s matches CheckStep::Done { via_no_proxy } && !via_no_proxy,
            Err(e) => s matches CheckStep::RetryWithoutProxy { first_error } && first_error@ == e@,
        },
{
    match outcome {
        Ok(()) => CheckStep::Done { via_no_proxy: false },
        Err(e) => CheckStep::RetryWithoutProxy { first_error: e },
    }
}

/// The step after the retry that bypassed the proxy, the first attempt having
/// failed with `first_error`.
pub fn after_direct_check(
    first_error: &str,
    outcome: Result<(), String>,
    endpoint: &str,
    current: &str,
) -> (s: CheckStep)
    ensures
        match outcome {
            Ok(()) => s matches CheckStep::Done { via_no_proxy } && via_no_proxy,
            Err(e) => s matches CheckStep::Failed { message } && message@ == check_failed_text(
                endpoint@,
                current@,
                first_error@ + "(忽略代理重试亦失败:"@ + e@ + ")"@,
            ),
        },
{
    match outcome {
        Ok(()) => CheckStep::Done { via_no_proxy: true },
        Err(e) => {
            let reason = retry_failure_reason(first_error, e.as_str());
            CheckStep::Failed { message: check_failed(endpoint, current, reason.as_str()) }
        },
    }
}

/// Result of a check, and the facts needed to diagnose a failed one.
#[derive(Debug, Clone)]
pub struct UpdateInfo {
    pub available: bool,
    pub version: String,
    pub date: String,
    pub body: String,
    pub current_version: String,
}

/// The text of an optional field, empty when absent.
pub open spec fn text_or_empty(s: Option<String>) -> Seq<char> {
    match s {
        Some(t) => t@,
        None => Seq::empty(),
    }
}

impl UpdateInfo {
    /// An update to `version` is available (published at `date`, with release
    /// notes `body`, when known).
    pub fn available(
        version: String,
        date: Option<String>,
        body: Option<String>,
        current_version: String,
    ) -> (i: Self)
        ensures
            i.available,
            i.version@ == version@,
            i.date@ == text_or_empty(date),
            i.body@ == text_or_empty(body),
            i.current_version@ == current_version@,
    {
        let date = match date {
            Some(d) => d,
            None => String::new(),
        };
        let body = match body {
            Some(b) => b,
            None => String::new(),
        };
        UpdateInfo { available: true, version, date, body, current_version }
    }

    /// `current_version` is the latest.
    pub fn up_to_date(current_version: String) -> (i: Self)
        ensures
            !i.available,
            i.version@.len() == 0,
            i.date@.len() == 0,
            i.body@.len() == 0,
            i.current_version@ == current_version@,
    {
        UpdateInfo {
            available: false,
            version: String::new(),
            date: String::new(),
            body: String::new(),
            current_version,
        }
    }
}

/// Static updater facts, without any network I/O.
#[derive(Debug, Clone)]
pub struct UpdaterInfo {
    pub current_version: String,
    /// HTML release page — the only thing the UI links to.
    pub release_page: String,
}

/// The current version and the release page.
pub fn get_updater_info(current_version: String) -> (i: UpdaterInfo)
    ensures
        i.current_version@ == current_version@,
        i.release_page@ == "https://github.com/JackPolaris/memreduct-rs/releases/latest"@,
{
    UpdaterInfo { current_version, release_page: release_page_url() }
}

// ---------------------------------------------------------------------------
// Downloading
// ---------------------------------------------------------------------------

/// The message when the re-check before a download failed with `e` (said
/// explicitly, otherwise it looks like the install itself failed).
pub fn recheck_failed(e: &str) -> (m: String)
    ensures
        m@ == "下载前重新检查更新失败\n"@ + e@,
{
    let mut m = String::from_str("下载前重新检查更新失败\n");
    push_str(&mut m, e);
    m
}

/// The message when the re-check found no update.
pub fn no_update_message() -> (m: String)
    ensures
        m@ == "没有可用更新"@,
{
    String::from_str("没有可用更新")
}

/// The message when the download or the install failed with `e`.
pub fn install_failed(e: &str) -> (m: String)
    ensures
        m@ == "下载或安装更新失败:"@ + e@,
{
    let mut m = String::from_str("下载或安装更新失败:");
    push_str(&mut m, e);
    m
}

// ---------------------------------------------------------------------------
// The relaunch marker
// ---------------------------------------------------------------------------

/// Whether the relaunch marker is present.
///
/// After a silent install the app is relaunched by the installer, a process
/// the user never interacted with, so that start comes up behind whatever the
/// user is looking at; it has to be treated like the elevation hand-over. A
/// file is the only channel that survives the process boundary. The caller
/// mirrors the file: it reads `present` from whether it exists and, after an
/// operation, writes or removes it to match.
#[derive(Debug, Clone, Copy, PartialEq, Eq, Structural)]
pub struct RelaunchMarker {
    pub present: bool,
}

impl RelaunchMarker {
    /// Record that the next start is the installer's relaunch (set just
    /// before the installer takes over).
    pub fn mark(&mut self)
        ensures
            final(self).present,
    {
        self.present = true;
    }

    /// Forget the marker again (the install failed and the app keeps
    /// running, so a later cold start must not be mistaken for a relaunch).
    pub fn clear(&mut self)
        ensures
            !final(self).present,
    {
        self.present = false;
    }
}

/// Consume the marker: `true` when this start is the installer's relaunch.
/// It is consumed once — left behind, every later cold start would take the
/// foreground.
pub fn take_relaunch_pending(marker: &mut RelaunchMarker) -> (pending: bool)
    ensures
        pending == old(marker).present,
        !final(marker).present,
{
    let pending = marker.present;
    marker.present = false;
    pending
}

/// The marker is consumed exactly once: a take right after a mark reports the
/// relaunch, and a second take does not.
pub proof fn relaunch_marker_is_consumed_once(m0: RelaunchMarker, m1: RelaunchMarker, m2: RelaunchMarker, first: bool, second: bool)
    requires
        m0.present,
        first == m0.present && !m1.present,
        second == m1.present && !m2.present,
    ensures
        first,
        !second,
        !m2.present,
{
}

} // verus!
