//! What the app decides around the frontend's commands and its background
//! loop: when an automatic cleanup is due, how a cleanup request is read, what
//! toggling autostart does, the colours of the tray icon, which hotkey is
//! armed and how the process was launched.

use vstd::prelude::*;
use crate::config::Config;
use crate::trayicon::{TrayIconStyle, unpack_color, unpacked};
use crate::text::str_is;

verus! {

// ---------------------------------------------------------------------------
// Automatic cleanup
// ---------------------------------------------------------------------------

/// Seconds since the Unix epoch, as the system clock reads them (`0` when the
/// clock is set before the epoch).
///
/// Calls `std::time::SystemTime::now` and `duration_since(UNIX_EPOCH)`; the
/// result depends on the clock, so nothing is stated of it.
#[verifier::external_body]
pub fn unix_now() -> (now: i64) {
    std::time::SystemTime::now().duration_since(std::time::UNIX_EPOCH).map(
        |d| d.as_secs() as i64,
    ).unwrap_or(0)
}

/// The cooldown shared by both automatic modes, in seconds.
pub const AUTOREDUCT_COOLDOWN_SECS: i64 = 30;

/// `a - b`, saturated to the `i64` range.
pub open spec fn saturating_diff(a: i64, b: i64) -> i64 {
    if a - b > i64::MAX {
        i64::MAX
    } else if a - b < i64::MIN {
        i64::MIN
    } else {
        (a - b) as i64
    }
}

/// Whether an automatic cleanup is due at time `now`: at least 30 s after the
/// last one, and either the threshold mode is on and usage `percent` reached
/// the threshold (at least 1), or the interval mode is on with a non-zero
/// interval of `interval_minutes` that has elapsed.
pub open spec fn autoclean_due(
    now: i64,
    percent: u32,
    enable_by_threshold: bool,
    threshold: u32,
    enable_by_interval: bool,
    interval_minutes: u32,
    last_reduct: i64,
) -> bool {
    let elapsed = saturating_diff(now, last_reduct);
    &&& elapsed >= AUTOREDUCT_COOLDOWN_SECS
    &&& {
        ||| enable_by_threshold && percent >= (if threshold >= 1 {
            threshold
        } else {
            1
        })
        ||| enable_by_interval && interval_minutes > 0 && elapsed >= interval_minutes as int * 60
    }
}

/// Whether an automatic cleanup is due at time `now`.
///
/// The threshold and interval are clamped defensively on top of
/// `Config::sanitize`: a stored `0` would otherwise make the condition
/// unconditionally true and turn the 1 Hz background loop into a permanent
/// clean-every-30-seconds loop.
pub fn should_autoclean_at(
    now: i64,
    percent: u32,
    enable_by_threshold: bool,
    threshold: u32,
    enable_by_interval: bool,
    interval_minutes: u32,
    last_reduct: i64,
) -> (due: bool)
    ensures
        due == autoclean_due(
            now,
            percent,
            enable_by_threshold,
            threshold,
            enable_by_interval,
            interval_minutes,
            last_reduct,
        ),
{
    let wide = now as i128 - last_reduct as i128;
    let elapsed: i64 = if wide > i64::MAX as i128 {
        i64::MAX
    } else if wide < i64::MIN as i128 {
        i64::MIN
    } else {
        wide as i64
    };
    if elapsed < AUTOREDUCT_COOLDOWN_SECS {
        return false;
    }
    let floor: u32 = if threshold >= 1 {
        threshold
    } else {
        1
    };
    if enable_by_threshold && percent >= floor {
        return true;
    }
    if enable_by_interval && interval_minutes > 0 && elapsed >= interval_minutes as i64 * 60 {
        return true;
    }
    false
}

/// Whether an automatic cleanup is due now (the clock is read once).
pub fn should_autoclean(
    percent: u32,
    enable_by_threshold: bool,
    threshold: u32,
    enable_by_interval: bool,
    interval_minutes: u32,
    last_reduct: i64,
) -> (due: bool)
    ensures
        exists|now: i64|
            due == autoclean_due(
                now,
                percent,
                enable_by_threshold,
                threshold,
                enable_by_interval,
                interval_minutes,
                last_reduct,
            ),
{
    let now = unix_now();
    should_autoclean_at(
        now,
        percent,
        enable_by_threshold,
        threshold,
        enable_by_interval,
        interval_minutes,
        last_reduct,
    )
}

/// Nothing is cleaned automatically within 30 s of the last cleanup, whatever
/// the usage and settings.
pub proof fn no_autoclean_during_cooldown(
    now: i64,
    percent: u32,
    enable_by_threshold: bool,
    threshold: u32,
    enable_by_interval: bool,
    interval_minutes: u32,
    last_reduct: i64,
)
    requires
        last_reduct as int <= now as int,
        (now as int) < last_reduct + AUTOREDUCT_COOLDOWN_SECS,
    ensures
        !autoclean_due(
            now,
            percent,
            enable_by_threshold,
            threshold,
            enable_by_interval,
            interval_minutes,
            last_reduct,
        ),
{
}

/// A stored zero threshold or interval never makes a cleanup due by itself:
/// with usage `0` the threshold mode is never met, and a zero interval never
/// elapses.
pub proof fn zero_settings_do_not_trigger(now: i64, threshold: u32, last_reduct: i64)
    ensures
        !autoclean_due(now, 0, true, threshold, false, 0, last_reduct),
        !autoclean_due(now, 0, false, threshold, true, 0, last_reduct),
{
}

/// When an automatic cleanup is due, in plain arithmetic: at least 30 seconds
/// have passed since the last one, and either usage reached the threshold
/// (taken as at least 1) with the threshold mode on, or the interval mode is on
/// with a non-zero interval that has fully elapsed. The two modes are
/// independent: either one alone makes a cleanup due.
pub proof fn autoclean_due_exactly(
    now: i64,
    percent: u32,
    enable_by_threshold: bool,
    threshold: u32,
    enable_by_interval: bool,
    interval_minutes: u32,
    last_reduct: i64,
)
    ensures
        autoclean_due(
            now,
            percent,
            enable_by_threshold,
            threshold,
            enable_by_interval,
            interval_minutes,
            last_reduct,
        ) <==> (now - last_reduct >= 30 && ((enable_by_threshold && percent >= threshold
            && percent >= 1) || (enable_by_interval && interval_minutes > 0 && now - last_reduct
            >= interval_minutes * 60))),
{
}

/// The interval mode works whatever the threshold mode says: once the cooldown
/// and a non-zero interval have elapsed, a cleanup is due, with the threshold
/// mode on or off and whatever the usage and threshold; so switching the
/// threshold mode on never turns a due cleanup into one that is not due.
pub proof fn interval_mode_ignores_threshold_mode(
    now: i64,
    percent: u32,
    enable_by_threshold: bool,
    threshold: u32,
    interval_minutes: u32,
    last_reduct: i64,
)
    ensures
        (now - last_reduct >= 30 && interval_minutes > 0 && now - last_reduct >= interval_minutes
            * 60) ==> autoclean_due(
            now,
            percent,
            enable_by_threshold,
            threshold,
            true,
            interval_minutes,
            last_reduct,
        ),
        autoclean_due(now, percent, false, threshold, true, interval_minutes, last_reduct)
            ==> autoclean_due(now, percent, true, threshold, true, interval_minutes, last_reduct),
{
}

// ---------------------------------------------------------------------------
// Cleanup requests
// ---------------------------------------------------------------------------

/// A cleanup request from the frontend, read.
#[derive(Debug, Clone)]
pub struct CleanRequest {
    /// The mask to clean.
    pub mask: u32,
    /// The cleanup was started by the user in the window.
    pub is_manual: bool,
    /// The cleanup was started without the user looking at the window (the
    /// loop, the hotkey or the command line), so the freezing regions may be
    /// left out.
    pub is_autoclean: bool,
    /// Where the request came from (`manual` when not said).
    pub source: String,
}

/// The request for `mask` (the configured `default_mask` when absent) from
/// `source`.
pub fn clean_request(mask: Option<u32>, source: Option<String>, default_mask: u32) -> (r:
    CleanRequest)
    ensures
        r.mask == match mask {
            Some(m) => m,
            None => default_mask,
        },
        r.is_manual == (source matches Some(s) && s@ == "manual"@),
        r.is_autoclean == (source matches Some(s) && (s@ == "auto"@ || s@ == "hotkey"@ || s@
            == "cmdline"@)),
        r.source@ == match source {
            Some(s) => s@,
            None => "manual"@,
        },
{
    let m = match mask {
        Some(m) => m,
        None => default_mask,
    };
    match source {
        Some(s) => {
            let is_manual = str_is(s.as_str(), "manual");
            let is_autoclean = str_is(s.as_str(), "auto") || str_is(s.as_str(), "hotkey")
                || str_is(s.as_str(), "cmdline");
            CleanRequest { mask: m, is_manual, is_autoclean, source: s }
        },
        None => CleanRequest {
            mask: m,
            is_manual: false,
            is_autoclean: false,
            source: String::from_str("manual"),
        },
    }
}

/// Whether a request relaunches the whole app elevated (through the UAC
/// `runas` verb, with `-takeover`) instead of cleaning here: a manual cleanup
/// while not elevated. When the relaunch is refused the cleanup runs here
/// with what privileges there are.
pub fn relaunches_elevated(request: &CleanRequest, elevated: bool) -> (r: bool)
    ensures
        r == (request.is_manual && !elevated),
{
    request.is_manual && !elevated
}

// ---------------------------------------------------------------------------
// Autostart toggle
// ---------------------------------------------------------------------------

/// What toggling autostart does.
#[derive(Debug, Clone, Copy)]
pub enum AutostartStep {
    /// Create the task here (elevated already).
    Install,
    /// Remove the task here (elevated already).
    Remove,
    /// Relaunch elevated with this argument to do it (the one UAC prompt).
    RequestElevation(&'static str),
}

/// The step for turning autostart `enabled` on or off, `elevated` or not.
pub fn autostart_step(enabled: bool, elevated: bool) -> (s: AutostartStep)
    ensures
        s == if enabled {
            if elevated {
                AutostartStep::Install
            } else {
                AutostartStep::RequestElevation(crate::cmdline::ENSURE_AUTOSTART_ARG)
            }
        } else {
            if elevated {
                AutostartStep::Remove
            } else {
                AutostartStep::RequestElevation(crate::cmdline::DISABLE_AUTOSTART_ARG)
            }
        },
{
    if enabled {
        if elevated {
            AutostartStep::Install
        } else {
            AutostartStep::RequestElevation(crate::cmdline::ENSURE_AUTOSTART_ARG)
        }
    } else {
        if elevated {
            AutostartStep::Remove
        } else {
            AutostartStep::RequestElevation(crate::cmdline::DISABLE_AUTOSTART_ARG)
        }
    }
}

/// The reply to the frontend after `step` was carried out with `outcome` (for
/// an elevation request, `Ok` means the elevated helper was launched).
pub fn autostart_reply(step: AutostartStep, outcome: Result<(), String>) -> (r: Result<
    String,
    String,
>)
    ensures
        match (step, outcome) {
            (AutostartStep::Install, Ok(())) => r matches Ok(m) && m@ == "installed"@,
            (AutostartStep::Remove, Ok(())) => r matches Ok(m) && m@ == "removed"@,
            (AutostartStep::RequestElevation(_), Ok(())) => r matches Ok(m) && m@
                == "elevation_requested"@,
            (AutostartStep::RequestElevation(_), Err(_)) => r matches Err(m) && m@
                == "无法请求管理员权限(UAC 被取消)"@,
            (_, Err(e)) => r matches Err(m) && m@ == e@,
        },
{
    match (step, outcome) {
        (AutostartStep::Install, Ok(())) => Ok(String::from_str("installed")),
        (AutostartStep::Remove, Ok(())) => Ok(String::from_str("removed")),
        (AutostartStep::RequestElevation(_), Ok(())) => Ok(String::from_str("elevation_requested")),
        (AutostartStep::RequestElevation(_), Err(_)) => Err(
            String::from_str("无法请求管理员权限(UAC 被取消)"),
        ),
        (_, Err(e)) => Err(e),
    }
}

// ---------------------------------------------------------------------------
// Tray icon colours
// ---------------------------------------------------------------------------

/// The background colour of the tray icon at usage `percent`: the danger
/// colour from the danger level, the warning colour from the warning level
/// (when backgrounds change), the normal background otherwise.
pub open spec fn tray_background(percent: u32, c: Config) -> u32 {
    if percent >= c.tray_level_danger {
        c.tray_color_danger
    } else if percent >= c.tray_level_warning && c.tray_change_bg {
        c.tray_color_warning
    } else {
        c.tray_color_bg
    }
}

/// The text colour of the tray icon at usage `percent`: the text colour when
/// backgrounds change, otherwise the level colour.
pub open spec fn tray_foreground(percent: u32, c: Config) -> u32 {
    if c.tray_change_bg {
        c.tray_color_text
    } else if percent >= c.tray_level_danger {
        c.tray_color_danger
    } else if percent >= c.tray_level_warning {
        c.tray_color_warning
    } else {
        c.tray_color_text
    }
}

/// The look of the tray icon at usage `percent` with the settings of
/// `config`.
pub fn tray_style(percent: u32, config: &Config) -> (s: TrayIconStyle)
    ensures
        s.bg@ == unpacked(tray_background(percent, *config)),
        s.fg@ == unpacked(tray_foreground(percent, *config)),
        s.transparent == config.tray_use_transparency,
        s.border == config.tray_show_border,
        s.round == config.tray_round_corners,
{
    let danger = config.tray_level_danger;
    let warning = config.tray_level_warning;
    let bg = if percent >= danger {
        unpack_color(config.tray_color_danger)
    } else if percent >= warning {
        if config.tray_change_bg {
            unpack_color(config.tray_color_warning)
        } else {
            unpack_color(config.tray_color_bg)
        }
    } else {
        unpack_color(config.tray_color_bg)
    };
    let fg = if config.tray_change_bg {
        unpack_color(config.tray_color_text)
    } else if percent >= danger {
        unpack_color(config.tray_color_danger)
    } else if percent >= warning {
        unpack_color(config.tray_color_warning)
    } else {
        unpack_color(config.tray_color_text)
    };
    TrayIconStyle {
        bg,
        fg,
        transparent: config.tray_use_transparency,
        border: config.tray_show_border,
        round: config.tray_round_corners,
    }
}

/// The colours of the tray icon by usage level: the danger colour fills the
/// background from the danger level on; below both levels the normal
/// background is kept; with changing backgrounds the warning colour fills it
/// between the two levels and the digits are always in the text colour, at
/// every usage, so they stay readable on every background; without changing
/// backgrounds the background never turns to the warning colour and the digits
/// take the level's colour instead.
pub proof fn tray_colours_by_level(percent: u32, c: Config)
    ensures
        c.tray_change_bg ==> tray_foreground(percent, c) == c.tray_color_text,
        percent >= c.tray_level_danger ==> tray_background(percent, c) == c.tray_color_danger,
        (percent < c.tray_level_warning && percent < c.tray_level_danger) ==> tray_background(
            percent,
            c,
        ) == c.tray_color_bg,
        (c.tray_change_bg && c.tray_level_warning <= percent && percent < c.tray_level_danger)
            ==> tray_background(percent, c) == c.tray_color_warning,
        (!c.tray_change_bg && percent < c.tray_level_danger) ==> tray_background(percent, c)
            == c.tray_color_bg,
        (!c.tray_change_bg && percent >= c.tray_level_danger) ==> tray_foreground(percent, c)
            == c.tray_color_danger,
        (!c.tray_change_bg && c.tray_level_warning <= percent && percent < c.tray_level_danger)
            ==> tray_foreground(percent, c) == c.tray_color_warning,
        (!c.tray_change_bg && percent < c.tray_level_warning && percent < c.tray_level_danger)
            ==> tray_foreground(percent, c) == c.tray_color_text,
{
}

// ---------------------------------------------------------------------------
// Hotkey and launch
// ---------------------------------------------------------------------------

/// The modifiers and virtual key to arm from `config`, or `None` when the
/// hotkey is off (the previous one is released either way).
pub fn armed_hotkey(config: &Config) -> (h: Option<(u32, u32)>)
    ensures
        !config.hotkey_clean_enable ==> h is None,
        config.hotkey_clean_enable ==> h == Some(
            (
                (config.hotkey_clean / 0x10000) as u32,
                (config.hotkey_clean % 0x10000) as u32,
            ),
        ),
{
    if !config.hotkey_clean_enable {
        return None;
    }
    Some(crate::hotkey::decode(config.hotkey_clean))
}

/// Whether `args` (the process arguments) hold exactly `flag`.
pub open spec fn has_flag(args: Seq<String>, flag: Seq<char>) -> bool {
    exists|i: int| 0 <= i < args.len() && #[trigger] args[i]@ == flag
}

fn holds_flag(args: &Vec<String>, flag: &str) -> (r: bool)
    ensures
        r == has_flag(args@, flag@),
{
    let mut i: usize = 0;
    while i < args.len()
        invariant
            i <= args.len(),
            forall|j: int| 0 <= j < i ==> args@[j]@ != flag@,
        decreases args.len() - i,
    {
        if str_is(args[i].as_str(), flag) {
            assert(args@[i as int]@ == flag@);
            return true;
        }
        i += 1;
    }
    false
}

/// How the process was launched.
#[derive(Debug, Clone, Copy, PartialEq, Eq, Structural)]
pub struct LaunchFlags {
    /// Launched by the logon task (`-startup`): start hidden in the tray, and
    /// stay silent when another instance already runs.
    pub startup: bool,
    /// Launched as the elevated replacement of a running instance
    /// (`-takeover`): wait for it to exit instead of reporting a duplicate.
    pub takeover: bool,
}

/// The launch flags among `args`.
pub fn launch_flags(args: &Vec<String>) -> (f: LaunchFlags)
    ensures
        f.startup == has_flag(args@, crate::autostart::STARTUP_ARG@),
        f.takeover == has_flag(args@, crate::single_instance::TAKEOVER_ARG@),
{
    LaunchFlags {
        startup: holds_flag(args, crate::autostart::STARTUP_ARG),
        takeover: holds_flag(args, crate::single_instance::TAKEOVER_ARG),
    }
}

/// Whether the window stays hidden at startup: the user asked to start
/// minimised to the tray, or the logon task launched the app.
pub fn starts_hidden(start_minimized: bool, flags: LaunchFlags) -> (r: bool)
    ensures
        r == (start_minimized || flags.startup),
{
    start_minimized || flags.startup
}

/// Whether a duplicate launch surfaces the existing window: a manual launch
/// does, a logon launch stays silent.
pub fn duplicate_focuses_existing(flags: LaunchFlags) -> (r: bool)
    ensures
        r == !flags.startup,
{
    !flags.startup
}

} // verus!
