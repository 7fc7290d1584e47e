//! Application configuration: its fields, defaults and the validation that
//! every loaded or saved value passes through.
//!
//! When a `memreduct.json` marker exists in the executable directory the app
//! runs in *portable* mode and stores its config there; otherwise config lives
//! in `%APPDATA%\Henry++\Mem Reduct`.

use vstd::prelude::*;
use crate::memory::mask;
use crate::memory::mask::views_of;
use crate::text::{chars_of, push_char, push_str, str_is};

verus! {

/// Location where config is persisted.
#[derive(Debug, Clone, Copy, PartialEq, Eq, Structural)]
pub enum ConfigLocation {
    Portable,
    AppData,
}

impl ConfigLocation {
    /// The name the UI shows for this location.
    pub fn name(&self) -> (s: &'static str)
        ensures
            s@ == (match *self {
                ConfigLocation::Portable => "portable"@,
                ConfigLocation::AppData => "appdata"@,
            }),
    {
        match self {
            ConfigLocation::Portable => "portable",
            ConfigLocation::AppData => "appdata",
        }
    }
}

/// Every user setting.
#[derive(Debug, Clone)]
pub struct Config {
    // General
    pub start_minimized: bool,
    pub show_reduct_confirmation: bool,
    /// Theme: "light" | "dark" | "system".
    pub theme: String,
    /// Accent color preset key (e.g. "green", "purple", "blue", ...).
    pub accent_color: String,
    /// Legacy dark-theme flag (kept for migration from older configs).
    pub use_dark_theme: bool,
    pub language: String,
    // Memory / auto-clean
    pub autoreduct_enable: bool,
    pub autoreduct_value: u32,
    pub autoreduct_interval_enable: bool,
    pub autoreduct_interval_value: u32,
    pub allow_standby_list_cleanup: bool,
    pub reduct_mask: u32,
    // Hotkey
    pub hotkey_clean_enable: bool,
    pub hotkey_clean: u32,
    // Tray appearance
    pub tray_use_transparency: bool,
    pub tray_show_border: bool,
    pub tray_round_corners: bool,
    pub tray_change_bg: bool,
    pub tray_color_text: u32,
    pub tray_color_bg: u32,
    pub tray_color_warning: u32,
    pub tray_color_danger: u32,
    // Tray behaviour
    /// Double-click action.
    pub tray_action_dc: u32,
    /// Middle-click action.
    pub tray_action_mc: u32,
    pub tray_level_warning: u32,
    pub tray_level_danger: u32,
    /// Whether the one-off "still running in the tray" hint has been shown.
    pub tray_tip_shown: bool,
    // Notifications
    pub balloon_clean_results: bool,
    // Statistics
    pub statistic_last_reduct: i64,
}

/// Tray click action: show the main window.
pub const TRAY_ACTION_SHOW: u32 = 0;

/// Tray click action: clean memory.
pub const TRAY_ACTION_CLEAN: u32 = 1;

/// Default global clean hotkey: Ctrl + F1, encoded as `(mods << 16) | vk`
/// with `mods = 0x0002` and `vk = 0x71`.
pub const DEFAULT_HOTKEY_CLEAN: u32 = 0x0002_0071;

// ---------------------------------------------------------------------------
// Accepted values
// ---------------------------------------------------------------------------

/// Theme values accepted by the UI.
pub open spec fn theme_names() -> Seq<Seq<char>> {
    seq!["light"@, "dark"@, "system"@]
}

/// Accent preset keys, in sync with the frontend's accent list.
pub open spec fn accent_keys() -> Seq<Seq<char>> {
    seq!["green"@, "purple"@, "blue"@, "orange"@, "red"@, "cyan"@, "pink"@]
}

/// Locales that ship a translation bundle, in sync with the frontend's i18n
/// index.
pub open spec fn language_codes() -> Seq<Seq<char>> {
    seq![
        "zh-CN"@,
        "zh-TW"@,
        "en-US"@,
        "ja-JP"@,
        "ko-KR"@,
        "de-DE"@,
        "fr-FR"@,
        "es-ES"@,
        "pt-BR"@,
        "it-IT"@,
        "ru-RU"@,
        "pl-PL"@,
        "tr-TR"@,
        "vi-VN"@,
        "th-TH"@,
        "id-ID"@,
    ]
}

/// Theme values accepted by the UI (`light` | `dark` | `system`).
pub fn themes() -> (v: Vec<&'static str>)
    ensures
        views_of(v@) == theme_names(),
{
    let v = vec!["light", "dark", "system"];
    assert(views_of(v@) =~= theme_names());
    v
}

/// Accent preset keys.
pub fn accent_key_list() -> (v: Vec<&'static str>)
    ensures
        views_of(v@) == accent_keys(),
{
    let v = vec!["green", "purple", "blue", "orange", "red", "cyan", "pink"];
    assert(views_of(v@) =~= accent_keys());
    v
}

/// Locales that ship a translation bundle.
pub fn languages() -> (v: Vec<&'static str>)
    ensures
        views_of(v@) == language_codes(),
{
    let v = vec![
        "zh-CN",
        "zh-TW",
        "en-US",
        "ja-JP",
        "ko-KR",
        "de-DE",
        "fr-FR",
        "es-ES",
        "pt-BR",
        "it-IT",
        "ru-RU",
        "pl-PL",
        "tr-TR",
        "vi-VN",
        "th-TH",
        "id-ID",
    ];
    assert(views_of(v@) =~= language_codes());
    v
}

/// Whether `s` is one of `names`.
fn is_one_of(s: &str, names: &Vec<&'static str>) -> (r: bool)
    ensures
        r == views_of(names@).contains(s@),
{
    let mut i: usize = 0;
    while i < names.len()
        invariant
            i <= names.len(),
            forall|j: int| 0 <= j < i ==> names@[j]@ != s@,
        decreases names.len() - i,
    {
        if str_is(s, names[i]) {
            assert(views_of(names@)[i as int] == s@);
            return true;
        }
        i += 1;
    }
    assert forall|j: int| 0 <= j < views_of(names@).len() implies views_of(names@)[j] != s@ by {
        assert(views_of(names@)[j] == names@[j]@);
    }
    false
}

// ---------------------------------------------------------------------------
// Sanitising
// ---------------------------------------------------------------------------

pub open spec fn clamp(v: u32, lo: u32, hi: u32) -> u32 {
    if v < lo {
        lo
    } else if v > hi {
        hi
    } else {
        v
    }
}

pub open spec fn known_or(s: Seq<char>, known: Seq<Seq<char>>, fallback: Seq<char>) -> Seq<char> {
    if known.contains(s) {
        s
    } else {
        fallback
    }
}

/// The danger level after sanitising.
pub open spec fn danger_after(danger: u32) -> u32 {
    clamp(danger, 1, 100)
}

/// The warning level after sanitising: at most 99 and below the danger level.
pub open spec fn warning_after(warning: u32, danger: u32) -> u32 {
    let w = if warning < 99 {
        warning
    } else {
        99
    };
    let d = danger_after(danger);
    if w >= d {
        (d - 1) as u32
    } else {
        w
    }
}

pub open spec fn action_after(action: u32) -> u32 {
    if action > TRAY_ACTION_CLEAN {
        TRAY_ACTION_SHOW
    } else {
        action
    }
}

pub open spec fn hotkey_after(hotkey: u32) -> u32 {
    if hotkey & 0xFFFF == 0 {
        DEFAULT_HOTKEY_CLEAN
    } else {
        hotkey
    }
}

/// `new` is what `Config::sanitize` makes of `old`.
pub open spec fn sanitized_from(old: Config, new: Config) -> bool {
    &&& new.theme@ == known_or(old.theme@, theme_names(), "system"@)
    &&& new.accent_color@ == known_or(old.accent_color@, accent_keys(), "green"@)
    &&& new.language@ == known_or(old.language@, language_codes(), "zh-CN"@)
    &&& new.reduct_mask == old.reduct_mask & mask::ALL
    &&& new.autoreduct_value == clamp(old.autoreduct_value, 1, 100)
    &&& new.autoreduct_interval_value == clamp(old.autoreduct_interval_value, 1, 1440)
    &&& new.tray_level_danger == danger_after(old.tray_level_danger)
    &&& new.tray_level_warning == warning_after(old.tray_level_warning, old.tray_level_danger)
    &&& new.tray_action_dc == action_after(old.tray_action_dc)
    &&& new.tray_action_mc == action_after(old.tray_action_mc)
    &&& new.tray_color_text == old.tray_color_text & 0x00FF_FFFF
    &&& new.tray_color_bg == old.tray_color_bg & 0x00FF_FFFF
    &&& new.tray_color_warning == old.tray_color_warning & 0x00FF_FFFF
    &&& new.tray_color_danger == old.tray_color_danger & 0x00FF_FFFF
    &&& new.hotkey_clean == hotkey_after(old.hotkey_clean)
    &&& new.statistic_last_reduct == (if old.statistic_last_reduct < 0 {
        0
    } else {
        old.statistic_last_reduct
    })
    &&& new.start_minimized == old.start_minimized
    &&& new.show_reduct_confirmation == old.show_reduct_confirmation
    &&& new.use_dark_theme == old.use_dark_theme
    &&& new.autoreduct_enable == old.autoreduct_enable
    &&& new.autoreduct_interval_enable == old.autoreduct_interval_enable
    &&& new.allow_standby_list_cleanup == old.allow_standby_list_cleanup
    &&& new.hotkey_clean_enable == old.hotkey_clean_enable
    &&& new.tray_use_transparency == old.tray_use_transparency
    &&& new.tray_show_border == old.tray_show_border
    &&& new.tray_round_corners == old.tray_round_corners
    &&& new.tray_change_bg == old.tray_change_bg
    &&& new.tray_tip_shown == old.tray_tip_shown
    &&& new.balloon_clean_results == old.balloon_clean_results
}

/// Every field holds a value the rest of the app can rely on.
pub open spec fn is_sane(c: Config) -> bool {
    &&& theme_names().contains(c.theme@)
    &&& accent_keys().contains(c.accent_color@)
    &&& language_codes().contains(c.language@)
    &&& c.reduct_mask & mask::ALL == c.reduct_mask
    &&& 1 <= c.autoreduct_value <= 100
    &&& 1 <= c.autoreduct_interval_value <= 1440
    &&& 1 <= c.tray_level_danger <= 100
    &&& c.tray_level_warning < c.tray_level_danger
    &&& c.tray_action_dc <= TRAY_ACTION_CLEAN
    &&& c.tray_action_mc <= TRAY_ACTION_CLEAN
    &&& c.tray_color_text & 0x00FF_FFFF == c.tray_color_text
    &&& c.tray_color_bg & 0x00FF_FFFF == c.tray_color_bg
    &&& c.tray_color_warning & 0x00FF_FFFF == c.tray_color_warning
    &&& c.tray_color_danger & 0x00FF_FFFF == c.tray_color_danger
    &&& c.hotkey_clean & 0xFFFF != 0
    &&& c.statistic_last_reduct >= 0
}

/// The two configs hold the same settings (text compared by content).
pub open spec fn same_settings(a: Config, b: Config) -> bool {
    &&& a.theme@ == b.theme@
    &&& a.accent_color@ == b.accent_color@
    &&& a.language@ == b.language@
    &&& a.start_minimized == b.start_minimized
    &&& a.show_reduct_confirmation == b.show_reduct_confirmation
    &&& a.use_dark_theme == b.use_dark_theme
    &&& a.autoreduct_enable == b.autoreduct_enable
    &&& a.autoreduct_value == b.autoreduct_value
    &&& a.autoreduct_interval_enable == b.autoreduct_interval_enable
    &&& a.autoreduct_interval_value == b.autoreduct_interval_value
    &&& a.allow_standby_list_cleanup == b.allow_standby_list_cleanup
    &&& a.reduct_mask == b.reduct_mask
    &&& a.hotkey_clean_enable == b.hotkey_clean_enable
    &&& a.hotkey_clean == b.hotkey_clean
    &&& a.tray_use_transparency == b.tray_use_transparency
    &&& a.tray_show_border == b.tray_show_border
    &&& a.tray_round_corners == b.tray_round_corners
    &&& a.tray_change_bg == b.tray_change_bg
    &&& a.tray_color_text == b.tray_color_text
    &&& a.tray_color_bg == b.tray_color_bg
    &&& a.tray_color_warning == b.tray_color_warning
    &&& a.tray_color_danger == b.tray_color_danger
    &&& a.tray_action_dc == b.tray_action_dc
    &&& a.tray_action_mc == b.tray_action_mc
    &&& a.tray_level_warning == b.tray_level_warning
    &&& a.tray_level_danger == b.tray_level_danger
    &&& a.tray_tip_shown == b.tray_tip_shown
    &&& a.balloon_clean_results == b.balloon_clean_results
    &&& a.statistic_last_reduct == b.statistic_last_reduct
}

impl Config {
    /// Clamp / validate every field to a value the rest of the app can rely on.
    ///
    /// The config file is user-editable (and older builds wrote values the
    /// current UI can no longer produce), so nothing downstream may assume the
    /// stored numbers are sane. Without this, for example, an
    /// `autoreduct_interval_value` of `0` makes the interval condition
    /// (`elapsed >= 0`) always true and the app cleans every 30 s forever.
    pub fn sanitize(&mut self)
        ensures
            sanitized_from(*old(self), *final(self)),
            is_sane(*final(self)),
    {
        let ghost before = *self;
        self.sanitize_choices();
        self.sanitize_numbers();
        proof {
            lemma_sanitized_is_sane(before, *self);
        }
    }

    /// The three named choices: unknown values fall back to the defaults.
    fn sanitize_choices(&mut self)
        ensures
            final(self).theme@ == known_or(old(self).theme@, theme_names(), "system"@),
            final(self).accent_color@ == known_or(
                old(self).accent_color@,
                accent_keys(),
                "green"@,
            ),
            final(self).language@ == known_or(old(self).language@, language_codes(), "zh-CN"@),
            *final(self) == (Config {
                theme: final(self).theme,
                accent_color: final(self).accent_color,
                language: final(self).language,
                ..*old(self)
            }),
    {
        let theme = known_or_default(&self.theme, &themes(), "system");
        let accent = known_or_default(&self.accent_color, &accent_key_list(), "green");
        let language = known_or_default(&self.language, &languages(), "zh-CN");
        self.theme = theme;
        self.accent_color = accent;
        self.language = language;
    }

    /// The numeric settings: masks, ranges, click actions, colours, hotkey and
    /// timestamp.
    fn sanitize_numbers(&mut self)
        ensures
            final(self).reduct_mask == old(self).reduct_mask & mask::ALL,
            final(self).autoreduct_value == clamp(old(self).autoreduct_value, 1, 100),
            final(self).autoreduct_interval_value == clamp(
                old(self).autoreduct_interval_value,
                1,
                1440,
            ),
            final(self).tray_level_danger == danger_after(old(self).tray_level_danger),
            final(self).tray_level_warning == warning_after(
                old(self).tray_level_warning,
                old(self).tray_level_danger,
            ),
            final(self).tray_action_dc == action_after(old(self).tray_action_dc),
            final(self).tray_action_mc == action_after(old(self).tray_action_mc),
            final(self).tray_color_text == old(self).tray_color_text & 0x00FF_FFFF,
            final(self).tray_color_bg == old(self).tray_color_bg & 0x00FF_FFFF,
            final(self).tray_color_warning == old(self).tray_color_warning & 0x00FF_FFFF,
            final(self).tray_color_danger == old(self).tray_color_danger & 0x00FF_FFFF,
            final(self).hotkey_clean == hotkey_after(old(self).hotkey_clean),
            final(self).statistic_last_reduct == (if old(self).statistic_last_reduct < 0 {
                0
            } else {
                old(self).statistic_last_reduct
            }),
            *final(self) == (Config {
                reduct_mask: final(self).reduct_mask,
                autoreduct_value: final(self).autoreduct_value,
                autoreduct_interval_value: final(self).autoreduct_interval_value,
                tray_level_danger: final(self).tray_level_danger,
                tray_level_warning: final(self).tray_level_warning,
                tray_action_dc: final(self).tray_action_dc,
                tray_action_mc: final(self).tray_action_mc,
                tray_color_text: final(self).tray_color_text,
                tray_color_bg: final(self).tray_color_bg,
                tray_color_warning: final(self).tray_color_warning,
                tray_color_danger: final(self).tray_color_danger,
                hotkey_clean: final(self).hotkey_clean,
                statistic_last_reduct: final(self).statistic_last_reduct,
                ..*old(self)
            }),
    {
        // Only the 8 documented region bits are meaningful.
        let reduct_mask = self.reduct_mask & mask::ALL;
        // A threshold of 0 would clean on every tick; an interval of 0 would
        // satisfy `elapsed >= 0`. Both are clamped to the UI's own ranges.
        let autoreduct_value = clamp_u32(self.autoreduct_value, 1, 100);
        let autoreduct_interval_value = clamp_u32(self.autoreduct_interval_value, 1, 1440);
        // Tray thresholds must stay ordered: the icon picks the danger colour
        // first, so `warning >= danger` would silently hide the warning state.
        let (tray_level_warning, tray_level_danger) = ordered_levels(
            self.tray_level_warning,
            self.tray_level_danger,
        );
        // Only the two documented click actions exist.
        let tray_action_dc = known_action(self.tray_action_dc);
        let tray_action_mc = known_action(self.tray_action_mc);
        // Colours are stored as 0x00RRGGBB.
        let tray_color_text = self.tray_color_text & 0x00FF_FFFF;
        let tray_color_bg = self.tray_color_bg & 0x00FF_FFFF;
        let tray_color_warning = self.tray_color_warning & 0x00FF_FFFF;
        let tray_color_danger = self.tray_color_danger & 0x00FF_FFFF;
        // A hotkey with virtual key 0 can never be registered; fall back to the
        // documented default (Ctrl+F1).
        let hotkey_clean = if self.hotkey_clean & 0xFFFF == 0 {
            DEFAULT_HOTKEY_CLEAN
        } else {
            self.hotkey_clean
        };
        let statistic_last_reduct = if self.statistic_last_reduct < 0 {
            0
        } else {
            self.statistic_last_reduct
        };
        self.reduct_mask = reduct_mask;
        self.autoreduct_value = autoreduct_value;
        self.autoreduct_interval_value = autoreduct_interval_value;
        self.tray_level_warning = tray_level_warning;
        self.tray_level_danger = tray_level_danger;
        self.tray_action_dc = tray_action_dc;
        self.tray_action_mc = tray_action_mc;
        self.tray_color_text = tray_color_text;
        self.tray_color_bg = tray_color_bg;
        self.tray_color_warning = tray_color_warning;
        self.tray_color_danger = tray_color_danger;
        self.hotkey_clean = hotkey_clean;
        self.statistic_last_reduct = statistic_last_reduct;
    }
}

/// `s` when it is one of `names`, else `fallback`.
fn known_or_default(s: &String, names: &Vec<&'static str>, fallback: &str) -> (r: String)
    ensures
        r@ == known_or(s@, views_of(names@), fallback@),
{
    if is_one_of(s.as_str(), names) {
        s.clone()
    } else {
        String::from_str(fallback)
    }
}

fn ordered_levels(warning: u32, danger: u32) -> (r: (u32, u32))
    ensures
        r.0 == warning_after(warning, danger),
        r.1 == danger_after(danger),
{
    let mut w = if warning > 99 {
        99
    } else {
        warning
    };
    let d = clamp_u32(danger, 1, 100);
    if w >= d {
        w = d - 1;
    }
    (w, d)
}

fn known_action(action: u32) -> (r: u32)
    ensures
        r == action_after(action),
{
    if action > TRAY_ACTION_CLEAN {
        TRAY_ACTION_SHOW
    } else {
        action
    }
}

fn clamp_u32(v: u32, lo: u32, hi: u32) -> (r: u32)
    requires
        lo <= hi,
    ensures
        r == clamp(v, lo, hi),
{
    if v < lo {
        lo
    } else if v > hi {
        hi
    } else {
        v
    }
}

proof fn lemma_masked_is_stable(v: u32, m: u32)
    ensures
        (v & m) & m == v & m,
{
    assert((v & m) & m == v & m) by (bit_vector);
}

/// The settings of a fresh install.
pub open spec fn is_default_config(c: Config) -> bool {
    &&& c.theme@ == "system"@
    &&& c.accent_color@ == "green"@
    &&& c.language@ == "zh-CN"@
    &&& !c.start_minimized
    &&& c.show_reduct_confirmation
    &&& !c.use_dark_theme
    &&& !c.autoreduct_enable
    &&& c.autoreduct_value == 90
    &&& !c.autoreduct_interval_enable
    &&& c.autoreduct_interval_value == 30
    &&& !c.allow_standby_list_cleanup
    &&& c.reduct_mask == mask::DEFAULT
    &&& !c.hotkey_clean_enable
    &&& c.hotkey_clean == DEFAULT_HOTKEY_CLEAN
    &&& !c.tray_use_transparency
    &&& !c.tray_show_border
    &&& !c.tray_round_corners
    &&& c.tray_change_bg
    &&& c.tray_color_text == 0x00FF_FFFF
    &&& c.tray_color_bg == 0x0000_8040
    &&& c.tray_color_warning == 0x00FF_8040
    &&& c.tray_color_danger == 0x00EC_1C24
    &&& c.tray_action_dc == TRAY_ACTION_SHOW
    &&& c.tray_action_mc == TRAY_ACTION_CLEAN
    &&& c.tray_level_warning == 70
    &&& c.tray_level_danger == 90
    &&& !c.tray_tip_shown
    &&& c.balloon_clean_results
    &&& c.statistic_last_reduct == 0
}

impl Default for Config {
    fn default() -> (c: Self)
        ensures
            is_default_config(c),
            is_sane(c),
    {
        let c = Config {
            start_minimized: false,
            show_reduct_confirmation: true,
            theme: String::from_str("system"),
            accent_color: String::from_str("green"),
            use_dark_theme: false,
            language: String::from_str("zh-CN"),
            autoreduct_enable: false,
            autoreduct_value: 90,
            autoreduct_interval_enable: false,
            autoreduct_interval_value: 30,
            allow_standby_list_cleanup: false,
            reduct_mask: mask::DEFAULT,
            hotkey_clean_enable: false,
            hotkey_clean: DEFAULT_HOTKEY_CLEAN,
            tray_use_transparency: false,
            tray_show_border: false,
            tray_round_corners: false,
            tray_change_bg: true,
            tray_color_text: 0x00FF_FFFF,
            tray_color_bg: 0x0000_8040,
            tray_color_warning: 0x00FF_8040,
            tray_color_danger: 0x00EC_1C24,
            tray_action_dc: TRAY_ACTION_SHOW,
            tray_action_mc: TRAY_ACTION_CLEAN,
            tray_level_warning: 70,
            tray_level_danger: 90,
            tray_tip_shown: false,
            balloon_clean_results: true,
            statistic_last_reduct: 0,
        };
        proof {
            assert(theme_names()[2] == "system"@);
            assert(accent_keys()[0] == "green"@);
            assert(language_codes()[0] == "zh-CN"@);
            assert(0xE7u32 & 0xFFu32 == 0xE7u32) by (bit_vector);
            assert(0x00FF_FFFFu32 & 0x00FF_FFFFu32 == 0x00FF_FFFFu32) by (bit_vector);
            assert(0x0000_8040u32 & 0x00FF_FFFFu32 == 0x0000_8040u32) by (bit_vector);
            assert(0x00FF_8040u32 & 0x00FF_FFFFu32 == 0x00FF_8040u32) by (bit_vector);
            assert(0x00EC_1C24u32 & 0x00FF_FFFFu32 == 0x00EC_1C24u32) by (bit_vector);
            assert(0x0002_0071u32 & 0xFFFFu32 != 0) by (bit_vector);
        }
        c
    }
}

// ---------------------------------------------------------------------------
// Laws of sanitising
// ---------------------------------------------------------------------------

/// A config that is already sane passes through `sanitize` unchanged.
pub proof fn sanitize_keeps_sane_config(old: Config, new: Config)
    requires
        is_sane(old),
        sanitized_from(old, new),
    ensures
        same_settings(old, new),
{
    lemma_masked_is_stable(old.reduct_mask, mask::ALL);
}

/// Sanitising twice gives the same settings as sanitising once.
pub proof fn sanitize_is_idempotent(c0: Config, c1: Config, c2: Config)
    requires
        sanitized_from(c0, c1),
        sanitized_from(c1, c2),
    ensures
        same_settings(c1, c2),
{
    lemma_sanitized_is_sane(c0, c1);
    sanitize_keeps_sane_config(c1, c2);
}

/// Whatever went in, what comes out of `sanitize` is sane.
pub proof fn lemma_sanitized_is_sane(old: Config, new: Config)
    requires
        sanitized_from(old, new),
    ensures
        is_sane(new),
{
    reveal_strlit("system");
    reveal_strlit("green");
    reveal_strlit("zh-CN");
    assert(theme_names()[2] == "system"@);
    assert(accent_keys()[0] == "green"@);
    assert(language_codes()[0] == "zh-CN"@);
    lemma_masked_is_stable(old.reduct_mask, mask::ALL);
    lemma_masked_is_stable(old.tray_color_text, 0x00FF_FFFF);
    lemma_masked_is_stable(old.tray_color_bg, 0x00FF_FFFF);
    lemma_masked_is_stable(old.tray_color_warning, 0x00FF_FFFF);
    lemma_masked_is_stable(old.tray_color_danger, 0x00FF_FFFF);
    assert(DEFAULT_HOTKEY_CLEAN & 0xFFFF != 0) by (bit_vector);
}

// ---------------------------------------------------------------------------
// Where the config lives
// ---------------------------------------------------------------------------

/// Determine where config should live: portable when the marker file exists
/// next to the executable.
pub fn config_location(portable_marker_exists: bool) -> (l: ConfigLocation)
    ensures
        l == (if portable_marker_exists {
            ConfigLocation::Portable
        } else {
            ConfigLocation::AppData
        }),
{
    if portable_marker_exists {
        ConfigLocation::Portable
    } else {
        ConfigLocation::AppData
    }
}

/// The directory of the application under the application-data base.
pub const APPDATA_SUBDIR: &'static str = "Henry++\\Mem Reduct";

/// The base under which the application-data directory lives: `APPDATA`
/// when it is set, else the home directory `USERPROFILE`, else the current
/// directory `.`.
pub open spec fn appdata_base_spec(appdata: Option<Seq<char>>, userprofile: Option<Seq<char>>) -> Seq<
    char,
> {
    match (appdata, userprofile) {
        (Some(a), _) => a,
        (None, Some(u)) => u,
        (None, None) => "."@,
    }
}

/// The view of an optional string.
pub open spec fn opt_text(s: Option<String>) -> Option<Seq<char>> {
    match s {
        Some(t) => Some(t@),
        None => None,
    }
}

/// The base under which the application-data directory lives.
pub fn appdata_base(appdata: Option<String>, userprofile: Option<String>) -> (d: String)
    ensures
        d@ == appdata_base_spec(opt_text(appdata), opt_text(userprofile)),
{
    match appdata {
        Some(a) => a,
        None => match userprofile {
            Some(u) => u,
            None => String::from_str("."),
        },
    }
}

/// Whether `c` separates path components.
pub open spec fn is_path_separator(c: char) -> bool {
    c == '\\' || c == '/'
}

/// The relative path `rel` appended to `base` (`PathBuf::join` on Windows):
/// a `\` goes between them unless `base` is empty, already ends in a
/// separator, or is a bare drive such as `C:`.
pub open spec fn joined_path(base: Seq<char>, rel: Seq<char>) -> Seq<char> {
    if base.len() == 0 || is_path_separator(base.last()) || (base.len() == 2 && base[1] == ':'
        && (base[0] as u32) < 128) {
        base + rel
    } else {
        base + seq!['\\'] + rel
    }
}

/// `rel` (a relative path) appended to `base`.
pub fn join_path(base: &str, rel: &str) -> (p: String)
    ensures
        p@ == joined_path(base@, rel@),
{
    let b = chars_of(base);
    let n = b.len();
    let no_separator = n == 0 || b[n - 1] == '\\' || b[n - 1] == '/' || (n == 2 && b[1] == ':'
        && (b[0] as u32) < 128);
    let mut p = String::from_str(base);
    if !no_separator {
        push_char(&mut p, '\\');
    }
    push_str(&mut p, rel);
    p
}

/// The application-data directory: [`APPDATA_SUBDIR`] under the base.
pub fn appdata_dir(appdata: Option<String>, userprofile: Option<String>) -> (d: String)
    ensures
        d@ == joined_path(appdata_base_spec(opt_text(appdata), opt_text(userprofile)), APPDATA_SUBDIR@),
{
    let base = appdata_base(appdata, userprofile);
    join_path(base.as_str(), APPDATA_SUBDIR)
}

/// Directory where the config (and log) lives: the executable directory
/// `executable_dir` in portable mode, otherwise `Henry++\Mem Reduct` under
/// `APPDATA` (`appdata`), else under `USERPROFILE` (`userprofile`), else
/// under the current directory.
pub fn data_dir(
    location: ConfigLocation,
    executable_dir: String,
    appdata: Option<String>,
    userprofile: Option<String>,
) -> (d: String)
    ensures
        d@ == (match location {
            ConfigLocation::Portable => executable_dir@,
            ConfigLocation::AppData => joined_path(
                appdata_base_spec(opt_text(appdata), opt_text(userprofile)),
                APPDATA_SUBDIR@,
            ),
        }),
{
    match location {
        ConfigLocation::Portable => executable_dir,
        ConfigLocation::AppData => appdata_dir(appdata, userprofile),
    }
}

/// Whether saving `new` over `current` changes the global hotkey, so the
/// listener has to be re-armed.
pub fn hotkey_changed(current: &Config, new: &Config) -> (r: bool)
    ensures
        r == (current.hotkey_clean_enable != new.hotkey_clean_enable || current.hotkey_clean
            != new.hotkey_clean),
{
    current.hotkey_clean_enable != new.hotkey_clean_enable || current.hotkey_clean
        != new.hotkey_clean
}

/// Record that the window was hidden to the tray. Returns `true` the first
/// time only, when the one-off hint is due (and is now marked as shown).
pub fn note_hidden_to_tray(config: &mut Config) -> (first_time: bool)
    ensures
        first_time == !old(config).tray_tip_shown,
        *final(config) == (Config { tray_tip_shown: true, ..*old(config) }),
{
    if config.tray_tip_shown {
        false
    } else {
        config.tray_tip_shown = true;
        true
    }
}

// ---------------------------------------------------------------------------
// Loading and saving
// ---------------------------------------------------------------------------

impl Config {
    /// A copy of the settings.
    pub fn duplicate(&self) -> (c: Config)
        ensures
            same_settings(c, *self),
    {
        Config {
            start_minimized: self.start_minimized,
            show_reduct_confirmation: self.show_reduct_confirmation,
            theme: String::from_str(self.theme.as_str()),
            accent_color: String::from_str(self.accent_color.as_str()),
            use_dark_theme: self.use_dark_theme,
            language: String::from_str(self.language.as_str()),
            autoreduct_enable: self.autoreduct_enable,
            autoreduct_value: self.autoreduct_value,
            autoreduct_interval_enable: self.autoreduct_interval_enable,
            autoreduct_interval_value: self.autoreduct_interval_value,
            allow_standby_list_cleanup: self.allow_standby_list_cleanup,
            reduct_mask: self.reduct_mask,
            hotkey_clean_enable: self.hotkey_clean_enable,
            hotkey_clean: self.hotkey_clean,
            tray_use_transparency: self.tray_use_transparency,
            tray_show_border: self.tray_show_border,
            tray_round_corners: self.tray_round_corners,
            tray_change_bg: self.tray_change_bg,
            tray_color_text: self.tray_color_text,
            tray_color_bg: self.tray_color_bg,
            tray_color_warning: self.tray_color_warning,
            tray_color_danger: self.tray_color_danger,
            tray_action_dc: self.tray_action_dc,
            tray_action_mc: self.tray_action_mc,
            tray_level_warning: self.tray_level_warning,
            tray_level_danger: self.tray_level_danger,
            tray_tip_shown: self.tray_tip_shown,
            balloon_clean_results: self.balloon_clean_results,
            statistic_last_reduct: self.statistic_last_reduct,
        }
    }
}

/// The config a start works with, given what was read from disk: the parsed
/// file, validated (the file is user-editable and older builds persisted
/// ranges the current UI cannot produce), or the defaults when the file is
/// missing or malformed (a malformed one is moved aside by the caller).
pub fn loaded_config(parsed: Option<Config>) -> (c: Config)
    ensures
        is_sane(c),
        match parsed {
            Some(p) => sanitized_from(p, c),
            None => is_default_config(c),
        },
{
    match parsed {
        Some(mut c) => {
            c.sanitize();
            c
        },
        None => Config::default(),
    }
}

/// The config as written to disk: validated first, so that a malformed caller
/// can never write a file the next load would have to repair.
pub fn prepared_for_save(config: &Config) -> (c: Config)
    ensures
        is_sane(c),
        exists|copy: Config| same_settings(copy, *config) && sanitized_from(copy, c),
{
    let mut c = config.duplicate();
    let ghost copy = c;
    c.sanitize();
    assert(same_settings(copy, *config) && sanitized_from(copy, c));
    c
}

} // verus!
