//! System tray: the right-click menu, what its entries and the mouse clicks
//! do, and the deferral of the single-click action.
//!
//! Single click shows the window, double-click and middle-click run the
//! configured actions.

use vstd::prelude::*;
use crate::config::{TRAY_ACTION_CLEAN, TRAY_ACTION_SHOW};
use crate::text::str_is;

pub mod menu_id;

verus! {

/// Where the "project page" menu entry points.
pub const PROJECT_URL: &'static str = "https://github.com/JackPolaris/memreduct-rs";

/// Localised tray menu labels.
///
/// The native menu cannot use the frontend's i18n bundles directly: the UI
/// pushes the translated strings and the menu is rebuilt whenever the language
/// changes. The default is Simplified Chinese, matching the launcher default.
#[derive(Debug, Clone)]
pub struct TrayMenuLabels {
    pub show: String,
    pub clean: String,
    pub settings: String,
    pub website: String,
    pub about: String,
    pub exit: String,
}

impl Default for TrayMenuLabels {
    fn default() -> (l: Self)
        ensures
            l.show@ == "显示窗口"@,
            l.clean@ == "清理内存"@,
            l.settings@ == "设置"@,
            l.website@ == "官方网站"@,
            l.about@ == "关于"@,
            l.exit@ == "退出"@,
    {
        TrayMenuLabels {
            show: String::from_str("显示窗口"),
            clean: String::from_str("清理内存"),
            settings: String::from_str("设置"),
            website: String::from_str("官方网站"),
            about: String::from_str("关于"),
            exit: String::from_str("退出"),
        }
    }
}

/// One line of the tray menu.
#[derive(Debug, Clone)]
pub enum MenuEntry {
    /// An item with its id and label.
    Item { id: &'static str, label: String },
    Separator,
}

/// The view of a menu line: `Some((id, label))` for an item, `None` for a
/// separator.
pub open spec fn entry_view(e: MenuEntry) -> Option<(Seq<char>, Seq<char>)> {
    match e {
        MenuEntry::Item { id, label } => Some((id@, label@)),
        MenuEntry::Separator => None,
    }
}

/// The menu for `labels`: show window / clean memory, a separator, settings /
/// project page / about, a separator, exit.
pub open spec fn menu_layout(labels: TrayMenuLabels) -> Seq<Option<(Seq<char>, Seq<char>)>> {
    seq![
        Some((menu_id::SHOW@, labels.show@)),
        Some((menu_id::CLEAN@, labels.clean@)),
        None,
        Some((menu_id::SETTINGS@, labels.settings@)),
        Some((menu_id::WEBSITE@, labels.website@)),
        Some((menu_id::ABOUT@, labels.about@)),
        None,
        Some((menu_id::EXIT@, labels.exit@)),
    ]
}

fn item(id: &'static str, label: &String) -> (e: MenuEntry)
    ensures
        entry_view(e) == Some((id@, label@)),
{
    MenuEntry::Item { id, label: String::from_str(label.as_str()) }
}

/// The lines of the tray menu with the given labels, in order.
pub fn menu_entries(labels: &TrayMenuLabels) -> (v: Vec<MenuEntry>)
    ensures
        v@.map_values(|e: MenuEntry| entry_view(e)) == menu_layout(*labels),
{
    let v = vec![
        item(menu_id::SHOW, &labels.show),
        item(menu_id::CLEAN, &labels.clean),
        MenuEntry::Separator,
        item(menu_id::SETTINGS, &labels.settings),
        item(menu_id::WEBSITE, &labels.website),
        item(menu_id::ABOUT, &labels.about),
        MenuEntry::Separator,
        item(menu_id::EXIT, &labels.exit),
    ];
    assert(v@.map_values(|e: MenuEntry| entry_view(e)) =~= menu_layout(*labels));
    v
}

/// What a tray menu click does.
#[derive(Debug, Clone, Copy, PartialEq, Eq, Structural)]
pub enum MenuAction {
    ShowWindow,
    CleanMemory,
    /// Show the window and ask the frontend to switch to the settings tab.
    OpenSettings,
    /// Open the project page in the default browser.
    OpenProjectPage,
    /// Ask the frontend to show the about dialog.
    ShowAbout,
    Exit,
    Nothing,
}

/// The action of the menu item `id`.
pub fn menu_action(id: &str) -> (a: MenuAction)
    ensures
        a == (if id@ == menu_id::SHOW@ {
            MenuAction::ShowWindow
        } else if id@ == menu_id::CLEAN@ {
            MenuAction::CleanMemory
        } else if id@ == menu_id::SETTINGS@ {
            MenuAction::OpenSettings
        } else if id@ == menu_id::WEBSITE@ {
            MenuAction::OpenProjectPage
        } else if id@ == menu_id::ABOUT@ {
            MenuAction::ShowAbout
        } else if id@ == menu_id::EXIT@ {
            MenuAction::Exit
        } else {
            MenuAction::Nothing
        }),
{
    if str_is(id, menu_id::SHOW) {
        MenuAction::ShowWindow
    } else if str_is(id, menu_id::CLEAN) {
        MenuAction::CleanMemory
    } else if str_is(id, menu_id::SETTINGS) {
        MenuAction::OpenSettings
    } else if str_is(id, menu_id::WEBSITE) {
        MenuAction::OpenProjectPage
    } else if str_is(id, menu_id::ABOUT) {
        MenuAction::ShowAbout
    } else if str_is(id, menu_id::EXIT) {
        MenuAction::Exit
    } else {
        MenuAction::Nothing
    }
}

/// A configured tray click action.
#[derive(Debug, Clone, Copy, PartialEq, Eq, Structural)]
pub enum TrayAction {
    ShowWindow,
    CleanMemory,
}

/// The action configured as `action`: `1` cleans memory, anything else shows
/// the window.
pub fn tray_action(action: u32) -> (a: TrayAction)
    ensures
        a == (if action == TRAY_ACTION_CLEAN {
            TrayAction::CleanMemory
        } else {
            TrayAction::ShowWindow
        }),
{
    if action == TRAY_ACTION_CLEAN {
        TrayAction::CleanMemory
    } else {
        TrayAction::ShowWindow
    }
}

/// A mouse event on the tray icon.
#[derive(Debug, Clone, Copy, PartialEq, Eq, Structural)]
pub enum TrayClick {
    LeftDoubleClick,
    LeftClick,
    MiddleClick,
    Other,
}

/// How the app answers a tray mouse event.
#[derive(Debug, Clone, Copy, PartialEq, Eq, Structural)]
pub enum ClickResponse {
    /// Cancel the deferred single-click action, then run this one.
    CancelPendingAndRun(TrayAction),
    /// Show the window right away.
    ShowNow,
    /// Show the window after one double-click interval, unless a second click
    /// arrives first.
    DeferShow,
    Run(TrayAction),
    Ignore,
}

/// The answer to `click`, with `double_click_action` and
/// `middle_click_action` configured.
///
/// Windows always delivers a single click before a double-click, so acting on
/// the first click at once would make a double-click configured as "clean
/// memory" also pop the window open first. The single-click show is therefore
/// deferred, except when the double-click action is the same show anyway.
pub fn click_response(click: TrayClick, double_click_action: u32, middle_click_action: u32) -> (r:
    ClickResponse)
    ensures
        r == match click {
            TrayClick::LeftDoubleClick => ClickResponse::CancelPendingAndRun(
                if double_click_action == TRAY_ACTION_CLEAN {
                    TrayAction::CleanMemory
                } else {
                    TrayAction::ShowWindow
                },
            ),
            TrayClick::LeftClick => if double_click_action == TRAY_ACTION_SHOW {
                ClickResponse::ShowNow
            } else {
                ClickResponse::DeferShow
            },
            TrayClick::MiddleClick => ClickResponse::Run(
                if middle_click_action == TRAY_ACTION_CLEAN {
                    TrayAction::CleanMemory
                } else {
                    TrayAction::ShowWindow
                },
            ),
            TrayClick::Other => ClickResponse::Ignore,
        },
{
    match click {
        TrayClick::LeftDoubleClick => ClickResponse::CancelPendingAndRun(
            tray_action(double_click_action),
        ),
        TrayClick::LeftClick => if double_click_action == TRAY_ACTION_SHOW {
            ClickResponse::ShowNow
        } else {
            ClickResponse::DeferShow
        },
        TrayClick::MiddleClick => ClickResponse::Run(tray_action(middle_click_action)),
        TrayClick::Other => ClickResponse::Ignore,
    }
}

/// The double-click interval the deferred show waits: the one configured in
/// Windows, clamped to 200..=1000 ms so that a broken desktop setting cannot
/// make the single-click action feel dead.
pub fn double_click_ms(configured: u32) -> (ms: u64)
    ensures
        ms == (if configured < 200 {
            200
        } else if configured > 1000 {
            1000
        } else {
            configured as int
        }),
{
    let ms = configured as u64;
    if ms < 200 {
        200
    } else if ms > 1000 {
        1000
    } else {
        ms
    }
}

/// The token of the deferred single-click action. Every click that defers
/// the show, and every double-click that cancels it, advances the counter; a
/// deferred show runs only when the counter still holds its own token.
#[derive(Debug)]
pub struct PendingClick {
    counter: u64,
}

impl PendingClick {
    /// The current token.
    pub closed spec fn token(&self) -> u64 {
        self.counter
    }

    pub fn new() -> (p: Self)
        ensures
            p.token() == 0,
    {
        PendingClick { counter: 0 }
    }

    /// Defer a show: the counter advances (wrapping) and the new value is the
    /// token the deferred show holds.
    pub fn schedule(&mut self) -> (token: u64)
        ensures
            final(self).token() == old(self).token().wrapping_add(1),
            token == final(self).token(),
    {
        self.counter = self.counter.wrapping_add(1);
        self.counter
    }

    /// Cancel the deferred show, if any.
    pub fn cancel(&mut self)
        ensures
            final(self).token() == old(self).token().wrapping_add(1),
    {
        self.counter = self.counter.wrapping_add(1);
    }

    /// Whether the show deferred with `token` still owns the action.
    pub fn owns(&self, token: u64) -> (r: bool)
        ensures
            r == (self.token() == token),
    {
        self.counter == token
    }
}

/// The counter after `n` advances from `t`.
pub open spec fn advanced(t: u64, n: nat) -> u64
    decreases n,
{
    if n == 0 {
        t
    } else {
        advanced(t, (n - 1) as nat).wrapping_add(1)
    }
}

proof fn lemma_advanced(t: u64, n: nat)
    ensures
        advanced(t, n) as int == (t as int + n) % 0x1_0000_0000_0000_0000,
    decreases n,
{
    if n > 0 {
        lemma_advanced(t, (n - 1) as nat);
        let a = advanced(t, (n - 1) as nat);
        assert(a.wrapping_add(1) as int == (a as int + 1) % 0x1_0000_0000_0000_0000);
        vstd::arithmetic::div_mod::lemma_add_mod_noop(t as int + n - 1, 1, 0x1_0000_0000_0000_0000);
        vstd::arithmetic::div_mod::lemma_mod_twice(t as int + n - 1, 0x1_0000_0000_0000_0000);
        vstd::arithmetic::div_mod::lemma_small_mod(1, 0x1_0000_0000_0000_0000);
    } else {
        vstd::arithmetic::div_mod::lemma_small_mod(t as nat, 0x1_0000_0000_0000_0000);
    }
}

/// A deferred show owns the action only until the next click: after any
/// number `n` of further advances (each later deferral or cancellation), with
/// `0 < n < 2^64`, the counter no longer holds the token, and with none it
/// still does.
pub proof fn pending_click_is_superseded(token: u64, n: nat)
    requires
        n < 0x1_0000_0000_0000_0000,
    ensures
        n == 0 ==> advanced(token, n) == token,
        n > 0 ==> advanced(token, n) != token,
{
    lemma_advanced(token, n);
    if n > 0 {
        if advanced(token, n) == token {
            assert((token as int + n) % 0x1_0000_0000_0000_0000 == token as int);
            vstd::arithmetic::div_mod::lemma_fundamental_div_mod(token as int + n, 0x1_0000_0000_0000_0000);
            let q = (token as int + n) / 0x1_0000_0000_0000_0000;
            assert(q == 0 || q == 1) by {
                vstd::arithmetic::div_mod::lemma_div_pos_is_pos(token as int + n, 0x1_0000_0000_0000_0000);
                vstd::arithmetic::div_mod::lemma_div_is_ordered(token as int + n, 0x2_0000_0000_0000_0000 - 1, 0x1_0000_0000_0000_0000);
                assert((0x2_0000_0000_0000_0000int - 1) / 0x1_0000_0000_0000_0000int == 1);
            }
            assert(false);
        }
    }
}

} // verus!
