//! Menu item ids of the tray menu.

use vstd::prelude::*;

verus! {

pub const SHOW: &'static str = "tray-show";
pub const CLEAN: &'static str = "tray-clean";
pub const SETTINGS: &'static str = "tray-settings";
pub const WEBSITE: &'static str = "tray-website";
pub const ABOUT: &'static str = "tray-about";
pub const EXIT: &'static str = "tray-exit";

} // verus!
