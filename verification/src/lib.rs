pub mod text;
pub mod trayicon;
pub mod memory;
pub mod config;
pub mod autostart;
pub mod elevation;
pub mod single_instance;
pub mod cmdline;
pub mod ntapi;
pub mod hotkey;
pub mod installer_lang;
pub mod registry;
pub mod titlebar;
pub mod tray;
pub mod commands;
pub mod updater;
