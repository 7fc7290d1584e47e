# Mem Reduct — verified core

Mem Reduct frees memory on Windows (working sets, the system file cache, the
standby and modified lists, the registry cache, …) from a tray icon, a global
hotkey, an automatic loop or the command line.

This crate is its logic, written in Verus and proved against its contracts:

| module | what it holds |
|---|---|
| `memory`, `memory::mask` | the regions a mask selects, the cleanup order and its report, the page-file list walk, the volumes whose caches are flushed |
| `config` | every setting, its defaults, and the validation every loaded or saved config passes through |
| `commands` | when an automatic cleanup is due, how a cleanup request is read, the autostart toggle, the tray icon colours, the launch flags |
| `trayicon` | the 32 × 32 RGBA bitmap that shows the memory percentage |
| `tray` | the tray menu, what its entries and mouse clicks do, and the deferral of the single-click action |
| `autostart` | the logon task's XML definition, the user's SID, path comparison, the helper's outcome |
| `registry` | the `HKCU` string values: the bytes a write sends and what a read gives back |
| `elevation`, `elevation::argv` | quoting arguments for the elevated relaunch, and how the started process splits them back |
| `cmdline` | the command-line switches and what a command-line cleanup reports |
| `hotkey` | the stored hotkey encoding and its registration |
| `installer_lang` | the installer's language id mapped onto a shipped language |
| `single_instance` | the single-instance mutex decisions and recognising the running instance's window |
| `titlebar` | CSS colours to COLORREF and the DWM attributes that theme the caption |
| `updater` | update URLs, the proxy fallback, failure messages, the relaunch marker |
| `ntapi` | the NT information classes, memory-list commands and structures |
| `text` | decimal formatting, Unicode trimming, UTF-16, case folding |

Laws that span functions are public proof functions next to the functions
they are about (for example `registry::read_gives_back_written`,
`elevation::argv::takeover_line_reads_back`, `config::sanitize_is_idempotent`,
`cmdline::clean_once_relaunch_reads_back`).

`app/` is the Windows program around the library: the Tauri window and tray,
the NT, registry, shell and scheduler calls, and the threads. `tests/` runs the
library on concrete values.
