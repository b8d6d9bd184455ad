use vstd::prelude::*;

use crate::config::{effective_title_of, fallback_name, is_default_config, IconMode, LauncherConfig};

verus! {

pub const TRAY_ID: &'static str = "deepseek-harness-tray";

pub open spec fn is_config_flag(a: Seq<char>) -> bool {
    a == "--config"@ || a == "-c"@
}

/// Whether the arguments ask for the settings window (`--config` or `-c`).
pub fn wants_settings(args: &[String]) -> (b: bool)
    ensures
        b == exists|i: int| 0 <= i < args@.len() && is_config_flag(#[trigger] args@[i]@),
{
    let mut i: usize = 0;
    while i < args.len()
        invariant
            i <= args@.len(),
            forall|j: int| 0 <= j < i ==> !is_config_flag(#[trigger] args@[j]@),
        decreases args.len() - i,
    {
        if crate::text::same_text(&args[i], "--config") || crate::text::same_text(
            &args[i],
            "-c",
        ) {
            assert(is_config_flag(args@[i as int]@));
            return true;
        }
        i = i + 1;
    }
    false
}

/// The windows opened at start-up.
pub struct StartupWindows {
    /// The main window on the configured page.
    pub main: bool,
    /// The settings window, in addition.
    pub settings: bool,
}

/// The windows to open at start-up: the main window always, and the settings window
/// as well where the arguments ask for it.
pub fn startup_windows(args: &[String]) -> (r: StartupWindows)
    ensures
        r.main,
        r.settings == exists|i: int| 0 <= i < args@.len() && is_config_flag(#[trigger] args@[i]@),
{
    StartupWindows { main: true, settings: wants_settings(args) }
}

/// The settings to start with: the stored ones, else the defaults, which are then
/// to be written (`true` in the second place).
pub fn boot_config(stored: Option<LauncherConfig>) -> (r: (LauncherConfig, bool))
    ensures
        match stored {
            Some(c) => r.0 == c && !r.1,
            None => is_default_config(r.0) && r.1,
        },
{
    match stored {
        Some(c) => (c, false),
        None => (LauncherConfig::default(), true),
    }
}

/// `/bin/sh` quoting of a path: in double quotes.
pub fn shell_quote(path: &str) -> (r: String)
    ensures
        r@ == "\""@ + path@ + "\""@,
{
    let mut r = String::from_str("\"");
    r.append(path);
    r.append("\"");
    r
}

/// The shell command that starts the program again once this process has let go of
/// the single-instance lock.
pub fn relaunch_command(exe: &str) -> (r: String)
    ensures
        r@ == "sleep 1 && exec "@ + ("\""@ + exe@ + "\""@),
{
    let mut r = String::from_str("sleep 1 && exec ");
    let q = shell_quote(exe);
    r.append(q.as_str());
    r
}

/// Whether the tray icon is shown: as the settings say, and shown without settings.
pub fn tray_visible(cfg: &Option<LauncherConfig>) -> (b: bool)
    ensures
        b == match cfg {
            Some(c) => c.show_tray,
            None => true,
        },
{
    match cfg {
        Some(c) => c.show_tray,
        None => true,
    }
}

/// The icon mode of the tray icon: the settings', else the built-in icon.
pub fn tray_icon_mode(cfg: &Option<LauncherConfig>) -> (m: IconMode)
    ensures
        m == match cfg {
            Some(c) => c.icon,
            None => IconMode::Default,
        },
{
    match cfg {
        Some(c) => c.icon,
        None => IconMode::Default,
    }
}

/// The tray tooltip: the window title, else the fixed name.
pub fn tray_tooltip(cfg: &Option<LauncherConfig>) -> (r: String)
    ensures
        r@ == match cfg {
            Some(c) => effective_title_of(c.title@, c.url@),
            None => fallback_name(),
        },
{
    match cfg {
        Some(c) => c.effective_title(),
        None => String::from_str("DeepSeek Harness"),
    }
}

/// What a tray menu entry does.
#[derive(Clone, Copy, Debug, PartialEq, Eq, Structural)]
pub enum TrayAction {
    OpenSettings,
    Reload,
    Quit,
    Nothing,
}

/// The action of the tray menu entry with this id.
pub fn tray_menu_action(id: &str) -> (a: TrayAction)
    ensures
        a == (if id@ == "open-settings"@ {
            TrayAction::OpenSettings
        } else if id@ == "reload"@ {
            TrayAction::Reload
        } else if id@ == "quit"@ {
            TrayAction::Quit
        } else {
            TrayAction::Nothing
        }),
{
    let s = String::from_str(id);
    if crate::text::same_text(&s, "open-settings") {
        TrayAction::OpenSettings
    } else if crate::text::same_text(&s, "reload") {
        TrayAction::Reload
    } else if crate::text::same_text(&s, "quit") {
        TrayAction::Quit
    } else {
        TrayAction::Nothing
    }
}

}
