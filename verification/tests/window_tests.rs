use deepseek_harness::config::LauncherConfig;
use deepseek_harness::launch::{
    boot_config, relaunch_command, shell_quote, startup_windows, tray_icon_mode, tray_menu_action, tray_tooltip,
    tray_visible, wants_settings, TrayAction,
};
use deepseek_harness::config::IconMode;
use deepseek_harness::window::{
    background_script, live_opacity_script, opacity_text, translucency_script, window_style,
};

#[test]
fn opacity_text_matches_float_display() {
    for o in 0..=255u8 {
        let op = (o.clamp(10, 100) as f64) / 100.0;
        assert_eq!(opacity_text(o), format!("{op}"), "opacity {o}");
    }
}

#[test]
fn opacity_text_examples() {
    assert_eq!(opacity_text(0), "0.1");
    assert_eq!(opacity_text(55), "0.55");
    assert_eq!(opacity_text(50), "0.5");
    assert_eq!(opacity_text(100), "1");
}

#[test]
fn live_script_text() {
    let op = 0.35;
    let expected = format!("(function(){{var b=document.body;if(b)b.style.opacity='{op}';}})()");
    assert_eq!(live_opacity_script(35), expected);
}

#[test]
fn translucency_script_text() {
    let op = 0.8;
    let expected = format!(
        "(function(){{function f(){{var h=document.head;if(!h)return false;if(document.getElementById('__dsh_opacity__'))return true;var s=document.createElement('style');s.id='__dsh_opacity__';s.textContent='html{{background-color:transparent!important;}}body{{opacity:{op}!important;}}';h.appendChild(s);return true;}}if(!f())document.addEventListener('DOMContentLoaded',f,{{once:true}});}})();",
        op = op
    );
    assert_eq!(translucency_script(80), expected);
}

#[test]
fn window_style_variants() {
    let mut c = LauncherConfig::default();
    let s = window_style(&c);
    assert!(!s.decorations && s.transparent && s.immersive_scripts && s.opacity_script.is_none());
    c.opacity = 60;
    let s = window_style(&c);
    assert_eq!(s.opacity_script, Some(translucency_script(60)));
    c.immersive = false;
    let s = window_style(&c);
    assert!(s.decorations && s.transparent && !s.immersive_scripts && s.opacity_script.is_some());
    c.opacity = 100;
    let s = window_style(&c);
    assert!(s.decorations && !s.transparent && !s.immersive_scripts && s.opacity_script.is_none());
    assert!(s.background_script.is_none());
    c.bg_transparent = true;
    let s = window_style(&c);
    assert!(s.decorations && s.transparent && s.opacity_script.is_none());
    assert_eq!(s.background_script, Some(background_script()));
    assert!(background_script().contains("html,body{background:transparent!important;"));
}

#[test]
fn startup_opens_main_and_maybe_settings() {
    let args: Vec<String> = vec!["--config".into()];
    let w = startup_windows(&args);
    assert!(w.main && w.settings);
    let w = startup_windows(&[]);
    assert!(w.main && !w.settings);
}

#[test]
fn config_flag_detection() {
    let args: Vec<String> = vec!["--config".into()];
    assert!(wants_settings(&args));
    let args: Vec<String> = vec!["x".into(), "-c".into()];
    assert!(wants_settings(&args));
    let args: Vec<String> = vec!["--configure".into(), "c".into()];
    assert!(!wants_settings(&args));
    assert!(!wants_settings(&[]));
}

#[test]
fn boot_config_writes_defaults_once() {
    let (c, save) = boot_config(None);
    assert!(save);
    assert_eq!(c.url, "http://127.0.0.1:3080/");
    let mut stored = LauncherConfig::default();
    stored.url = "https://x.test/".into();
    let (c, save) = boot_config(Some(stored));
    assert!(!save);
    assert_eq!(c.url, "https://x.test/");
}

#[test]
fn shell_quoting() {
    assert_eq!(shell_quote("/opt/a b/app"), "\"/opt/a b/app\"");
    assert_eq!(relaunch_command("/usr/bin/x"), "sleep 1 && exec \"/usr/bin/x\"");
}

#[test]
fn tray_decisions() {
    assert!(tray_visible(&None));
    let mut c = LauncherConfig::default();
    c.show_tray = false;
    assert!(!tray_visible(&Some(c.clone())));
    assert_eq!(tray_icon_mode(&None), IconMode::Default);
    c.icon = IconMode::Upload;
    assert_eq!(tray_icon_mode(&Some(c.clone())), IconMode::Upload);
    assert_eq!(tray_tooltip(&None), "DeepSeek Harness");
    assert_eq!(tray_tooltip(&Some(c)), "DeepSeek Harness");
}

#[test]
fn tray_menu_ids() {
    assert_eq!(tray_menu_action("open-settings"), TrayAction::OpenSettings);
    assert_eq!(tray_menu_action("reload"), TrayAction::Reload);
    assert_eq!(tray_menu_action("quit"), TrayAction::Quit);
    assert_eq!(tray_menu_action("other"), TrayAction::Nothing);
}
