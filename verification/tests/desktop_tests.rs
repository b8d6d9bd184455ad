use deepseek_harness::config::LauncherConfig;
use deepseek_harness::desktop::{
    desktop_entry, desktop_file_path, desktop_icon_path, display_name, escape_exec, hidden_entry,
    join_path_exec, xdg_data_home,
};

#[test]
fn data_home_prefers_xdg() {
    assert_eq!(xdg_data_home(Some("/xdg".into()), Some("/home/u".into())), "/xdg");
    assert_eq!(xdg_data_home(Some("".into()), Some("/home/u".into())), "/home/u/.local/share");
    assert_eq!(xdg_data_home(Some("rel".into()), Some("/h".into())), "/h/.local/share");
}

#[test]
fn data_home_from_home() {
    assert_eq!(xdg_data_home(None, Some("/home/u".into())), "/home/u/.local/share");
    assert_eq!(xdg_data_home(None, Some("/home/u/".into())), "/home/u/.local/share");
    assert_eq!(xdg_data_home(None, Some("".into())), "/.local/share");
    assert_eq!(xdg_data_home(None, Some("home".into())), "/.local/share");
    assert_eq!(xdg_data_home(None, None), "/.local/share");
}

#[test]
fn join_matches_pathbuf() {
    for (a, b) in [("", "x"), ("/", "x"), ("/a", "b/c"), ("/a/", "b"), ("rel", "y")] {
        let expected = std::path::PathBuf::from(a).join(b);
        assert_eq!(join_path_exec(a, b), expected.to_string_lossy());
    }
}

#[test]
fn desktop_file_under_applications() {
    assert_eq!(
        desktop_file_path("/home/u/.local/share"),
        "/home/u/.local/share/applications/com.leon.deepseek-harness.desktop"
    );
    assert_eq!(desktop_file_path(""), "applications/com.leon.deepseek-harness.desktop");
}

#[test]
fn desktop_icon_file() {
    assert_eq!(
        desktop_icon_path("/d"),
        "/d/deepseek-harness/desktop-icon.png"
    );
}

#[test]
fn display_name_trims_or_falls_back() {
    let mut c = LauncherConfig::default();
    c.app_name = "  My App ".into();
    assert_eq!(display_name(&c), "My App");
    c.app_name = " \t".into();
    assert_eq!(display_name(&c), "DeepSeek Harness");
}

#[test]
fn escape_exec_escapes_specials() {
    assert_eq!(escape_exec("/usr/bin/app"), "/usr/bin/app");
    assert_eq!(
        escape_exec("/a b/$x`\"\\"),
        "/a\\ b/\\$x\\`\\\"\\\\"
    );
}

#[test]
fn escape_exec_matches_replace_chain() {
    let p = "/opt/My Apps/\"q\"/`cmd`/$HOME\\x";
    let expected = p
        .replace('\\', "\\\\")
        .replace('"', "\\\"")
        .replace('`', "\\`")
        .replace('$', "\\$")
        .replace(' ', "\\ ");
    assert_eq!(escape_exec(p), expected);
}

#[test]
fn desktop_entry_text() {
    let mut c = LauncherConfig::default();
    c.app_name = " Chat ".into();
    let exe = "/opt/my app/bin";
    let data_home = "/home/u/.local/share";
    let expected = format!(
        "[Desktop Entry]\n\
         Type=Application\n\
         Version=1.0\n\
         Name={name}\n\
         Name[zh_CN]={name}\n\
         GenericName=Web app shell\n\
         Comment=Launch any website as a desktop app\n\
         Exec={exe}\n\
         Icon={icon}\n\
         Terminal=false\n\
         Categories=Utility;Network;\n\
         Keywords=web;app;shell;launcher;\n\
         StartupWMClass={id}\n\
         StartupNotify=false\n\
         Actions=settings;\n\
         \n\
         [Desktop Action settings]\n\
         Name=打开设置\n\
         Name[zh_CN]=打开设置\n\
         Comment=打开 DeepSeek Harness 设置页\n\
         Exec={exe} --config\n",
        exe = "/opt/my\\ app/bin",
        icon = "/home/u/.local/share/deepseek-harness/desktop-icon.png",
        name = "Chat",
        id = "com.leon.deepseek-harness",
    );
    assert_eq!(desktop_entry(&c, data_home, exe), expected);
}

#[test]
fn hidden_entry_text() {
    assert_eq!(hidden_entry(), "[Desktop Entry]\nHidden=true\n");
}
