use deepseek_harness::config::{
    domain_of, normalize_http_url, ConfigInput, IconMode, LauncherConfig, CONFIG_VERSION,
    MIN_HEIGHT, MIN_WIDTH,
};

fn input(url: &str) -> ConfigInput {
    let mut i = ConfigInput::default();
    i.url = url.to_string();
    i
}

#[test]
fn default_config_connects_to_local_service() {
    let c = LauncherConfig::default();
    assert_eq!(c.version, CONFIG_VERSION);
    assert_eq!(c.url, "http://127.0.0.1:3080/");
    assert_eq!(c.title, "DeepSeek Harness");
    assert_eq!(c.app_name, "DeepSeek Harness");
    assert_eq!(c.icon, IconMode::Default);
    assert_eq!((c.width, c.height), (1280, 860));
    assert!(c.immersive && c.show_tray && !c.bg_transparent);
    assert_eq!(c.opacity, 100);
}

#[test]
fn icon_mode_defaults_to_builtin() {
    assert_eq!(IconMode::default(), IconMode::Default);
}

#[test]
fn normalize_adds_https_when_scheme_missing() {
    let u = normalize_http_url("example.com").unwrap();
    assert_eq!(u.href(), "https://example.com/");
    assert_eq!(u.scheme(), "https");
    assert_eq!(u.host().as_deref(), Some("example.com"));
}

#[test]
fn normalize_keeps_http_and_trims() {
    let u = normalize_http_url("  http://127.0.0.1:3080  ").unwrap();
    assert_eq!(u.href(), "http://127.0.0.1:3080/");
    assert_eq!(u.scheme(), "http");
}

#[test]
fn normalize_rejects_blank() {
    assert_eq!(normalize_http_url(" \t ").err().unwrap(), "网址不能为空");
}

#[test]
fn normalize_rejects_other_schemes() {
    assert_eq!(normalize_http_url("ftp://example.com").err().unwrap(), "仅支持 http / https 网页地址");
}

#[test]
fn normalize_rejects_unparsable() {
    assert_eq!(normalize_http_url("http://").err().unwrap(), "网址格式无效");
}

#[test]
fn domain_of_uses_host() {
    let u = normalize_http_url("https://example.org:8443/a/b").unwrap();
    assert_eq!(domain_of(&u), "example.org");
}

#[test]
fn form_normalize_clamps_and_completes() {
    let mut i = input("  example.com/app ");
    i.title = "  My Title \n".to_string();
    i.width = 100;
    i.height = 99999;
    i.opacity = 0;
    i.app_name = " keep ".to_string();
    assert!(i.normalize().is_ok());
    assert_eq!(i.url, "https://example.com/app");
    assert_eq!(i.title, "My Title");
    assert_eq!(i.width, MIN_WIDTH);
    assert_eq!(i.height, 4320);
    assert_eq!(i.opacity, 10);
    assert_eq!(i.app_name, " keep ");
}

#[test]
fn form_normalize_upper_bounds() {
    let mut i = input("https://a.example");
    i.width = 99999;
    i.height = 0;
    i.opacity = 250;
    i.normalize().unwrap();
    assert_eq!((i.width, i.height, i.opacity), (7680, MIN_HEIGHT, 100));
}

#[test]
fn form_normalize_requires_url() {
    let mut i = input("   ");
    i.title = "  t  ".to_string();
    assert_eq!(i.normalize().err().unwrap(), "请填写要启动的网页地址");
    assert_eq!(i.url, "");
    assert_eq!(i.title, "  t  ");
}

#[test]
fn form_normalize_refusal_keeps_trimmed_url() {
    let mut i = input("  ftp://x.org ");
    i.width = 1;
    assert_eq!(i.normalize().err().unwrap(), "仅支持 http / https 网页地址");
    assert_eq!(i.url, "ftp://x.org");
    assert_eq!(i.width, 1);
}

#[test]
fn into_config_copies_fields() {
    let mut i = input("https://example.com/");
    i.title = "T".into();
    i.app_name = "A".into();
    i.icon = IconMode::Upload;
    i.upload_icon = Some("data:,x".into());
    i.width = 800;
    i.height = 600;
    i.immersive = true;
    i.show_tray = false;
    i.opacity = 70;
    i.bg_transparent = true;
    let c = i.into_config();
    assert_eq!(c.version, CONFIG_VERSION);
    assert_eq!(c.url, "https://example.com/");
    assert_eq!((c.title.as_str(), c.app_name.as_str()), ("T", "A"));
    assert_eq!(c.icon, IconMode::Upload);
    assert_eq!((c.width, c.height, c.opacity), (800, 600, 70));
    assert!(c.immersive && !c.show_tray && c.bg_transparent);
}

#[test]
fn effective_title_prefers_trimmed_title() {
    let mut c = LauncherConfig::default();
    c.title = "  Hello  ".into();
    assert_eq!(c.effective_title(), "Hello");
}

#[test]
fn effective_title_falls_back_to_host() {
    let mut c = LauncherConfig::default();
    c.title = "   ".into();
    c.url = "https://chat.example.com/x".into();
    assert_eq!(c.effective_title(), "chat.example.com");
}

#[test]
fn effective_title_falls_back_to_name() {
    let mut c = LauncherConfig::default();
    c.title = "".into();
    c.url = "ftp://files.example.com".into();
    assert_eq!(c.effective_title(), "DeepSeek Harness");
}

#[test]
fn parse_url_normalizes_stored_url() {
    let mut c = LauncherConfig::default();
    c.url = "example.net".into();
    assert_eq!(c.parse_url().unwrap().href(), "https://example.net/");
}

#[test]
fn clone_keeps_fields() {
    let mut c = LauncherConfig::default();
    c.title = "x".into();
    let d = c.clone();
    assert_eq!(d.title, "x");
    assert_eq!(d.url, c.url);
}

#[test]
fn normalize_adds_https_when_only_query_has_scheme() {
    let u = normalize_http_url("example.com/?next=http://a.com").unwrap();
    assert_eq!(u.href(), "https://example.com/?next=http://a.com");
}

#[test]
fn normalize_keeps_named_scheme() {
    assert_eq!(normalize_http_url("HTTP://Example.com/a").unwrap().href(), "http://example.com/a");
    assert_eq!(normalize_http_url("localhost:3080").unwrap().href(), "https://localhost:3080/");
}

#[test]
fn parsed_port() {
    assert_eq!(normalize_http_url("http://127.0.0.1:3080").unwrap().port(), Some(3080));
    assert_eq!(normalize_http_url("https://a.test:443").unwrap().port(), None);
    assert_eq!(normalize_http_url("a.test").unwrap().port(), None);
}
