use deepseek_harness::commands::{
    probe_result, setup_state, SaveAction, SaveEvent, SaveFlow, SaveResult, SaveStage, SetupState,
};
use deepseek_harness::config::{ConfigInput, IconMode, LauncherConfig};
use deepseek_harness::probe::{IconProbe, ProbeAction, ProbeEvent, ProbeStage};

fn fetch_url(a: &ProbeAction) -> String {
    match a {
        ProbeAction::FetchPage(u) => format!("page {u}"),
        ProbeAction::FetchIcon(u) => format!("icon {u}"),
        ProbeAction::Found(p, s) => format!("found {} {s}", p.len()),
        ProbeAction::Failed(m) => format!("failed {m}"),
    }
}

#[test]
fn probe_refuses_bad_address() {
    assert_eq!(IconProbe::start("ftp://x").err().unwrap(), "仅支持 http / https 网页地址");
}

#[test]
fn probe_falls_back_to_origin_and_usual_paths() {
    let (mut p, a) = IconProbe::start("example.com/app").ok().unwrap();
    assert_eq!(fetch_url(&a), "page example.com/app");
    assert_eq!(p.origin, "https://example.com");
    let a = p.advance(ProbeEvent::Page(None));
    assert_eq!(fetch_url(&a), "page https://example.com");
    assert_eq!(p.stage, ProbeStage::OriginPage);
    let a = p.advance(ProbeEvent::Page(None));
    assert_eq!(fetch_url(&a), "icon https://example.com/favicon.ico");
    let a = p.advance(ProbeEvent::Icon(None));
    assert_eq!(fetch_url(&a), "icon https://example.com/favicon.png");
    let a = p.advance(ProbeEvent::Icon(None));
    assert_eq!(fetch_url(&a), "icon https://example.com/apple-touch-icon.png");
    let a = p.advance(ProbeEvent::Icon(None));
    assert_eq!(fetch_url(&a), "failed 未能从 https://example.com 获取图标");
    assert_eq!(p.stage, ProbeStage::Done);
}

#[test]
fn probe_scans_page_then_takes_first_icon() {
    let (mut p, _) = IconProbe::start("https://example.com/").ok().unwrap();
    let html = "<link rel=icon href=\"/favicon.ico\"><link rel=icon href=\"/i.png\">";
    let a = p.advance(ProbeEvent::Page(Some(html.to_string())));
    assert_eq!(fetch_url(&a), "icon https://example.com/favicon.ico");
    assert_eq!(
        p.candidates,
        vec![
            "https://example.com/favicon.ico".to_string(),
            "https://example.com/i.png".to_string(),
            "https://example.com/favicon.png".to_string(),
            "https://example.com/apple-touch-icon.png".to_string(),
        ]
    );
    let a = p.advance(ProbeEvent::Icon(None));
    assert_eq!(fetch_url(&a), "icon https://example.com/i.png");
    let a = p.advance(ProbeEvent::Icon(Some(vec![1, 2, 3])));
    assert_eq!(fetch_url(&a), "found 3 https://example.com/i.png");
}

#[test]
fn probe_result_success_and_error() {
    let r = probe_result(Ok((vec![1, 2, 3], "https://x/i.png".to_string())));
    assert!(r.ok);
    assert_eq!(r.data_url.as_deref(), Some("data:image/png;base64,AQID"));
    assert_eq!(r.source.as_deref(), Some("https://x/i.png"));
    assert!(r.error.is_none());
    let r = probe_result(Err("boom".to_string()));
    assert!(!r.ok && r.data_url.is_none() && r.source.is_none());
    assert_eq!(r.error.as_deref(), Some("boom"));
}

#[test]
fn setup_state_without_config() {
    let s = setup_state(None, Some(vec![5]), &[1]);
    assert!(!s.has_config && s.config.is_none() && s.icon_data_url.is_none());
    let d = SetupState::default();
    assert!(!d.has_config);
}

#[test]
fn setup_state_uses_cached_icon_when_mode_does() {
    let mut c = LauncherConfig::default();
    c.icon = IconMode::Auto;
    let s = setup_state(Some(c.clone()), Some(vec![1, 2, 3]), &[0]);
    assert!(s.has_config);
    assert_eq!(s.icon_data_url.as_deref(), Some("data:image/png;base64,AQID"));
    let s = setup_state(Some(c), None, &[1, 2, 3]);
    assert_eq!(s.icon_data_url.as_deref(), Some("data:image/png;base64,AQID"));
    let s = setup_state(Some(LauncherConfig::default()), Some(vec![9, 9]), &[1, 2, 3]);
    assert!(s.has_config && s.icon_data_url.is_none());
}

fn form(url: &str, icon: IconMode) -> ConfigInput {
    let mut i = ConfigInput::default();
    i.url = url.into();
    i.icon = icon;
    i.width = 800;
    i.height = 600;
    i.opacity = 100;
    i
}

fn finish(a: SaveAction) -> SaveResult {
    match a {
        SaveAction::Finish(r) => r,
        _ => panic!("expected the end of the save"),
    }
}

#[test]
fn save_refuses_bad_form() {
    let r = SaveFlow::begin(form(" ", IconMode::Default), true, vec![1]).err().unwrap();
    assert!(!r.saved && !r.launched && r.warnings.is_empty() && r.icon_data_url.is_none());
    assert_eq!(r.error.as_deref(), Some("请填写要启动的网页地址"));
}

#[test]
fn save_default_icon_without_launch() {
    let (mut f, a) = SaveFlow::begin(form("example.com", IconMode::Default), false, vec![1, 2, 3])
        .ok()
        .unwrap();
    assert!(matches!(a, SaveAction::ResolveIcon));
    assert_eq!(f.cfg.url, "https://example.com/");
    let a = f.advance(SaveEvent::IconResolved(Ok((vec![1, 2, 3], None))));
    assert!(matches!(a, SaveAction::ClearCache));
    let a = f.advance(SaveEvent::Cleared);
    assert!(matches!(a, SaveAction::SaveConfig));
    match f.advance(SaveEvent::Saved(Ok(()))) {
        SaveAction::SyncDesktop(p) => assert_eq!(p, vec![1, 2, 3]),
        _ => panic!("expected a desktop sync"),
    }
    let r = finish(f.advance(SaveEvent::Synced));
    assert!(r.saved && !r.launched && r.error.is_none() && r.warnings.is_empty());
    assert!(r.icon_data_url.is_none());
    assert_eq!(f.stage, SaveStage::Done);
}

#[test]
fn save_icon_failure_does_not_block() {
    let (mut f, _) = SaveFlow::begin(form("https://a.test", IconMode::Auto), true, vec![1, 2, 3])
        .ok()
        .unwrap();
    let a = f.advance(SaveEvent::IconResolved(Err("offline".into())));
    assert!(matches!(a, SaveAction::ClearCache));
    let a = f.advance(SaveEvent::Cleared);
    assert!(matches!(a, SaveAction::SaveConfig));
    match f.advance(SaveEvent::Saved(Ok(()))) {
        SaveAction::SyncDesktop(p) => assert_eq!(p, vec![1, 2, 3]),
        _ => panic!("expected a desktop sync"),
    }
    assert!(matches!(f.advance(SaveEvent::Synced), SaveAction::Relaunch));
    let r = finish(f.advance(SaveEvent::Relaunched(Ok(()))));
    assert!(r.saved && r.launched && r.error.is_none());
    assert_eq!(r.warnings, vec!["图标获取失败，已使用默认图标：offline".to_string()]);
    assert!(r.icon_data_url.is_none());
}

#[test]
fn save_cache_failure_warns_and_relaunch_failure_reports() {
    let (mut f, _) = SaveFlow::begin(form("https://a.test", IconMode::Upload), true, vec![0])
        .ok()
        .unwrap();
    match f.advance(SaveEvent::IconResolved(Ok((vec![4, 5], None)))) {
        SaveAction::CachePng(p) => assert_eq!(p, vec![4, 5]),
        _ => panic!("expected caching"),
    }
    let a = f.advance(SaveEvent::Cached(Err("disk full".into())));
    assert!(matches!(a, SaveAction::SaveConfig));
    match f.advance(SaveEvent::Saved(Ok(()))) {
        SaveAction::SyncDesktop(p) => assert_eq!(p, vec![4, 5]),
        _ => panic!("expected a desktop sync"),
    }
    assert!(matches!(f.advance(SaveEvent::Synced), SaveAction::Relaunch));
    let r = finish(f.advance(SaveEvent::Relaunched(Err("no exe".into()))));
    assert!(r.saved && !r.launched);
    assert_eq!(r.error.as_deref(), Some("重启失败: no exe"));
    assert_eq!(r.warnings, vec!["图标缓存失败: disk full".to_string()]);
    assert_eq!(r.icon_data_url.as_deref(), Some("data:image/png;base64,BAU="));
}

#[test]
fn save_write_failure_reports_error_only() {
    let (mut f, _) = SaveFlow::begin(form("https://a.test", IconMode::Default), false, vec![0])
        .ok()
        .unwrap();
    f.advance(SaveEvent::IconResolved(Ok((vec![0], None))));
    f.advance(SaveEvent::Cleared);
    let r = finish(f.advance(SaveEvent::Saved(Err("read-only".into()))));
    assert!(!r.saved && !r.launched && r.icon_data_url.is_none() && r.warnings.is_empty());
    assert_eq!(r.error.as_deref(), Some("read-only"));
}

#[test]
fn save_result_default_is_empty() {
    let r = SaveResult::default();
    assert!(!r.saved && !r.launched && r.icon_data_url.is_none() && r.warnings.is_empty() && r.error.is_none());
}

#[test]
fn probe_origin_keeps_the_port() {
    let (mut p, _) = IconProbe::start("http://127.0.0.1:3080/app").ok().unwrap();
    assert_eq!(p.origin, "http://127.0.0.1:3080");
    let a = p.advance(ProbeEvent::Page(None));
    assert_eq!(fetch_url(&a), "page http://127.0.0.1:3080");
    let a = p.advance(ProbeEvent::Page(None));
    assert_eq!(fetch_url(&a), "icon http://127.0.0.1:3080/favicon.ico");
    let a = p.advance(ProbeEvent::Icon(Some(vec![7])));
    assert_eq!(fetch_url(&a), "found 1 http://127.0.0.1:3080/favicon.ico");
}

#[test]
fn probe_origin_leaves_out_default_port() {
    let (p, _) = IconProbe::start("https://example.com:443/x").ok().unwrap();
    assert_eq!(p.origin, "https://example.com");
    let (p, _) = IconProbe::start("http://example.com:8080").ok().unwrap();
    assert_eq!(p.origin, "http://example.com:8080");
}

#[test]
fn probe_failure_names_origin_with_port() {
    let (mut p, _) = IconProbe::start("http://127.0.0.1:3080/").ok().unwrap();
    p.advance(ProbeEvent::Page(None));
    p.advance(ProbeEvent::Page(None));
    p.advance(ProbeEvent::Icon(None));
    p.advance(ProbeEvent::Icon(None));
    let a = p.advance(ProbeEvent::Icon(None));
    assert_eq!(fetch_url(&a), "failed 未能从 http://127.0.0.1:3080 获取图标");
}

#[test]
fn probe_scans_page_with_unclosed_tag() {
    let (mut p, _) = IconProbe::start("https://example.com/").ok().unwrap();
    let a = p.advance(ProbeEvent::Page(Some("<link rel=icon href=\"/x.png\"".to_string())));
    assert_eq!(fetch_url(&a), "icon https://example.com/x.png");
}
