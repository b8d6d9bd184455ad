use deepseek_harness::config::{normalize_http_url, IconMode, LauncherConfig};
use deepseek_harness::encoding::{decode_upload_data, png_data_url};
use deepseek_harness::icons::extract_icon_urls;
use deepseek_harness::sources::{cached_or_missing, chosen_icon, icon_plan, wants_cached_icon, IconPlan};

#[test]
fn data_url_of_png() {
    assert_eq!(png_data_url(&[1, 2, 3]), "data:image/png;base64,AQID");
    assert_eq!(png_data_url(&[]), "data:image/png;base64,");
    assert_eq!(png_data_url(&[0xff, 0xfe]), "data:image/png;base64,//4=");
}

#[test]
fn upload_payload_decoded() {
    assert_eq!(decode_upload_data("data:image/png;base64,AQID").unwrap(), vec![1, 2, 3]);
    assert_eq!(decode_upload_data(",AQID").unwrap(), vec![1, 2, 3]);
}

#[test]
fn upload_without_comma_refused() {
    assert_eq!(decode_upload_data("AQID").err().unwrap(), "图片数据格式无效");
}

#[test]
fn upload_bad_base64_refused() {
    let e = decode_upload_data("data:image/png;base64,@@@").err().unwrap();
    assert!(e.starts_with("图片数据解码失败: "));
    assert!(e.len() > "图片数据解码失败: ".len());
}

#[test]
fn extract_finds_icons_in_order() {
    let base = normalize_http_url("https://example.com/dir/page").unwrap();
    let html = r#"<html><head>
        <link rel="stylesheet" href="/s.css">
        <LINK REL="icon" HREF="/Fav.ico">
        <link rel='shortcut icon' href='img/a.png'>
        <link rel="icon" href="/fav.ico">
        <link rel="apple-touch-icon" href="https://cdn.example.com/t.png">
        <link rel="icon" href="javascript:void(0)">
        <link rel="icon" href="ftp://files/x.ico">
        <link rel="icon">
        </head></html>"#;
    let out = extract_icon_urls(html, &base);
    assert_eq!(
        out,
        vec![
            "https://cdn.example.com/t.png".to_string(),
            "https://example.com/fav.ico".to_string(),
            "https://example.com/dir/img/a.png".to_string(),
        ]
    );
}

#[test]
fn extract_prefers_double_quoted_href() {
    let base = normalize_http_url("http://h.test/").unwrap();
    let html = "<link rel=icon href='/single.png' data-x href=\"/double.png\">";
    assert_eq!(extract_icon_urls(html, &base), vec!["http://h.test/double.png".to_string()]);
}

#[test]
fn extract_without_links() {
    let base = normalize_http_url("http://h.test/").unwrap();
    assert!(extract_icon_urls("<html>no links</html>", &base).is_empty());
    assert!(extract_icon_urls("", &base).is_empty());
}

#[test]
fn unclosed_link_runs_to_the_end() {
    let base = normalize_http_url("http://h.test/").unwrap();
    assert_eq!(
        extract_icon_urls("<link rel=icon href=\"/a.png\"", &base),
        vec!["http://h.test/a.png".to_string()]
    );
    assert_eq!(
        extract_icon_urls("<link rel=icon href='/b.png'> <LINK rel=icon href=\"/c.png", &base),
        vec!["http://h.test/b.png".to_string(), "http://h.test/c.png".to_string()]
    );
    assert!(extract_icon_urls("<link", &base).is_empty());
}

#[test]
fn plan_follows_mode() {
    let mut c = LauncherConfig::default();
    assert!(matches!(icon_plan(&c, &Some("data:,x".into())), IconPlan::Builtin));
    c.icon = IconMode::Auto;
    match icon_plan(&c, &None) {
        IconPlan::Probe(u) => assert_eq!(u, c.url),
        _ => panic!("expected a probe"),
    }
    c.icon = IconMode::Upload;
    match icon_plan(&c, &Some("data:,AA==".into())) {
        IconPlan::Upload(d) => assert_eq!(d, "data:,AA=="),
        _ => panic!("expected an upload"),
    }
    assert!(matches!(icon_plan(&c, &Some(String::new())), IconPlan::Cached));
    assert!(matches!(icon_plan(&c, &None), IconPlan::Cached));
}

#[test]
fn cached_or_missing_answers() {
    assert_eq!(cached_or_missing(Some(vec![9])).unwrap(), vec![9]);
    assert_eq!(cached_or_missing(None).err().unwrap(), "请选择一张本地图片作为图标");
}

#[test]
fn chosen_icon_follows_mode() {
    let builtin = [1u8, 2];
    assert!(!wants_cached_icon(IconMode::Default));
    assert!(wants_cached_icon(IconMode::Auto));
    assert_eq!(chosen_icon(IconMode::Default, Some(vec![7]), &builtin), vec![1, 2]);
    assert_eq!(chosen_icon(IconMode::Auto, Some(vec![7]), &builtin), vec![7]);
    assert_eq!(chosen_icon(IconMode::Upload, None, &builtin), vec![1, 2]);
}
