use deepseek_harness::config::{normalize_http_url, ConfigInput};
use deepseek_harness::desktop::escape_exec;
use deepseek_harness::encoding::{decode_upload_data, png_data_url};
use deepseek_harness::icons::extract_icon_urls;
use deepseek_harness::probe::add_fallbacks;
use deepseek_harness::text::trimmed;

fn unescape(s: &str) -> String {
    let mut out = String::new();
    let mut it = s.chars();
    while let Some(c) = it.next() {
        if c == '\\' {
            match it.next() {
                Some(d) => out.push(d),
                None => out.push(c),
            }
        } else {
            out.push(c);
        }
    }
    out
}

#[test]
fn escape_then_unescape_gives_path_back() {
    for p in ["/usr/bin/x", "/a b/c", "\\\\", "$HOME/`x`/\"q\"", "", " "] {
        assert_eq!(unescape(&escape_exec(p)), p);
    }
}

#[test]
fn padding_never_changes_normalization() {
    let a = normalize_http_url("example.com/x").unwrap();
    let b = normalize_http_url(" \t example.com/x \n").unwrap();
    assert_eq!(a.href(), b.href());
}

#[test]
fn normalized_address_normalizes_to_itself() {
    for raw in ["example.com", "HTTP://Example.COM:80/a/../b?q#f", "http://127.0.0.1:3080/app", " https://x.org "] {
        let u = normalize_http_url(raw).unwrap();
        let v = normalize_http_url(u.href()).unwrap();
        assert_eq!(v.href(), u.href());
        assert_eq!(v.scheme(), u.scheme());
        assert_eq!(v.host(), u.host());
        assert_eq!(v.port(), u.port());
    }
}

#[test]
fn trimming_twice_is_trimming_once() {
    for s in ["  a b  ", "\u{3000}x\u{a0}", "", "   "] {
        let once = trimmed(s);
        assert_eq!(trimmed(&once), once);
        assert_eq!(once, s.trim());
    }
}

#[test]
fn normalizing_twice_settles() {
    let mut a = ConfigInput::default();
    a.url = "example.com".into();
    a.title = "  T ".into();
    a.width = 5;
    a.height = 50000;
    a.opacity = 3;
    a.normalize().unwrap();
    let once = (a.url.clone(), a.title.clone(), a.width, a.height, a.opacity);
    a.normalize().unwrap();
    assert_eq!((a.url.clone(), a.title.clone(), a.width, a.height, a.opacity), once);
    assert_eq!((a.width, a.height, a.opacity), (640, 4320, 10));
}

#[test]
fn fallbacks_always_listed_once() {
    let origin = "https://e.test".to_string();
    let mut list = vec!["https://e.test/favicon.png".to_string()];
    add_fallbacks(&mut list, &origin);
    assert_eq!(
        list,
        vec![
            "https://e.test/favicon.png".to_string(),
            "https://e.test/favicon.ico".to_string(),
            "https://e.test/apple-touch-icon.png".to_string(),
        ]
    );
}

#[test]
fn collected_links_are_unique_web_urls() {
    let base = normalize_http_url("https://e.test/").unwrap();
    let html = "<link rel=icon href=\"a.png\"><link rel=icon href=\"/a.png\"><link rel=icon href=\"data:image/png,x\">";
    let out = extract_icon_urls(html, &base);
    assert_eq!(out, vec!["https://e.test/a.png".to_string()]);
}

#[test]
fn data_url_payload_decodes_back() {
    for p in [vec![], vec![0u8], vec![1, 2, 3], (0..=255u8).collect::<Vec<u8>>()] {
        assert_eq!(decode_upload_data(&png_data_url(&p)).unwrap(), p);
    }
}

#[test]
fn apple_touch_icons_come_first() {
    let base = normalize_http_url("https://e.test/").unwrap();
    let html = "<link rel=icon href=\"/a.png\"><link rel=apple-touch-icon href=\"/t1.png\"><link rel=icon href=\"/b.png\"><link rel=apple-touch-icon href=\"/t2.png\">";
    assert_eq!(
        extract_icon_urls(html, &base),
        vec![
            "https://e.test/t2.png".to_string(),
            "https://e.test/t1.png".to_string(),
            "https://e.test/a.png".to_string(),
            "https://e.test/b.png".to_string(),
        ]
    );
}

#[test]
fn collected_links_reparse_to_themselves() {
    let base = normalize_http_url("https://e.test/dir/").unwrap();
    let html = "<link rel=icon href=\"../x y.png\"><link rel=icon href=\"HTTP://Other.test:80/i.ico\">";
    for link in extract_icon_urls(html, &base) {
        let again = normalize_http_url(&link).unwrap();
        assert_eq!(again.href(), &link);
    }
}
