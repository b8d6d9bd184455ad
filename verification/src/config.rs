use vstd::prelude::*;

use crate::text::{
    chars_of, find_from, find_from_exec, lemma_find_from_bounds, lemma_find_from_first,
    lemma_trim_clean_ends, lemma_trim_idempotent, is_white, trim_start, trim_end, occurs_at, same_text, trim, trimmed,
};
use crate::weburl::{
    authority_leads, is_scheme, is_scheme_char, parse_web_url, scheme_leads, url_parse, UrlView,
    WebUrl,
};

verus! {

pub const CONFIG_FILE_NAME: &'static str = "config.json";

pub const ICON_FILE_NAME: &'static str = "app-icon.png";

pub const CONFIG_VERSION: u32 = 1;

pub const MIN_WIDTH: u32 = 640;

pub const MIN_HEIGHT: u32 = 480;

pub const MAX_WIDTH: u32 = 7680;

pub const MAX_HEIGHT: u32 = 4320;

pub const MIN_OPACITY: u8 = 10;

pub const MAX_OPACITY: u8 = 100;

/// Where the window and page icon comes from.
#[derive(Clone, Copy, Debug, PartialEq, Eq, Structural)]
pub enum IconMode {
    /// The built-in icon.
    Default,
    /// The site's favicon, probed when the settings are saved.
    Auto,
    /// A picture the user uploaded.
    Upload,
}

impl Default for IconMode {
    fn default() -> (r: IconMode)
        ensures
            r == IconMode::Default,
    {
        IconMode::Default
    }
}

/// The launcher's persisted settings.
#[derive(Debug)]
pub struct LauncherConfig {
    pub version: u32,
    /// The page to open (http/https, normalized).
    pub url: String,
    /// Window title; when blank the URL's host is used.
    pub title: String,
    /// Name shown in the application list and dock; when blank a fixed name is used.
    pub app_name: String,
    pub icon: IconMode,
    pub width: u32,
    pub height: u32,
    /// Frameless transparent window with a floating control bar.
    pub immersive: bool,
    /// Whether the tray icon is shown.
    pub show_tray: bool,
    /// Window opacity in percent: 100 is opaque.
    pub opacity: u8,
    /// Only the page background is transparent.
    pub bg_transparent: bool,
}

impl Clone for LauncherConfig {
    fn clone(&self) -> (r: Self)
        ensures
            r == *self,
    {
        LauncherConfig {
            version: self.version,
            url: self.url.clone(),
            title: self.title.clone(),
            app_name: self.app_name.clone(),
            icon: self.icon,
            width: self.width,
            height: self.height,
            immersive: self.immersive,
            show_tray: self.show_tray,
            opacity: self.opacity,
            bg_transparent: self.bg_transparent,
        }
    }
}

pub open spec fn default_url() -> Seq<char> {
    "http://127.0.0.1:3080/"@
}

pub open spec fn default_title() -> Seq<char> {
    "DeepSeek Harness"@
}

/// The settings written on first start: the local service, immersive, with tray.
pub open spec fn is_default_config(c: LauncherConfig) -> bool {
    &&& c.version == CONFIG_VERSION
    &&& c.url@ == default_url()
    &&& c.title@ == default_title()
    &&& c.app_name@ == default_title()
    &&& c.icon == IconMode::Default
    &&& c.width == 1280
    &&& c.height == 860
    &&& c.immersive
    &&& c.show_tray
    &&& c.opacity == 100
    &&& !c.bg_transparent
}

impl Default for LauncherConfig {
    fn default() -> (r: LauncherConfig)
        ensures
            is_default_config(r),
    {
        LauncherConfig {
            version: CONFIG_VERSION,
            url: String::from_str("http://127.0.0.1:3080/"),
            title: String::from_str("DeepSeek Harness"),
            app_name: String::from_str("DeepSeek Harness"),
            icon: IconMode::Default,
            width: 1280,
            height: 860,
            immersive: true,
            show_tray: true,
            opacity: 100,
            bg_transparent: false,
        }
    }
}

/// The full form that the settings page submits.
#[derive(Debug)]
pub struct ConfigInput {
    pub url: String,
    pub title: String,
    pub app_name: String,
    pub icon: IconMode,
    /// With `icon == Upload`: the picture as `data:image/...;base64,...`.
    pub upload_icon: Option<String>,
    pub width: u32,
    pub height: u32,
    pub immersive: bool,
    pub show_tray: bool,
    pub opacity: u8,
    pub bg_transparent: bool,
}

impl Clone for ConfigInput {
    fn clone(&self) -> (r: Self)
        ensures
            r == *self,
    {
        let upload_icon = match &self.upload_icon {
            Some(u) => Some(u.clone()),
            None => None,
        };
        ConfigInput {
            url: self.url.clone(),
            title: self.title.clone(),
            app_name: self.app_name.clone(),
            icon: self.icon,
            upload_icon,
            width: self.width,
            height: self.height,
            immersive: self.immersive,
            show_tray: self.show_tray,
            opacity: self.opacity,
            bg_transparent: self.bg_transparent,
        }
    }
}

/// The empty form: blank strings, no upload, zeros and `false`.
pub open spec fn is_empty_input(c: ConfigInput) -> bool {
    &&& c.url@.len() == 0
    &&& c.title@.len() == 0
    &&& c.app_name@.len() == 0
    &&& c.icon == IconMode::Default
    &&& c.upload_icon is None
    &&& c.width == 0
    &&& c.height == 0
    &&& !c.immersive
    &&& !c.show_tray
    &&& c.opacity == 0
    &&& !c.bg_transparent
}

impl Default for ConfigInput {
    fn default() -> (r: ConfigInput)
        ensures
            is_empty_input(r),
    {
        ConfigInput {
            url: String::new(),
            title: String::new(),
            app_name: String::new(),
            icon: IconMode::Default,
            upload_icon: None,
            width: 0,
            height: 0,
            immersive: false,
            show_tray: false,
            opacity: 0,
            bg_transparent: false,
        }
    }
}

pub open spec fn clamp_int(x: int, lo: int, hi: int) -> int {
    if x < lo {
        lo
    } else if x > hi {
        hi
    } else {
        x
    }
}

pub fn clamp_u32(x: u32, lo: u32, hi: u32) -> (r: u32)
    requires
        lo <= hi,
    ensures
        r == clamp_int(x as int, lo as int, hi as int),
{
    if x < lo {
        lo
    } else if x > hi {
        hi
    } else {
        x
    }
}

pub fn clamp_u8(x: u8, lo: u8, hi: u8) -> (r: u8)
    requires
        lo <= hi,
    ensures
        r == clamp_int(x as int, lo as int, hi as int),
{
    if x < lo {
        lo
    } else if x > hi {
        hi
    } else {
        x
    }
}

pub open spec fn msg_url_required() -> Seq<char> {
    "请填写要启动的网页地址"@
}

pub open spec fn msg_url_empty() -> Seq<char> {
    "网址不能为空"@
}

pub open spec fn msg_url_invalid() -> Seq<char> {
    "网址格式无效"@
}

pub open spec fn msg_url_scheme() -> Seq<char> {
    "仅支持 http / https 网页地址"@
}

pub open spec fn fallback_name() -> Seq<char> {
    "DeepSeek Harness"@
}

pub open spec fn scheme_separator() -> Seq<char> {
    seq![':', '/', '/']
}

pub open spec fn https_prefix() -> Seq<char> {
    "https://"@
}

pub open spec fn is_web_scheme(s: Seq<char>) -> bool {
    s == "http"@ || s == "https"@
}

/// Whether the address begins with a scheme and `://`.
pub open spec fn names_scheme(t: Seq<char>) -> bool {
    match find_from(t, scheme_separator(), 0) {
        Some(i) => is_scheme(t.subrange(0, i)),
        None => false,
    }
}

fn is_scheme_exec(v: &Vec<char>, end: usize) -> (b: bool)
    requires
        end <= v.len(),
    ensures
        b == is_scheme(v@.subrange(0, end as int)),
{
    if end == 0 {
        return false;
    }
    let c = v[0];
    if !(('a' <= c && c <= 'z') || ('A' <= c && c <= 'Z')) {
        return false;
    }
    let mut i: usize = 1;
    while i < end
        invariant
            1 <= i <= end <= v.len(),
            forall|j: int| 1 <= j < i ==> is_scheme_char(#[trigger] v@.subrange(0, end as int)[j]),
        decreases end - i,
    {
        let d = v[i];
        if !(('a' <= d && d <= 'z') || ('A' <= d && d <= 'Z') || ('0' <= d && d <= '9') || d == '+'
            || d == '-' || d == '.') {
            assert(!is_scheme_char(v@.subrange(0, end as int)[i as int]));
            return false;
        }
        i = i + 1;
    }
    true
}

/// Whether the address begins with a scheme and `://`.
pub fn names_scheme_exec(v: &Vec<char>) -> (b: bool)
    ensures
        b == names_scheme(v@),
{
    match find_from_exec(v, &vec![':', '/', '/'], 0) {
        Some(i) => {
            proof {
                lemma_find_from_bounds(v@, scheme_separator(), 0);
            }
            is_scheme_exec(v, i)
        },
        None => false,
    }
}

/// The text handed to the URL parser: a trimmed address with `https://` put in
/// front where it names no scheme.
pub open spec fn with_scheme(t: Seq<char>) -> Seq<char> {
    if names_scheme(t) {
        t
    } else {
        https_prefix() + t
    }
}

/// What `normalize_http_url` gives for `raw`.
pub open spec fn normalized_url(raw: Seq<char>) -> Result<UrlView, Seq<char>> {
    let t = trim(raw);
    if t.len() == 0 {
        Err(msg_url_empty())
    } else {
        match url_parse(with_scheme(t)) {
            None => Err(msg_url_invalid()),
            Some(u) => if is_web_scheme(u.scheme) {
                Ok(u)
            } else {
                Err(msg_url_scheme())
            },
        }
    }
}

pub open spec fn url_result_view(r: Result<WebUrl, String>) -> Result<UrlView, Seq<char>> {
    match r {
        Ok(u) => Ok(u@),
        Err(e) => Err(e@),
    }
}

/// Normalizes an address typed by the user: `https://` is put in front where no
/// scheme is given, and only http and https pages are accepted. The serialization
/// of a `settled_url` normalizes again to the same URL.
pub fn normalize_http_url(raw: &str) -> (r: Result<WebUrl, String>)
    ensures
        url_result_view(r) == normalized_url(raw@),
        r matches Ok(u) ==> is_web_scheme(u@.scheme) && scheme_leads(u@),
        r matches Ok(u) ==> (if names_scheme(trim(raw@)) {
            url_parse(trim(raw@)) == Some(u@)
        } else {
            url_parse("https://"@ + trim(raw@)) == Some(u@)
        }),
        r matches Ok(u) ==> (settled_url(raw@) ==> normalized_url(u@.href) == Ok::<
            UrlView,
            Seq<char>,
        >(u@)),
{
    let trimmed = trimmed(raw);
    if trimmed.as_str().is_empty() {
        return Err(String::from_str("网址不能为空"));
    }
    let chars = chars_of(trimmed.as_str());
    let s = if names_scheme_exec(&chars) {
        trimmed
    } else {
        let mut p = String::from_str("https://");
        p.append(trimmed.as_str());
        p
    };
    match parse_web_url(s.as_str()) {
        None => Err(String::from_str("网址格式无效")),
        Some(u) => {
            proof {
                if u@.host is Some {
                    lemma_names_own_scheme(u@);
                }
            }
            if same_text(u.scheme(), "http") || same_text(u.scheme(), "https") {
                Ok(u)
            } else {
                Err(String::from_str("仅支持 http / https 网页地址"))
            }
        },
    }
}

/// The host of a URL, or the fixed name where it has none.
pub open spec fn domain(u: UrlView) -> Seq<char> {
    match u.host {
        Some(h) => h,
        None => fallback_name(),
    }
}

pub fn domain_of(url: &WebUrl) -> (r: String)
    ensures
        r@ == domain(url@),
{
    match url.host() {
        Some(h) => h.clone(),
        None => String::from_str("DeepSeek Harness"),
    }
}

/// The window title: the trimmed title, else the host of the normalized URL,
/// else the fixed name.
pub open spec fn effective_title_of(title: Seq<char>, url: Seq<char>) -> Seq<char> {
    if trim(title).len() > 0 {
        trim(title)
    } else {
        match normalized_url(url) {
            Ok(u) => domain(u),
            Err(_) => fallback_name(),
        }
    }
}

impl LauncherConfig {
    pub fn effective_title(&self) -> (r: String)
        ensures
            r@ == effective_title_of(self.title@, self.url@),
    {
        let t = trimmed(self.title.as_str());
        if !t.as_str().is_empty() {
            return t;
        }
        match normalize_http_url(self.url.as_str()) {
            Ok(u) => domain_of(&u),
            Err(_) => String::from_str("DeepSeek Harness"),
        }
    }

    pub fn parse_url(&self) -> (r: Result<WebUrl, String>)
        ensures
            url_result_view(r) == normalized_url(self.url@),
    {
        normalize_http_url(self.url.as_str())
    }
}

/// The form after a successful `normalize`.
pub open spec fn normalized_input(old: ConfigInput, new: ConfigInput) -> bool {
    &&& normalized_url(old.url@) matches Ok(u) && new.url@ == u.href
    &&& new.title@ == trim(old.title@)
    &&& new.width == clamp_int(old.width as int, MIN_WIDTH as int, MAX_WIDTH as int)
    &&& new.height == clamp_int(old.height as int, MIN_HEIGHT as int, MAX_HEIGHT as int)
    &&& new.opacity == clamp_int(old.opacity as int, MIN_OPACITY as int, MAX_OPACITY as int)
    &&& new.app_name == old.app_name
    &&& new.icon == old.icon
    &&& new.upload_icon == old.upload_icon
    &&& new.immersive == old.immersive
    &&& new.show_tray == old.show_tray
    &&& new.bg_transparent == old.bg_transparent
}

/// The form after a refused `normalize`: only the address has been trimmed.
pub open spec fn refused_input(old: ConfigInput, new: ConfigInput) -> bool {
    &&& new.url@ == trim(old.url@)
    &&& new.title == old.title
    &&& new.width == old.width
    &&& new.height == old.height
    &&& new.opacity == old.opacity
    &&& new.app_name == old.app_name
    &&& new.icon == old.icon
    &&& new.upload_icon == old.upload_icon
    &&& new.immersive == old.immersive
    &&& new.show_tray == old.show_tray
    &&& new.bg_transparent == old.bg_transparent
}

/// The error `normalize` answers for an address, if any.
pub open spec fn input_url_error(url: Seq<char>) -> Option<Seq<char>> {
    if trim(url).len() == 0 {
        Some(msg_url_required())
    } else {
        match normalized_url(trim(url)) {
            Err(e) => Some(e),
            Ok(_) => None,
        }
    }
}

/// An address that normalizes to a URL with a host whose serialization has no white
/// space at either end.
pub open spec fn settled_url(url: Seq<char>) -> bool {
    normalized_url(url) matches Ok(u) && u.host is Some && trim(u.href) == u.href
}

/// The settings made from a form that normalized without error.
pub open spec fn config_from_form(input: ConfigInput, c: LauncherConfig) -> bool {
    &&& normalized_url(input.url@) matches Ok(u) && c.url@ == u.href
    &&& c.version == CONFIG_VERSION
    &&& c.title@ == trim(input.title@)
    &&& c.width == clamp_int(input.width as int, MIN_WIDTH as int, MAX_WIDTH as int)
    &&& c.height == clamp_int(input.height as int, MIN_HEIGHT as int, MAX_HEIGHT as int)
    &&& c.opacity == clamp_int(input.opacity as int, MIN_OPACITY as int, MAX_OPACITY as int)
    &&& c.app_name == input.app_name
    &&& c.icon == input.icon
    &&& c.immersive == input.immersive
    &&& c.show_tray == input.show_tray
    &&& c.bg_transparent == input.bg_transparent
}

impl ConfigInput {
    /// Validates and normalizes the form: completes the URL's scheme and clamps the
    /// window size and opacity.
    pub fn normalize(&mut self) -> (r: Result<(), String>)
        ensures
            match r {
                Ok(()) => input_url_error(old(self).url@) is None && normalized_input(
                    *old(self),
                    *final(self),
                ),
                Err(e) => input_url_error(old(self).url@) == Some(e@) && refused_input(
                    *old(self),
                    *final(self),
                ),
            },
            r is Ok && settled_url(old(self).url@) ==> input_url_error(final(self).url@) is None
                && normalized_url(final(self).url@) == normalized_url(old(self).url@),
    {
        self.url = trimmed(self.url.as_str());
        if self.url.as_str().is_empty() {
            return Err(String::from_str("请填写要启动的网页地址"));
        }
        proof {
            lemma_trim_idempotent(old(self).url@);
        }
        let url = match normalize_http_url(self.url.as_str()) {
            Ok(u) => u,
            Err(e) => {
                return Err(e);
            },
        };
        self.url = url.href().clone();
        self.title = trimmed(self.title.as_str());
        self.width = clamp_u32(self.width, MIN_WIDTH, MAX_WIDTH);
        self.height = clamp_u32(self.height, MIN_HEIGHT, MAX_HEIGHT);
        self.opacity = clamp_u8(self.opacity, MIN_OPACITY, MAX_OPACITY);
        Ok(())
    }

    /// The settings that a normalized form describes.
    pub fn into_config(self) -> (r: LauncherConfig)
        ensures
            r.version == CONFIG_VERSION,
            r.url == self.url,
            r.title == self.title,
            r.app_name == self.app_name,
            r.icon == self.icon,
            r.width == self.width,
            r.height == self.height,
            r.immersive == self.immersive,
            r.show_tray == self.show_tray,
            r.opacity == self.opacity,
            r.bg_transparent == self.bg_transparent,
    {
        LauncherConfig {
            version: CONFIG_VERSION,
            url: self.url,
            title: self.title,
            app_name: self.app_name,
            icon: self.icon,
            width: self.width,
            height: self.height,
            immersive: self.immersive,
            show_tray: self.show_tray,
            opacity: self.opacity,
            bg_transparent: self.bg_transparent,
        }
    }
}


/// White space around an address never changes what it normalizes to.
pub proof fn lemma_normalize_ignores_padding(raw: Seq<char>)
    ensures
        normalized_url(trim(raw)) == normalized_url(raw),
{
    lemma_trim_idempotent(raw);
}

/// The serialization of a URL with a host names its scheme followed by `://`.
proof fn lemma_names_own_scheme(u: UrlView)
    requires
        scheme_leads(u),
        authority_leads(u),
        u.host is Some,
    ensures
        names_scheme(u.href),
        find_from(u.href, scheme_separator(), 0) == Some(u.scheme.len() as int),
{
    let l = u.scheme.len() as int;
    assert forall|j: int| 0 <= j < l implies !occurs_at(u.href, scheme_separator(), j) by {
        assert(u.href[j] == u.href.subrange(0, l)[j]);
        if occurs_at(u.href, scheme_separator(), j) {
            assert(u.href.subrange(j, j + 3)[0] == u.href[j]);
            if j > 0 {
                assert(is_scheme_char(u.scheme[j]));
            }
        }
    }
    assert(u.href.subrange(l, l + 3) =~= scheme_separator());
    lemma_find_from_first(u.href, scheme_separator(), 0, l);
    assert(u.href.subrange(0, l) == u.scheme);
}

/// The URL parser is handed the trimmed address unchanged where it names a scheme,
/// and `https://` followed by the trimmed address unchanged where it does not.
pub proof fn lemma_parsed_text(raw: Seq<char>)
    ensures
        names_scheme(trim(raw)) ==> (normalized_url(raw) matches Ok(u) ==> url_parse(trim(raw))
            == Some(u)),
        !names_scheme(trim(raw)) ==> (normalized_url(raw) matches Ok(u) ==> url_parse(
            "https://"@ + trim(raw),
        ) == Some(u)),
        normalized_url(raw) is Ok ==> trim(raw).len() > 0,
{
}

/// Typing an address without a scheme is the same as typing `https://` and the
/// address.
pub proof fn lemma_missing_scheme_is_https(raw: Seq<char>)
    requires
        trim(raw).len() > 0,
        !names_scheme(trim(raw)),
    ensures
        normalized_url(raw) == normalized_url("https://"@ + trim(raw)),
{
    reveal_strlit("https://");
    let t = trim(raw);
    let p = "https://"@ + t;
    lemma_trim_clean_ends(raw);
    assert(p[0] == 'h');
    assert(!is_white(p[0]));
    assert(trim_start(p) == p);
    assert(p.last() == t.last());
    assert(trim_end(p) == p);
    assert(trim(p) == p);
    assert forall|j: int| 0 <= j < 5 implies !occurs_at(p, scheme_separator(), j) by {
        if occurs_at(p, scheme_separator(), j) {
            assert(p.subrange(j, j + 3)[0] == p[j]);
        }
    }
    assert(p.subrange(5, 8) =~= scheme_separator());
    lemma_find_from_first(p, scheme_separator(), 0, 5);
    let sch = p.subrange(0, 5);
    assert(sch =~= seq!['h', 't', 't', 'p', 's']);
    assert(is_scheme(sch));
    assert(names_scheme(p));
}

/// A normalized form keeps the window within its bounds and the opacity within
/// 10..=100 percent.
pub proof fn lemma_normalized_in_bounds(old: ConfigInput, new: ConfigInput)
    requires
        normalized_input(old, new),
    ensures
        MIN_WIDTH <= new.width <= MAX_WIDTH,
        MIN_HEIGHT <= new.height <= MAX_HEIGHT,
        MIN_OPACITY <= new.opacity <= MAX_OPACITY,
{
}

/// Normalizing a normalized form again leaves its title, size and opacity as they
/// are, and its address too where that address normalizes as the first one did (which
/// `normalize` promises of a `settled_url`).
pub proof fn lemma_normalize_settles(a: ConfigInput, b: ConfigInput, c: ConfigInput)
    requires
        normalized_input(a, b),
        normalized_input(b, c),
    ensures
        c.title@ == b.title@,
        c.width == b.width,
        c.height == b.height,
        c.opacity == b.opacity,
        normalized_url(b.url@) == normalized_url(a.url@) ==> c.url@ == b.url@,
{
    lemma_trim_idempotent(a.title@);
}

}
