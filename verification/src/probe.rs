use vstd::prelude::*;

use crate::config::{normalize_http_url, normalized_url, url_result_view};
use crate::icons::{extract_icon_urls, lists, page_icons, views};
use crate::text::{decimal, decimal_text};
use crate::weburl::{UrlView, WebUrl};

verus! {

/// The site root of a URL, `scheme://host[:port]` (the host left empty where there
/// is none; the port only where the URL names one other than the scheme's default).
pub open spec fn origin_of(u: UrlView) -> Seq<char> {
    u.scheme + "://"@ + match u.host {
        Some(h) => h,
        None => Seq::empty(),
    } + match u.port {
        Some(p) => ":"@ + decimal(p as nat),
        None => Seq::empty(),
    }
}

pub open spec fn favicon_ico() -> Seq<char> {
    "/favicon.ico"@
}

pub open spec fn favicon_png() -> Seq<char> {
    "/favicon.png"@
}

pub open spec fn touch_icon_png() -> Seq<char> {
    "/apple-touch-icon.png"@
}

/// `list` with `c` at the back, unless it is listed already.
pub open spec fn add_unique(list: Seq<Seq<char>>, c: Seq<char>) -> Seq<Seq<char>> {
    if list.contains(c) {
        list
    } else {
        list.push(c)
    }
}

/// The candidates with the usual icon paths of the origin added behind them.
pub open spec fn with_fallbacks(list: Seq<Seq<char>>, origin: Seq<char>) -> Seq<Seq<char>> {
    add_unique(
        add_unique(add_unique(list, origin + favicon_ico()), origin + favicon_png()),
        origin + touch_icon_png(),
    )
}

pub open spec fn msg_no_icon(origin: Seq<char>) -> Seq<char> {
    "未能从 "@ + origin + " 获取图标"@
}

/// Where the probe stands.
#[derive(Clone, Copy, Debug, PartialEq, Eq, Structural)]
pub enum ProbeStage {
    /// Fetching the page as typed.
    FirstPage,
    /// Fetching the site's root page, after the first page could not be read.
    OriginPage,
    /// Fetching the candidate icons one after another.
    Icons,
    /// Finished.
    Done,
}

/// What the outside world reports back.
pub enum ProbeEvent {
    /// The page that was asked for, as text, or `None` where it could not be had.
    Page(Option<String>),
    /// The icon that was asked for, converted to PNG, or `None` where it could not.
    Icon(Option<Vec<u8>>),
}

/// What to do next.
pub enum ProbeAction {
    /// Download this page and hand back its text.
    FetchPage(String),
    /// Download this icon and hand back its PNG.
    FetchIcon(String),
    /// The icon (PNG) and the address it came from.
    Found(Vec<u8>, String),
    /// No icon could be had.
    Failed(String),
}

/// The automatic favicon probe: the site's page is scanned for icon links, then the
/// candidates are tried in order until one gives a picture.
pub struct IconProbe {
    /// The normalized address, against which links are resolved.
    pub base: WebUrl,
    /// The address as given, the first page to scan.
    pub page: String,
    /// The site root of the address, `scheme://host[:port]`.
    pub origin: String,
    pub stage: ProbeStage,
    /// The icon addresses to try.
    pub candidates: Vec<String>,
    /// The candidate being fetched.
    pub next: usize,
}

impl IconProbe {
    pub open spec fn wf(&self) -> bool {
        self.stage == ProbeStage::Icons ==> self.next < self.candidates.len()
    }

    /// Whether `ev` is an answer that the probe waits for in its present stage.
    pub open spec fn accepts(&self, ev: ProbeEvent) -> bool {
        match ev {
            ProbeEvent::Page(_) => self.stage == ProbeStage::FirstPage || self.stage
                == ProbeStage::OriginPage,
            ProbeEvent::Icon(_) => self.stage == ProbeStage::Icons,
        }
    }
}

/// The site root of a URL, `scheme://host[:port]`.
pub fn origin_string(u: &WebUrl) -> (r: String)
    ensures
        r@ == origin_of(u@),
{
    let mut r = u.scheme().clone();
    r.append("://");
    match u.host() {
        Some(h) => r.append(h.as_str()),
        None => {},
    }
    match u.port() {
        Some(p) => {
            r.append(":");
            let d = decimal_text(p);
            r.append(d.as_str());
        },
        None => {},
    }
    r
}

fn add_unique_exec(list: &mut Vec<String>, c: String)
    ensures
        views(final(list)@) == add_unique(views(old(list)@), c@),
{
    if !lists(list, &c) {
        let ghost before = views(list@);
        list.push(c);
        assert(views(list@) =~= before.push(c@));
    }
}

/// Adds `origin` + `/favicon.ico`, `/favicon.png` and `/apple-touch-icon.png` where
/// they are not listed yet.
pub fn add_fallbacks(list: &mut Vec<String>, origin: &String)
    ensures
        views(final(list)@) == with_fallbacks(views(old(list)@), origin@),
{
    let mut a = origin.clone();
    a.append("/favicon.ico");
    add_unique_exec(list, a);
    let mut b = origin.clone();
    b.append("/favicon.png");
    add_unique_exec(list, b);
    let mut c = origin.clone();
    c.append("/apple-touch-icon.png");
    add_unique_exec(list, c);
}

proof fn lemma_fallbacks_nonempty(list: Seq<Seq<char>>, origin: Seq<char>)
    ensures
        with_fallbacks(list, origin).len() > 0,
{
}

impl IconProbe {
    /// Starts probing the site of `web_url`: the address must normalize to an http
    /// or https URL; the first step fetches the page as given.
    pub fn start(web_url: &str) -> (r: Result<(IconProbe, ProbeAction), String>)
        ensures
            match r {
                Err(e) => normalized_url(web_url@) == Err::<UrlView, Seq<char>>(e@),
                Ok((p, a)) => {
                    &&& normalized_url(web_url@) == Ok::<UrlView, Seq<char>>(p.base@)
                    &&& p.page@ == web_url@
                    &&& p.origin@ == origin_of(p.base@)
                    &&& p.stage == ProbeStage::FirstPage
                    &&& views(p.candidates@) == Seq::<Seq<char>>::empty()
                    &&& p.wf()
                    &&& a matches ProbeAction::FetchPage(u) && u@ == web_url@
                },
            },
    {
        let r = normalize_http_url(web_url);
        let base = match r {
            Ok(u) => u,
            Err(e) => {
                return Err(e);
            },
        };
        let origin = origin_string(&base);
        let page = String::from_str(web_url);
        let candidates: Vec<String> = Vec::new();
        assert(views(candidates@) =~= Seq::<Seq<char>>::empty());
        let p = IconProbe {
            base,
            page: page.clone(),
            origin,
            stage: ProbeStage::FirstPage,
            candidates,
            next: 0,
        };
        Ok((p, ProbeAction::FetchPage(page)))
    }

    /// Takes the answer to the last action and says what to do next.
    pub fn advance(&mut self, ev: ProbeEvent) -> (a: ProbeAction)
        requires
            old(self).wf(),
            old(self).accepts(ev),
        ensures
            final(self).wf(),
            final(self).base@ == old(self).base@,
            final(self).page == old(self).page,
            final(self).origin == old(self).origin,
            match ev {
                ProbeEvent::Page(Some(text)) => {
                    &&& views(final(self).candidates@) == with_fallbacks(
                        page_icons(old(self).base@.href, text@),
                        old(self).origin@,
                    )
                    &&& final(self).stage == ProbeStage::Icons
                    &&& final(self).next == 0
                    &&& a matches ProbeAction::FetchIcon(u) && u == final(self).candidates@[0]
                },
                ProbeEvent::Page(None) => if old(self).stage == ProbeStage::FirstPage {
                    &&& final(self).stage == ProbeStage::OriginPage
                    &&& final(self).candidates == old(self).candidates
                    &&& a matches ProbeAction::FetchPage(u) && u == old(self).origin
                } else {
                    &&& views(final(self).candidates@) == with_fallbacks(
                        Seq::empty(),
                        old(self).origin@,
                    )
                    &&& final(self).stage == ProbeStage::Icons
                    &&& final(self).next == 0
                    &&& a matches ProbeAction::FetchIcon(u) && u == final(self).candidates@[0]
                },
                ProbeEvent::Icon(Some(png)) => {
                    &&& final(self).stage == ProbeStage::Done
                    &&& final(self).candidates == old(self).candidates
                    &&& a matches ProbeAction::Found(p, src) && p == png && src
                        == old(self).candidates@[old(self).next as int]
                },
                ProbeEvent::Icon(None) => {
                    &&& final(self).candidates == old(self).candidates
                    &&& if old(self).next + 1 < old(self).candidates.len() {
                        &&& final(self).stage == ProbeStage::Icons
                        &&& final(self).next == old(self).next + 1
                        &&& a matches ProbeAction::FetchIcon(u) && u
                            == old(self).candidates@[old(self).next + 1]
                    } else {
                        &&& final(self).stage == ProbeStage::Done
                        &&& a matches ProbeAction::Failed(m) && m@ == msg_no_icon(
                            old(self).origin@,
                        )
                    }
                },
            },
    {
        match ev {
            ProbeEvent::Page(Some(text)) => {
                let mut links = extract_icon_urls(text.as_str(), &self.base);
                let ghost found = views(links@);
                add_fallbacks(&mut links, &self.origin);
                proof {
                    lemma_fallbacks_nonempty(found, self.origin@);
                    assert(links@.len() == views(links@).len());
                }
                self.candidates = links;
                self.stage = ProbeStage::Icons;
                self.next = 0;
                ProbeAction::FetchIcon(self.candidates[0].clone())
            },
            ProbeEvent::Page(None) => {
                if self.stage == ProbeStage::FirstPage {
                    self.stage = ProbeStage::OriginPage;
                    ProbeAction::FetchPage(self.origin.clone())
                } else {
                    let mut links: Vec<String> = Vec::new();
                    assert(views(links@) =~= Seq::<Seq<char>>::empty());
                    add_fallbacks(&mut links, &self.origin);
                    proof {
                        lemma_fallbacks_nonempty(Seq::empty(), self.origin@);
                        assert(links@.len() == views(links@).len());
                    }
                    self.candidates = links;
                    self.stage = ProbeStage::Icons;
                    self.next = 0;
                    ProbeAction::FetchIcon(self.candidates[0].clone())
                }
            },
            ProbeEvent::Icon(Some(png)) => {
                self.stage = ProbeStage::Done;
                ProbeAction::Found(png, self.candidates[self.next].clone())
            },
            ProbeEvent::Icon(None) => {
                if self.next + 1 < self.candidates.len() {
                    self.next = self.next + 1;
                    ProbeAction::FetchIcon(self.candidates[self.next].clone())
                } else {
                    self.stage = ProbeStage::Done;
                    let mut m = String::from_str("未能从 ");
                    m.append(self.origin.as_str());
                    m.append(" 获取图标");
                    ProbeAction::Failed(m)
                }
            },
        }
    }
}


proof fn lemma_add_unique(list: Seq<Seq<char>>, c: Seq<char>)
    ensures
        add_unique(list, c).contains(c),
        forall|x: Seq<char>| list.contains(x) ==> add_unique(list, c).contains(x),
        list.no_duplicates() ==> add_unique(list, c).no_duplicates(),
        list.len() <= add_unique(list, c).len(),
        forall|i: int| 0 <= i < list.len() ==> add_unique(list, c)[i] == list[i],
{
    if !list.contains(c) {
        let r = list.push(c);
        assert(r[list.len() as int] == c);
        assert forall|x: Seq<char>| list.contains(x) implies r.contains(x) by {
            let i = choose|i: int| 0 <= i < list.len() && list[i] == x;
            assert(r[i] == x);
        }
        if list.no_duplicates() {
            assert forall|i: int, j: int|
                0 <= i < r.len() && 0 <= j < r.len() && i != j implies r[i] != r[j] by {
                if i == list.len() as int {
                    assert(r[j] == list[j]);
                } else if j == list.len() as int {
                    assert(r[i] == list[i]);
                }
            }
        }
    }
}

/// The usual icon paths of the origin are always among the candidates, behind the
/// candidates found on the page, and nothing is listed twice that was not before.
pub proof fn lemma_fallbacks(list: Seq<Seq<char>>, origin: Seq<char>)
    ensures
        with_fallbacks(list, origin).contains(origin + favicon_ico()),
        with_fallbacks(list, origin).contains(origin + favicon_png()),
        with_fallbacks(list, origin).contains(origin + touch_icon_png()),
        list.len() <= with_fallbacks(list, origin).len() <= list.len() + 3,
        forall|i: int| 0 <= i < list.len() ==> with_fallbacks(list, origin)[i] == list[i],
        list.no_duplicates() ==> with_fallbacks(list, origin).no_duplicates(),
{
    let a = add_unique(list, origin + favicon_ico());
    let b = add_unique(a, origin + favicon_png());
    lemma_add_unique(list, origin + favicon_ico());
    lemma_add_unique(a, origin + favicon_png());
    lemma_add_unique(b, origin + touch_icon_png());
}

}
