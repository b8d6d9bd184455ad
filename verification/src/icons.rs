use vstd::prelude::*;

use crate::config::is_web_scheme;
use crate::text::{
    ascii_lower_chars, ascii_lower_seq, chars_of, find_either, find_either_exec, find_from,
    find_from_exec, seq_has, has_exec, lemma_find_from_bounds, lemma_find_either_bounds,
    lemma_find_either_first, string_of,
};
use crate::weburl::{url_join, url_parse, WebUrl};

verus! {

pub open spec fn link_open() -> Seq<char> {
    seq!['<', 'l', 'i', 'n', 'k']
}

pub open spec fn tag_close() -> Seq<char> {
    seq!['>']
}

pub open spec fn icon_word() -> Seq<char> {
    seq!['i', 'c', 'o', 'n']
}

pub open spec fn apple_word() -> Seq<char> {
    seq!['a', 'p', 'p', 'l', 'e', '-', 't', 'o', 'u', 'c', 'h', '-', 'i', 'c', 'o', 'n']
}

pub open spec fn href_double() -> Seq<char> {
    seq!['h', 'r', 'e', 'f', '=', '"']
}

pub open spec fn href_single() -> Seq<char> {
    seq!['h', 'r', 'e', 'f', '=', '\'']
}

/// The strings' characters.
pub open spec fn views(v: Seq<String>) -> Seq<Seq<char>> {
    v.map_values(|s: String| s@)
}

/// The value that starts at `from` in `tag` and runs to the next quote of either kind
/// (or to the end).
pub open spec fn quoted_value(tag: Seq<char>, from: int) -> Seq<char> {
    let v = tag.subrange(from, tag.len() as int);
    match find_either(v, '"', '\'', 0) {
        Some(e) => v.subrange(0, e),
        None => v,
    }
}

/// The `href` of a tag: the double-quoted form where there is one, else the
/// single-quoted form.
pub open spec fn tag_href(tag: Seq<char>) -> Option<Seq<char>> {
    match find_from(tag, href_double(), 0) {
        Some(i) => Some(quoted_value(tag, i + 6)),
        None => match find_from(tag, href_single(), 0) {
            Some(i) => Some(quoted_value(tag, i + 6)),
            None => None,
        },
    }
}

/// `h` is the value that starts at `k` in `tag`, right after `href="` or `href='`:
/// a contiguous part of the tag holding no quote of either kind, followed by a quote
/// or by the end of the tag.
pub open spec fn href_value_at(tag: Seq<char>, k: int, h: Seq<char>) -> bool {
    &&& 6 <= k
    &&& k + h.len() <= tag.len()
    &&& (tag.subrange(k - 6, k) == seq!['h', 'r', 'e', 'f', '=', '"'] || tag.subrange(k - 6, k)
        == seq!['h', 'r', 'e', 'f', '=', '\''])
    &&& tag.subrange(k, k + h.len()) == h
    &&& forall|i: int| 0 <= i < h.len() ==> #[trigger] h[i] != '"' && h[i] != '\''
    &&& (k + h.len() == tag.len() || tag[k + h.len()] == '"' || tag[k + h.len()] == '\'')
}

proof fn lemma_quoted_value(tag: Seq<char>, from: int)
    requires
        0 <= from <= tag.len(),
    ensures
        ({
            let h = quoted_value(tag, from);
            &&& from + h.len() <= tag.len()
            &&& tag.subrange(from, from + h.len()) == h
            &&& forall|i: int| 0 <= i < h.len() ==> #[trigger] h[i] != '"' && h[i] != '\''
            &&& (from + h.len() == tag.len() || tag[from + h.len()] == '"' || tag[from + h.len()]
                == '\'')
        }),
{
    let v = tag.subrange(from, tag.len() as int);
    lemma_find_either_first(v, '"', '\'', 0);
    lemma_find_either_bounds(v, '"', '\'', 0);
    let h = quoted_value(tag, from);
    match find_either(v, '"', '\'', 0) {
        Some(e) => {
            assert(tag.subrange(from, from + e) =~= v.subrange(0, e));
            assert(tag[from + e] == v[e]);
            assert forall|i: int| 0 <= i < h.len() implies #[trigger] h[i] != '"' && h[i] != '\''
                by {
                assert(h[i] == v[i]);
            }
        },
        None => {
            assert(tag.subrange(from, from + v.len()) =~= v);
        },
    }
}

/// The `href` of a tag is the value right after the first `href="` or `href='`, up
/// to the first quote of either kind or the end of the tag; a tag with neither key
/// has none.
pub proof fn lemma_tag_href_value(tag: Seq<char>)
    ensures
        find_from(tag, seq!['h', 'r', 'e', 'f', '=', '"'], 0) matches Some(i) ==> (tag_href(
            tag,
        ) matches Some(h) && href_value_at(tag, i + 6, h)),
        find_from(tag, seq!['h', 'r', 'e', 'f', '=', '"'], 0) is None ==> (find_from(
            tag,
            seq!['h', 'r', 'e', 'f', '=', '\''],
            0,
        ) matches Some(i) ==> (tag_href(tag) matches Some(h) && href_value_at(tag, i + 6, h))),
        tag_href(tag) is None <==> !seq_has(tag, seq!['h', 'r', 'e', 'f', '=', '"']) && !seq_has(
            tag,
            seq!['h', 'r', 'e', 'f', '=', '\''],
        ),
{
    lemma_find_from_bounds(tag, href_double(), 0);
    lemma_find_from_bounds(tag, href_single(), 0);
    assert(href_double() =~= seq!['h', 'r', 'e', 'f', '=', '"']);
    assert(href_single() =~= seq!['h', 'r', 'e', 'f', '=', '\'']);
    let k = match find_from(tag, href_double(), 0) {
        Some(i) => i + 6,
        None => match find_from(tag, href_single(), 0) {
            Some(i) => i + 6,
            None => 0,
        },
    };
    if let Some(h) = tag_href(tag) {
        lemma_quoted_value(tag, k);
        assert(tag.subrange(k - 6, k) == tag.subrange(k - 6, k - 6 + 6));
        assert(href_value_at(tag, k, h));
    }
}

/// One `<link ...>` tag taken into the list: a tag that mentions `icon` and has an
/// `href` that resolves against `base` to an http or https URL not yet listed adds
/// that URL, at the front for an `apple-touch-icon`, else at the back.
pub open spec fn add_icon(base: Seq<char>, tag: Seq<char>, out: Seq<Seq<char>>) -> Seq<Seq<char>> {
    if !seq_has(tag, icon_word()) {
        out
    } else {
        match tag_href(tag) {
            None => out,
            Some(h) => match url_join(base, h) {
                None => out,
                Some(u) => if is_web_scheme(u.scheme) && !out.contains(u.href) {
                    if seq_has(tag, apple_word()) {
                        seq![u.href] + out
                    } else {
                        out.push(u.href)
                    }
                } else {
                    out
                },
            },
        }
    }
}

/// A tag adds at most one URL to the list, and that URL is its `href` joined to the
/// base: an http or https URL not yet listed, put at the front or the back. A tag
/// that mentions `icon` and has such an `href` always adds it.
pub proof fn lemma_add_icon_joins_href(base: Seq<char>, tag: Seq<char>, out: Seq<Seq<char>>)
    ensures
        add_icon(base, tag, out) == out || (tag_href(tag) matches Some(h) && url_join(base, h) matches Some(u)
            && (u.scheme == "http"@ || u.scheme == "https"@) && !out.contains(u.href) && (add_icon(
            base,
            tag,
            out,
        ) == seq![u.href] + out || add_icon(base, tag, out) == out.push(u.href))),
        seq_has(tag, seq!['i', 'c', 'o', 'n']) ==> (tag_href(tag) matches Some(h) ==> (url_join(
            base,
            h,
        ) matches Some(u) ==> ((u.scheme == "http"@ || u.scheme == "https"@) && !out.contains(
            u.href,
        ) ==> add_icon(base, tag, out).contains(u.href) && add_icon(base, tag, out).len()
            == out.len() + 1))),
{
    assert(icon_word() =~= seq!['i', 'c', 'o', 'n']);
    if let Some(h) = tag_href(tag) {
        if let Some(u) = url_join(base, h) {
            if seq_has(tag, icon_word()) && is_web_scheme(u.scheme) && !out.contains(u.href) {
                if seq_has(tag, apple_word()) {
                    assert((seq![u.href] + out)[0] == u.href);
                } else {
                    assert(out.push(u.href)[out.len() as int] == u.href);
                }
            }
        }
    }
}

/// Where the tag that starts at `start` ends: at the next `>`, or at the end.
pub open spec fn tag_end(lower: Seq<char>, start: int) -> int {
    match find_from(lower, tag_close(), start) {
        Some(e) => e,
        None => lower.len() as int,
    }
}

/// The scan of the lower-cased page from `pos` on, with `out` listed so far. A
/// `<link` tag that is never closed runs to the end of the text and ends the scan.
pub open spec fn icon_scan(base: Seq<char>, lower: Seq<char>, pos: int, out: Seq<Seq<char>>) -> Seq<
    Seq<char>,
>
    decreases lower.len() + 1 - pos,
{
    if pos < 0 || pos > lower.len() {
        out
    } else {
        match find_from(lower, link_open(), pos) {
            None => out,
            Some(start) => {
                proof {
                    lemma_find_from_bounds(lower, link_open(), pos);
                    lemma_find_from_bounds(lower, tag_close(), start);
                }
                let end = tag_end(lower, start);
                let next = add_icon(base, lower.subrange(start, end), out);
                if end >= lower.len() {
                    next
                } else {
                    icon_scan(base, lower, end + 1, next)
                }
            },
        }
    }
}

/// The icon links of a page, in the order `extract_icon_urls` lists them.
pub open spec fn page_icons(base: Seq<char>, html: Seq<char>) -> Seq<Seq<char>> {
    icon_scan(base, ascii_lower_seq(html), 0, Seq::empty())
}

/// A copy of `v[from..to]`.
pub fn sub_chars(v: &Vec<char>, from: usize, to: usize) -> (r: Vec<char>)
    requires
        from <= to <= v.len(),
    ensures
        r@ == v@.subrange(from as int, to as int),
{
    let mut r: Vec<char> = Vec::new();
    let mut i = from;
    while i < to
        invariant
            from <= i <= to <= v.len(),
            r@ =~= v@.subrange(from as int, i as int),
        decreases to - i,
    {
        r.push(v[i]);
        i = i + 1;
    }
    r
}

/// Whether `v` lists `s`.
pub fn lists(v: &Vec<String>, s: &String) -> (b: bool)
    ensures
        b == views(v@).contains(s@),
{
    let mut i: usize = 0;
    while i < v.len()
        invariant
            i <= v.len(),
            forall|j: int| 0 <= j < i ==> v@[j]@ != s@,
        decreases v.len() - i,
    {
        if v[i] == *s {
            assert(views(v@)[i as int] == s@);
            return true;
        }
        i = i + 1;
    }
    assert(!views(v@).contains(s@)) by {
        if views(v@).contains(s@) {
            let j = choose|j: int| 0 <= j < views(v@).len() && views(v@)[j] == s@;
            assert(v@[j]@ == s@);
        }
    }
    false
}

/// The `href` value of a tag.
pub fn tag_href_exec(tag: &Vec<char>) -> (r: Option<String>)
    ensures
        match r {
            Some(h) => tag_href(tag@) == Some(h@),
            None => tag_href(tag@) is None,
        },
{
    let dq = vec!['h', 'r', 'e', 'f', '=', '"'];
    let sq = vec!['h', 'r', 'e', 'f', '=', '\''];
    let mut at: usize = 0;
    match find_from_exec(tag, &dq, 0) {
        Some(i) => {
            proof {
                lemma_find_from_bounds(tag@, href_double(), 0);
            }
            at = i;
        },
        None => match find_from_exec(tag, &sq, 0) {
            Some(i) => {
                proof {
                    lemma_find_from_bounds(tag@, href_single(), 0);
                }
                at = i;
            },
            None => {
                return None;
            },
        },
    }
    assert(at + 6 <= tag.len());
    let from = at + 6;
    let v = sub_chars(tag, from, tag.len());
    let end = match find_either_exec(&v, '"', '\'', 0) {
        Some(e) => e,
        None => v.len(),
    };
    proof {
        lemma_find_either_bounds(v@, '"', '\'', 0);
    }
    Some(string_of(&v, 0, end))
}

/// `x` parses with `url::Url::parse` to an http or https URL serialized as `x`.
pub open spec fn parses_as_web_url(x: Seq<char>) -> bool {
    url_parse(x) matches Some(v) && v.href == x && is_web_scheme(v.scheme)
}

/// Takes one `<link ...>` tag (lower-cased) into the list.
pub fn add_icon_exec(base: &WebUrl, tag: &Vec<char>, out: &mut Vec<String>)
    requires
        forall|i: int| 0 <= i < old(out)@.len() ==> parses_as_web_url(#[trigger] old(out)@[i]@),
    ensures
        views(final(out)@) == add_icon(base@.href, tag@, views(old(out)@)),
        forall|i: int| 0 <= i < final(out)@.len() ==> parses_as_web_url(#[trigger] final(out)@[i]@),
{
    if !has_exec(tag, &vec!['i', 'c', 'o', 'n']) {
        return;
    }
    let h = match tag_href_exec(tag) {
        Some(h) => h,
        None => {
            return;
        },
    };
    let abs = match base.join(h.as_str()) {
        Some(u) => u,
        None => {
            return;
        },
    };
    let web = crate::text::same_text(abs.scheme(), "http") || crate::text::same_text(
        abs.scheme(),
        "https",
    );
    if !web || lists(out, abs.href()) {
        return;
    }
    let href = abs.href().clone();
    let ghost before = out@;
    assert(parses_as_web_url(href@));
    if has_exec(
        tag,
        &vec!['a', 'p', 'p', 'l', 'e', '-', 't', 'o', 'u', 'c', 'h', '-', 'i', 'c', 'o', 'n'],
    ) {
        out.insert(0, href);
        assert(views(out@) =~= seq![abs@.href] + views(before));
        assert forall|i: int| 0 <= i < out@.len() implies parses_as_web_url(#[trigger] out@[i]@) by {
            if i > 0 {
                assert(out@[i] == before[i - 1]);
            }
        }
    } else {
        out.push(href);
        assert(views(out@) =~= views(before).push(abs@.href));
        assert forall|i: int| 0 <= i < out@.len() implies parses_as_web_url(#[trigger] out@[i]@) by {
            if i < before.len() {
                assert(out@[i] == before[i]);
            }
        }
    }
}

/// Collects the icon links of an HTML page (`<link rel="...icon..." href="...">`),
/// resolved against `base`, on a best-effort scan without a full HTML parse. Case
/// is ignored by lower-casing the page first; each URL is listed once;
/// `apple-touch-icon` links go to the front; a `<link` tag that is never closed runs
/// to the end of the page.
pub fn extract_icon_urls(html: &str, base: &WebUrl) -> (out: Vec<String>)
    ensures
        page_icons(base@.href, html@) == views(out@),
        forall|i: int| 0 <= i < out@.len() ==> parses_as_web_url(#[trigger] out@[i]@),
{
    let chars = chars_of(html);
    let lower = ascii_lower_chars(&chars);
    let link = vec!['<', 'l', 'i', 'n', 'k'];
    let close = vec!['>'];
    let mut out: Vec<String> = Vec::new();
    let mut pos: usize = 0;
    assert(views(out@) =~= Seq::<Seq<char>>::empty());
    loop
        invariant
            pos <= lower.len(),
            lower@ == ascii_lower_seq(html@),
            link@ == link_open(),
            close@ == tag_close(),
            icon_scan(base@.href, lower@, pos as int, views(out@)) == page_icons(
                base@.href,
                html@,
            ),
            forall|i: int| 0 <= i < out@.len() ==> parses_as_web_url(#[trigger] out@[i]@),
        decreases lower.len() + 1 - pos,
    {
        let start = match find_from_exec(&lower, &link, pos) {
            Some(s) => s,
            None => {
                return out;
            },
        };
        proof {
            lemma_find_from_bounds(lower@, link_open(), pos as int);
            lemma_find_from_bounds(lower@, tag_close(), start as int);
        }
        let end = match find_from_exec(&lower, &close, start) {
            Some(e) => e,
            None => lower.len(),
        };
        let tag = sub_chars(&lower, start, end);
        assert(end as int == tag_end(lower@, start as int));
        add_icon_exec(base, &tag, &mut out);
        if end >= lower.len() {
            return out;
        }
        pos = end + 1;
    }
}

/// `x` is the serialization of an http or https URL that some link resolved to
/// against `base`.
pub open spec fn web_link_of(base: Seq<char>, x: Seq<char>) -> bool {
    exists|h: Seq<char>|
        #![trigger url_join(base, h)]
        url_join(base, h) matches Some(u) && is_web_scheme(u.scheme) && u.href == x
}

/// The collected links are unique and all of them are http or https URLs
/// resolved against the base.
pub open spec fn clean_links(base: Seq<char>, l: Seq<Seq<char>>) -> bool {
    &&& l.no_duplicates()
    &&& forall|i: int| 0 <= i < l.len() ==> web_link_of(base, #[trigger] l[i])
}

proof fn lemma_add_icon_clean(base: Seq<char>, tag: Seq<char>, out: Seq<Seq<char>>)
    requires
        clean_links(base, out),
    ensures
        clean_links(base, add_icon(base, tag, out)),
{
    if seq_has(tag, icon_word()) {
        if let Some(h) = tag_href(tag) {
            if let Some(u) = url_join(base, h) {
                if is_web_scheme(u.scheme) && !out.contains(u.href) {
                    assert(web_link_of(base, u.href));
                    let r = add_icon(base, tag, out);
                    if seq_has(tag, apple_word()) {
                        assert(r == seq![u.href] + out);
                        assert forall|i: int| 0 <= i < r.len() implies web_link_of(
                            base,
                            #[trigger] r[i],
                        ) by {
                            if i > 0 {
                                assert(r[i] == out[i - 1]);
                            }
                        }
                        assert forall|i: int, j: int|
                            0 <= i < r.len() && 0 <= j < r.len() && i != j implies r[i] != r[j] by {
                            if i == 0 && j > 0 {
                                assert(r[j] == out[j - 1]);
                            } else if j == 0 && i > 0 {
                                assert(r[i] == out[i - 1]);
                            } else if i > 0 && j > 0 {
                                assert(r[i] == out[i - 1] && r[j] == out[j - 1]);
                            }
                        }
                    } else {
                        assert(r == out.push(u.href));
                        assert forall|i: int, j: int|
                            0 <= i < r.len() && 0 <= j < r.len() && i != j implies r[i] != r[j] by {
                            if i == out.len() as int {
                                assert(r[j] == out[j]);
                            } else if j == out.len() as int {
                                assert(r[i] == out[i]);
                            }
                        }
                        assert forall|i: int| 0 <= i < r.len() implies web_link_of(
                            base,
                            #[trigger] r[i],
                        ) by {
                            if i < out.len() {
                                assert(r[i] == out[i]);
                            }
                        }
                    }
                }
            }
        }
    }
}

proof fn lemma_scan_clean(base: Seq<char>, lower: Seq<char>, pos: int, out: Seq<Seq<char>>)
    requires
        clean_links(base, out),
    ensures
        clean_links(base, icon_scan(base, lower, pos, out)),
    decreases lower.len() + 1 - pos,
{
    if !(pos < 0 || pos > lower.len()) {
        if let Some(start) = find_from(lower, link_open(), pos) {
            lemma_find_from_bounds(lower, link_open(), pos);
            lemma_find_from_bounds(lower, tag_close(), start);
            let end = tag_end(lower, start);
            let tag = lower.subrange(start, end);
            lemma_add_icon_clean(base, tag, out);
            if end < lower.len() {
                lemma_scan_clean(base, lower, end + 1, add_icon(base, tag, out));
            }
        }
    }
}

/// The icon links of a page are listed once each, and each is an http or https URL
/// that a link of the page resolved to against the base.
pub proof fn lemma_page_icons_clean(base: Seq<char>, html: Seq<char>)
    ensures
        clean_links(base, page_icons(base, html)),
{
    lemma_scan_clean(base, ascii_lower_seq(html), 0, Seq::empty());
}


/// The URLs of a tagged list.
pub open spec fn names(l: Seq<(Seq<char>, bool)>) -> Seq<Seq<char>> {
    l.map_values(|p: (Seq<char>, bool)| p.0)
}

/// `add_icon`, with each listed URL tagged by whether the tag it was first found in
/// mentions `apple-touch-icon`.
pub open spec fn add_icon_tagged(base: Seq<char>, tag: Seq<char>, out: Seq<(Seq<char>, bool)>) -> Seq<
    (Seq<char>, bool),
> {
    if !seq_has(tag, icon_word()) {
        out
    } else {
        match tag_href(tag) {
            None => out,
            Some(h) => match url_join(base, h) {
                None => out,
                Some(u) => if is_web_scheme(u.scheme) && !names(out).contains(u.href) {
                    if seq_has(tag, apple_word()) {
                        seq![(u.href, true)] + out
                    } else {
                        out.push((u.href, false))
                    }
                } else {
                    out
                },
            },
        }
    }
}

/// `icon_scan` with the tags of `add_icon_tagged`.
pub open spec fn icon_scan_tagged(
    base: Seq<char>,
    lower: Seq<char>,
    pos: int,
    out: Seq<(Seq<char>, bool)>,
) -> Seq<(Seq<char>, bool)>
    decreases lower.len() + 1 - pos,
{
    if pos < 0 || pos > lower.len() {
        out
    } else {
        match find_from(lower, link_open(), pos) {
            None => out,
            Some(start) => {
                proof {
                    lemma_find_from_bounds(lower, link_open(), pos);
                    lemma_find_from_bounds(lower, tag_close(), start);
                }
                let end = tag_end(lower, start);
                let next = add_icon_tagged(base, lower.subrange(start, end), out);
                if end >= lower.len() {
                    next
                } else {
                    icon_scan_tagged(base, lower, end + 1, next)
                }
            },
        }
    }
}

/// The icon links of a page, tagged as in `add_icon_tagged`.
pub open spec fn page_icons_tagged(base: Seq<char>, html: Seq<char>) -> Seq<(Seq<char>, bool)> {
    icon_scan_tagged(base, ascii_lower_seq(html), 0, Seq::empty())
}

/// No URL from a plain icon tag stands before one from an `apple-touch-icon` tag.
pub open spec fn apple_first(l: Seq<(Seq<char>, bool)>) -> bool {
    forall|i: int, j: int| 0 <= i < j < l.len() && (#[trigger] l[j]).1 ==> (#[trigger] l[i]).1
}

proof fn lemma_add_icon_tagged(base: Seq<char>, tag: Seq<char>, out: Seq<(Seq<char>, bool)>)
    requires
        apple_first(out),
    ensures
        names(add_icon_tagged(base, tag, out)) == add_icon(base, tag, names(out)),
        apple_first(add_icon_tagged(base, tag, out)),
{
    let r = add_icon_tagged(base, tag, out);
    if seq_has(tag, icon_word()) {
        if let Some(h) = tag_href(tag) {
            if let Some(u) = url_join(base, h) {
                if is_web_scheme(u.scheme) && !names(out).contains(u.href) {
                    if seq_has(tag, apple_word()) {
                        assert(names(r) =~= seq![u.href] + names(out));
                        assert forall|i: int, j: int|
                            0 <= i < j < r.len() && (#[trigger] r[j]).1 implies (#[trigger] r[i]).1 by {
                            if i > 0 {
                                assert(r[i] == out[i - 1] && r[j] == out[j - 1]);
                            }
                        }
                    } else {
                        assert(names(r) =~= names(out).push(u.href));
                        assert forall|i: int, j: int|
                            0 <= i < j < r.len() && (#[trigger] r[j]).1 implies (#[trigger] r[i]).1 by {
                            assert(r[i] == out[i]);
                            if j < out.len() {
                                assert(r[j] == out[j]);
                            }
                        }
                    }
                }
            }
        }
    }
}

proof fn lemma_scan_tagged(base: Seq<char>, lower: Seq<char>, pos: int, out: Seq<(Seq<char>, bool)>)
    requires
        apple_first(out),
    ensures
        icon_scan(base, lower, pos, names(out)) == names(icon_scan_tagged(base, lower, pos, out)),
        apple_first(icon_scan_tagged(base, lower, pos, out)),
    decreases lower.len() + 1 - pos,
{
    if !(pos < 0 || pos > lower.len()) {
        if let Some(start) = find_from(lower, link_open(), pos) {
            lemma_find_from_bounds(lower, link_open(), pos);
            lemma_find_from_bounds(lower, tag_close(), start);
            let end = tag_end(lower, start);
            let tag = lower.subrange(start, end);
            lemma_add_icon_tagged(base, tag, out);
            if end < lower.len() {
                lemma_scan_tagged(base, lower, end + 1, add_icon_tagged(base, tag, out));
            }
        }
    }
}

/// `apple-touch-icon` links come first: the icon links of a page can be tagged by
/// whether the tag each was first found in mentions `apple-touch-icon`, and all the
/// tagged ones stand before all the others.
pub proof fn lemma_page_icons_apple_first(base: Seq<char>, html: Seq<char>)
    ensures
        names(page_icons_tagged(base, html)) == page_icons(base, html),
        apple_first(page_icons_tagged(base, html)),
{
    assert(names(Seq::<(Seq<char>, bool)>::empty()) =~= Seq::<Seq<char>>::empty());
    lemma_scan_tagged(base, ascii_lower_seq(html), 0, Seq::empty());
}

}
