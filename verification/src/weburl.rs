use vstd::prelude::*;

verus! {

#[verifier::external_type_specification]
#[verifier::external_body]
pub struct ExUrl(url::Url);

/// A parsed URL as plain values: its serialization, its scheme, its host and its
/// port (`None` where the URL names none, or names its scheme's default port).
pub struct UrlView {
    pub href: Seq<char>,
    pub scheme: Seq<char>,
    pub host: Option<Seq<char>>,
    pub port: Option<u16>,
}

/// The URL that `url::Url::parse` makes of `input` (`None` where it refuses it).
pub uninterp spec fn url_parse(input: Seq<char>) -> Option<UrlView>;

/// The URL that `url::Url::join` makes of `input` against the base URL whose
/// serialization is `base` (`None` where it refuses it).
pub uninterp spec fn url_join(base: Seq<char>, input: Seq<char>) -> Option<UrlView>;

pub open spec fn is_ascii_alpha(c: char) -> bool {
    ('a' <= c && c <= 'z') || ('A' <= c && c <= 'Z')
}

/// A character allowed after the first one of a URL scheme.
pub open spec fn is_scheme_char(c: char) -> bool {
    is_ascii_alpha(c) || ('0' <= c && c <= '9') || c == '+' || c == '-' || c == '.'
}

/// A URL scheme: an ASCII letter, then letters, digits, `+`, `-` or `.`.
pub open spec fn is_scheme(s: Seq<char>) -> bool {
    &&& s.len() > 0
    &&& is_ascii_alpha(s[0])
    &&& forall|i: int| 1 <= i < s.len() ==> is_scheme_char(#[trigger] s[i])
}

/// The serialization of a URL starts with its scheme and a colon
/// (`scheme ":" ...`, as the grammar in `url::Url` has it).
pub open spec fn scheme_leads(u: UrlView) -> bool {
    &&& is_scheme(u.scheme)
    &&& u.scheme.len() < u.href.len()
    &&& u.href.subrange(0, u.scheme.len() as int) == u.scheme
    &&& u.href[u.scheme.len() as int] == ':'
}

/// A URL with a host has an authority, which its serialization opens with `//`
/// right after the scheme's colon (`scheme "://" ...`).
pub open spec fn authority_leads(u: UrlView) -> bool {
    u.host is Some ==> {
        &&& u.scheme.len() + 3 <= u.href.len()
        &&& u.href[u.scheme.len() + 1int] == '/'
        &&& u.href[u.scheme.len() + 2int] == '/'
    }
}

/// Parsing a URL's serialization again gives the same serialization, scheme and
/// port, and the same host except that a URL without one may come back with an
/// empty one (`Url::check_invariants` in the `url` crate asserts this of every URL).
pub open spec fn reparses(u: UrlView) -> bool {
    url_parse(u.href) matches Some(v) && v.href == u.href && v.scheme == u.scheme && v.port
        == u.port && (v.host == u.host || (u.host is None && v.host == Some(Seq::<char>::empty())))
}

/// An absolute URL: the outside parser's value, with the parts the library reads.
pub struct WebUrl {
    url: url::Url,
    href: String,
    scheme: String,
    host: Option<String>,
    port: Option<u16>,
}

pub open spec fn opt_view(o: Option<String>) -> Option<Seq<char>> {
    match o {
        Some(h) => Some(h@),
        None => None,
    }
}

impl View for WebUrl {
    type V = UrlView;

    closed spec fn view(&self) -> UrlView {
        UrlView {
            href: self.href@,
            scheme: self.scheme@,
            host: opt_view(self.host),
            port: self.port,
        }
    }
}

/// Parses an absolute URL with `url::Url::parse`. The result is named `url_parse`;
/// what is stated beyond that is the shape `scheme ":" ...` of its serialization (with
/// `//` after the colon where the URL has a host) and that the serialization parses
/// again to itself, which the crate's invariant check asserts. Nothing is said of the
/// rules by which it accepts a string.
#[verifier::external_body]
pub fn parse_web_url(input: &str) -> (r: Option<WebUrl>)
    ensures
        r matches Some(u) ==> url_parse(input@) == Some(u@) && scheme_leads(u@) && authority_leads(
            u@,
        ) && reparses(u@),
        r is None ==> url_parse(input@) is None,
{
    match url::Url::parse(input) {
        Ok(url) => {
            let href = url.as_str().to_string();
            let scheme = url.scheme().to_string();
            let host = url.host_str().map(|h| h.to_string());
            let port = url.port();
            Some(WebUrl { url, href, scheme, host, port })
        },
        Err(_) => None,
    }
}

impl WebUrl {
    /// Resolves `input` against this URL with `url::Url::join`. The result is named
    /// `url_join`, a function of this URL's serialization and of `input`; the shape
    /// `scheme ":" ...` of the result's serialization (with `//` after the colon where
    /// it has a host), and that it parses again to itself, are stated too.
    #[verifier::external_body]
    pub fn join(&self, input: &str) -> (r: Option<WebUrl>)
        ensures
            r matches Some(u) ==> url_join(self@.href, input@) == Some(u@) && scheme_leads(u@)
                && authority_leads(u@) && reparses(u@),
            r is None ==> url_join(self@.href, input@) is None,
    {
        match self.url.join(input) {
            Ok(url) => {
                let href = url.as_str().to_string();
                let scheme = url.scheme().to_string();
                let host = url.host_str().map(|h| h.to_string());
                let port = url.port();
                Some(WebUrl { url, href, scheme, host, port })
            },
            Err(_) => None,
        }
    }

    /// The serialization (`Url::as_str`, which is also what `to_string` gives).
    pub fn href(&self) -> (r: &String)
        ensures
            r@ == self@.href,
    {
        &self.href
    }

    /// The scheme (`Url::scheme`).
    pub fn scheme(&self) -> (r: &String)
        ensures
            r@ == self@.scheme,
    {
        &self.scheme
    }

    /// The port (`Url::port`: `None` for none or the scheme's default).
    pub fn port(&self) -> (r: Option<u16>)
        ensures
            r == self@.port,
    {
        self.port
    }

    /// The host (`Url::host_str`).
    pub fn host(&self) -> (r: &Option<String>)
        ensures
            opt_view(*r) == self@.host,
    {
        &self.host
    }
}

}
