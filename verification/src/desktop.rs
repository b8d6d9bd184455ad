use vstd::prelude::*;

use crate::config::{fallback_name, LauncherConfig};
use crate::text::{chars_of, push_char, trim, trimmed};

verus! {

pub const APP_ID: &'static str = "com.leon.deepseek-harness";

pub const DESKTOP_BASENAME: &'static str = "com.leon.deepseek-harness.desktop";

pub open spec fn app_id() -> Seq<char> {
    "com.leon.deepseek-harness"@
}

/// `PathBuf::join` of a relative path `rel`: a separator is put between the two
/// unless `base` is empty or already ends with one.
pub open spec fn join_path(base: Seq<char>, rel: Seq<char>) -> Seq<char> {
    if base.len() == 0 {
        rel
    } else if base.last() == '/' {
        base + rel
    } else {
        base + seq!['/'] + rel
    }
}

pub fn join_path_exec(base: &str, rel: &str) -> (r: String)
    ensures
        r@ == join_path(base@, rel@),
{
    let mut r = String::from_str(base);
    if base.is_empty() {
        return String::from_str(rel);
    }
    let n = base.unicode_len();
    if base.get_char(n - 1) != '/' {
        push_char(&mut r, '/');
    }
    r.append(rel);
    r
}

/// Whether a path is absolute.
pub open spec fn is_absolute(p: Seq<char>) -> bool {
    p.len() > 0 && p[0] == '/'
}

fn is_absolute_exec(p: &String) -> (b: bool)
    ensures
        b == is_absolute(p@),
{
    let s = p.as_str();
    if s.is_empty() {
        false
    } else {
        s.get_char(0) == '/'
    }
}

/// The user's data directory, always absolute: `$XDG_DATA_HOME` where it is an
/// absolute path, else `$HOME/.local/share` where `$HOME` is absolute, else
/// `/.local/share`. (Relative values are ignored, as the XDG base directory rules
/// ask.)
pub open spec fn data_home_of(xdg: Option<Seq<char>>, home: Option<Seq<char>>) -> Seq<char> {
    match xdg {
        Some(x) if is_absolute(x) => x,
        _ => match home {
            Some(h) if is_absolute(h) => join_path(h, ".local/share"@),
            _ => join_path("/"@, ".local/share"@),
        },
    }
}

/// The data directory is always an absolute path, and so are the desktop entry
/// and the desktop icon under it.
pub proof fn lemma_data_home_absolute(xdg: Option<Seq<char>>, home: Option<Seq<char>>)
    ensures
        is_absolute(data_home_of(xdg, home)),
        is_absolute(desktop_icon_of(data_home_of(xdg, home))),
        is_absolute(desktop_file_of(data_home_of(xdg, home))),
{
    reveal_strlit("/");
    let d = data_home_of(xdg, home);
    if let Some(h) = home {
        if is_absolute(h) {
            lemma_join_absolute(h, ".local/share"@);
        }
    }
    lemma_join_absolute("/"@, ".local/share"@);
    lemma_desktop_paths(d);
}

pub open spec fn opt_chars(o: Option<String>) -> Option<Seq<char>> {
    match o {
        Some(s) => Some(s@),
        None => None,
    }
}

/// The data directory from the values of `XDG_DATA_HOME` and `HOME`.
pub fn xdg_data_home(xdg: Option<String>, home: Option<String>) -> (r: String)
    ensures
        r@ == data_home_of(opt_chars(xdg), opt_chars(home)),
        is_absolute(r@),
{
    proof {
        reveal_strlit("/");
        reveal_strlit(".local/share");
    }
    if let Some(x) = xdg {
        if is_absolute_exec(&x) {
            return x;
        }
    }
    if let Some(h) = home {
        if is_absolute_exec(&h) {
            return join_path_exec(h.as_str(), ".local/share");
        }
    }
    join_path_exec("/", ".local/share")
}

/// Joining a relative path onto an absolute one stays absolute.
pub proof fn lemma_join_absolute(base: Seq<char>, rel: Seq<char>)
    requires
        is_absolute(base),
    ensures
        is_absolute(join_path(base, rel)),
        join_path(base, rel)[0] == base[0],
{
}

pub open spec fn desktop_file_of(data_home: Seq<char>) -> Seq<char> {
    join_path(join_path(data_home, "applications"@), "com.leon.deepseek-harness.desktop"@)
}

/// The user-level `.desktop` file of this application.
pub fn desktop_file_path(data_home: &str) -> (r: String)
    ensures
        r@ == desktop_file_of(data_home@),
{
    let apps = join_path_exec(data_home, "applications");
    join_path_exec(apps.as_str(), DESKTOP_BASENAME)
}

pub open spec fn desktop_icon_of(data_home: Seq<char>) -> Seq<char> {
    join_path(data_home, "deepseek-harness/desktop-icon.png"@)
}

/// The icon file that the `.desktop` entry names by absolute path.
pub fn desktop_icon_path(data_home: &str) -> (r: String)
    ensures
        r@ == desktop_icon_of(data_home@),
{
    join_path_exec(data_home, "deepseek-harness/desktop-icon.png")
}

/// The name shown in menus: the trimmed application name, else the fixed name.
pub open spec fn display_name_of(app_name: Seq<char>) -> Seq<char> {
    if trim(app_name).len() == 0 {
        fallback_name()
    } else {
        trim(app_name)
    }
}

pub fn display_name(cfg: &LauncherConfig) -> (r: String)
    ensures
        r@ == display_name_of(cfg.app_name@),
        r@.len() > 0,
{
    let name = trimmed(cfg.app_name.as_str());
    if name.as_str().is_empty() {
        proof {
            reveal_strlit("DeepSeek Harness");
        }
        String::from_str("DeepSeek Harness")
    } else {
        name
    }
}

/// The characters that the `Exec` key of a desktop entry needs escaped.
pub open spec fn needs_escape(c: char) -> bool {
    c == '\\' || c == '"' || c == '`' || c == '$' || c == ' '
}

/// Each character that needs it gets a backslash in front.
pub open spec fn escape_text(s: Seq<char>) -> Seq<char>
    decreases s.len(),
{
    if s.len() == 0 {
        Seq::empty()
    } else if needs_escape(s[0]) {
        seq!['\\', s[0]] + escape_text(s.drop_first())
    } else {
        seq![s[0]] + escape_text(s.drop_first())
    }
}

/// A backslash and the character after it stand for that character.
pub open spec fn unescape_text(s: Seq<char>) -> Seq<char>
    decreases s.len(),
{
    if s.len() == 0 {
        Seq::empty()
    } else if s[0] == '\\' && s.len() >= 2 {
        seq![s[1]] + unescape_text(s.skip(2))
    } else {
        seq![s[0]] + unescape_text(s.drop_first())
    }
}

proof fn lemma_escape_append(s: Seq<char>, c: char)
    ensures
        escape_text(s.push(c)) == escape_text(s) + escape_text(seq![c]),
    decreases s.len(),
{
    if s.len() > 0 {
        lemma_escape_append(s.drop_first(), c);
        assert(s.push(c).drop_first() =~= s.drop_first().push(c));
    } else {
        assert(s.push(c) =~= seq![c]);
    }
}

/// Escaping one character: backslash, double quote, backquote, dollar and space get
/// a backslash in front; every other character stands as it is.
pub proof fn lemma_escape_one(c: char)
    ensures
        (c == '\\' || c == '"' || c == '`' || c == '$' || c == ' ') ==> escape_text(seq![c])
            == seq!['\\', c],
        !(c == '\\' || c == '"' || c == '`' || c == '$' || c == ' ') ==> escape_text(seq![c])
            == seq![c],
{
    assert(seq![c].drop_first() =~= Seq::<char>::empty());
    assert(escape_text(Seq::<char>::empty()) =~= Seq::<char>::empty());
    if needs_escape(c) {
        assert(escape_text(seq![c]) =~= seq!['\\', c]);
    } else {
        assert(escape_text(seq![c]) =~= seq![c]);
    }
}

/// Escaping works character by character: the escape of a concatenation is the
/// concatenation of the escapes.
pub proof fn lemma_escape_concat(a: Seq<char>, b: Seq<char>)
    ensures
        escape_text(a + b) == escape_text(a) + escape_text(b),
    decreases a.len(),
{
    if a.len() == 0 {
        assert(a + b =~= b);
        assert(escape_text(a) =~= Seq::<char>::empty());
        assert(escape_text(a) + escape_text(b) =~= escape_text(b));
    } else {
        lemma_escape_concat(a.drop_first(), b);
        assert((a + b).drop_first() =~= a.drop_first() + b);
        assert((a + b)[0] == a[0]);
    }
}

/// A path without backslash, double quote, backquote, dollar or space is its own
/// escape: every other character is copied unchanged.
pub proof fn lemma_escape_plain(s: Seq<char>)
    requires
        forall|i: int|
            0 <= i < s.len() ==> #[trigger] s[i] != '\\' && s[i] != '"' && s[i] != '`' && s[i]
                != '$' && s[i] != ' ',
    ensures
        escape_text(s) == s,
    decreases s.len(),
{
    if s.len() > 0 {
        assert forall|i: int| 0 <= i < s.drop_first().len() implies #[trigger] s.drop_first()[i]
            != '\\' && s.drop_first()[i] != '"' && s.drop_first()[i] != '`' && s.drop_first()[i]
            != '$' && s.drop_first()[i] != ' ' by {
            assert(s.drop_first()[i] == s[i + 1]);
        }
        lemma_escape_plain(s.drop_first());
        assert(s[0] != ' ');
        assert(escape_text(s) =~= seq![s[0]] + s.drop_first());
        assert(seq![s[0]] + s.drop_first() =~= s);
    }
}

/// Escapes a path for the `Exec` key: backslash, double quote, backquote, dollar
/// and space each get a backslash in front.
pub fn escape_exec(path: &str) -> (r: String)
    ensures
        r@ == escape_text(path@),
        (forall|i: int|
            0 <= i < path@.len() ==> #[trigger] path@[i] != '\\' && path@[i] != '"' && path@[i]
                != '`' && path@[i] != '$' && path@[i] != ' ') ==> r@ == path@,
{
    proof {
        if forall|i: int|
            0 <= i < path@.len() ==> #[trigger] path@[i] != '\\' && path@[i] != '"' && path@[i]
                != '`' && path@[i] != '$' && path@[i] != ' ' {
            lemma_escape_plain(path@);
        }
    }
    let chars = chars_of(path);
    let n = chars.len();
    let mut r = String::new();
    let mut i: usize = 0;
    while i < n
        invariant
            i <= n == path@.len(),
            chars@ == path@,
            r@ == escape_text(path@.take(i as int)),
        decreases n - i,
    {
        let c = chars[i];
        proof {
            lemma_escape_append(path@.take(i as int), c);
            assert(path@.take(i + 1) =~= path@.take(i as int).push(c));
            assert(seq![c].drop_first() =~= Seq::<char>::empty());
            assert(escape_text(Seq::<char>::empty()) =~= Seq::<char>::empty());
            if needs_escape(c) {
                assert(escape_text(seq![c]) =~= seq!['\\', c]);
            } else {
                assert(escape_text(seq![c]) =~= seq![c]);
            }
        }
        let ghost before = r@;
        if c == '\\' || c == '"' || c == '`' || c == '$' || c == ' ' {
            push_char(&mut r, '\\');
        }
        push_char(&mut r, c);
        proof {
            if needs_escape(c) {
                assert(r@ =~= before + seq!['\\', c]);
            } else {
                assert(r@ =~= before + seq![c]);
            }
            assert(r@ =~= escape_text(path@.take(i + 1)));
        }
        i = i + 1;
    }
    assert(path@.take(n as int) =~= path@);
    r
}

/// Unescaping what `escape_exec` wrote gives back the path.
pub proof fn lemma_escape_roundtrip(s: Seq<char>)
    ensures
        unescape_text(escape_text(s)) == s,
    decreases s.len(),
{
    if s.len() > 0 {
        lemma_escape_roundtrip(s.drop_first());
        let rest = escape_text(s.drop_first());
        if needs_escape(s[0]) {
            let e = seq!['\\', s[0]] + rest;
            assert(e.skip(2) =~= rest);
        } else {
            let e = seq![s[0]] + rest;
            assert(e.drop_first() =~= rest);
        }
        assert(s =~= seq![s[0]] + s.drop_first());
    }
}

/// The text of the user-level desktop entry.
pub open spec fn desktop_entry_text(name: Seq<char>, exe: Seq<char>, icon: Seq<char>) -> Seq<
    char,
> {
    "[Desktop Entry]\nType=Application\nVersion=1.0\nName="@ + name + "\nName[zh_CN]="@ + name
        + "\nGenericName=Web app shell\nComment=Launch any website as a desktop app\nExec="@ + exe
        + "\nIcon="@ + icon
        + "\nTerminal=false\nCategories=Utility;Network;\nKeywords=web;app;shell;launcher;\nStartupWMClass=com.leon.deepseek-harness\nStartupNotify=false\nActions=settings;\n\n[Desktop Action settings]\nName=打开设置\nName[zh_CN]=打开设置\nComment=打开 DeepSeek Harness 设置页\nExec="@
        + exe + " --config\n"@
}

/// The desktop entry for the settings `cfg`, launching `exe_path`, with the icon
/// file under `data_home`.
pub fn desktop_entry(cfg: &LauncherConfig, data_home: &str, exe_path: &str) -> (r: String)
    ensures
        r@ == desktop_entry_text(
            display_name_of(cfg.app_name@),
            escape_text(exe_path@),
            desktop_icon_of(data_home@),
        ),
{
    let name = display_name(cfg);
    let exe = escape_exec(exe_path);
    let icon = desktop_icon_path(data_home);
    let mut r = String::from_str("[Desktop Entry]\nType=Application\nVersion=1.0\nName=");
    r.append(name.as_str());
    r.append("\nName[zh_CN]=");
    r.append(name.as_str());
    r.append("\nGenericName=Web app shell\nComment=Launch any website as a desktop app\nExec=");
    r.append(exe.as_str());
    r.append("\nIcon=");
    r.append(icon.as_str());
    r.append(
        "\nTerminal=false\nCategories=Utility;Network;\nKeywords=web;app;shell;launcher;\nStartupWMClass=com.leon.deepseek-harness\nStartupNotify=false\nActions=settings;\n\n[Desktop Action settings]\nName=打开设置\nName[zh_CN]=打开设置\nComment=打开 DeepSeek Harness 设置页\nExec=",
    );
    r.append(exe.as_str());
    r.append(" --config\n");
    r
}

/// The entry that hides the packaged duplicate of the desktop entry.
pub fn hidden_entry() -> (r: String)
    ensures
        r@ == "[Desktop Entry]\nHidden=true\n"@,
{
    String::from_str("[Desktop Entry]\nHidden=true\n")
}


proof fn lemma_join_ends_with(base: Seq<char>, rel: Seq<char>)
    ensures
        join_path(base, rel).len() >= rel.len(),
        join_path(base, rel).subrange(
            join_path(base, rel).len() - rel.len(),
            join_path(base, rel).len() as int,
        ) == rel,
{
    let j = join_path(base, rel);
    assert(j.subrange(j.len() - rel.len(), j.len() as int) =~= rel);
}

/// The desktop entry file is always named after the application id, and the
/// desktop icon file is always `desktop-icon.png` in the application's folder,
/// under an absolute data directory an absolute path.
pub proof fn lemma_desktop_paths(data_home: Seq<char>)
    ensures
        desktop_file_of(data_home).len() >= DESKTOP_BASENAME@.len(),
        desktop_file_of(data_home).subrange(
            desktop_file_of(data_home).len() - DESKTOP_BASENAME@.len(),
            desktop_file_of(data_home).len() as int,
        ) == "com.leon.deepseek-harness.desktop"@,
        desktop_icon_of(data_home).subrange(
            desktop_icon_of(data_home).len() - "deepseek-harness/desktop-icon.png"@.len(),
            desktop_icon_of(data_home).len() as int,
        ) == "deepseek-harness/desktop-icon.png"@,
        is_absolute(data_home) ==> is_absolute(desktop_icon_of(data_home)) && is_absolute(
            desktop_file_of(data_home),
        ),
{
    if is_absolute(data_home) {
        lemma_join_absolute(data_home, "deepseek-harness/desktop-icon.png"@);
        lemma_join_absolute(data_home, "applications"@);
        lemma_join_absolute(join_path(data_home, "applications"@), "com.leon.deepseek-harness.desktop"@);
    }
    lemma_join_ends_with(join_path(data_home, "applications"@), "com.leon.deepseek-harness.desktop"@);
    lemma_join_ends_with(data_home, "deepseek-harness/desktop-icon.png"@);
}

}
