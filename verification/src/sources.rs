use vstd::prelude::*;

use crate::config::{IconMode, LauncherConfig};

verus! {

/// How the icon of a configuration is to be had.
pub enum IconPlan {
    /// The built-in icon.
    Builtin,
    /// Probe the site at this address for its favicon.
    Probe(String),
    /// Decode this uploaded picture (a data URL).
    Upload(String),
    /// Reuse the cached icon; no new picture was chosen.
    Cached,
}

/// Chooses where the icon of `cfg` comes from; `upload` is the picture sent with the
/// form, if any.
pub fn icon_plan(cfg: &LauncherConfig, upload: &Option<String>) -> (r: IconPlan)
    ensures
        match cfg.icon {
            IconMode::Default => r is Builtin,
            IconMode::Auto => r matches IconPlan::Probe(u) && u == cfg.url,
            IconMode::Upload => match upload {
                Some(s) => if s@.len() > 0 {
                    r matches IconPlan::Upload(d) && d == s
                } else {
                    r is Cached
                },
                None => r is Cached,
            },
        },
{
    match cfg.icon {
        IconMode::Default => IconPlan::Builtin,
        IconMode::Auto => IconPlan::Probe(cfg.url.clone()),
        IconMode::Upload => match upload {
            Some(s) => {
                if s.as_str().is_empty() {
                    IconPlan::Cached
                } else {
                    IconPlan::Upload(s.clone())
                }
            },
            None => IconPlan::Cached,
        },
    }
}

pub open spec fn msg_pick_picture() -> Seq<char> {
    "请选择一张本地图片作为图标"@
}

/// Upload mode without a new picture: the cached icon, or the request to pick one.
pub fn cached_or_missing(cached: Option<Vec<u8>>) -> (r: Result<Vec<u8>, String>)
    ensures
        match cached {
            Some(b) => r == Ok::<Vec<u8>, String>(b),
            None => r matches Err(e) && e@ == msg_pick_picture(),
        },
{
    match cached {
        Some(b) => Ok(b),
        None => Err(String::from_str("请选择一张本地图片作为图标")),
    }
}

/// Whether the cached icon is the one in effect for `mode`.
pub fn wants_cached_icon(mode: IconMode) -> (b: bool)
    ensures
        b == (mode != IconMode::Default),
{
    mode != IconMode::Default
}

/// The icon in effect: the cached one where the mode uses it and there is one,
/// else the built-in icon.
pub open spec fn chosen_icon_of(mode: IconMode, cached: Option<Seq<u8>>, builtin: Seq<u8>) -> Seq<u8> {
    if mode != IconMode::Default {
        match cached {
            Some(b) => b,
            None => builtin,
        }
    } else {
        builtin
    }
}

pub open spec fn opt_bytes(o: Option<Vec<u8>>) -> Option<Seq<u8>> {
    match o {
        Some(b) => Some(b@),
        None => None,
    }
}

pub fn slice_to_vec(s: &[u8]) -> (r: Vec<u8>)
    ensures
        r@ == s@,
{
    let mut r: Vec<u8> = Vec::new();
    let mut i: usize = 0;
    while i < s.len()
        invariant
            i <= s.len(),
            r@ =~= s@.subrange(0, i as int),
        decreases s.len() - i,
    {
        r.push(s[i]);
        i = i + 1;
    }
    r
}

/// The icon in effect is the cached icon in Auto and Upload mode alike whenever one
/// is cached, and the built-in icon in Default mode or where nothing is cached.
pub proof fn lemma_chosen_icon_cases(mode: IconMode, cached: Option<Seq<u8>>, builtin: Seq<u8>)
    ensures
        (mode == IconMode::Auto || mode == IconMode::Upload) && cached is Some ==> chosen_icon_of(
            mode,
            cached,
            builtin,
        ) == cached->0,
        mode == IconMode::Default ==> chosen_icon_of(mode, cached, builtin) == builtin,
        cached is None ==> chosen_icon_of(mode, cached, builtin) == builtin,
{
}

pub fn chosen_icon(mode: IconMode, cached: Option<Vec<u8>>, builtin: &[u8]) -> (r: Vec<u8>)
    ensures
        r@ == chosen_icon_of(mode, opt_bytes(cached), builtin@),
        (mode == IconMode::Auto || mode == IconMode::Upload) && cached is Some ==> r@
            == cached->0@,
        mode == IconMode::Default || cached is None ==> r@ == builtin@,
{
    if mode != IconMode::Default {
        match cached {
            Some(b) => b,
            None => slice_to_vec(builtin),
        }
    } else {
        slice_to_vec(builtin)
    }
}

}
