use vstd::prelude::*;

use crate::config::{clamp_int, clamp_u8, LauncherConfig, MAX_OPACITY, MIN_OPACITY};
use crate::text::{digit, digit_exec, push_char};

verus! {

pub const MAIN_LABEL: &'static str = "main";

pub const CONFIG_LABEL: &'static str = "config";

/// The event that the floating bar of the remote page sends to open the settings.
pub const SETTINGS_EVENT: &'static str = "open-settings";

pub const USER_AGENT: &'static str = "Mozilla/5.0 (X11; Linux x86_64) AppleWebKit/537.36 (KHTML, like Gecko) Chrome/126.0.0.0 Safari/537.36";


/// The shortest decimal text of `n / 100` for `10 <= n <= 100`: `1`, `0.d` or
/// `0.dd` (what `f64`'s `Display` prints for that quotient).
pub open spec fn percent_text(n: int) -> Seq<char> {
    if n >= 100 {
        seq!['1']
    } else if n % 10 == 0 {
        seq!['0', '.', digit(n / 10)]
    } else {
        seq!['0', '.', digit(n / 10), digit(n % 10)]
    }
}

/// The opacity, clamped to 10..=100 percent, as a CSS fraction.
pub open spec fn opacity_text_of(opacity: u8) -> Seq<char> {
    percent_text(clamp_int(opacity as int, MIN_OPACITY as int, MAX_OPACITY as int))
}


/// The opacity, clamped to 10..=100 percent, as a CSS fraction (`0.1` ... `1`).
pub fn opacity_text(opacity: u8) -> (r: String)
    ensures
        r@ == opacity_text_of(opacity),
{
    let n = clamp_u8(opacity, MIN_OPACITY, MAX_OPACITY);
    let mut r = String::new();
    if n >= 100 {
        push_char(&mut r, '1');
    } else {
        push_char(&mut r, '0');
        push_char(&mut r, '.');
        push_char(&mut r, digit_exec(n / 10));
        if n % 10 != 0 {
            push_char(&mut r, digit_exec(n % 10));
        }
    }
    assert(r@ =~= opacity_text_of(opacity));
    r
}

pub open spec fn live_opacity_script_of(opacity: u8) -> Seq<char> {
    "(function(){var b=document.body;if(b)b.style.opacity='"@ + opacity_text_of(opacity)
        + "';})()"@
}

/// The script that sets the page's opacity while the slider moves.
pub fn live_opacity_script(opacity: u8) -> (r: String)
    ensures
        r@ == live_opacity_script_of(opacity),
{
    let mut r = String::from_str("(function(){var b=document.body;if(b)b.style.opacity='");
    let t = opacity_text(opacity);
    r.append(t.as_str());
    r.append("';})()");
    r
}

pub open spec fn translucency_script_of(opacity: u8) -> Seq<char> {
    "(function(){function f(){var h=document.head;if(!h)return false;if(document.getElementById('__dsh_opacity__'))return true;var s=document.createElement('style');s.id='__dsh_opacity__';s.textContent='html{background-color:transparent!important;}body{opacity:"@
        + opacity_text_of(opacity)
        + "!important;}';h.appendChild(s);return true;}if(!f())document.addEventListener('DOMContentLoaded',f,{once:true});})();"@
}

/// The start-up script of a translucent window: the page body at the opacity.
pub fn translucency_script(opacity: u8) -> (r: String)
    ensures
        r@ == translucency_script_of(opacity),
{
    let mut r = String::from_str(
        "(function(){function f(){var h=document.head;if(!h)return false;if(document.getElementById('__dsh_opacity__'))return true;var s=document.createElement('style');s.id='__dsh_opacity__';s.textContent='html{background-color:transparent!important;}body{opacity:",
    );
    let t = opacity_text(opacity);
    r.append(t.as_str());
    r.append(
        "!important;}';h.appendChild(s);return true;}if(!f())document.addEventListener('DOMContentLoaded',f,{once:true});})();",
    );
    r
}

/// The start-up script that makes the page's root background transparent, leaving
/// text and content opaque.
pub open spec fn background_script_of() -> Seq<char> {
    "(function(){function f(){var h=document.head;if(!h)return false;if(document.getElementById('__dsh_bg__'))return true;var s=document.createElement('style');s.id='__dsh_bg__';s.textContent='html,body{background:transparent!important;background-color:transparent!important;}';h.appendChild(s);return true;}if(!f())document.addEventListener('DOMContentLoaded',f,{once:true});})();"@
}

pub fn background_script() -> (r: String)
    ensures
        r@ == background_script_of(),
{
    String::from_str(
        "(function(){function f(){var h=document.head;if(!h)return false;if(document.getElementById('__dsh_bg__'))return true;var s=document.createElement('style');s.id='__dsh_bg__';s.textContent='html,body{background:transparent!important;background-color:transparent!important;}';h.appendChild(s);return true;}if(!f())document.addEventListener('DOMContentLoaded',f,{once:true});})();",
    )
}

/// How the main window is built.
pub struct WindowStyle {
    /// Window frame and title bar.
    pub decorations: bool,
    /// Transparent window canvas.
    pub transparent: bool,
    /// The idle-callback polyfill and the floating control bar are injected.
    pub immersive_scripts: bool,
    /// The translucency script, for a window below full opacity.
    pub opacity_script: Option<String>,
    /// The transparent-background script, for `bg_transparent`.
    pub background_script: Option<String>,
}

/// Whether the main window of `cfg` is translucent.
pub open spec fn translucent_of(cfg: LauncherConfig) -> bool {
    cfg.opacity < 100
}

/// The main window is translucent exactly when its opacity is below 100 percent,
/// whatever else its settings say.
pub proof fn lemma_translucent_below_full(cfg: LauncherConfig)
    ensures
        translucent_of(cfg) <==> cfg.opacity < 100,
        cfg.opacity <= 99 ==> translucent_of(cfg),
        cfg.opacity >= 100 ==> !translucent_of(cfg),
{
}

/// The main window's style: immersive windows are frameless and transparent with
/// the control bar; a window below full opacity gets a transparent canvas and the
/// translucency script; a transparent page background gets a transparent canvas
/// and the background script.
pub fn window_style(cfg: &LauncherConfig) -> (r: WindowStyle)
    ensures
        r.decorations == !cfg.immersive,
        r.transparent == (cfg.immersive || cfg.opacity < 100 || cfg.bg_transparent),
        r.immersive_scripts == cfg.immersive,
        match r.opacity_script {
            Some(s) => translucent_of(*cfg) && s@ == translucency_script_of(cfg.opacity),
            None => !translucent_of(*cfg),
        },
        r.opacity_script is Some <==> cfg.opacity < 100,
        match r.background_script {
            Some(s) => cfg.bg_transparent && s@ == background_script_of(),
            None => !cfg.bg_transparent,
        },
{
    let mut translucent = false;
    let mut decorations = true;
    let mut transparent = false;
    if cfg.immersive {
        decorations = false;
        transparent = true;
        translucent = cfg.opacity < 100;
    } else if cfg.opacity < 100 {
        transparent = true;
        translucent = true;
    }
    if cfg.bg_transparent {
        transparent = true;
    }
    let background_script = if cfg.bg_transparent {
        Some(background_script())
    } else {
        None
    };
    let opacity_script = if translucent {
        Some(translucency_script(cfg.opacity))
    } else {
        None
    };
    WindowStyle {
        decorations,
        transparent,
        immersive_scripts: cfg.immersive,
        opacity_script,
        background_script,
    }
}

}
