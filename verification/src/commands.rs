use vstd::prelude::*;

use crate::config::{config_from_form, input_url_error, ConfigInput, IconMode, LauncherConfig};
use crate::encoding::{base64_encode, png_data_prefix, png_data_url};
use crate::icons::views;
use crate::sources::{chosen_icon, chosen_icon_of, opt_bytes, slice_to_vec};

verus! {

/// The data URL of a PNG, as characters.
pub open spec fn data_url_of(png: Seq<u8>) -> Seq<char> {
    png_data_prefix() + base64_encode(png)
}

pub open spec fn opt_text(o: Option<String>) -> Option<Seq<char>> {
    match o {
        Some(s) => Some(s@),
        None => None,
    }
}

/// What the settings page learns when it opens.
#[derive(Debug)]
pub struct SetupState {
    pub has_config: bool,
    pub config: Option<LauncherConfig>,
    /// The data URL of the icon in effect.
    pub icon_data_url: Option<String>,
}

impl Default for SetupState {
    fn default() -> (r: SetupState)
        ensures
            !r.has_config,
            r.config is None,
            r.icon_data_url is None,
    {
        SetupState { has_config: false, config: None, icon_data_url: None }
    }
}

/// The state for the settings page: the stored settings, if any, and the data URL
/// of the icon in effect for them: none in the built-in mode; otherwise the cached
/// icon, or the built-in one where nothing is cached.
pub fn setup_state(cfg: Option<LauncherConfig>, cached: Option<Vec<u8>>, builtin: &[u8]) -> (r:
    SetupState)
    ensures
        match cfg {
            None => !r.has_config && r.config is None && r.icon_data_url is None,
            Some(c) => {
                &&& r.has_config
                &&& r.config == Some(c)
                &&& opt_text(r.icon_data_url) == if c.icon == IconMode::Default {
                    None
                } else {
                    Some(data_url_of(chosen_icon_of(c.icon, opt_bytes(cached), builtin@)))
                }
            },
        },
{
    match cfg {
        None => SetupState::default(),
        Some(c) => {
            if c.icon == IconMode::Default {
                return SetupState { has_config: true, config: Some(c), icon_data_url: None };
            }
            let png = chosen_icon(c.icon, cached, builtin);
            let url = png_data_url(png.as_slice());
            SetupState { has_config: true, config: Some(c), icon_data_url: Some(url) }
        },
    }
}

/// The outcome of a live favicon probe, for the preview.
#[derive(Debug)]
pub struct ProbeResult {
    pub ok: bool,
    pub data_url: Option<String>,
    pub source: Option<String>,
    pub error: Option<String>,
}

/// The preview answer for a probe outcome: the icon as a data URL with its
/// address, or the error.
pub fn probe_result(outcome: Result<(Vec<u8>, String), String>) -> (r: ProbeResult)
    ensures
        match outcome {
            Ok((png, src)) => {
                &&& r.ok
                &&& opt_text(r.data_url) == Some(data_url_of(png@))
                &&& r.source == Some(src)
                &&& r.error is None
            },
            Err(e) => !r.ok && r.data_url is None && r.source is None && r.error == Some(e),
        },
{
    match outcome {
        Ok((png, src)) => ProbeResult {
            ok: true,
            data_url: Some(png_data_url(png.as_slice())),
            source: Some(src),
            error: None,
        },
        Err(e) => ProbeResult { ok: false, data_url: None, source: None, error: Some(e) },
    }
}

/// The outcome of saving the settings (and maybe restarting).
#[derive(Debug)]
pub struct SaveResult {
    pub saved: bool,
    pub launched: bool,
    /// The data URL of the icon in effect after saving.
    pub icon_data_url: Option<String>,
    pub warnings: Vec<String>,
    pub error: Option<String>,
}

impl Default for SaveResult {
    fn default() -> (r: SaveResult)
        ensures
            !r.saved,
            !r.launched,
            r.icon_data_url is None,
            r.warnings@.len() == 0,
            r.error is None,
    {
        SaveResult {
            saved: false,
            launched: false,
            icon_data_url: None,
            warnings: Vec::new(),
            error: None,
        }
    }
}

/// A save refused with `e`: nothing saved, no icon, no warnings.
pub open spec fn refused_with(r: SaveResult, e: Seq<char>) -> bool {
    &&& !r.saved
    &&& !r.launched
    &&& r.icon_data_url is None
    &&& r.warnings@.len() == 0
    &&& opt_text(r.error) == Some(e)
}

/// A save refused with `e`.
pub fn refused_save(e: String) -> (r: SaveResult)
    ensures
        refused_with(r, e@),
{
    SaveResult {
        saved: false,
        launched: false,
        icon_data_url: None,
        warnings: Vec::new(),
        error: Some(e),
    }
}

pub open spec fn msg_cache_failed() -> Seq<char> {
    "图标缓存失败: "@
}

pub open spec fn msg_icon_fallback() -> Seq<char> {
    "图标获取失败，已使用默认图标："@
}

pub open spec fn msg_relaunch_failed() -> Seq<char> {
    "重启失败: "@
}

/// Where a save stands.
#[derive(Clone, Copy, Debug, PartialEq, Eq, Structural)]
pub enum SaveStage {
    /// Waiting for the icon of the new settings.
    Icon,
    /// Waiting for the icon cache to be cleared.
    ClearingCache,
    /// Waiting for the icon cache to be written.
    StoringCache,
    /// Waiting for the settings file to be written.
    Persist,
    /// Waiting for the desktop entry, desktop icon and tray to be brought in line.
    Sync,
    /// Waiting for the restart.
    Relaunch,
    /// Finished.
    Done,
}

/// What the outside world reports back during a save.
pub enum SaveEvent {
    /// The icon of the settings (PNG and where it came from), or why there is none.
    IconResolved(Result<(Vec<u8>, Option<String>), String>),
    /// The icon cache was written, or why not.
    Cached(Result<(), String>),
    /// The icon cache was cleared.
    Cleared,
    /// The settings file was written, or why not.
    Saved(Result<(), String>),
    /// Desktop entry, desktop icon and tray were brought in line.
    Synced,
    /// The restart was started, or why not.
    Relaunched(Result<(), String>),
}

/// What to do next during a save.
pub enum SaveAction {
    /// Find the icon of `cfg` (with the uploaded picture, if any).
    ResolveIcon,
    /// Remove the cached icon.
    ClearCache,
    /// Write this PNG as the cached icon.
    CachePng(Vec<u8>),
    /// Write `cfg` as the settings file.
    SaveConfig,
    /// Write this PNG as the desktop icon, rewrite the desktop entry, rebuild the tray.
    SyncDesktop(Vec<u8>),
    /// Restart the application.
    Relaunch,
    /// The save is over, with this answer.
    Finish(SaveResult),
}

/// Whether `e` starts with `prefix`.
pub open spec fn starts_with(e: Seq<char>, prefix: Seq<char>) -> bool {
    prefix.len() <= e.len() && e.subrange(0, prefix.len() as int) == prefix
}

/// What every answer of a save keeps, for a save that was asked to restart
/// (`launch`) or not: no error means saved, and launched exactly when asked; a
/// restart only after saving and when asked; a save that did not happen carries its
/// error and nothing else; a save that did not restart when asked says why.
pub open spec fn answer_consistent(r: SaveResult, launch: bool) -> bool {
    &&& r.error is None ==> r.saved && r.launched == launch
    &&& r.launched ==> r.saved && launch
    &&& !r.saved ==> r.error is Some && r.warnings@.len() == 0 && r.icon_data_url is None
    &&& (r.saved && launch && !r.launched) ==> (r.error matches Some(e) && starts_with(
        e@,
        msg_relaunch_failed(),
    ))
}

/// A copy of a list of strings.
pub fn copy_texts(v: &Vec<String>) -> (r: Vec<String>)
    ensures
        views(r@) == views(v@),
{
    let mut r: Vec<String> = Vec::new();
    let mut i: usize = 0;
    while i < v.len()
        invariant
            i <= v.len(),
            views(r@) =~= views(v@.subrange(0, i as int)),
        decreases v.len() - i,
    {
        let ghost before = r@;
        let c = v[i].clone();
        assert(c@ == v@[i as int]@);
        r.push(c);
        assert(views(r@) =~= views(before).push(v@[i as int]@));
        assert(v@.subrange(0, i + 1) =~= v@.subrange(0, i as int).push(v@[i as int]));
        i = i + 1;
        assert(views(r@) =~= views(v@.subrange(0, i as int)));
    }
    assert(v@.subrange(0, v.len() as int) =~= v@);
    r
}

/// Saving the settings form: normalize, find the icon, cache it, write the settings,
/// bring the desktop in line, and restart when asked.
pub struct SaveFlow {
    pub cfg: LauncherConfig,
    pub upload: Option<String>,
    pub launch: bool,
    pub builtin: Vec<u8>,
    pub stage: SaveStage,
    /// The icon that takes effect, where one was had.
    pub effective_png: Option<Vec<u8>>,
    /// The data URL of the icon in effect: none in the built-in mode and where no
    /// icon could be had.
    pub icon_data_url: Option<String>,
    pub warnings: Vec<String>,
}

impl SaveFlow {
    /// The restart stage is only reached when a restart was asked for.
    pub open spec fn wf(&self) -> bool {
        self.stage == SaveStage::Relaunch ==> self.launch
    }

    /// Whether `ev` answers what the flow waits for in its present stage.
    pub open spec fn accepts(&self, ev: SaveEvent) -> bool {
        match ev {
            SaveEvent::IconResolved(_) => self.stage == SaveStage::Icon,
            SaveEvent::Cached(_) => self.stage == SaveStage::StoringCache,
            SaveEvent::Cleared => self.stage == SaveStage::ClearingCache,
            SaveEvent::Saved(_) => self.stage == SaveStage::Persist,
            SaveEvent::Synced => self.stage == SaveStage::Sync,
            SaveEvent::Relaunched(_) => self.stage == SaveStage::Relaunch,
        }
    }

    /// The answer of a save that got the settings written.
    pub open spec fn finished(&self, r: SaveResult, launched: bool, error: Option<Seq<char>>) -> bool {
        &&& r.saved
        &&& r.launched == launched
        &&& r.icon_data_url == self.icon_data_url
        &&& views(r.warnings@) == views(self.warnings@)
        &&& opt_text(r.error) == error
    }

    /// Starts saving the form `input`; `launch` asks for a restart afterwards and
    /// `builtin` is the built-in icon. A form that does not normalize is refused
    /// with its error; else the first step resolves the icon.
    pub fn begin(input: ConfigInput, launch: bool, builtin: Vec<u8>) -> (r: Result<
        (SaveFlow, SaveAction),
        SaveResult,
    >)
        ensures
            match r {
                Err(res) => {
                    &&& input_url_error(input.url@) matches Some(e) && refused_with(res, e)
                    &&& answer_consistent(res, launch)
                },
                Ok((f, a)) => {
                    &&& input_url_error(input.url@) is None
                    &&& config_from_form(input, f.cfg)
                    &&& f.upload == input.upload_icon
                    &&& f.launch == launch
                    &&& f.builtin == builtin
                    &&& f.stage == SaveStage::Icon
                    &&& f.effective_png is None
                    &&& f.icon_data_url is None
                    &&& f.warnings@.len() == 0
                    &&& f.wf()
                    &&& a is ResolveIcon
                },
            },
    {
        let mut input = input;
        match input.normalize() {
            Err(e) => {
                return Err(refused_save(e));
            },
            Ok(()) => {},
        }
        let upload = input.upload_icon.clone();
        let cfg = input.into_config();
        let flow = SaveFlow {
            cfg,
            upload,
            launch,
            builtin,
            stage: SaveStage::Icon,
            effective_png: None,
            icon_data_url: None,
            warnings: Vec::new(),
        };
        Ok((flow, SaveAction::ResolveIcon))
    }

    /// Takes the answer to the last action and says what to do next.
    pub fn advance(&mut self, ev: SaveEvent) -> (a: SaveAction)
        requires
            old(self).wf(),
            old(self).accepts(ev),
        ensures
            final(self).wf(),
            final(self).cfg == old(self).cfg,
            final(self).launch == old(self).launch,
            final(self).builtin == old(self).builtin,
            a matches SaveAction::Finish(r) ==> answer_consistent(r, old(self).launch),
            match ev {
                SaveEvent::IconResolved(Ok((png, _))) => {
                    &&& opt_bytes(final(self).effective_png) == Some(png@)
                    &&& views(final(self).warnings@) == views(old(self).warnings@)
                    &&& if old(self).cfg.icon == IconMode::Default {
                        &&& final(self).icon_data_url is None
                        &&& final(self).stage == SaveStage::ClearingCache
                        &&& a is ClearCache
                    } else {
                        &&& opt_text(final(self).icon_data_url) == Some(data_url_of(png@))
                        &&& final(self).stage == SaveStage::StoringCache
                        &&& a matches SaveAction::CachePng(p) && p@ == png@
                    }
                },
                SaveEvent::IconResolved(Err(e)) => {
                    &&& opt_bytes(final(self).effective_png) == opt_bytes(old(self).effective_png)
                    &&& final(self).icon_data_url is None
                    &&& if old(self).cfg.icon != IconMode::Default {
                        &&& views(final(self).warnings@) == views(old(self).warnings@).push(
                            msg_icon_fallback() + e@,
                        )
                        &&& final(self).stage == SaveStage::ClearingCache
                        &&& a is ClearCache
                    } else {
                        &&& views(final(self).warnings@) == views(old(self).warnings@)
                        &&& final(self).stage == SaveStage::Persist
                        &&& a is SaveConfig
                    }
                },
                SaveEvent::Cached(res) => {
                    &&& opt_bytes(final(self).effective_png) == opt_bytes(old(self).effective_png)
                    &&& final(self).icon_data_url == old(self).icon_data_url
                    &&& match res {
                        Ok(()) => views(final(self).warnings@) == views(old(self).warnings@),
                        Err(e) => views(final(self).warnings@) == views(
                            old(self).warnings@,
                        ).push(msg_cache_failed() + e@),
                    }
                    &&& final(self).stage == SaveStage::Persist
                    &&& a is SaveConfig
                },
                SaveEvent::Cleared => {
                    &&& opt_bytes(final(self).effective_png) == opt_bytes(old(self).effective_png)
                    &&& final(self).icon_data_url == old(self).icon_data_url
                    &&& views(final(self).warnings@) == views(old(self).warnings@)
                    &&& final(self).stage == SaveStage::Persist
                    &&& a is SaveConfig
                },
                SaveEvent::Saved(Err(e)) => {
                    &&& final(self).stage == SaveStage::Done
                    &&& a matches SaveAction::Finish(r) && refused_with(r, e@)
                },
                SaveEvent::Saved(Ok(())) => {
                    &&& opt_bytes(final(self).effective_png) == opt_bytes(old(self).effective_png)
                    &&& final(self).icon_data_url == old(self).icon_data_url
                    &&& views(final(self).warnings@) == views(old(self).warnings@)
                    &&& final(self).stage == SaveStage::Sync
                    &&& a matches SaveAction::SyncDesktop(p) && p@ == match old(
                        self,
                    ).effective_png {
                        Some(q) => q@,
                        None => old(self).builtin@,
                    }
                },
                SaveEvent::Synced => {
                    &&& final(self).icon_data_url == old(self).icon_data_url
                    &&& views(final(self).warnings@) == views(old(self).warnings@)
                    &&& if old(self).launch {
                        final(self).stage == SaveStage::Relaunch && a is Relaunch
                    } else {
                        &&& final(self).stage == SaveStage::Done
                        &&& a matches SaveAction::Finish(r) && old(self).finished(r, false, None)
                    }
                },
                SaveEvent::Relaunched(res) => {
                    &&& final(self).stage == SaveStage::Done
                    &&& a matches SaveAction::Finish(r) && match res {
                        Ok(()) => old(self).finished(r, true, None),
                        Err(e) => old(self).finished(r, false, Some(msg_relaunch_failed() + e@)),
                    }
                },
            },
    {
        match ev {
            SaveEvent::IconResolved(Ok((png, _source))) => {
                if self.cfg.icon == IconMode::Default {
                    self.icon_data_url = None;
                    self.stage = SaveStage::ClearingCache;
                    self.effective_png = Some(png);
                    SaveAction::ClearCache
                } else {
                    self.icon_data_url = Some(png_data_url(png.as_slice()));
                    self.stage = SaveStage::StoringCache;
                    let copy = slice_to_vec(png.as_slice());
                    self.effective_png = Some(png);
                    SaveAction::CachePng(copy)
                }
            },
            SaveEvent::IconResolved(Err(e)) => {
                self.icon_data_url = None;
                if self.cfg.icon != IconMode::Default {
                    let mut w = String::from_str("图标获取失败，已使用默认图标：");
                    w.append(e.as_str());
                    let ghost before = views(self.warnings@);
                    self.warnings.push(w);
                    assert(views(self.warnings@) =~= before.push(msg_icon_fallback() + e@));
                    self.stage = SaveStage::ClearingCache;
                    SaveAction::ClearCache
                } else {
                    self.stage = SaveStage::Persist;
                    SaveAction::SaveConfig
                }
            },
            SaveEvent::Cached(res) => {
                match res {
                    Ok(()) => {},
                    Err(e) => {
                        let mut w = String::from_str("图标缓存失败: ");
                        w.append(e.as_str());
                        let ghost before = views(self.warnings@);
                        self.warnings.push(w);
                        assert(views(self.warnings@) =~= before.push(msg_cache_failed() + e@));
                    },
                }
                self.stage = SaveStage::Persist;
                SaveAction::SaveConfig
            },
            SaveEvent::Cleared => {
                self.stage = SaveStage::Persist;
                SaveAction::SaveConfig
            },
            SaveEvent::Saved(Err(e)) => {
                self.stage = SaveStage::Done;
                SaveAction::Finish(refused_save(e))
            },
            SaveEvent::Saved(Ok(())) => {
                self.stage = SaveStage::Sync;
                let png = match &self.effective_png {
                    Some(q) => slice_to_vec(q.as_slice()),
                    None => slice_to_vec(self.builtin.as_slice()),
                };
                SaveAction::SyncDesktop(png)
            },
            SaveEvent::Synced => {
                if self.launch {
                    self.stage = SaveStage::Relaunch;
                    SaveAction::Relaunch
                } else {
                    self.stage = SaveStage::Done;
                    SaveAction::Finish(self.answer(false, None))
                }
            },
            SaveEvent::Relaunched(res) => {
                self.stage = SaveStage::Done;
                match res {
                    Ok(()) => SaveAction::Finish(self.answer(true, None)),
                    Err(e) => {
                        let mut m = String::from_str("重启失败: ");
                        m.append(e.as_str());
                        proof {
                            assert((msg_relaunch_failed() + e@).subrange(
                                0,
                                msg_relaunch_failed().len() as int,
                            ) =~= msg_relaunch_failed());
                        }
                        SaveAction::Finish(self.answer(false, Some(m)))
                    },
                }
            },
        }
    }

    fn answer(&self, launched: bool, error: Option<String>) -> (r: SaveResult)
        ensures
            self.finished(r, launched, opt_text(error)),
    {
        let icon_data_url = match &self.icon_data_url {
            Some(u) => Some(u.clone()),
            None => None,
        };
        SaveResult {
            saved: true,
            launched,
            icon_data_url,
            warnings: copy_texts(&self.warnings),
            error,
        }
    }
}

}
