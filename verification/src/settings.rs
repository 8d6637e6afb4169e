//! The application settings and the in-memory mirror of the persisted
//! store. The mirror is the single source of truth consulted by the hot
//! paths; it is replaced wholesale on a load and after a successful save.
use vstd::prelude::*;
use vstd::string::StringExecFns;

verus! {

/// The persisted settings, with one field per stored key.
pub struct Settings {
    pub api_key: String,
    pub auto_close_timeout: u64,
    pub source_lang: String,
    pub target_lang: String,
    pub first_run: bool,
    pub shortcut: String,
    pub auto_start: bool,
}

impl Clone for Settings {
    fn clone(&self) -> (r: Settings)
        ensures
            r == *self,
    {
        Settings {
            api_key: self.api_key.clone(),
            auto_close_timeout: self.auto_close_timeout,
            source_lang: self.source_lang.clone(),
            target_lang: self.target_lang.clone(),
            first_run: self.first_run,
            shortcut: self.shortcut.clone(),
            auto_start: self.auto_start,
        }
    }
}

/// The defaults used when a field is absent from the store.
pub open spec fn is_default_settings(s: Settings) -> bool {
    &&& s.api_key@ == Seq::<char>::empty()
    &&& s.auto_close_timeout == 1500
    &&& s.source_lang@ == "EN"@
    &&& s.target_lang@ == "ZH"@
    &&& s.first_run == true
    &&& s.shortcut@ == "Ctrl+Q"@
    &&& s.auto_start == false
}

impl Default for Settings {
    /// The settings of a fresh installation.
    fn default() -> (r: Settings)
        ensures
            is_default_settings(r),
    {
        Settings {
            api_key: String::new(),
            auto_close_timeout: 1500,
            source_lang: String::from_str("EN"),
            target_lang: String::from_str("ZH"),
            first_run: true,
            shortcut: String::from_str("Ctrl+Q"),
            auto_start: false,
        }
    }
}

/// Builds the settings a load yields: each field the stored value when
/// present, the documented default when absent.
pub fn settings_from_store(
    api_key: Option<String>,
    auto_close_timeout: Option<u64>,
    source_lang: Option<String>,
    target_lang: Option<String>,
    first_run: Option<bool>,
    shortcut: Option<String>,
    auto_start: Option<bool>,
) -> (r: Settings)
    ensures
        api_key matches Some(v) ==> r.api_key == v,
        api_key is None ==> r.api_key@ == Seq::<char>::empty(),
        auto_close_timeout matches Some(v) ==> r.auto_close_timeout == v,
        auto_close_timeout is None ==> r.auto_close_timeout == 1500,
        source_lang matches Some(v) ==> r.source_lang == v,
        source_lang is None ==> r.source_lang@ == "EN"@,
        target_lang matches Some(v) ==> r.target_lang == v,
        target_lang is None ==> r.target_lang@ == "ZH"@,
        first_run matches Some(v) ==> r.first_run == v,
        first_run is None ==> r.first_run == true,
        shortcut matches Some(v) ==> r.shortcut == v,
        shortcut is None ==> r.shortcut@ == "Ctrl+Q"@,
        auto_start matches Some(v) ==> r.auto_start == v,
        auto_start is None ==> r.auto_start == false,
{
    Settings {
        api_key: match api_key {
            Some(v) => v,
            None => String::new(),
        },
        auto_close_timeout: match auto_close_timeout {
            Some(v) => v,
            None => 1500,
        },
        source_lang: match source_lang {
            Some(v) => v,
            None => String::from_str("EN"),
        },
        target_lang: match target_lang {
            Some(v) => v,
            None => String::from_str("ZH"),
        },
        first_run: match first_run {
            Some(v) => v,
            None => true,
        },
        shortcut: match shortcut {
            Some(v) => v,
            None => String::from_str("Ctrl+Q"),
        },
        auto_start: match auto_start {
            Some(v) => v,
            None => false,
        },
    }
}

/// Builds the settings a save persists from the fields the caller submits;
/// a save always clears the first-run flag.
pub fn settings_for_save(
    api_key: String,
    auto_close_timeout: u64,
    source_lang: String,
    target_lang: String,
    shortcut: String,
    auto_start: bool,
) -> (r: Settings)
    ensures
        r.api_key == api_key,
        r.auto_close_timeout == auto_close_timeout,
        r.source_lang == source_lang,
        r.target_lang == target_lang,
        r.first_run == false,
        r.shortcut == shortcut,
        r.auto_start == auto_start,
{
    Settings {
        api_key,
        auto_close_timeout,
        source_lang,
        target_lang,
        first_run: false,
        shortcut,
        auto_start,
    }
}

/// The in-memory mirror of the persisted settings.
///
/// Ordering on a save is the caller's duty: persist first, and only then
/// `install` the new value, so the mirror never runs ahead of the store; on
/// a failed persist, do not install, so the mirror is left unchanged.
pub struct ConfigCache {
    pub current: Settings,
}

impl ConfigCache {
    /// A mirror holding the defaults, as at process start.
    pub fn new() -> (r: ConfigCache)
        ensures
            is_default_settings(r.current),
    {
        ConfigCache { current: Settings::default() }
    }

    /// A copy of the mirrored settings.
    pub fn read(&self) -> (r: Settings)
        ensures
            r == self.current,
    {
        self.current.clone()
    }

    /// Replaces the mirror wholesale, after a successful load or persist.
    pub fn install(&mut self, s: Settings)
        ensures
            final (self).current == s,
    {
        self.current = s;
    }
}

/// What an autostart update must do to the launch registration.
#[derive(Clone, Copy, PartialEq, Eq, Structural, Debug)]
pub enum AutostartAction {
    /// Register the application to start at login.
    Enable,
    /// Remove the registration.
    Disable,
    /// Leave the registration alone.
    Keep,
}

/// Decides the autostart update: enabling always registers; disabling
/// removes the registration only when one is present, so that removing a
/// missing registration is never attempted.
pub fn autostart_action(enable: bool, currently_enabled: bool) -> (r: AutostartAction)
    ensures
        enable ==> r == AutostartAction::Enable,
        !enable && currently_enabled ==> r == AutostartAction::Disable,
        !enable && !currently_enabled ==> r == AutostartAction::Keep,
{
    if enable {
        AutostartAction::Enable
    } else if currently_enabled {
        AutostartAction::Disable
    } else {
        AutostartAction::Keep
    }
}

/// Law: a save followed by a read yields the saved settings, equal in
/// every field. The hypotheses are exactly what `install` and `read`
/// ensure for the save and the read.
pub proof fn lemma_save_then_read(after: ConfigCache, saved: Settings, got: Settings)
    requires
        after.current == saved,
        got == after.current,
    ensures
        got == saved,
        got.api_key@ == saved.api_key@,
        got.auto_close_timeout == saved.auto_close_timeout,
        got.source_lang@ == saved.source_lang@,
        got.target_lang@ == saved.target_lang@,
        got.first_run == saved.first_run,
        got.shortcut@ == saved.shortcut@,
        got.auto_start == saved.auto_start,
{
}

} // verus!
