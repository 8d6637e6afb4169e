use simple_translate::settings::{
    autostart_action, settings_for_save, settings_from_store, AutostartAction, ConfigCache,
    Settings,
};

#[test]
fn defaults_match_the_documented_values() {
    let s = Settings::default();
    assert_eq!(s.api_key, "");
    assert_eq!(s.auto_close_timeout, 1500);
    assert_eq!(s.source_lang, "EN");
    assert_eq!(s.target_lang, "ZH");
    assert!(s.first_run);
    assert_eq!(s.shortcut, "Ctrl+Q");
    assert!(!s.auto_start);
}

#[test]
fn save_then_read_round_trips_every_field() {
    let saved = Settings {
        api_key: "k-123".to_string(),
        auto_close_timeout: 2500,
        source_lang: "DE".to_string(),
        target_lang: "FR".to_string(),
        first_run: false,
        shortcut: "Alt+F4".to_string(),
        auto_start: true,
    };
    let mut cache = ConfigCache::new();
    cache.install(saved.clone());
    let got = cache.read();
    assert_eq!(got.api_key, saved.api_key);
    assert_eq!(got.auto_close_timeout, saved.auto_close_timeout);
    assert_eq!(got.source_lang, saved.source_lang);
    assert_eq!(got.target_lang, saved.target_lang);
    assert_eq!(got.first_run, saved.first_run);
    assert_eq!(got.shortcut, saved.shortcut);
    assert_eq!(got.auto_start, saved.auto_start);
}

#[test]
fn load_with_only_api_key_yields_defaults_for_the_rest() {
    let s = settings_from_store(
        Some("secret".to_string()),
        None,
        None,
        None,
        None,
        None,
        None,
    );
    assert_eq!(s.api_key, "secret");
    assert_eq!(s.auto_close_timeout, 1500);
    assert_eq!(s.source_lang, "EN");
    assert_eq!(s.target_lang, "ZH");
    assert!(s.first_run);
    assert_eq!(s.shortcut, "Ctrl+Q");
    assert!(!s.auto_start);
}

#[test]
fn load_keeps_every_stored_field() {
    let s = settings_from_store(
        Some("k".to_string()),
        Some(99),
        Some("JA".to_string()),
        Some("KO".to_string()),
        Some(false),
        Some("Shift+5".to_string()),
        Some(true),
    );
    assert_eq!(s.api_key, "k");
    assert_eq!(s.auto_close_timeout, 99);
    assert_eq!(s.source_lang, "JA");
    assert_eq!(s.target_lang, "KO");
    assert!(!s.first_run);
    assert_eq!(s.shortcut, "Shift+5");
    assert!(s.auto_start);
}

#[test]
fn saving_clears_the_first_run_flag() {
    let s = settings_for_save(
        "k".to_string(),
        1000,
        "EN".to_string(),
        "ZH".to_string(),
        "Ctrl+Q".to_string(),
        false,
    );
    assert!(!s.first_run);
    assert_eq!(s.api_key, "k");
    assert_eq!(s.auto_close_timeout, 1000);
}

#[test]
fn fresh_cache_holds_the_defaults() {
    let cache = ConfigCache::new();
    let s = cache.read();
    assert_eq!(s.shortcut, "Ctrl+Q");
    assert!(s.first_run);
}

#[test]
fn autostart_disable_is_skipped_when_not_registered() {
    assert_eq!(autostart_action(true, false), AutostartAction::Enable);
    assert_eq!(autostart_action(true, true), AutostartAction::Enable);
    assert_eq!(autostart_action(false, true), AutostartAction::Disable);
    assert_eq!(autostart_action(false, false), AutostartAction::Keep);
}
