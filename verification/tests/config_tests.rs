use lyvoxa::config::{
    apply_env_overrides, config_source_label, decide_apply, discover_all, ensure_active, resolve,
    AppConfig, ApplyAction, ConfigProbe, ConfigSource,
};

fn empty_probe() -> ConfigProbe {
    ConfigProbe {
        override_path: None,
        cwd: None,
        primary_exists: false,
        namespaced_exists: false,
        namespaced_alt_exists: false,
        generic_valid: false,
        system_exists: false,
        xdg_config_home: None,
        home: None,
    }
}

#[test]
fn no_candidates_still_resolves_to_xdg_fallback() {
    let (path, source) = resolve(&empty_probe());
    assert_eq!(source, ConfigSource::Xdg);
    assert_eq!(path, "./.config/lyvoxa/config.toml");
}

#[test]
fn xdg_fallback_uses_home_then_configured_base() {
    let mut p = empty_probe();
    p.home = Some("/home/kim".to_string());
    let (path, source) = resolve(&p);
    assert_eq!(source, ConfigSource::Xdg);
    assert_eq!(path, "/home/kim/.config/lyvoxa/config.toml");

    p.xdg_config_home = Some("/custom/xdg".to_string());
    let (path2, _) = resolve(&p);
    assert_eq!(path2, "/custom/xdg/lyvoxa/config.toml");
}

#[test]
fn explicit_override_wins_over_everything() {
    let mut p = empty_probe();
    p.override_path = Some("/tmp/mine.toml".to_string());
    p.cwd = Some("/repo".to_string());
    p.primary_exists = true;
    p.system_exists = true;
    let (path, source) = resolve(&p);
    assert_eq!(source, ConfigSource::Env);
    assert_eq!(path, "/tmp/mine.toml");
}

#[test]
fn local_candidates_win_in_order() {
    let mut p = empty_probe();
    p.cwd = Some("/repo".to_string());
    p.primary_exists = true;
    p.namespaced_exists = true;
    let (path, source) = resolve(&p);
    assert_eq!(source, ConfigSource::RepoLyvoxaToml);
    assert_eq!(path, "/repo/lyvoxa.toml");

    p.primary_exists = false;
    let (path, source) = resolve(&p);
    assert_eq!(source, ConfigSource::RepoLyvoxaDir);
    assert_eq!(path, "/repo/lyvoxa/config.toml");

    p.namespaced_exists = false;
    p.namespaced_alt_exists = true;
    let (path, source) = resolve(&p);
    assert_eq!(source, ConfigSource::RepoConfigLyvoxaToml);
    assert_eq!(path, "/repo/config/lyvoxa.toml");

    p.namespaced_alt_exists = false;
    p.generic_valid = true;
    let (path, source) = resolve(&p);
    assert_eq!(source, ConfigSource::RepoGenericToml);
    assert_eq!(path, "/repo/config.toml");

    p.generic_valid = false;
    p.system_exists = true;
    let (path, source) = resolve(&p);
    assert_eq!(source, ConfigSource::System);
    assert_eq!(path, "/etc/lyvoxa/config.toml");
}

#[test]
fn discover_lists_candidates_in_precedence_order() {
    let mut p = empty_probe();
    p.override_path = Some("/tmp/o.toml".to_string());
    p.cwd = Some("/repo".to_string());
    p.system_exists = true;
    p.home = Some("/home/kim".to_string());
    let found = discover_all(&p);
    let paths: Vec<&str> = found.iter().map(|(p, _)| p.as_str()).collect();
    assert_eq!(
        paths,
        vec![
            "/tmp/o.toml",
            "/repo/lyvoxa.toml",
            "/repo/lyvoxa/config.toml",
            "/repo/config/lyvoxa.toml",
            "/etc/lyvoxa/config.toml",
            "/home/kim/.config/lyvoxa/config.toml",
        ]
    );
}

#[test]
fn discover_deduplicates_by_path_keeping_first() {
    let mut p = empty_probe();
    // the override points at a local candidate: one entry, highest wins
    p.override_path = Some("/repo/lyvoxa.toml".to_string());
    p.cwd = Some("/repo".to_string());
    let found = discover_all(&p);
    let hits: Vec<&(String, ConfigSource)> =
        found.iter().filter(|(path, _)| path == "/repo/lyvoxa.toml").collect();
    assert_eq!(hits.len(), 1);
    assert_eq!(hits[0].1, ConfigSource::Env);
}

#[test]
fn ensure_active_inserts_missing_path_in_front() {
    let mut p = empty_probe();
    p.cwd = Some("/repo".to_string());
    let found = discover_all(&p);
    let n = found.len();
    let active = "/somewhere/else.toml".to_string();
    let with_active = ensure_active(found, &active, ConfigSource::Env);
    assert_eq!(with_active.len(), n + 1);
    assert_eq!(with_active[0].0, active);
}

#[test]
fn ensure_active_leaves_present_path_alone() {
    let mut p = empty_probe();
    p.cwd = Some("/repo".to_string());
    let found = discover_all(&p);
    let n = found.len();
    let active = "/repo/lyvoxa.toml".to_string();
    let with_active = ensure_active(found, &active, ConfigSource::RepoLyvoxaToml);
    assert_eq!(with_active.len(), n);
}

#[test]
fn default_config_values() {
    let c = AppConfig::default();
    assert_eq!(c.ui_rate_ms, 500);
    assert_eq!(c.data_rate_ms, 5000);
    assert_eq!(c.max_rows, 15);
    assert!(c.show_charts);
    assert!(c.theme.is_none());
    assert!(c.sort.is_none());
}

#[test]
fn env_overrides_apply_for_session_only() {
    let c = AppConfig::default();
    let charts = "FALSE".to_string();
    let r = apply_env_overrides(c, Some(250), Some(10_000), Some(40), Some(&charts));
    assert_eq!(r.ui_rate_ms, 250);
    assert_eq!(r.data_rate_ms, 10_000);
    assert_eq!(r.max_rows, 40);
    assert!(!r.show_charts);

    let c2 = AppConfig::default();
    let zero = "0".to_string();
    assert!(!apply_env_overrides(c2, None, None, None, Some(&zero)).show_charts);

    let c3 = AppConfig::default();
    let truthy = "1".to_string();
    assert!(apply_env_overrides(c3, None, None, None, Some(&truthy)).show_charts);

    let c4 = AppConfig::default();
    let r4 = apply_env_overrides(c4, None, None, None, None);
    assert_eq!(r4.ui_rate_ms, 500);
    assert!(r4.show_charts);
}

#[test]
fn apply_decision_matches_file_state() {
    assert_eq!(decide_apply(true, true), ApplyAction::UseParsed);
    assert_eq!(decide_apply(true, false), ApplyAction::RejectInvalid);
    assert_eq!(decide_apply(false, true), ApplyAction::CreateFromCurrent);
    assert_eq!(decide_apply(false, false), ApplyAction::CreateFromCurrent);
}

#[test]
fn source_labels_are_stable() {
    assert_eq!(config_source_label(ConfigSource::Env), "Env");
    assert_eq!(config_source_label(ConfigSource::RepoLyvoxaToml), "Local (lyvoxa.toml)");
    assert_eq!(config_source_label(ConfigSource::RepoLyvoxaDir), "Local (lyvoxa/config.toml)");
    assert_eq!(
        config_source_label(ConfigSource::RepoConfigLyvoxaToml),
        "Local (config/lyvoxa.toml)"
    );
    assert_eq!(config_source_label(ConfigSource::RepoGenericToml), "Local (config.toml)");
    assert_eq!(config_source_label(ConfigSource::System), "System (/etc)");
    assert_eq!(config_source_label(ConfigSource::Xdg), "XDG (~/.config)");
}
