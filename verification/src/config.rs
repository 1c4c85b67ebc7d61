//! Configuration: the resolved settings, and the deterministic
//! resolution of the persisted file among its candidate locations.
//! Only the value and precedence contract lives here; reading the disk
//! and the environment is the host program's job, which hands the
//! findings over as plain values.

use vstd::prelude::*;
use crate::text;

verus! {

/// The resolved runtime settings.
#[derive(Debug, Clone)]
pub struct AppConfig {
    pub ui_rate_ms: u64,
    pub data_rate_ms: u64,
    pub max_rows: usize,
    pub show_charts: bool,
    pub theme: Option<String>,
    pub sort: Option<String>,
}

impl Default for AppConfig {
    /// The in-memory defaults used when no file is readable.
    fn default() -> (r: AppConfig)
        ensures
            r.ui_rate_ms == 500,
            r.data_rate_ms == 5000,
            r.max_rows == 15,
            r.show_charts == true,
            r.theme is None,
            r.sort is None,
    {
        AppConfig {
            ui_rate_ms: 500,
            data_rate_ms: 5000,
            max_rows: 15,
            show_charts: true,
            theme: None,
            sort: None,
        }
    }
}

/// The location a configuration file was resolved from, highest
/// precedence first.
#[derive(Debug, Clone, Copy, PartialEq, Eq, Structural)]
pub enum ConfigSource {
    Env,
    RepoLyvoxaToml,
    RepoLyvoxaDir,
    RepoConfigLyvoxaToml,
    RepoGenericToml,
    System,
    Xdg,
}

/// A short label for each source, shown in the header and the chooser.
pub fn config_source_label(src: ConfigSource) -> (r: &'static str)
    ensures
        src is Env ==> r@ == "Env"@,
        src is RepoLyvoxaToml ==> r@ == "Local (lyvoxa.toml)"@,
        src is RepoLyvoxaDir ==> r@ == "Local (lyvoxa/config.toml)"@,
        src is RepoConfigLyvoxaToml ==> r@ == "Local (config/lyvoxa.toml)"@,
        src is RepoGenericToml ==> r@ == "Local (config.toml)"@,
        src is System ==> r@ == "System (/etc)"@,
        src is Xdg ==> r@ == "XDG (~/.config)"@,
{
    match src {
        ConfigSource::Env => "Env",
        ConfigSource::RepoLyvoxaToml => "Local (lyvoxa.toml)",
        ConfigSource::RepoLyvoxaDir => "Local (lyvoxa/config.toml)",
        ConfigSource::RepoConfigLyvoxaToml => "Local (config/lyvoxa.toml)",
        ConfigSource::RepoGenericToml => "Local (config.toml)",
        ConfigSource::System => "System (/etc)",
        ConfigSource::Xdg => "XDG (~/.config)",
    }
}

/// What probing the environment and the disk found, as plain values:
/// which candidate files exist, and whether the generic one parses as a
/// valid configuration.
#[derive(Debug, Clone)]
pub struct ConfigProbe {
    pub override_path: Option<String>,
    pub cwd: Option<String>,
    pub primary_exists: bool,
    pub namespaced_exists: bool,
    pub namespaced_alt_exists: bool,
    pub generic_valid: bool,
    pub system_exists: bool,
    pub xdg_config_home: Option<String>,
    pub home: Option<String>,
}

/// The per-user base directory: the configured one, else a default
/// under the home directory, else a relative fallback.
pub open spec fn xdg_base(p: ConfigProbe) -> Seq<char> {
    match p.xdg_config_home {
        Some(x) => x@,
        None => match p.home {
            Some(h) => h@ + "/.config"@,
            None => "./.config"@,
        },
    }
}

pub open spec fn xdg_path(p: ConfigProbe) -> Seq<char> {
    xdg_base(p) + "/lyvoxa/config.toml"@
}

/// The winning source, highest precedence first: explicit override,
/// the three local names, the validated generic file, the system-wide
/// file, and always, as the fallback, the per-user location.
pub open spec fn resolved_source(p: ConfigProbe) -> ConfigSource {
    if p.override_path is Some {
        ConfigSource::Env
    } else if p.cwd is Some && p.primary_exists {
        ConfigSource::RepoLyvoxaToml
    } else if p.cwd is Some && p.namespaced_exists {
        ConfigSource::RepoLyvoxaDir
    } else if p.cwd is Some && p.namespaced_alt_exists {
        ConfigSource::RepoConfigLyvoxaToml
    } else if p.cwd is Some && p.generic_valid {
        ConfigSource::RepoGenericToml
    } else if p.system_exists {
        ConfigSource::System
    } else {
        ConfigSource::Xdg
    }
}

/// The path belonging to the winning source.
pub open spec fn resolved_path(p: ConfigProbe) -> Seq<char> {
    if p.override_path is Some {
        p.override_path->0@
    } else if p.cwd is Some && p.primary_exists {
        p.cwd->0@ + "/lyvoxa.toml"@
    } else if p.cwd is Some && p.namespaced_exists {
        p.cwd->0@ + "/lyvoxa/config.toml"@
    } else if p.cwd is Some && p.namespaced_alt_exists {
        p.cwd->0@ + "/config/lyvoxa.toml"@
    } else if p.cwd is Some && p.generic_valid {
        p.cwd->0@ + "/config.toml"@
    } else if p.system_exists {
        "/etc/lyvoxa/config.toml"@
    } else {
        xdg_path(p)
    }
}

fn xdg_path_exec(p: &ConfigProbe) -> (r: String)
    ensures
        r@ == xdg_path(*p),
{
    let base: String = match &p.xdg_config_home {
        Some(x) => x.clone(),
        None => match &p.home {
            Some(h) => h.clone().concat("/.config"),
            None => "./.config".to_owned(),
        },
    };
    base.concat("/lyvoxa/config.toml")
}

/// Resolve the active configuration location. Exactly one winning
/// source always comes back: with nothing on disk and nothing set, the
/// per-user fallback wins.
pub fn resolve(p: &ConfigProbe) -> (r: (String, ConfigSource))
    ensures
        r.0@ == resolved_path(*p),
        r.1 == resolved_source(*p),
{
    match &p.override_path {
        Some(o) => {
            return (o.clone(), ConfigSource::Env);
        },
        None => {},
    }
    match &p.cwd {
        Some(c) => {
            if p.primary_exists {
                return (c.clone().concat("/lyvoxa.toml"), ConfigSource::RepoLyvoxaToml);
            }
            if p.namespaced_exists {
                return (c.clone().concat("/lyvoxa/config.toml"), ConfigSource::RepoLyvoxaDir);
            }
            if p.namespaced_alt_exists {
                return (c.clone().concat("/config/lyvoxa.toml"), ConfigSource::RepoConfigLyvoxaToml);
            }
            if p.generic_valid {
                return (c.clone().concat("/config.toml"), ConfigSource::RepoGenericToml);
            }
        },
        None => {},
    }
    if p.system_exists {
        return ("/etc/lyvoxa/config.toml".to_owned(), ConfigSource::System);
    }
    (xdg_path_exec(p), ConfigSource::Xdg)
}

/// With no override and no file at any candidate path, resolution still
/// answers, with exactly the lowest-precedence source.
pub proof fn lemma_resolve_fallback(p: ConfigProbe)
    requires
        p.override_path is None,
        !p.primary_exists,
        !p.namespaced_exists,
        !p.namespaced_alt_exists,
        !p.generic_valid,
        !p.system_exists,
    ensures
        resolved_source(p) == ConfigSource::Xdg,
        resolved_path(p) == xdg_path(p),
{
}

/// The explicit override wins whenever it is set, whatever else exists.
pub proof fn lemma_override_wins(p: ConfigProbe)
    requires
        p.override_path is Some,
    ensures
        resolved_source(p) == ConfigSource::Env,
        resolved_path(p) == p.override_path->0@,
{
}

pub open spec fn cand_views(v: Seq<(String, ConfigSource)>) -> Seq<(Seq<char>, ConfigSource)> {
    Seq::new(v.len(), |i: int| (v[i].0@, v[i].1))
}

pub open spec fn has_path(s: Seq<(Seq<char>, ConfigSource)>, p: Seq<char>) -> bool {
    exists|i: int| 0 <= i < s.len() && s[i].0 == p
}

/// Keep-first deduplication by path.
pub open spec fn dedup_paths(s: Seq<(Seq<char>, ConfigSource)>) -> Seq<(Seq<char>, ConfigSource)>
    decreases s.len(),
{
    if s.len() == 0 {
        s
    } else {
        let d = dedup_paths(s.drop_last());
        if has_path(d, s.last().0) {
            d
        } else {
            d.push(s.last())
        }
    }
}

/// Every candidate location, in precedence order, duplicates included.
pub open spec fn candidates(p: ConfigProbe) -> Seq<(Seq<char>, ConfigSource)> {
    (match p.override_path {
        Some(o) => seq![(o@, ConfigSource::Env)],
        None => Seq::<(Seq<char>, ConfigSource)>::empty(),
    }) + (match p.cwd {
        Some(c) => {
            let base = seq![
                (c@ + "/lyvoxa.toml"@, ConfigSource::RepoLyvoxaToml),
                (c@ + "/lyvoxa/config.toml"@, ConfigSource::RepoLyvoxaDir),
                (c@ + "/config/lyvoxa.toml"@, ConfigSource::RepoConfigLyvoxaToml),
            ];
            if p.generic_valid {
                base + seq![(c@ + "/config.toml"@, ConfigSource::RepoGenericToml)]
            } else {
                base
            }
        },
        None => Seq::<(Seq<char>, ConfigSource)>::empty(),
    }) + (if p.system_exists {
        seq![("/etc/lyvoxa/config.toml"@, ConfigSource::System)]
    } else {
        Seq::<(Seq<char>, ConfigSource)>::empty()
    }) + seq![(xdg_path(p), ConfigSource::Xdg)]
}

fn push_unique(out: &mut Vec<(String, ConfigSource)>, path: String, src: ConfigSource)
    ensures
        has_path(cand_views(old(out)@), path@) ==> final(out)@ == old(out)@,
        !has_path(cand_views(old(out)@), path@) ==> final(out)@ == old(out)@.push((path, src)),
{
    let ghost before = out@;
    let mut i: usize = 0;
    let mut found = false;
    while i < out.len()
        invariant
            out@ == before,
            i <= out@.len(),
            found <==> (exists|j: int| 0 <= j < i && cand_views(before)[j].0 == path@),
        decreases out@.len() - i,
    {
        if out[i].0 == path {
            found = true;
            assert(cand_views(before)[i as int].0 == path@);
        }
        i += 1;
    }
    assert(found == has_path(cand_views(before), path@));
    if !found {
        out.push((path, src));
    }
}

/// Discover every candidate location, deduplicated by path, keeping the
/// first (highest-precedence) occurrence of each.
pub fn discover_all(p: &ConfigProbe) -> (r: Vec<(String, ConfigSource)>)
    ensures
        cand_views(r@) == dedup_paths(candidates(*p)),
{
    let mut cands: Vec<(String, ConfigSource)> = Vec::new();
    match &p.override_path {
        Some(o) => {
            cands.push((o.clone(), ConfigSource::Env));
        },
        None => {},
    }
    match &p.cwd {
        Some(c) => {
            cands.push((c.clone().concat("/lyvoxa.toml"), ConfigSource::RepoLyvoxaToml));
            cands.push((c.clone().concat("/lyvoxa/config.toml"), ConfigSource::RepoLyvoxaDir));
            cands.push((c.clone().concat("/config/lyvoxa.toml"), ConfigSource::RepoConfigLyvoxaToml));
            if p.generic_valid {
                cands.push((c.clone().concat("/config.toml"), ConfigSource::RepoGenericToml));
            }
        },
        None => {},
    }
    if p.system_exists {
        cands.push(("/etc/lyvoxa/config.toml".to_owned(), ConfigSource::System));
    }
    cands.push((xdg_path_exec(p), ConfigSource::Xdg));
    assert(cand_views(cands@) =~= candidates(*p));

    let ghost all = cand_views(cands@);
    let mut out: Vec<(String, ConfigSource)> = Vec::new();
    let mut i: usize = 0;
    while i < cands.len()
        invariant
            all == cand_views(cands@),
            i <= cands@.len(),
            cand_views(out@) == dedup_paths(all.take(i as int)),
        decreases cands@.len() - i,
    {
        let ghost out_before = out@;
        let path = cands[i].0.clone();
        let src = cands[i].1;
        assert(path@ == all[i as int].0 && src == all[i as int].1);
        push_unique(&mut out, path, src);
        proof {
            let prefix = all.take(i as int);
            let whole = all.take(i as int + 1);
            assert(whole.drop_last() =~= prefix);
            assert(whole.last() == all[i as int]);
            if has_path(dedup_paths(prefix), all[i as int].0) {
                assert(cand_views(out@) == dedup_paths(whole));
            } else {
                assert(cand_views(out@) =~= dedup_paths(prefix).push(all[i as int]));
            }
        }
        i += 1;
    }
    assert(all.take(cands@.len() as int) =~= all);
    out
}

/// The discovered candidates with the active location guaranteed
/// present: when its path is missing it goes in front.
pub fn ensure_active(
    cands: Vec<(String, ConfigSource)>,
    active_path: &String,
    active_source: ConfigSource,
) -> (r: Vec<(String, ConfigSource)>)
    ensures
        has_path(cand_views(cands@), active_path@) ==> r@ == cands@,
        !has_path(cand_views(cands@), active_path@) ==> r@ == seq![
            (*active_path, active_source),
        ] + cands@,
{
    let ghost before = cands@;
    let mut i: usize = 0;
    let mut found = false;
    while i < cands.len()
        invariant
            cands@ == before,
            i <= cands@.len(),
            found <==> (exists|j: int| 0 <= j < i && cand_views(before)[j].0 == active_path@),
        decreases cands@.len() - i,
    {
        if cands[i].0 == *active_path {
            found = true;
            assert(cand_views(before)[i as int].0 == active_path@);
        }
        i += 1;
    }
    assert(found == has_path(cand_views(before), active_path@));
    if found {
        cands
    } else {
        let mut out = cands;
        out.insert(0, (active_path.clone(), active_source));
        proof {
            assert(out@ =~= seq![(*active_path, active_source)] + before);
        }
        out
    }
}

/// The configuration a parsed file yields: the parsed values, or the
/// defaults when there was no readable, valid file.
pub fn choose_loaded(parsed: Option<AppConfig>) -> (r: AppConfig)
    ensures
        parsed matches Some(c) ==> r == c,
        parsed is None ==> r == spec_default_config(),
{
    match parsed {
        Some(c) => c,
        None => AppConfig::default(),
    }
}

pub open spec fn spec_default_config() -> AppConfig {
    AppConfig {
        ui_rate_ms: 500,
        data_rate_ms: 5000,
        max_rows: 15,
        show_charts: true,
        theme: None,
        sort: None,
    }
}

/// What to do when the chooser commits a candidate: load it when it
/// exists and parses, reject it when it exists but does not parse, and
/// create it from the current settings when it does not exist.
#[derive(Debug, Clone, Copy, PartialEq, Eq, Structural)]
pub enum ApplyAction {
    UseParsed,
    RejectInvalid,
    CreateFromCurrent,
}

pub fn decide_apply(exists: bool, parsed_ok: bool) -> (r: ApplyAction)
    ensures
        exists && parsed_ok ==> r == ApplyAction::UseParsed,
        exists && !parsed_ok ==> r == ApplyAction::RejectInvalid,
        !exists ==> r == ApplyAction::CreateFromCurrent,
{
    if exists {
        if parsed_ok {
            ApplyAction::UseParsed
        } else {
            ApplyAction::RejectInvalid
        }
    } else {
        ApplyAction::CreateFromCurrent
    }
}

/// A session-only truthy switch: everything but "0" and "false", in any
/// ASCII case, turns the charts on.
pub open spec fn charts_enabled(v: Seq<char>) -> bool {
    !(text::seq_eq_ci(v, "0"@) || text::seq_eq_ci(v, "false"@))
}

/// Overlay the session-only environment overrides onto a configuration.
pub fn apply_env_overrides(
    cfg: AppConfig,
    ui_ms: Option<u64>,
    data_ms: Option<u64>,
    rows: Option<usize>,
    show_charts: Option<&String>,
) -> (r: AppConfig)
    ensures
        r.ui_rate_ms == (if ui_ms is Some {
            ui_ms->0
        } else {
            cfg.ui_rate_ms
        }),
        r.data_rate_ms == (if data_ms is Some {
            data_ms->0
        } else {
            cfg.data_rate_ms
        }),
        r.max_rows == (if rows is Some {
            rows->0
        } else {
            cfg.max_rows
        }),
        show_charts matches Some(v) ==> r.show_charts == charts_enabled(v@),
        show_charts is None ==> r.show_charts == cfg.show_charts,
        r.theme == cfg.theme,
        r.sort == cfg.sort,
{
    let mut r = cfg;
    match ui_ms {
        Some(v) => {
            r.ui_rate_ms = v;
        },
        None => {},
    }
    match data_ms {
        Some(v) => {
            r.data_rate_ms = v;
        },
        None => {},
    }
    match rows {
        Some(v) => {
            r.max_rows = v;
        },
        None => {},
    }
    match show_charts {
        Some(v) => {
            let chars = text::chars_of(v.as_str());
            let zero = text::chars_of("0");
            let falsy = text::chars_of("false");
            proof {
                reveal_strlit("0");
                reveal_strlit("false");
            }
            let off = text::seq_eq_ci_exec(&chars, &zero) || text::seq_eq_ci_exec(&chars, &falsy);
            r.show_charts = !off;
        },
        None => {},
    }
    r
}

} // verus!
