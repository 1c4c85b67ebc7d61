use lyvoxa::config::AppConfig;
use lyvoxa::input::{drain_events, InputState, Key, Overlay, StatusNote, UiAction};
use lyvoxa::theme::ThemeKind;
use lyvoxa::view::SortKey;

fn fresh() -> InputState {
    InputState::new(AppConfig::default(), ThemeKind::Stellar, SortKey::Cpu)
}

#[test]
fn search_overlay_edit_commits_abd() {
    let mut s = fresh();
    s.handle_key(Key::F(3));
    assert_eq!(s.overlay, Overlay::Search);
    s.handle_key(Key::Char('a'));
    s.handle_key(Key::Char('b'));
    s.handle_key(Key::Char('c'));
    s.handle_key(Key::Backspace);
    s.handle_key(Key::Char('d'));
    s.handle_key(Key::Enter);
    assert_eq!(s.search, vec!['a', 'b', 'd']);
    assert_eq!(s.overlay, Overlay::Hidden);
    assert!(s.buffer.is_empty());
}

#[test]
fn escape_discards_the_buffer() {
    let mut s = fresh();
    s.handle_key(Key::F(4));
    assert_eq!(s.overlay, Overlay::Filter);
    s.handle_key(Key::Char('x'));
    s.handle_key(Key::Esc);
    assert_eq!(s.overlay, Overlay::Hidden);
    assert!(s.filter.is_empty());
    assert!(s.buffer.is_empty());
}

#[test]
fn filter_overlay_starts_from_current_filter() {
    let mut s = fresh();
    s.handle_key(Key::F(4));
    s.handle_key(Key::Char('a'));
    s.handle_key(Key::Enter);
    assert_eq!(s.filter, vec!['a']);
    s.handle_key(Key::F(4));
    assert_eq!(s.buffer, vec!['a']);
    s.handle_key(Key::Char('b'));
    s.handle_key(Key::Enter);
    assert_eq!(s.filter, vec!['a', 'b']);
}

#[test]
fn characters_are_captured_by_search_not_quit() {
    let mut s = fresh();
    s.handle_key(Key::F(3));
    let act = s.handle_key(Key::Char('q'));
    assert!(act.is_none());
    assert!(!s.quit);
    assert_eq!(s.buffer, vec!['q']);
}

#[test]
fn quit_key_requests_save_and_quit() {
    let mut s = fresh();
    let act = s.handle_key(Key::Char('q'));
    assert_eq!(act, Some(UiAction::SaveConfig));
    assert!(s.quit);

    let mut s2 = fresh();
    let act2 = s2.handle_key(Key::F(10));
    assert_eq!(act2, Some(UiAction::SaveConfig));
    assert!(s2.quit);
}

#[test]
fn navigation_clamps_at_zero_and_saturates_up() {
    let mut s = fresh();
    s.handle_key(Key::Up);
    assert_eq!(s.selected, 0);
    s.handle_key(Key::Down);
    s.handle_key(Key::Down);
    assert_eq!(s.selected, 2);
    s.handle_key(Key::Up);
    assert_eq!(s.selected, 1);
}

#[test]
fn sort_cycle_updates_config_and_status() {
    let mut s = fresh();
    let act = s.handle_key(Key::F(6));
    assert_eq!(act, Some(UiAction::PersistConfig));
    assert_eq!(s.sort_key, SortKey::Mem);
    assert_eq!(s.config.sort.as_deref(), Some("mem"));
    assert_eq!(s.status, Some(StatusNote::SortChanged(SortKey::Mem)));
}

#[test]
fn theme_cycle_updates_config_and_status() {
    let mut s = fresh();
    let act = s.handle_key(Key::Tab);
    assert_eq!(act, Some(UiAction::PersistConfig));
    assert_eq!(s.theme, ThemeKind::Matrix);
    assert_eq!(s.config.theme.as_deref(), Some("matrix"));
    assert_eq!(s.status, Some(StatusNote::ThemeChanged(ThemeKind::Matrix)));
}

#[test]
fn charts_toggle_persists() {
    let mut s = fresh();
    let act = s.handle_key(Key::F(5));
    assert_eq!(act, Some(UiAction::PersistConfig));
    assert!(!s.config.show_charts);
    assert_eq!(s.status, Some(StatusNote::ChartsOff));
    s.handle_key(Key::F(5));
    assert!(s.config.show_charts);
    assert_eq!(s.status, Some(StatusNote::ChartsOn));
}

#[test]
fn function_keys_request_host_actions() {
    let mut s = fresh();
    assert_eq!(s.handle_key(Key::F(7)), Some(UiAction::AdjustNice(false)));
    assert_eq!(s.handle_key(Key::F(8)), Some(UiAction::AdjustNice(true)));
    assert_eq!(s.handle_key(Key::F(9)), Some(UiAction::KillSelected));
    assert_eq!(s.handle_key(Key::F(11)), Some(UiAction::ExportSnapshot));
    let act = s.handle_key(Key::F(12));
    assert_eq!(act, Some(UiAction::ShowInsights));
    assert_eq!(s.overlay, Overlay::Insights);
}

#[test]
fn help_overlay_closes_on_enter_or_escape() {
    let mut s = fresh();
    s.handle_key(Key::F(1));
    assert_eq!(s.overlay, Overlay::Help);
    s.handle_key(Key::Enter);
    assert_eq!(s.overlay, Overlay::Hidden);
    s.handle_key(Key::F(1));
    s.handle_key(Key::Esc);
    assert_eq!(s.overlay, Overlay::Hidden);
}

#[test]
fn setup_overlay_navigates_candidates_and_applies() {
    let mut s = fresh();
    let act = s.handle_key(Key::F(2));
    assert_eq!(act, Some(UiAction::RefreshCandidates));
    assert_eq!(s.overlay, Overlay::Setup);
    s.set_setup_len(3);
    s.handle_key(Key::Down);
    s.handle_key(Key::Down);
    s.handle_key(Key::Down);
    assert_eq!(s.setup_selected, 2);
    s.handle_key(Key::Up);
    assert_eq!(s.setup_selected, 1);
    let act = s.handle_key(Key::Enter);
    assert_eq!(act, Some(UiAction::ApplyCandidate));
    assert_eq!(s.overlay, Overlay::Hidden);
}

#[test]
fn setup_refresh_key_requests_discovery() {
    let mut s = fresh();
    s.handle_key(Key::F(2));
    s.set_setup_len(2);
    s.handle_key(Key::Down);
    let act = s.handle_key(Key::Char('r'));
    assert_eq!(act, Some(UiAction::RefreshCandidates));
    assert_eq!(s.setup_selected, 0);
}

#[test]
fn drain_applies_queued_keys_in_order() {
    let mut s = fresh();
    let events = vec![Key::F(3), Key::Char('h'), Key::Char('i'), Key::Enter, Key::F(9)];
    let acts = drain_events(&mut s, &events);
    assert_eq!(s.search, vec!['h', 'i']);
    assert_eq!(acts, vec![UiAction::KillSelected]);
}

#[test]
fn adopt_config_can_rederive_theme_and_sort() {
    let mut s = fresh();
    let mut cfg = AppConfig::default();
    cfg.theme = Some("dark".to_string());
    cfg.sort = Some("user".to_string());
    s.adopt_config(cfg, true);
    assert_eq!(s.theme, ThemeKind::Dark);
    assert_eq!(s.sort_key, SortKey::User);
}
