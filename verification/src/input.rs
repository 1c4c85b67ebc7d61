//! The keyboard-driven session state machine: overlays capture text
//! entry, navigation moves the selection, function keys request actions
//! from the host. Exactly one overlay is active at a time, and every
//! transition is pinned by `input_step`.

use vstd::prelude::*;
use crate::config::AppConfig;
use crate::theme::{ThemeKind, next_theme, theme_name_of};
use crate::view::{SortKey, next_sort_key, sort_name_of};

verus! {

/// A keyboard event, as the state machine sees it.
#[derive(Clone, Copy, Debug, PartialEq, Eq, Structural)]
pub enum Key {
    Char(char),
    F(u8),
    Up,
    Down,
    Enter,
    Esc,
    Backspace,
    Tab,
}

/// The modal overlays; `Hidden` is the ordinary, overlay-free display.
#[derive(Clone, Copy, Debug, PartialEq, Eq, Structural)]
pub enum Overlay {
    Hidden,
    Help,
    Setup,
    Search,
    Filter,
    Export,
    Insights,
}

/// Work the host must carry out after a transition; the machine itself
/// performs no side effect.
#[derive(Clone, Copy, Debug, PartialEq, Eq, Structural)]
pub enum UiAction {
    SaveConfig,
    PersistConfig,
    RefreshCandidates,
    ApplyCandidate,
    AdjustNice(bool),
    KillSelected,
    ExportSnapshot,
    ShowInsights,
}

/// A transient note for the status line.
#[derive(Clone, Copy, Debug, PartialEq, Eq, Structural)]
pub enum StatusNote {
    ChartsOn,
    ChartsOff,
    SortChanged(SortKey),
    ThemeChanged(ThemeKind),
}

/// The session's input-facing state.
pub struct InputState {
    pub overlay: Overlay,
    pub buffer: Vec<char>,
    pub search: Vec<char>,
    pub filter: Vec<char>,
    pub sort_key: SortKey,
    pub theme: ThemeKind,
    pub selected: usize,
    pub setup_selected: usize,
    pub setup_len: usize,
    pub quit: bool,
    pub status: Option<StatusNote>,
    pub config: AppConfig,
}

/// The mathematical image of the state, text as character sequences.
pub struct InputModel {
    pub overlay: Overlay,
    pub buffer: Seq<char>,
    pub search: Seq<char>,
    pub filter: Seq<char>,
    pub sort_key: SortKey,
    pub theme: ThemeKind,
    pub selected: usize,
    pub setup_selected: usize,
    pub setup_len: usize,
    pub quit: bool,
    pub status: Option<StatusNote>,
    pub ui_rate_ms: u64,
    pub data_rate_ms: u64,
    pub max_rows: usize,
    pub show_charts: bool,
    pub theme_name: Option<Seq<char>>,
    pub sort_name: Option<Seq<char>>,
}

impl View for InputState {
    type V = InputModel;

    open spec fn view(&self) -> InputModel {
        InputModel {
            overlay: self.overlay,
            buffer: self.buffer@,
            search: self.search@,
            filter: self.filter@,
            sort_key: self.sort_key,
            theme: self.theme,
            selected: self.selected,
            setup_selected: self.setup_selected,
            setup_len: self.setup_len,
            quit: self.quit,
            status: self.status,
            ui_rate_ms: self.config.ui_rate_ms,
            data_rate_ms: self.config.data_rate_ms,
            max_rows: self.config.max_rows,
            show_charts: self.config.show_charts,
            theme_name: match self.config.theme {
                Some(t) => Some(t@),
                None => None,
            },
            sort_name: match self.config.sort {
                Some(s) => Some(s@),
                None => None,
            },
        }
    }
}

/// Character keys belong to the text overlays alone.
pub open spec fn captures_char(o: Overlay, k: Key) -> bool {
    (o is Search || o is Filter) && k is Char
}

/// The overlay's own handling of a key.
pub open spec fn overlay_step(v: InputModel, k: Key) -> (InputModel, Option<UiAction>) {
    match v.overlay {
        Overlay::Search | Overlay::Filter => match k {
            Key::Esc => (
                InputModel { overlay: Overlay::Hidden, buffer: Seq::empty(), ..v },
                None,
            ),
            Key::Enter => {
                let committed = if v.overlay is Search {
                    InputModel { search: v.buffer, ..v }
                } else {
                    InputModel { filter: v.buffer, ..v }
                };
                (
                    InputModel { overlay: Overlay::Hidden, buffer: Seq::empty(), ..committed },
                    None,
                )
            },
            Key::Backspace => (
                InputModel {
                    buffer: if v.buffer.len() > 0 {
                        v.buffer.drop_last()
                    } else {
                        v.buffer
                    },
                    ..v
                },
                None,
            ),
            Key::Char(c) => (InputModel { buffer: v.buffer.push(c), ..v }, None),
            _ => (v, None),
        },
        Overlay::Setup => match k {
            Key::Esc => (InputModel { overlay: Overlay::Hidden, ..v }, None),
            Key::Up => (
                InputModel {
                    setup_selected: if v.setup_selected > 0 {
                        (v.setup_selected - 1) as usize
                    } else {
                        0
                    },
                    ..v
                },
                None,
            ),
            Key::Down => (
                InputModel {
                    setup_selected: if v.setup_selected + 1 < v.setup_len {
                        (v.setup_selected + 1) as usize
                    } else {
                        v.setup_selected
                    },
                    ..v
                },
                None,
            ),
            Key::Enter => (
                InputModel { overlay: Overlay::Hidden, ..v },
                Some(UiAction::ApplyCandidate),
            ),
            Key::Char(c) => {
                if c == 'r' || c == 'R' {
                    (InputModel { setup_selected: 0, ..v }, Some(UiAction::RefreshCandidates))
                } else {
                    (v, None)
                }
            },
            _ => (v, None),
        },
        Overlay::Help | Overlay::Insights | Overlay::Export => match k {
            Key::Esc | Key::Enter => (InputModel { overlay: Overlay::Hidden, ..v }, None),
            _ => (v, None),
        },
        Overlay::Hidden => (v, None),
    }
}

/// The keys that stay live whatever overlay is up.
pub open spec fn global_step(v: InputModel, k: Key) -> (InputModel, Option<UiAction>) {
    match k {
        Key::Char(c) => {
            if c == 'q' {
                (InputModel { quit: true, ..v }, Some(UiAction::SaveConfig))
            } else {
                (v, None)
            }
        },
        Key::Up => (
            InputModel {
                selected: if v.selected > 0 {
                    (v.selected - 1) as usize
                } else {
                    0
                },
                ..v
            },
            None,
        ),
        Key::Down => (
            InputModel {
                selected: if v.selected < usize::MAX {
                    (v.selected + 1) as usize
                } else {
                    v.selected
                },
                ..v
            },
            None,
        ),
        Key::Tab => (
            InputModel {
                theme: next_theme(v.theme, true),
                theme_name: Some(theme_name_of(next_theme(v.theme, true))),
                status: Some(StatusNote::ThemeChanged(next_theme(v.theme, true))),
                ..v
            },
            Some(UiAction::PersistConfig),
        ),
        Key::F(n) => {
            if n == 10 {
                (InputModel { quit: true, ..v }, Some(UiAction::SaveConfig))
            } else if n == 1 {
                (InputModel { overlay: Overlay::Help, ..v }, None)
            } else if n == 2 {
                (
                    InputModel { overlay: Overlay::Setup, setup_selected: 0, ..v },
                    Some(UiAction::RefreshCandidates),
                )
            } else if n == 3 {
                (InputModel { overlay: Overlay::Search, buffer: Seq::empty(), ..v }, None)
            } else if n == 4 {
                (InputModel { overlay: Overlay::Filter, buffer: v.filter, ..v }, None)
            } else if n == 5 {
                (
                    InputModel {
                        show_charts: !v.show_charts,
                        status: Some(
                            if !v.show_charts {
                                StatusNote::ChartsOn
                            } else {
                                StatusNote::ChartsOff
                            },
                        ),
                        ..v
                    },
                    Some(UiAction::PersistConfig),
                )
            } else if n == 6 {
                (
                    InputModel {
                        sort_key: next_sort_key(v.sort_key),
                        sort_name: Some(sort_name_of(next_sort_key(v.sort_key))),
                        status: Some(StatusNote::SortChanged(next_sort_key(v.sort_key))),
                        ..v
                    },
                    Some(UiAction::PersistConfig),
                )
            } else if n == 7 {
                (v, Some(UiAction::AdjustNice(false)))
            } else if n == 8 {
                (v, Some(UiAction::AdjustNice(true)))
            } else if n == 9 {
                (v, Some(UiAction::KillSelected))
            } else if n == 11 {
                (v, Some(UiAction::ExportSnapshot))
            } else if n == 12 {
                (InputModel { overlay: Overlay::Insights, ..v }, Some(UiAction::ShowInsights))
            } else {
                (v, None)
            }
        },
        _ => (v, None),
    }
}

/// One key: the overlay handles it first; unless a text overlay
/// captured a character, the global keys then apply to the result.
pub open spec fn input_step(v: InputModel, k: Key) -> (InputModel, Option<UiAction>) {
    let o = overlay_step(v, k);
    if captures_char(v.overlay, k) {
        o
    } else {
        let g = global_step(o.0, k);
        (g.0, if o.1 is Some {
            o.1
        } else {
            g.1
        })
    }
}

/// The drain of one input pass: the queued keys are applied in order,
/// and the actions they request come back in the same order.
pub open spec fn drain_spec(v: InputModel, ks: Seq<Key>) -> (InputModel, Seq<UiAction>)
    decreases ks.len(),
{
    if ks.len() == 0 {
        (v, Seq::<UiAction>::empty())
    } else {
        let head = input_step(v, ks[0]);
        let rest = drain_spec(head.0, ks.drop_first());
        (
            rest.0,
            (match head.1 {
                Some(a) => seq![a],
                None => Seq::<UiAction>::empty(),
            }) + rest.1,
        )
    }
}

/// Apply every queued key, fully draining the batch before yielding.
pub fn drain_events(st: &mut InputState, events: &Vec<Key>) -> (acts: Vec<UiAction>)
    ensures
        final(st)@ == drain_spec(old(st)@, events@).0,
        acts@ == drain_spec(old(st)@, events@).1,
{
    let ghost v0 = st@;
    let mut acts: Vec<UiAction> = Vec::new();
    let mut i: usize = 0;
    proof {
        assert(events@.skip(0) =~= events@);
        assert(Seq::<UiAction>::empty() + drain_spec(v0, events@).1 =~= drain_spec(v0, events@).1);
    }
    while i < events.len()
        invariant
            i <= events@.len(),
            drain_spec(v0, events@).0 == drain_spec(st@, events@.skip(i as int)).0,
            drain_spec(v0, events@).1 =~= acts@ + drain_spec(st@, events@.skip(i as int)).1,
        decreases events@.len() - i,
    {
        let ghost st_before = st@;
        let ghost acts_before = acts@;
        let a = st.handle_key(events[i]);
        match a {
            Some(act) => {
                acts.push(act);
            },
            None => {},
        }
        proof {
            let pending = events@.skip(i as int);
            assert(pending.len() > 0);
            assert(pending[0] == events@[i as int]);
            assert(pending.drop_first() =~= events@.skip(i as int + 1));
            let head = input_step(st_before, events@[i as int]);
            assert(head.0 == st@ && head.1 == a);
            assert(drain_spec(st_before, pending).0 == drain_spec(st@, events@.skip(i as int + 1)).0);
            let emitted: Seq<UiAction> = match a {
                Some(x) => seq![x],
                None => Seq::<UiAction>::empty(),
            };
            assert(drain_spec(st_before, pending).1 == emitted + drain_spec(
                st@,
                events@.skip(i as int + 1),
            ).1);
            assert(acts@ =~= acts_before + emitted);
            assert(drain_spec(v0, events@).1 =~= acts@ + drain_spec(
                st@,
                events@.skip(i as int + 1),
            ).1);
        }
        i += 1;
    }
    assert(events@.skip(events@.len() as int) =~= Seq::<Key>::empty());
    acts
}

fn clone_chars(v: &Vec<char>) -> (r: Vec<char>)
    ensures
        r@ == v@,
{
    let r = v.clone();
    proof {
        assert forall|i: int| 0 <= i < v@.len() implies r@[i] == v@[i] by {
            assert(cloned::<char>(v@[i], r@[i]));
        }
        assert(r@ =~= v@);
    }
    r
}

impl InputState {
    /// A fresh session in the overlay-free state.
    pub fn new(config: AppConfig, theme: ThemeKind, sort_key: SortKey) -> (s: InputState)
        ensures
            s.overlay is Hidden,
            s.buffer@ == Seq::<char>::empty(),
            s.search@ == Seq::<char>::empty(),
            s.filter@ == Seq::<char>::empty(),
            s.sort_key == sort_key,
            s.theme == theme,
            s.selected == 0,
            s.setup_selected == 0,
            s.setup_len == 0,
            !s.quit,
            s.status is None,
            s.config == config,
    {
        InputState {
            overlay: Overlay::Hidden,
            buffer: Vec::new(),
            search: Vec::new(),
            filter: Vec::new(),
            sort_key,
            theme,
            selected: 0,
            setup_selected: 0,
            setup_len: 0,
            quit: false,
            status: None,
            config,
        }
    }

    /// The host reports how many configuration candidates it found.
    pub fn set_setup_len(&mut self, n: usize)
        ensures
            *final(self) == (InputState { setup_len: n, ..*old(self) }),
    {
        self.setup_len = n;
    }

    /// Replace the configuration; on request the runtime theme and sort
    /// key follow the configured names, as when a new file is adopted.
    pub fn adopt_config(&mut self, cfg: AppConfig, rederive: bool)
        ensures
            final(self).config == cfg,
            rederive ==> final(self).theme == (match cfg.theme {
                Some(t) => crate::theme::theme_of_name(t@),
                None => ThemeKind::Stellar,
            }),
            rederive ==> final(self).sort_key == (match cfg.sort {
                Some(s) => crate::view::sort_of_name(s@),
                None => SortKey::Cpu,
            }),
            !rederive ==> final(self).theme == old(self).theme,
            !rederive ==> final(self).sort_key == old(self).sort_key,
            final(self).overlay == old(self).overlay,
            final(self).buffer == old(self).buffer,
            final(self).search == old(self).search,
            final(self).filter == old(self).filter,
            final(self).selected == old(self).selected,
            final(self).setup_selected == old(self).setup_selected,
            final(self).setup_len == old(self).setup_len,
            final(self).quit == old(self).quit,
            final(self).status == old(self).status,
    {
        if rederive {
            self.theme = crate::theme::theme_from_name(cfg.theme.as_ref());
            self.sort_key = crate::view::sort_from_name(cfg.sort.as_ref());
        }
        self.config = cfg;
    }

    /// Feed one key through the machine and learn what the host must do.
    pub fn handle_key(&mut self, k: Key) -> (act: Option<UiAction>)
        ensures
            final(self)@ == input_step(old(self)@, k).0,
            act == input_step(old(self)@, k).1,
    {
        let captured = match (self.overlay, k) {
            (Overlay::Search, Key::Char(_)) => true,
            (Overlay::Filter, Key::Char(_)) => true,
            _ => false,
        };
        let a1 = self.overlay_phase(k);
        if captured {
            return a1;
        }
        let a2 = self.global_phase(k);
        if a1.is_some() {
            a1
        } else {
            a2
        }
    }

    fn overlay_phase(&mut self, k: Key) -> (act: Option<UiAction>)
        ensures
            final(self)@ == overlay_step(old(self)@, k).0,
            act == overlay_step(old(self)@, k).1,
    {
        match self.overlay {
            Overlay::Search | Overlay::Filter => match k {
                Key::Esc => {
                    self.overlay = Overlay::Hidden;
                    self.buffer = Vec::new();
                    None
                },
                Key::Enter => {
                    let committed = clone_chars(&self.buffer);
                    match self.overlay {
                        Overlay::Search => {
                            self.search = committed;
                        },
                        _ => {
                            self.filter = committed;
                        },
                    }
                    self.overlay = Overlay::Hidden;
                    self.buffer = Vec::new();
                    None
                },
                Key::Backspace => {
                    if self.buffer.len() > 0 {
                        self.buffer.pop();
                    }
                    None
                },
                Key::Char(c) => {
                    self.buffer.push(c);
                    None
                },
                _ => None,
            },
            Overlay::Setup => match k {
                Key::Esc => {
                    self.overlay = Overlay::Hidden;
                    None
                },
                Key::Up => {
                    if self.setup_selected > 0 {
                        self.setup_selected -= 1;
                    }
                    None
                },
                Key::Down => {
                    if self.setup_selected < usize::MAX && self.setup_selected + 1 < self.setup_len {
                        self.setup_selected += 1;
                    }
                    None
                },
                Key::Enter => {
                    self.overlay = Overlay::Hidden;
                    Some(UiAction::ApplyCandidate)
                },
                Key::Char(c) => {
                    if c == 'r' || c == 'R' {
                        self.setup_selected = 0;
                        Some(UiAction::RefreshCandidates)
                    } else {
                        None
                    }
                },
                _ => None,
            },
            Overlay::Help | Overlay::Insights | Overlay::Export => match k {
                Key::Esc | Key::Enter => {
                    self.overlay = Overlay::Hidden;
                    None
                },
                _ => None,
            },
            Overlay::Hidden => None,
        }
    }

    fn global_phase(&mut self, k: Key) -> (act: Option<UiAction>)
        ensures
            final(self)@ == global_step(old(self)@, k).0,
            act == global_step(old(self)@, k).1,
    {
        match k {
            Key::Char(c) => {
                if c == 'q' {
                    self.quit = true;
                    Some(UiAction::SaveConfig)
                } else {
                    None
                }
            },
            Key::Up => {
                if self.selected > 0 {
                    self.selected -= 1;
                }
                None
            },
            Key::Down => {
                if self.selected < usize::MAX {
                    self.selected += 1;
                }
                None
            },
            Key::Tab => {
                let t = self.theme.cycle(true);
                self.theme = t;
                self.config.theme = Some(t.name());
                self.status = Some(StatusNote::ThemeChanged(t));
                Some(UiAction::PersistConfig)
            },
            Key::F(n) => {
                if n == 10 {
                    self.quit = true;
                    Some(UiAction::SaveConfig)
                } else if n == 1 {
                    self.overlay = Overlay::Help;
                    None
                } else if n == 2 {
                    self.overlay = Overlay::Setup;
                    self.setup_selected = 0;
                    Some(UiAction::RefreshCandidates)
                } else if n == 3 {
                    self.overlay = Overlay::Search;
                    self.buffer = Vec::new();
                    None
                } else if n == 4 {
                    self.overlay = Overlay::Filter;
                    self.buffer = clone_chars(&self.filter);
                    None
                } else if n == 5 {
                    self.config.show_charts = !self.config.show_charts;
                    self.status = Some(
                        if self.config.show_charts {
                            StatusNote::ChartsOn
                        } else {
                            StatusNote::ChartsOff
                        },
                    );
                    Some(UiAction::PersistConfig)
                } else if n == 6 {
                    let s = self.sort_key.next_in_cycle();
                    self.sort_key = s;
                    self.config.sort = Some(s.persist_name());
                    self.status = Some(StatusNote::SortChanged(s));
                    Some(UiAction::PersistConfig)
                } else if n == 7 {
                    Some(UiAction::AdjustNice(false))
                } else if n == 8 {
                    Some(UiAction::AdjustNice(true))
                } else if n == 9 {
                    Some(UiAction::KillSelected)
                } else if n == 11 {
                    Some(UiAction::ExportSnapshot)
                } else if n == 12 {
                    self.overlay = Overlay::Insights;
                    Some(UiAction::ShowInsights)
                } else {
                    None
                }
            },
            _ => None,
        }
    }
}

} // verus!
