//! The Settings screen as the app holds it: which mode the app is in, the
//! tab and row, the theme shown (a theme is previewed while its row is
//! selected) and the theme that was shown when the screen opened, which
//! closing the screen without applying restores. The palette drawn is the
//! one of the theme shown.
use vstd::prelude::*;

use crate::settings::nav::{
    settings_click, settings_key, spec_settings_click, spec_settings_key, ModalChoice, SettingsClick,
    SettingsContext, SettingsKey, SettingsNav, SettingsOutcome, SettingsSave, SettingsSection,
};
use crate::settings::{current_theme_index, spec_current_theme_index, str_views};
use crate::text::owned;

verus! {

/// Which screen takes the keys.
#[derive(Debug, Clone, Copy, PartialEq, Eq, Structural)]
pub enum ScreenMode {
    /// The terminal panes; the Settings screen is closed.
    Terminal,
    /// The Settings screen.
    Settings,
    /// The port editor of the Settings screen's Server tab.
    SettingsServerPort,
}

/// The state of the Settings screen.
#[derive(Debug, Clone)]
pub struct SettingsScreen {
    pub mode: ScreenMode,
    pub nav: SettingsNav,
    /// The theme shown.
    pub theme_name: String,
    /// The theme shown when the screen opened, until it is applied or
    /// restored.
    pub original_theme: Option<String>,
}

/// The mathematical content of a [`SettingsScreen`].
pub struct ScreenView {
    pub mode: ScreenMode,
    pub nav: SettingsNav,
    pub theme: Seq<char>,
    pub original: Option<Seq<char>>,
}

/// The view of an optional string.
pub open spec fn opt_string_view(s: Option<String>) -> Option<Seq<char>> {
    match s {
        Some(t) => Some(t@),
        None => None,
    }
}

impl View for SettingsScreen {
    type V = ScreenView;

    open spec fn view(&self) -> ScreenView {
        ScreenView {
            mode: self.mode,
            nav: self.nav,
            theme: self.theme_name@,
            original: opt_string_view(self.original_theme),
        }
    }
}

/// What the Settings screen asks the app to save.
#[derive(Debug, Clone, PartialEq, Eq)]
pub enum SettingsAction {
    /// The theme applied.
    SaveTheme(String),
    /// Another setting.
    Save(SettingsSave),
}

/// The mathematical content of a [`SettingsAction`].
pub enum ActionView {
    SaveTheme(Seq<char>),
    Save(SettingsSave),
}

/// The view of an optional action.
pub open spec fn action_view(a: Option<SettingsAction>) -> Option<ActionView> {
    match a {
        Some(SettingsAction::SaveTheme(t)) => Some(ActionView::SaveTheme(t@)),
        Some(SettingsAction::Save(s)) => Some(ActionView::Save(s)),
        None => None,
    }
}

/// A list's selection moved up one row, stopping at the first.
pub open spec fn list_prev(selected: usize) -> usize {
    if selected > 0 { (selected - 1) as usize } else { selected }
}

/// A list's selection moved down one row among `len`, stopping at the last.
pub open spec fn list_next(selected: usize, len: usize) -> usize {
    if selected + 1 < len { (selected + 1) as usize } else { selected }
}

/// Whether the screen's row is one of the themes while the Theme tab is
/// open.
pub open spec fn screen_fits(s: ScreenView, names: Seq<Seq<char>>) -> bool {
    s.nav.section == SettingsSection::Theme ==> s.nav.selected < names.len()
}

/// Opening the screen: the theme shown is kept to be restored, the Theme
/// tab opens on the current theme.
pub open spec fn spec_open_settings(s: ScreenView, names: Seq<Seq<char>>) -> ScreenView {
    ScreenView {
        mode: ScreenMode::Settings,
        nav: SettingsNav {
            section: SettingsSection::Theme,
            selected: spec_current_theme_index(names, s.theme) as usize,
        },
        original: Some(s.theme),
        ..s
    }
}

/// Showing the theme of the selected row.
pub open spec fn spec_preview(s: ScreenView, names: Seq<Seq<char>>) -> ScreenView {
    ScreenView { theme: names[s.nav.selected as int], ..s }
}

/// Closing the screen without applying: the theme shown when it opened is
/// shown again.
pub open spec fn spec_cancel(s: ScreenView) -> ScreenView {
    ScreenView {
        mode: ScreenMode::Terminal,
        theme: match s.original {
            Some(t) => t,
            None => s.theme,
        },
        original: None,
        ..s
    }
}

/// Applying: on the Theme tab the theme shown is kept and saved; the
/// screen closes.
pub open spec fn spec_apply(s: ScreenView) -> (ScreenView, Option<ActionView>) {
    if s.nav.section == SettingsSection::Theme {
        (ScreenView { mode: ScreenMode::Terminal, original: None, ..s }, Some(ActionView::SaveTheme(s.theme)))
    } else {
        (ScreenView { mode: ScreenMode::Terminal, ..s }, None)
    }
}

/// Moving in the theme list, showing the theme of the new row if it moved.
pub open spec fn spec_move_theme(s: ScreenView, selected: usize, names: Seq<Seq<char>>) -> ScreenView {
    let moved = ScreenView { nav: SettingsNav { selected, ..s.nav }, ..s };
    if selected != s.nav.selected {
        spec_preview(moved, names)
    } else {
        moved
    }
}

/// The screen after a key or click whose new tab and row are `nav` and
/// whose outcome is `out`, and what it asks to save.
pub open spec fn spec_apply_outcome(
    s: ScreenView,
    nav: SettingsNav,
    out: SettingsOutcome,
    names: Seq<Seq<char>>,
) -> (ScreenView, Option<ActionView>) {
    let at = ScreenView { nav, ..s };
    match out {
        SettingsOutcome::Nothing => (at, None),
        SettingsOutcome::ThemeUp => (spec_move_theme(s, list_prev(s.nav.selected), names), None),
        SettingsOutcome::ThemeDown => (spec_move_theme(s, list_next(s.nav.selected, names.len() as usize), names), None),
        SettingsOutcome::ToastUp => (
            ScreenView { nav: SettingsNav { selected: list_prev(s.nav.selected), ..s.nav }, ..s },
            None,
        ),
        SettingsOutcome::ToastDown => (
            ScreenView { nav: SettingsNav { selected: list_next(s.nav.selected, 4), ..s.nav }, ..s },
            None,
        ),
        SettingsOutcome::PreviewTheme => (spec_preview(at, names), None),
        SettingsOutcome::Save(x) => (at, Some(ActionView::Save(x))),
        SettingsOutcome::OpenPortEditor => (ScreenView { mode: ScreenMode::SettingsServerPort, ..at }, None),
        SettingsOutcome::ApplyTheme => spec_apply(at),
        SettingsOutcome::Leave => (ScreenView { mode: ScreenMode::Terminal, ..at }, None),
        SettingsOutcome::Cancel => (spec_cancel(at), None),
    }
}

/// Opens the Settings screen on the Theme tab, keeping the theme shown to
/// restore it on cancel.
pub fn open_settings(screen: &mut SettingsScreen, theme_names: &[&str])
    ensures
        final(screen)@ == spec_open_settings(old(screen)@, str_views(theme_names@)),
{
    let idx = current_theme_index(theme_names, screen.theme_name.as_str());
    screen.original_theme = Some(owned(screen.theme_name.as_str()));
    screen.nav = SettingsNav { section: SettingsSection::Theme, selected: idx };
    screen.mode = ScreenMode::Settings;
}

/// Shows the theme of the selected row.
pub fn preview_selected_theme(screen: &mut SettingsScreen, theme_names: &[&str])
    requires
        old(screen).nav.selected < theme_names@.len(),
    ensures
        final(screen)@ == spec_preview(old(screen)@, str_views(theme_names@)),
{
    screen.theme_name = owned(theme_names[screen.nav.selected]);
}

/// Closes the screen, showing again the theme shown when it opened.
pub fn cancel_settings(screen: &mut SettingsScreen)
    ensures
        final(screen)@ == spec_cancel(old(screen)@),
{
    let original = screen.original_theme.take();
    match original {
        Some(t) => {
            screen.theme_name = t;
        },
        None => {},
    }
    screen.mode = ScreenMode::Terminal;
}

/// Closes the screen; on the Theme tab keeps the theme shown and asks to
/// save it.
pub fn apply_settings(screen: &mut SettingsScreen) -> (r: Option<SettingsAction>)
    ensures
        (final(screen)@, action_view(r)) == spec_apply(old(screen)@),
{
    if screen.nav.section == SettingsSection::Theme {
        let name = owned(screen.theme_name.as_str());
        screen.original_theme = None;
        screen.mode = ScreenMode::Terminal;
        Some(SettingsAction::SaveTheme(name))
    } else {
        screen.mode = ScreenMode::Terminal;
        None
    }
}

fn apply_outcome(screen: &mut SettingsScreen, nav: SettingsNav, out: SettingsOutcome, theme_names: &[&str]) -> (r: Option<SettingsAction>)
    requires
        screen_fits(old(screen)@, str_views(theme_names@)),
        out == SettingsOutcome::PreviewTheme ==> nav.selected < theme_names@.len(),
        out == SettingsOutcome::ThemeUp || out == SettingsOutcome::ThemeDown ==> old(screen).nav.section
            == SettingsSection::Theme,
    ensures
        (final(screen)@, action_view(r)) == spec_apply_outcome(old(screen)@, nav, out, str_views(theme_names@)),
{
    assert(str_views(theme_names@).len() == theme_names@.len());
    match out {
        SettingsOutcome::Nothing => {
            screen.nav = nav;
            None
        },
        SettingsOutcome::ThemeUp => {
            let sel = screen.nav.selected;
            if sel > 0 {
                screen.nav = SettingsNav { selected: sel - 1, ..screen.nav };
                preview_selected_theme(screen, theme_names);
            }
            None
        },
        SettingsOutcome::ThemeDown => {
            let sel = screen.nav.selected;
            assert(sel < theme_names@.len());
            if theme_names.len() - sel > 1 {
                screen.nav = SettingsNav { selected: sel + 1, ..screen.nav };
                preview_selected_theme(screen, theme_names);
            }
            None
        },
        SettingsOutcome::ToastUp => {
            let sel = screen.nav.selected;
            if sel > 0 {
                screen.nav = SettingsNav { selected: sel - 1, ..screen.nav };
            }
            None
        },
        SettingsOutcome::ToastDown => {
            let sel = screen.nav.selected;
            if sel < 3 {
                screen.nav = SettingsNav { selected: sel + 1, ..screen.nav };
            }
            None
        },
        SettingsOutcome::PreviewTheme => {
            screen.nav = nav;
            preview_selected_theme(screen, theme_names);
            None
        },
        SettingsOutcome::Save(x) => {
            screen.nav = nav;
            Some(SettingsAction::Save(x))
        },
        SettingsOutcome::OpenPortEditor => {
            screen.nav = nav;
            screen.mode = ScreenMode::SettingsServerPort;
            None
        },
        SettingsOutcome::ApplyTheme => {
            screen.nav = nav;
            apply_settings(screen)
        },
        SettingsOutcome::Leave => {
            screen.nav = nav;
            screen.mode = ScreenMode::Terminal;
            None
        },
        SettingsOutcome::Cancel => {
            screen.nav = nav;
            cancel_settings(screen);
            None
        },
    }
}

/// Applies a key to the Settings screen (`modal` is what the dialog
/// bindings make of it): moves, previews, restores or keeps the theme,
/// changes mode, and returns what is to be saved.
pub fn handle_settings_key(
    screen: &mut SettingsScreen,
    ctx: &SettingsContext,
    key: SettingsKey,
    modal: ModalChoice,
    theme_names: &[&str],
) -> (r: Option<SettingsAction>)
    requires
        screen_fits(old(screen)@, str_views(theme_names@)),
        ctx.theme_index < theme_names@.len(),
    ensures
        ({
            let (nav, out) = spec_settings_key(old(screen).nav, *ctx, key, modal);
            (final(screen)@, action_view(r)) == spec_apply_outcome(old(screen)@, nav, out, str_views(theme_names@))
        }),
        screen_fits(final(screen)@, str_views(theme_names@)),
{
    let (nav, out) = settings_key(screen.nav, ctx, key, modal);
    apply_outcome(screen, nav, out, theme_names)
}

/// A mouse event on the Settings screen: a left press where it landed, or
/// anything else (a move, a release, another button), which does nothing.
#[derive(Debug, Clone, Copy, PartialEq, Eq)]
pub enum SettingsPointer {
    Press(SettingsClick),
    Other,
}

/// Applies a mouse event to the Settings screen, as a key is applied.
pub fn handle_settings_mouse(
    screen: &mut SettingsScreen,
    ctx: &SettingsContext,
    pointer: SettingsPointer,
    theme_names: &[&str],
) -> (r: Option<SettingsAction>)
    requires
        screen_fits(old(screen)@, str_views(theme_names@)),
        ctx.theme_index < theme_names@.len(),
        old(screen).nav.section == SettingsSection::Theme ==> match pointer {
            SettingsPointer::Press(SettingsClick::Item(i)) => i < theme_names@.len(),
            _ => true,
        },
    ensures
        match pointer {
            SettingsPointer::Other => final(screen)@ == old(screen)@ && r is None,
            SettingsPointer::Press(click) => {
                let (nav, out) = spec_settings_click(old(screen).nav, *ctx, click);
                (final(screen)@, action_view(r)) == spec_apply_outcome(old(screen)@, nav, out, str_views(theme_names@))
            },
        },
        screen_fits(final(screen)@, str_views(theme_names@)),
{
    match pointer {
        SettingsPointer::Other => None,
        SettingsPointer::Press(click) => {
            let (nav, out) = settings_click(screen.nav, ctx, click);
            apply_outcome(screen, nav, out, theme_names)
        },
    }
}

} // verus!
