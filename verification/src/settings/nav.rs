//! Moving around the Settings screen with the keyboard and the mouse.
//!
//! The screen has five tabs, visited in the order below with `Tab` and
//! back with `BackTab`; each lists choices, and confirming a choice saves
//! it. Moving in the theme and toast lists, previewing, applying and
//! cancelling are handed back as outcomes, which `screen` applies.
use vstd::prelude::*;

use crate::config::ToastDelivery;
use crate::settings::{
    server_default_selection, server_settings_item_count, spec_toast_delivery_for_index,
    spec_toast_delivery_index, toast_delivery_for_index, toast_delivery_index, SERVER_IDX_OFF,
    SERVER_IDX_ON, SERVER_IDX_PORT,
};

verus! {

/// The tabs of the Settings screen, in order.
#[derive(Debug, Clone, Copy, PartialEq, Eq, Structural)]
pub enum SettingsSection {
    Theme,
    Sound,
    Toast,
    PaneLabels,
    Server,
}

/// The tab and the selected row.
#[derive(Debug, Clone, Copy, PartialEq, Eq, Structural)]
pub struct SettingsNav {
    pub section: SettingsSection,
    pub selected: usize,
}

/// The current settings, from which a tab's initial selection is taken.
#[derive(Debug, Clone, Copy, PartialEq, Eq, Structural)]
pub struct SettingsContext {
    /// Row of the current theme in the theme list.
    pub theme_index: usize,
    pub sound_enabled: bool,
    pub toast_delivery: ToastDelivery,
    pub labels_enabled: bool,
    pub server_enabled: bool,
}

/// A key, by what the Settings screen does with it: `Up`/`k`, `Down`/`j`,
/// `Tab`/`Right`/`l`, `BackTab`/`Left`/`h`, `Enter`/space, or another.
#[derive(Debug, Clone, Copy, PartialEq, Eq, Structural)]
pub enum SettingsKey {
    Up,
    Down,
    Next,
    Prev,
    Confirm,
    Other,
}

/// What the dialog key bindings make of a key.
#[derive(Debug, Clone, Copy, PartialEq, Eq, Structural)]
pub enum ModalChoice {
    Apply,
    Close,
    Neither,
}

/// A setting saved from the screen.
#[derive(Debug, Clone, Copy, PartialEq, Eq, Structural)]
pub enum SettingsSave {
    Sound(bool),
    ToastDelivery(ToastDelivery),
    AgentBorderLabels(bool),
    ServerEnabled(bool),
}

/// What a key or a click asks of the app.
#[derive(Debug, Clone, Copy, PartialEq, Eq, Structural)]
pub enum SettingsOutcome {
    /// Nothing beyond the new selection.
    Nothing,
    /// Move the theme list's selection up, previewing the theme if it
    /// changed.
    ThemeUp,
    /// Move the theme list's selection down, previewing the theme if it
    /// changed.
    ThemeDown,
    /// Move the toast list's selection up.
    ToastUp,
    /// Move the toast list's selection down (among four rows).
    ToastDown,
    /// Preview the theme now selected.
    PreviewTheme,
    /// Save a setting.
    Save(SettingsSave),
    /// Open the port editor.
    OpenPortEditor,
    /// Keep the previewed theme, save it, and close the screen.
    ApplyTheme,
    /// Close the screen.
    Leave,
    /// Restore the theme shown before the screen opened, and close it.
    Cancel,
}

/// The row selected when a tab opens: the current setting.
pub open spec fn spec_section_selection(section: SettingsSection, ctx: SettingsContext) -> usize {
    match section {
        SettingsSection::Theme => ctx.theme_index,
        SettingsSection::Sound => if ctx.sound_enabled { 0 } else { 1 },
        SettingsSection::Toast => spec_toast_delivery_index(ctx.toast_delivery),
        SettingsSection::PaneLabels => if ctx.labels_enabled { 0 } else { 1 },
        SettingsSection::Server => if ctx.server_enabled { SERVER_IDX_ON } else { SERVER_IDX_OFF },
    }
}

/// The row selected when a tab opens.
pub fn section_selection(section: SettingsSection, ctx: &SettingsContext) -> (r: usize)
    ensures
        r == spec_section_selection(section, *ctx),
{
    match section {
        SettingsSection::Theme => ctx.theme_index,
        SettingsSection::Sound => if ctx.sound_enabled { 0 } else { 1 },
        SettingsSection::Toast => toast_delivery_index(ctx.toast_delivery),
        SettingsSection::PaneLabels => if ctx.labels_enabled { 0 } else { 1 },
        SettingsSection::Server => server_default_selection(ctx.server_enabled),
    }
}

/// The tab after a tab, going round.
pub open spec fn next_section(s: SettingsSection) -> SettingsSection {
    match s {
        SettingsSection::Theme => SettingsSection::Sound,
        SettingsSection::Sound => SettingsSection::Toast,
        SettingsSection::Toast => SettingsSection::PaneLabels,
        SettingsSection::PaneLabels => SettingsSection::Server,
        SettingsSection::Server => SettingsSection::Theme,
    }
}

/// The tab before a tab; the first has none.
pub open spec fn prev_section(s: SettingsSection) -> Option<SettingsSection> {
    match s {
        SettingsSection::Theme => None,
        SettingsSection::Sound => Some(SettingsSection::Theme),
        SettingsSection::Toast => Some(SettingsSection::Sound),
        SettingsSection::PaneLabels => Some(SettingsSection::Toast),
        SettingsSection::Server => Some(SettingsSection::PaneLabels),
    }
}

/// Opening a tab: its current setting is selected.
pub open spec fn open_section(s: SettingsSection, ctx: SettingsContext) -> SettingsNav {
    SettingsNav { section: s, selected: spec_section_selection(s, ctx) }
}

/// The other row of a two-row tab.
pub open spec fn toggled(selected: usize) -> usize {
    if selected == 0 { 1 } else { 0 }
}

/// The closing the dialog bindings ask for, on a tab other than Theme.
pub open spec fn close_only(nav: SettingsNav, modal: ModalChoice) -> (SettingsNav, SettingsOutcome) {
    if modal == ModalChoice::Close {
        (nav, SettingsOutcome::Cancel)
    } else {
        (nav, SettingsOutcome::Nothing)
    }
}

/// What a key does on the Settings screen; `modal` is what the dialog
/// bindings make of the same key.
pub open spec fn spec_settings_key(
    nav: SettingsNav,
    ctx: SettingsContext,
    key: SettingsKey,
    modal: ModalChoice,
) -> (SettingsNav, SettingsOutcome) {
    let sel = nav.selected;
    match nav.section {
        SettingsSection::Theme => match key {
            SettingsKey::Up => (nav, SettingsOutcome::ThemeUp),
            SettingsKey::Down => (nav, SettingsOutcome::ThemeDown),
            SettingsKey::Next => (open_section(SettingsSection::Sound, ctx), SettingsOutcome::Nothing),
            _ => if modal == ModalChoice::Apply {
                (nav, SettingsOutcome::ApplyTheme)
            } else if modal == ModalChoice::Close {
                (nav, SettingsOutcome::Cancel)
            } else {
                (nav, SettingsOutcome::Nothing)
            },
        },
        SettingsSection::Sound => match key {
            SettingsKey::Up | SettingsKey::Down => (SettingsNav { selected: toggled(sel), ..nav }, SettingsOutcome::Nothing),
            SettingsKey::Confirm => (nav, SettingsOutcome::Save(SettingsSave::Sound(sel == 0))),
            SettingsKey::Next => (open_section(SettingsSection::Toast, ctx), SettingsOutcome::Nothing),
            SettingsKey::Prev => (open_section(SettingsSection::Theme, ctx), SettingsOutcome::Nothing),
            SettingsKey::Other => close_only(nav, modal),
        },
        SettingsSection::Toast => match key {
            SettingsKey::Up => (nav, SettingsOutcome::ToastUp),
            SettingsKey::Down => (nav, SettingsOutcome::ToastDown),
            SettingsKey::Confirm => (nav, SettingsOutcome::Save(SettingsSave::ToastDelivery(spec_toast_delivery_for_index(sel)))),
            SettingsKey::Prev => (open_section(SettingsSection::Sound, ctx), SettingsOutcome::Nothing),
            SettingsKey::Next => (open_section(SettingsSection::PaneLabels, ctx), SettingsOutcome::Nothing),
            SettingsKey::Other => close_only(nav, modal),
        },
        SettingsSection::PaneLabels => match key {
            SettingsKey::Up | SettingsKey::Down => (SettingsNav { selected: toggled(sel), ..nav }, SettingsOutcome::Nothing),
            SettingsKey::Confirm => (nav, SettingsOutcome::Save(SettingsSave::AgentBorderLabels(sel == 0))),
            SettingsKey::Prev => (open_section(SettingsSection::Toast, ctx), SettingsOutcome::Nothing),
            SettingsKey::Next => (open_section(SettingsSection::Server, ctx), SettingsOutcome::Nothing),
            SettingsKey::Other => close_only(nav, modal),
        },
        SettingsSection::Server => {
            let count: usize = if ctx.server_enabled { 3 } else { 2 };
            match key {
                SettingsKey::Up => if sel > 0 {
                    (SettingsNav { selected: (sel - 1) as usize, ..nav }, SettingsOutcome::Nothing)
                } else {
                    (nav, SettingsOutcome::Nothing)
                },
                SettingsKey::Down => if sel + 1 < count {
                    (SettingsNav { selected: (sel + 1) as usize, ..nav }, SettingsOutcome::Nothing)
                } else {
                    (nav, SettingsOutcome::Nothing)
                },
                SettingsKey::Confirm => (nav, server_choice(sel, ctx.server_enabled)),
                SettingsKey::Prev => (open_section(SettingsSection::PaneLabels, ctx), SettingsOutcome::Nothing),
                SettingsKey::Next => (open_section(SettingsSection::Theme, ctx), SettingsOutcome::Nothing),
                SettingsKey::Other => close_only(nav, modal),
            }
        },
    }
}

/// What choosing a row of the Server tab does.
pub open spec fn server_choice(idx: usize, enabled: bool) -> SettingsOutcome {
    if idx == SERVER_IDX_ON {
        SettingsOutcome::Save(SettingsSave::ServerEnabled(true))
    } else if idx == SERVER_IDX_OFF {
        SettingsOutcome::Save(SettingsSave::ServerEnabled(false))
    } else if idx == SERVER_IDX_PORT && enabled {
        SettingsOutcome::OpenPortEditor
    } else {
        SettingsOutcome::Nothing
    }
}

fn server_choice_exec(idx: usize, enabled: bool) -> (r: SettingsOutcome)
    ensures
        r == server_choice(idx, enabled),
{
    if idx == SERVER_IDX_ON {
        SettingsOutcome::Save(SettingsSave::ServerEnabled(true))
    } else if idx == SERVER_IDX_OFF {
        SettingsOutcome::Save(SettingsSave::ServerEnabled(false))
    } else if idx == SERVER_IDX_PORT && enabled {
        SettingsOutcome::OpenPortEditor
    } else {
        SettingsOutcome::Nothing
    }
}

fn open_section_exec(s: SettingsSection, ctx: &SettingsContext) -> (r: SettingsNav)
    ensures
        r == open_section(s, *ctx),
{
    SettingsNav { section: s, selected: section_selection(s, ctx) }
}

fn close_only_exec(nav: SettingsNav, modal: ModalChoice) -> (r: (SettingsNav, SettingsOutcome))
    ensures
        r == close_only(nav, modal),
{
    if modal == ModalChoice::Close {
        (nav, SettingsOutcome::Cancel)
    } else {
        (nav, SettingsOutcome::Nothing)
    }
}

/// Applies a key to the Settings screen; `modal` is what the dialog
/// bindings make of the same key.
pub fn settings_key(nav: SettingsNav, ctx: &SettingsContext, key: SettingsKey, modal: ModalChoice) -> (r: (SettingsNav, SettingsOutcome))
    ensures
        r == spec_settings_key(nav, *ctx, key, modal),
{
    let sel = nav.selected;
    match nav.section {
        SettingsSection::Theme => match key {
            SettingsKey::Up => (nav, SettingsOutcome::ThemeUp),
            SettingsKey::Down => (nav, SettingsOutcome::ThemeDown),
            SettingsKey::Next => (open_section_exec(SettingsSection::Sound, ctx), SettingsOutcome::Nothing),
            _ => if modal == ModalChoice::Apply {
                (nav, SettingsOutcome::ApplyTheme)
            } else if modal == ModalChoice::Close {
                (nav, SettingsOutcome::Cancel)
            } else {
                (nav, SettingsOutcome::Nothing)
            },
        },
        SettingsSection::Sound => match key {
            SettingsKey::Up | SettingsKey::Down => {
                (SettingsNav { selected: if sel == 0 { 1 } else { 0 }, ..nav }, SettingsOutcome::Nothing)
            },
            SettingsKey::Confirm => (nav, SettingsOutcome::Save(SettingsSave::Sound(sel == 0))),
            SettingsKey::Next => (open_section_exec(SettingsSection::Toast, ctx), SettingsOutcome::Nothing),
            SettingsKey::Prev => (open_section_exec(SettingsSection::Theme, ctx), SettingsOutcome::Nothing),
            SettingsKey::Other => close_only_exec(nav, modal),
        },
        SettingsSection::Toast => match key {
            SettingsKey::Up => (nav, SettingsOutcome::ToastUp),
            SettingsKey::Down => (nav, SettingsOutcome::ToastDown),
            SettingsKey::Confirm => {
                (nav, SettingsOutcome::Save(SettingsSave::ToastDelivery(toast_delivery_for_index(sel))))
            },
            SettingsKey::Prev => (open_section_exec(SettingsSection::Sound, ctx), SettingsOutcome::Nothing),
            SettingsKey::Next => (open_section_exec(SettingsSection::PaneLabels, ctx), SettingsOutcome::Nothing),
            SettingsKey::Other => close_only_exec(nav, modal),
        },
        SettingsSection::PaneLabels => match key {
            SettingsKey::Up | SettingsKey::Down => {
                (SettingsNav { selected: if sel == 0 { 1 } else { 0 }, ..nav }, SettingsOutcome::Nothing)
            },
            SettingsKey::Confirm => (nav, SettingsOutcome::Save(SettingsSave::AgentBorderLabels(sel == 0))),
            SettingsKey::Prev => (open_section_exec(SettingsSection::Toast, ctx), SettingsOutcome::Nothing),
            SettingsKey::Next => (open_section_exec(SettingsSection::Server, ctx), SettingsOutcome::Nothing),
            SettingsKey::Other => close_only_exec(nav, modal),
        },
        SettingsSection::Server => {
            let count = server_settings_item_count(ctx.server_enabled);
            match key {
                SettingsKey::Up => if sel > 0 {
                    (SettingsNav { selected: sel - 1, ..nav }, SettingsOutcome::Nothing)
                } else {
                    (nav, SettingsOutcome::Nothing)
                },
                SettingsKey::Down => if sel < count - 1 {
                    (SettingsNav { selected: sel + 1, ..nav }, SettingsOutcome::Nothing)
                } else {
                    (nav, SettingsOutcome::Nothing)
                },
                SettingsKey::Confirm => (nav, server_choice_exec(sel, ctx.server_enabled)),
                SettingsKey::Prev => (open_section_exec(SettingsSection::PaneLabels, ctx), SettingsOutcome::Nothing),
                SettingsKey::Next => (open_section_exec(SettingsSection::Theme, ctx), SettingsOutcome::Nothing),
                SettingsKey::Other => close_only_exec(nav, modal),
            }
        },
    }
}

/// `Tab` visits every tab and comes back after five presses.
pub proof fn lemma_tabs_cycle(s: SettingsSection)
    ensures
        next_section(next_section(next_section(next_section(next_section(s))))) == s,
        s != SettingsSection::Theme ==> (prev_section(s) matches Some(p) && next_section(p) == s),
{
}

/// Opening a tab and confirming without moving saves the setting already
/// in force (on the Sound, Toast and Pane labels tabs), or changes nothing
/// on the Server tab but turning the gateway on again when it is on.
pub proof fn lemma_confirm_keeps_setting(ctx: SettingsContext, s: SettingsSection)
    ensures
        ({
            let nav = open_section(s, ctx);
            let out = spec_settings_key(nav, ctx, SettingsKey::Confirm, ModalChoice::Neither).1;
            &&& s == SettingsSection::Sound ==> out == SettingsOutcome::Save(SettingsSave::Sound(ctx.sound_enabled))
            &&& s == SettingsSection::Toast ==> out == SettingsOutcome::Save(SettingsSave::ToastDelivery(ctx.toast_delivery))
            &&& s == SettingsSection::PaneLabels ==> out == SettingsOutcome::Save(SettingsSave::AgentBorderLabels(ctx.labels_enabled))
            &&& s == SettingsSection::Server ==> out == SettingsOutcome::Save(SettingsSave::ServerEnabled(ctx.server_enabled))
        }),
{
}

/// Where a click on the Settings screen landed.
#[derive(Debug, Clone, Copy, PartialEq, Eq, Structural)]
pub enum SettingsClick {
    /// On a tab.
    Tab(SettingsSection),
    /// On a row of the open tab.
    Item(usize),
    /// On the apply button.
    Apply,
    /// On the close button.
    Close,
    /// Anywhere else.
    Outside,
}

/// What a left click does on the Settings screen.
pub open spec fn spec_settings_click(nav: SettingsNav, ctx: SettingsContext, click: SettingsClick) -> (SettingsNav, SettingsOutcome) {
    match click {
        SettingsClick::Tab(s) => (open_section(s, ctx), SettingsOutcome::Nothing),
        SettingsClick::Item(idx) => {
            let n = SettingsNav { selected: idx, ..nav };
            (n, match nav.section {
                SettingsSection::Theme => SettingsOutcome::PreviewTheme,
                SettingsSection::Sound => SettingsOutcome::Save(SettingsSave::Sound(idx == 0)),
                SettingsSection::Toast => SettingsOutcome::Save(SettingsSave::ToastDelivery(spec_toast_delivery_for_index(idx))),
                SettingsSection::PaneLabels => SettingsOutcome::Save(SettingsSave::AgentBorderLabels(idx == 0)),
                SettingsSection::Server => server_choice(idx, ctx.server_enabled),
            })
        },
        SettingsClick::Apply => (nav, if nav.section == SettingsSection::Theme {
            SettingsOutcome::ApplyTheme
        } else {
            SettingsOutcome::Leave
        }),
        SettingsClick::Close | SettingsClick::Outside => (nav, SettingsOutcome::Cancel),
    }
}

/// Applies a left click to the Settings screen.
pub fn settings_click(nav: SettingsNav, ctx: &SettingsContext, click: SettingsClick) -> (r: (SettingsNav, SettingsOutcome))
    ensures
        r == spec_settings_click(nav, *ctx, click),
{
    match click {
        SettingsClick::Tab(s) => (open_section_exec(s, ctx), SettingsOutcome::Nothing),
        SettingsClick::Item(idx) => {
            let n = SettingsNav { selected: idx, ..nav };
            let out = match nav.section {
                SettingsSection::Theme => SettingsOutcome::PreviewTheme,
                SettingsSection::Sound => SettingsOutcome::Save(SettingsSave::Sound(idx == 0)),
                SettingsSection::Toast => SettingsOutcome::Save(SettingsSave::ToastDelivery(toast_delivery_for_index(idx))),
                SettingsSection::PaneLabels => SettingsOutcome::Save(SettingsSave::AgentBorderLabels(idx == 0)),
                SettingsSection::Server => server_choice_exec(idx, ctx.server_enabled),
            };
            (n, out)
        },
        SettingsClick::Apply => {
            if nav.section == SettingsSection::Theme {
                (nav, SettingsOutcome::ApplyTheme)
            } else {
                (nav, SettingsOutcome::Leave)
            }
        },
        SettingsClick::Close | SettingsClick::Outside => (nav, SettingsOutcome::Cancel),
    }
}

/// A rectangle of the terminal, in cells.
#[derive(Debug, Clone, Copy, PartialEq, Eq, Structural)]
pub struct CellRect {
    pub x: u16,
    pub y: u16,
    pub width: u16,
    pub height: u16,
}

/// The tab at column `col` of the tab row, scanning tabs from `i` on, the
/// tab `i` starting at column `x`: each tab is its label and a cell on
/// either side, with one cell between tabs.
pub open spec fn tab_scan(lens: Seq<usize>, i: int, x: int, col: int) -> Option<int>
    decreases lens.len() - i,
{
    if i < 0 || i >= lens.len() {
        None
    } else {
        let w = lens[i] + 2;
        if col >= x && col < x + w {
            Some(i)
        } else {
            tab_scan(lens, i + 1, x + w + 1, col)
        }
    }
}

/// The scan of the tab row stays within `u16` up to the tab found.
pub open spec fn tab_scan_fits(lens: Seq<usize>, i: int, x: int, col: int) -> bool
    decreases lens.len() - i,
{
    if i < 0 || i >= lens.len() {
        true
    } else {
        let w = lens[i] + 2;
        &&& x + w <= u16::MAX
        &&& (col >= x && col < x + w) || (x + w + 1 <= u16::MAX && tab_scan_fits(lens, i + 1, x + w + 1, col))
    }
}

/// The tab under a click, given the inner area's corner and the length of
/// each tab's label, in order.
pub fn tab_at(inner_x: u16, inner_y: u16, col: u16, row: u16, label_lens: &[usize]) -> (r: Option<usize>)
    requires
        inner_y < u16::MAX,
        row == inner_y + 1 ==> tab_scan_fits(label_lens@, 0, inner_x as int, col as int),
    ensures
        r matches Some(i) ==> row == inner_y + 1 && tab_scan(label_lens@, 0, inner_x as int, col as int) == Some(i as int),
        r is None ==> row != inner_y + 1 || tab_scan(label_lens@, 0, inner_x as int, col as int) is None,
{
    let tab_y = inner_y + 1;
    if row != tab_y {
        return None;
    }
    let mut x: u16 = inner_x;
    let mut i: usize = 0;
    while i < label_lens.len()
        invariant
            i <= label_lens@.len(),
            row == inner_y + 1,
            tab_scan(label_lens@, 0, inner_x as int, col as int) == tab_scan(label_lens@, i as int, x as int, col as int),
            tab_scan_fits(label_lens@, i as int, x as int, col as int),
        decreases label_lens@.len() - i,
    {
        let width = (label_lens[i] as u16) + 2;
        if col >= x && col < x + width {
            return Some(i);
        }
        x = x + width + 1;
        i = i + 1;
    }
    None
}

/// The row index under a click inside a tab's list, if any.
pub open spec fn spec_list_index_at(
    area: CellRect,
    section: SettingsSection,
    selected: usize,
    theme_count: usize,
    server_enabled: bool,
    col: u16,
    row: u16,
) -> Option<int> {
    if row < area.y || row >= area.y + area.height || col < area.x || col >= area.x + area.width {
        None
    } else {
        let list_y = area.y + 3;
        let off = row - area.y;
        match section {
            SettingsSection::Theme => {
                let max_visible = area.height as int;
                let scroll = if selected >= max_visible { selected - max_visible + 1 } else { 0 };
                let idx = scroll + off;
                if idx < theme_count { Some(idx) } else { None }
            },
            SettingsSection::Sound | SettingsSection::PaneLabels => if row >= list_y && row < list_y + 2 {
                Some(row - list_y)
            } else {
                None
            },
            SettingsSection::Toast => if row >= list_y && row < list_y + 8 {
                Some((row - list_y) / 2)
            } else {
                None
            },
            SettingsSection::Server => if row < list_y {
                None
            } else {
                let idx = row - list_y;
                if idx < (if server_enabled { 3int } else { 2int }) { Some(idx) } else { None }
            },
        }
    }
}

/// Where the computation of the row index stays within its integer types.
pub open spec fn list_index_fits(area: CellRect, section: SettingsSection, selected: usize, col: u16, row: u16) -> bool {
    &&& row >= area.y ==> area.y + area.height <= u16::MAX
    &&& row >= area.y && row < area.y + area.height && col >= area.x ==> area.x + area.width <= u16::MAX
    &&& row >= area.y && row < area.y + area.height && col >= area.x && col < area.x + area.width ==> match section {
        SettingsSection::Theme => selected + (row - area.y) <= usize::MAX,
        SettingsSection::Sound | SettingsSection::PaneLabels => area.y + 3 <= u16::MAX && (row >= area.y + 3 ==> area.y + 5 <= u16::MAX),
        SettingsSection::Toast => area.y + 3 <= u16::MAX && (row >= area.y + 3 ==> area.y + 11 <= u16::MAX),
        SettingsSection::Server => area.y + 3 <= u16::MAX,
    }
}

/// The row of the open tab's list under a click, given the list's area.
pub fn list_index_at(
    area: CellRect,
    section: SettingsSection,
    selected: usize,
    theme_count: usize,
    server_enabled: bool,
    col: u16,
    row: u16,
) -> (r: Option<usize>)
    requires
        list_index_fits(area, section, selected, col, row),
    ensures
        match spec_list_index_at(area, section, selected, theme_count, server_enabled, col, row) {
            Some(i) => r == Some(i as usize),
            None => r is None,
        },
{
    if row < area.y || row >= area.y + area.height || col < area.x || col >= area.x + area.width {
        return None;
    }
    match section {
        SettingsSection::Theme => {
            let max_visible = area.height as usize;
            let scroll = if selected >= max_visible { selected - max_visible + 1 } else { 0 };
            let idx = scroll + (row - area.y) as usize;
            if idx < theme_count { Some(idx) } else { None }
        },
        SettingsSection::Sound | SettingsSection::PaneLabels => {
            let list_y = area.y + 3;
            if row >= list_y && row < list_y + 2 {
                Some((row - list_y) as usize)
            } else {
                None
            }
        },
        SettingsSection::Toast => {
            let list_y = area.y + 3;
            if row >= list_y && row < list_y + 8 {
                Some(((row - list_y) / 2) as usize)
            } else {
                None
            }
        },
        SettingsSection::Server => {
            let list_y = area.y + 3;
            if row < list_y {
                return None;
            }
            let idx = (row - list_y) as usize;
            let count = server_settings_item_count(server_enabled);
            if idx < count { Some(idx) } else { None }
        },
    }
}

/// The position of a tab in the tab row.
pub open spec fn spec_section_position(s: SettingsSection) -> usize {
    match s {
        SettingsSection::Theme => 0,
        SettingsSection::Sound => 1,
        SettingsSection::Toast => 2,
        SettingsSection::PaneLabels => 3,
        SettingsSection::Server => 4,
    }
}

/// The position of a tab in the tab row (the tab highlighted).
pub fn section_position(s: SettingsSection) -> (r: usize)
    ensures
        r == spec_section_position(s),
{
    match s {
        SettingsSection::Theme => 0,
        SettingsSection::Sound => 1,
        SettingsSection::Toast => 2,
        SettingsSection::PaneLabels => 3,
        SettingsSection::Server => 4,
    }
}

/// `Tab` moves the highlight one place to the right, from the last tab
/// back to the first.
pub proof fn lemma_next_section_position(s: SettingsSection)
    ensures
        spec_section_position(next_section(s)) == (spec_section_position(s) + 1) % 5,
{
}

/// `Tab` (and its keys) opens the next tab, round from the last to the
/// first, and `BackTab` (and its keys) the tab before, on every tab that
/// has one; either way the tab opens on its current setting, and nothing
/// else happens.
pub proof fn lemma_tab_keys(nav: SettingsNav, ctx: SettingsContext, modal: ModalChoice)
    ensures
        ({
            let (n, out) = spec_settings_key(nav, ctx, SettingsKey::Next, modal);
            &&& n.section == next_section(nav.section)
            &&& n.selected == spec_section_selection(n.section, ctx)
            &&& out == SettingsOutcome::Nothing
        }),
        nav.section != SettingsSection::Theme ==> {
            let (n, out) = spec_settings_key(nav, ctx, SettingsKey::Prev, modal);
            &&& next_section(n.section) == nav.section
            &&& n.section != SettingsSection::Server
            &&& n.selected == spec_section_selection(n.section, ctx)
            &&& out == SettingsOutcome::Nothing
        },
{
}

/// On the Toast tab each of the four deliveries, drawn two rows apart from
/// the fourth row of the list area, is chosen by a click on either of its
/// rows.
pub proof fn lemma_toast_rows_clickable(
    area: CellRect,
    selected: usize,
    theme_count: usize,
    server_enabled: bool,
    col: u16,
    row: u16,
    k: int,
)
    requires
        0 <= k < 4,
        area.x <= col < area.x + area.width,
        area.y <= row < area.y + area.height,
        row == area.y + 3 + 2 * k || row == area.y + 3 + 2 * k + 1,
    ensures
        spec_list_index_at(area, SettingsSection::Toast, selected, theme_count, server_enabled, col, row) == Some(k),
{
}

/// What confirming and moving do on the choice tabs: on Sound and Pane
/// labels the up and down keys switch between the two rows and confirming
/// saves "on" for the first row and "off" for the second; on Toast
/// confirming saves the delivery of the selected row; nothing else changes.
pub proof fn lemma_choice_keys(nav: SettingsNav, ctx: SettingsContext, modal: ModalChoice)
    ensures
        nav.section == SettingsSection::Sound || nav.section == SettingsSection::PaneLabels ==> {
            &&& nav.selected <= 1 ==> spec_settings_key(nav, ctx, SettingsKey::Up, modal).0.selected == 1 - nav.selected
            &&& nav.selected <= 1 ==> spec_settings_key(nav, ctx, SettingsKey::Down, modal).0.selected == 1 - nav.selected
            &&& spec_settings_key(nav, ctx, SettingsKey::Confirm, modal) == (nav, SettingsOutcome::Save(
                if nav.section == SettingsSection::Sound {
                    SettingsSave::Sound(nav.selected == 0)
                } else {
                    SettingsSave::AgentBorderLabels(nav.selected == 0)
                },
            ))
        },
        nav.section == SettingsSection::Toast ==> spec_settings_key(nav, ctx, SettingsKey::Confirm, modal) == (
            nav,
            SettingsOutcome::Save(SettingsSave::ToastDelivery(spec_toast_delivery_for_index(nav.selected))),
        ),
        nav.section == SettingsSection::Toast ==> spec_toast_delivery_index(
            spec_toast_delivery_for_index(nav.selected),
        ) == (if nav.selected < 3 { nav.selected } else { 3 }),
{
}

/// On the Sound and Pane labels tabs the two rows under the list's top are
/// hit by clicks on them; on the Server tab each listed row is.
pub proof fn lemma_choice_rows_clickable(
    area: CellRect,
    section: SettingsSection,
    selected: usize,
    theme_count: usize,
    server_enabled: bool,
    col: u16,
    row: u16,
    k: int,
)
    requires
        area.x <= col < area.x + area.width,
        area.y <= row < area.y + area.height,
        row == area.y + 3 + k,
        0 <= k,
    ensures
        (section == SettingsSection::Sound || section == SettingsSection::PaneLabels) && k < 2 ==> spec_list_index_at(
            area,
            section,
            selected,
            theme_count,
            server_enabled,
            col,
            row,
        ) == Some(k),
        section == SettingsSection::Server && k < (if server_enabled { 3int } else { 2int }) ==> spec_list_index_at(
            area,
            section,
            selected,
            theme_count,
            server_enabled,
            col,
            row,
        ) == Some(k),
{
}

} // verus!
