//! What saving a setting writes to `config.toml`.
use vstd::prelude::*;
use vstd::string::*;

use crate::config::{AgentPanelScopeConfig, ToastDelivery};
use crate::settings::nav::SettingsSave;
use crate::settings::{toast_delivery_name, toast_delivery_value};
use crate::text::{owned, push_str};

verus! {

/// One change to `config.toml`.
#[derive(Debug, Clone, PartialEq, Eq)]
pub enum ConfigEdit {
    /// Set `key = value` (`value` as TOML) in a table.
    SetValue { section: &'static str, key: &'static str, value: String },
    /// Set a boolean in a table.
    SetBool { section: &'static str, key: &'static str, value: bool },
    /// Remove a key from a table.
    RemoveKey { section: &'static str, key: &'static str },
    /// Set a boolean outside any table.
    SetTopLevelBool { key: &'static str, value: bool },
}

/// The mathematical content of a [`ConfigEdit`].
pub enum EditView {
    SetValue(Seq<char>, Seq<char>, Seq<char>),
    SetBool(Seq<char>, Seq<char>, bool),
    RemoveKey(Seq<char>, Seq<char>),
    SetTopLevelBool(Seq<char>, bool),
}

impl View for ConfigEdit {
    type V = EditView;

    open spec fn view(&self) -> EditView {
        match self {
            ConfigEdit::SetValue { section, key, value } => EditView::SetValue(section@, key@, value@),
            ConfigEdit::SetBool { section, key, value } => EditView::SetBool(section@, key@, *value),
            ConfigEdit::RemoveKey { section, key } => EditView::RemoveKey(section@, key@),
            ConfigEdit::SetTopLevelBool { key, value } => EditView::SetTopLevelBool(key@, *value),
        }
    }
}

/// A save: what it is called in failure messages, the edits, and whether
/// the configuration is reloaded afterwards.
#[derive(Debug, Clone, PartialEq, Eq)]
pub struct ConfigWrite {
    pub context: &'static str,
    pub edits: Vec<ConfigEdit>,
    pub reload: bool,
}

/// The views of a list of edits.
pub open spec fn edit_views(v: Seq<ConfigEdit>) -> Seq<EditView> {
    v.map_values(|e: ConfigEdit| e@)
}

/// A value written as a TOML string.
pub open spec fn toml_string(v: Seq<char>) -> Seq<char> {
    "\""@ + v + "\""@
}

fn toml_string_exec(v: &str) -> (r: String)
    ensures
        r@ == toml_string(v@),
{
    let mut s = owned("\"");
    push_str(&mut s, v);
    push_str(&mut s, "\"");
    s
}

/// Saving the chosen theme: `[theme] name`.
pub fn theme_write(name: &str) -> (r: ConfigWrite)
    ensures
        r.context@ == "theme"@,
        r.reload,
        edit_views(r.edits@) == seq![EditView::SetValue("theme"@, "name"@, toml_string(name@))],
{
    let mut edits: Vec<ConfigEdit> = Vec::new();
    edits.push(ConfigEdit::SetValue { section: "theme", key: "name", value: toml_string_exec(name) });
    assert(edit_views(edits@) =~= seq![EditView::SetValue("theme"@, "name"@, toml_string(name@))]);
    ConfigWrite { context: "theme", edits, reload: true }
}

/// Saving the first-run setup as done: `onboarding = false`.
pub fn onboarding_write() -> (r: ConfigWrite)
    ensures
        r.context@ == "onboarding setting"@,
        !r.reload,
        edit_views(r.edits@) == seq![EditView::SetTopLevelBool("onboarding"@, false)],
{
    let mut edits: Vec<ConfigEdit> = Vec::new();
    edits.push(ConfigEdit::SetTopLevelBool { key: "onboarding", value: false });
    assert(edit_views(edits@) =~= seq![EditView::SetTopLevelBool("onboarding"@, false)]);
    ConfigWrite { context: "onboarding setting", edits, reload: false }
}

/// Saving the agent panel's scope: `[ui] agent_panel_scope`.
pub fn agent_panel_scope_write(scope: AgentPanelScopeConfig) -> (r: ConfigWrite)
    ensures
        r.context@ == "agent panel scope"@,
        r.reload,
        edit_views(r.edits@) == seq![EditView::SetValue("ui"@, "agent_panel_scope"@, toml_string(scope.spec_as_str()))],
{
    let mut edits: Vec<ConfigEdit> = Vec::new();
    edits.push(ConfigEdit::SetValue { section: "ui", key: "agent_panel_scope", value: toml_string_exec(scope.as_str()) });
    assert(edit_views(edits@) =~= seq![EditView::SetValue("ui"@, "agent_panel_scope"@, toml_string(scope.spec_as_str()))]);
    ConfigWrite { context: "agent panel scope", edits, reload: true }
}

/// What saving a choice of the Settings screen writes (the gateway's
/// switch is handled by its own flow, and writes nothing here).
pub open spec fn spec_settings_write(save: SettingsSave) -> Option<(Seq<char>, Seq<EditView>)> {
    match save {
        SettingsSave::Sound(b) => Some(("sound setting"@, seq![EditView::SetBool("ui.sound"@, "enabled"@, b)])),
        SettingsSave::ToastDelivery(d) => Some((
            "toast setting"@,
            seq![
                EditView::SetValue("ui.toast"@, "delivery"@, toml_string(toast_delivery_name(d))),
                EditView::RemoveKey("ui.toast"@, "enabled"@),
            ],
        )),
        SettingsSave::AgentBorderLabels(b) => Some((
            "agent border labels"@,
            seq![EditView::SetBool("ui"@, "show_agent_labels_on_pane_borders"@, b)],
        )),
        SettingsSave::ServerEnabled(_) => None,
    }
}

/// What saving a choice of the Settings screen writes; the configuration
/// is reloaded afterwards.
pub fn settings_write(save: SettingsSave) -> (r: Option<ConfigWrite>)
    ensures
        match spec_settings_write(save) {
            Some((ctx, edits)) => r matches Some(w) && w.context@ == ctx && edit_views(w.edits@) == edits && w.reload,
            None => r is None,
        },
{
    let mut edits: Vec<ConfigEdit> = Vec::new();
    match save {
        SettingsSave::Sound(b) => {
            edits.push(ConfigEdit::SetBool { section: "ui.sound", key: "enabled", value: b });
            assert(edit_views(edits@) =~= seq![EditView::SetBool("ui.sound"@, "enabled"@, b)]);
            Some(ConfigWrite { context: "sound setting", edits, reload: true })
        },
        SettingsSave::ToastDelivery(d) => {
            let v = toast_delivery_value(d);
            edits.push(ConfigEdit::SetValue { section: "ui.toast", key: "delivery", value: owned(v) });
            edits.push(ConfigEdit::RemoveKey { section: "ui.toast", key: "enabled" });
            assert(edit_views(edits@) =~= seq![
                EditView::SetValue("ui.toast"@, "delivery"@, toml_string(toast_delivery_name(d))),
                EditView::RemoveKey("ui.toast"@, "enabled"@),
            ]);
            Some(ConfigWrite { context: "toast setting", edits, reload: true })
        },
        SettingsSave::AgentBorderLabels(b) => {
            edits.push(ConfigEdit::SetBool { section: "ui", key: "show_agent_labels_on_pane_borders", value: b });
            assert(edit_views(edits@) =~= seq![EditView::SetBool("ui"@, "show_agent_labels_on_pane_borders"@, b)]);
            Some(ConfigWrite { context: "agent border labels", edits, reload: true })
        },
        SettingsSave::ServerEnabled(_) => None,
    }
}

} // verus!
