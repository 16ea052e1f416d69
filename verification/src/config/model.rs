//! The data read from `config.toml`, with the defaults that apply to every
//! key a file leaves out.
use vstd::prelude::*;
use vstd::string::*;

use super::DEFAULT_SCROLLBACK_LIMIT_BYTES;

verus! {

/// Where background toast notifications are delivered.
#[derive(Debug, Clone, Copy, PartialEq, Eq, Structural)]
pub enum ToastDelivery {
    Off,
    Herdr,
    Terminal,
    System,
}

impl Default for ToastDelivery {
    fn default() -> (r: Self)
        ensures
            r == ToastDelivery::Off,
    {
        ToastDelivery::Off
    }
}

/// Which workspaces the agent panel lists.
#[derive(Debug, Clone, Copy, PartialEq, Eq, Structural)]
pub enum AgentPanelScopeConfig {
    Current,
    All,
}

impl Default for AgentPanelScopeConfig {
    fn default() -> (r: Self)
        ensures
            r == AgentPanelScopeConfig::All,
    {
        AgentPanelScopeConfig::All
    }
}

impl AgentPanelScopeConfig {
    /// The value written to `config.toml` for this scope.
    pub open spec fn spec_as_str(self) -> Seq<char> {
        match self {
            AgentPanelScopeConfig::Current => "current"@,
            AgentPanelScopeConfig::All => "all"@,
        }
    }

    /// The value written to `config.toml` for this scope.
    pub fn as_str(self) -> (r: &'static str)
        ensures
            r@ == self.spec_as_str(),
    {
        match self {
            AgentPanelScopeConfig::Current => "current",
            AgentPanelScopeConfig::All => "all",
        }
    }
}

/// `[ui.toast]`.
#[derive(Debug, Clone)]
pub struct ToastConfig {
    pub delivery: ToastDelivery,
}

impl Default for ToastConfig {
    fn default() -> (r: Self)
        ensures
            r.delivery == ToastDelivery::Off,
    {
        ToastConfig { delivery: ToastDelivery::Off }
    }
}

impl ToastConfig {
    /// The delivery that a `[ui.toast]` table selects: an explicit `delivery`
    /// wins; otherwise the legacy `enabled = true` means `herdr`, and anything
    /// else means `off`.
    pub open spec fn spec_delivery(delivery: Option<ToastDelivery>, enabled: Option<bool>) -> ToastDelivery {
        match delivery {
            Some(d) => d,
            None => match enabled {
                Some(true) => ToastDelivery::Herdr,
                _ => ToastDelivery::Off,
            },
        }
    }

    /// Builds the toast settings from the two keys a `[ui.toast]` table may hold.
    pub fn from_keys(delivery: Option<ToastDelivery>, enabled: Option<bool>) -> (r: Self)
        ensures
            r.delivery == Self::spec_delivery(delivery, enabled),
    {
        let legacy = match enabled {
            Some(true) => ToastDelivery::Herdr,
            _ => ToastDelivery::Off,
        };
        let delivery = match delivery {
            Some(d) => d,
            None => legacy,
        };
        ToastConfig { delivery }
    }
}

/// Outcome of a live config reload.
#[derive(Debug, Clone, Copy, PartialEq, Eq, Structural)]
pub enum ConfigReloadStatus {
    Applied,
    Partial,
    Failed,
}

/// What a live config reload did, with the problems it found.
#[derive(Debug, Clone)]
pub struct ConfigReloadReport {
    pub status: ConfigReloadStatus,
    pub diagnostics: Vec<String>,
}

/// Validates `[ui]` sidebar bounds: `Some((min, max))` when `min <= max`,
/// `None` otherwise, so that no caller clamps with an inverted range.
pub fn validated_sidebar_bounds(min: u16, max: u16) -> (r: Option<(u16, u16)>)
    ensures
        r == (if min <= max {
            Some((min, max))
        } else {
            None::<(u16, u16)>
        }),
{
    if min <= max {
        Some((min, max))
    } else {
        None
    }
}

/// The whole configuration file.
#[derive(Debug)]
pub struct Config {
    pub onboarding: Option<bool>,
    pub keys: KeysConfig,
    pub ui: UiConfig,
    pub advanced: AdvancedConfig,
    pub experimental: ExperimentalConfig,
    pub server: ServerConfig,
}

impl Default for Config {
    fn default() -> (r: Self)
        ensures
            r.onboarding is None,
            r.keys.is_default(),
            r.ui.is_default(),
            r.advanced.scrollback_limit_bytes == DEFAULT_SCROLLBACK_LIMIT_BYTES,
            !r.experimental.allow_nested,
            !r.experimental.kitty_graphics,
            r.server.is_default(),
    {
        Config {
            onboarding: None,
            keys: KeysConfig::default(),
            ui: UiConfig::default(),
            advanced: AdvancedConfig::default(),
            experimental: ExperimentalConfig::default(),
            server: ServerConfig::default(),
        }
    }
}

/// Settings for the optional `herdr ws-server` background gateway.
#[derive(Debug, Clone)]
pub struct ServerConfig {
    /// Whether the WebSocket gateway should be started in the background.
    pub ws_enabled: bool,
    /// TCP port for the gateway.
    pub ws_port: u16,
    /// Bearer password required from clients; generated on the first enable
    /// when unset.
    pub ws_password: Option<String>,
    /// SHA-256 TLS certificate fingerprint (`SHA256:...`) for `wss://`.
    pub ws_fingerprint: Option<String>,
    /// Whether the gateway listens with TLS (`wss://`).
    pub ws_tls: bool,
}

impl ServerConfig {
    /// The values a file without a `[server]` table gets.
    pub open spec fn is_default(&self) -> bool {
        &&& !self.ws_enabled
        &&& self.ws_port == 8090
        &&& self.ws_password is None
        &&& self.ws_fingerprint is None
        &&& self.ws_tls
    }
}

impl Default for ServerConfig {
    fn default() -> (r: Self)
        ensures
            r.is_default(),
    {
        ServerConfig {
            ws_enabled: false,
            ws_port: 8090,
            ws_password: None,
            ws_fingerprint: None,
            ws_tls: true,
        }
    }
}

/// A configuration together with what loading it reported.
#[derive(Debug)]
pub struct LoadedConfig {
    pub config: Config,
    pub diagnostics: Vec<String>,
    pub invalid_sections: Vec<String>,
}

/// `[keys]`: one key combination per command; an empty string leaves the
/// command unbound.
#[derive(Debug)]
pub struct KeysConfig {
    /// Prefix key to toggle navigate mode (e.g. "ctrl+b", "f12", "esc").
    pub prefix: String,
    /// Create a new workspace.
    pub new_workspace: String,
    /// Rename the selected workspace.
    pub rename_workspace: String,
    /// Close the selected workspace.
    pub close_workspace: String,
    /// Optional explicit detach shortcut in server/client mode.
    pub detach: String,
    /// Reload config.toml in the running app/server.
    pub reload_config: String,
    /// Focus the currently visible notification target.
    pub open_notification_target: String,
    /// Select the previous workspace.
    pub previous_workspace: String,
    /// Select the next workspace.
    pub next_workspace: String,
    /// Focus the previous agent shown in the agent panel.
    pub previous_agent: String,
    /// Focus the next agent shown in the agent panel.
    pub next_agent: String,
    /// Create a new tab in the active workspace.
    pub new_tab: String,
    /// Rename the active tab.
    pub rename_tab: String,
    /// Select the previous tab.
    pub previous_tab: String,
    /// Select the next tab.
    pub next_tab: String,
    /// Close the active tab.
    pub close_tab: String,
    /// Rename the focused pane.
    pub rename_pane: String,
    /// Open the focused pane scrollback in $EDITOR.
    pub edit_scrollback: String,
    /// Focus the pane to the left in terminal mode.
    pub focus_pane_left: String,
    /// Focus the pane below in terminal mode.
    pub focus_pane_down: String,
    /// Focus the pane above in terminal mode.
    pub focus_pane_up: String,
    /// Focus the pane to the right in terminal mode.
    pub focus_pane_right: String,
    /// Split pane vertically (side by side).
    pub split_vertical: String,
    /// Split pane horizontally (stacked).
    pub split_horizontal: String,
    /// Close the focused pane.
    pub close_pane: String,
    /// Toggle zoom for the focused pane (also read as `fullscreen`).
    pub zoom: String,
    /// Enter resize mode.
    pub resize_mode: String,
    /// Toggle sidebar collapse.
    pub toggle_sidebar: String,
    /// Optional indexed shortcuts expanded over number keys 1-9.
    pub indexed: IndexedKeysConfig,
}

impl KeysConfig {
    /// The bindings a file without a `[keys]` table gets.
    pub open spec fn is_default(&self) -> bool {
        let k = self;
        &&& k.prefix@ == "ctrl+b"@
        &&& k.new_workspace@ == "n"@
        &&& k.rename_workspace@ == "shift+n"@
        &&& k.close_workspace@ == "shift+d"@
        &&& k.new_tab@ == "c"@
        &&& k.split_vertical@ == "v"@
        &&& k.split_horizontal@ == "-"@
        &&& k.close_pane@ == "x"@
        &&& k.zoom@ == "f"@
        &&& k.resize_mode@ == "r"@
        &&& k.toggle_sidebar@ == "b"@
        &&& k.detach@ == ""@
        &&& k.reload_config@ == ""@
        &&& k.open_notification_target@ == ""@
        &&& k.previous_workspace@ == ""@
        &&& k.next_workspace@ == ""@
        &&& k.previous_agent@ == ""@
        &&& k.next_agent@ == ""@
        &&& k.rename_tab@ == ""@
        &&& k.previous_tab@ == ""@
        &&& k.next_tab@ == ""@
        &&& k.close_tab@ == ""@
        &&& k.rename_pane@ == ""@
        &&& k.edit_scrollback@ == ""@
        &&& k.focus_pane_left@ == ""@
        &&& k.focus_pane_down@ == ""@
        &&& k.focus_pane_up@ == ""@
        &&& k.focus_pane_right@ == ""@
        &&& k.indexed.is_default()
    }
}

impl Default for KeysConfig {
    fn default() -> (k: Self)
        ensures
            k.is_default(),
    {
        KeysConfig {
            prefix: String::from_str("ctrl+b"),
            new_workspace: String::from_str("n"),
            rename_workspace: String::from_str("shift+n"),
            close_workspace: String::from_str("shift+d"),
            detach: String::from_str(""),
            reload_config: String::from_str(""),
            open_notification_target: String::from_str(""),
            previous_workspace: String::from_str(""),
            next_workspace: String::from_str(""),
            previous_agent: String::from_str(""),
            next_agent: String::from_str(""),
            new_tab: String::from_str("c"),
            rename_tab: String::from_str(""),
            previous_tab: String::from_str(""),
            next_tab: String::from_str(""),
            close_tab: String::from_str(""),
            rename_pane: String::from_str(""),
            edit_scrollback: String::from_str(""),
            focus_pane_left: String::from_str(""),
            focus_pane_down: String::from_str(""),
            focus_pane_up: String::from_str(""),
            focus_pane_right: String::from_str(""),
            split_vertical: String::from_str("v"),
            split_horizontal: String::from_str("-"),
            close_pane: String::from_str("x"),
            zoom: String::from_str("f"),
            resize_mode: String::from_str("r"),
            toggle_sidebar: String::from_str("b"),
            indexed: IndexedKeysConfig::default(),
        }
    }
}

/// `[keys.indexed]`: modifier combos expanded over number keys 1-9.
#[derive(Debug)]
pub struct IndexedKeysConfig {
    /// Modifier combo for tab shortcuts 1-9.
    pub tabs: String,
    /// Modifier combo for workspace shortcuts 1-9.
    pub workspaces: String,
    /// Modifier combo for agent shortcuts 1-9.
    pub agents: String,
}

impl IndexedKeysConfig {
    /// All three combos unset.
    pub open spec fn is_default(&self) -> bool {
        &&& self.tabs@ == ""@
        &&& self.workspaces@ == ""@
        &&& self.agents@ == ""@
    }
}

impl Default for IndexedKeysConfig {
    fn default() -> (r: Self)
        ensures
            r.is_default(),
    {
        IndexedKeysConfig {
            tabs: String::from_str(""),
            workspaces: String::from_str(""),
            agents: String::from_str(""),
        }
    }
}

/// `[ui]`.
#[derive(Debug)]
pub struct UiConfig {
    pub sidebar_width: u16,
    /// Minimum sidebar width (columns) when expanded.
    pub sidebar_min_width: u16,
    /// Maximum sidebar width (columns) when expanded.
    pub sidebar_max_width: u16,
    /// Capture mouse input for herdr's mouse UI.
    pub mouse_capture: bool,
    /// Ask for confirmation before closing a workspace.
    pub confirm_close: bool,
    /// Ask for a tab name before creating a new tab.
    pub prompt_new_tab_name: bool,
    /// Show agent labels in split pane borders when no manual pane label is set.
    pub show_agent_labels_on_pane_borders: bool,
    /// Agent sidebar scope.
    pub agent_panel_scope: AgentPanelScopeConfig,
    /// Accent color for highlights, borders, and navigation UI.
    pub accent: String,
    /// Visual toast notifications for background workspace events.
    pub toast: ToastConfig,
}

impl UiConfig {
    /// The values a file without a `[ui]` table gets.
    pub open spec fn is_default(&self) -> bool {
        &&& self.sidebar_width == 26
        &&& self.sidebar_min_width == 18
        &&& self.sidebar_max_width == 36
        &&& self.mouse_capture
        &&& self.confirm_close
        &&& self.prompt_new_tab_name
        &&& !self.show_agent_labels_on_pane_borders
        &&& self.agent_panel_scope == AgentPanelScopeConfig::All
        &&& self.accent@ == "cyan"@
        &&& self.toast.delivery == ToastDelivery::Off
    }
}

impl Default for UiConfig {
    fn default() -> (r: Self)
        ensures
            r.is_default(),
    {
        UiConfig {
            sidebar_width: 26,
            sidebar_min_width: 18,
            sidebar_max_width: 36,
            mouse_capture: true,
            confirm_close: true,
            prompt_new_tab_name: true,
            show_agent_labels_on_pane_borders: false,
            agent_panel_scope: AgentPanelScopeConfig::All,
            accent: String::from_str("cyan"),
            toast: ToastConfig::default(),
        }
    }
}

/// `[advanced]`.
#[derive(Debug)]
pub struct AdvancedConfig {
    /// Maximum scrollback buffer size in bytes retained per pane terminal
    /// (also read as `scrollback_lines`).
    pub scrollback_limit_bytes: usize,
}

impl Default for AdvancedConfig {
    fn default() -> (r: Self)
        ensures
            r.scrollback_limit_bytes == DEFAULT_SCROLLBACK_LIMIT_BYTES,
    {
        AdvancedConfig { scrollback_limit_bytes: DEFAULT_SCROLLBACK_LIMIT_BYTES }
    }
}

/// `[experimental]`.
#[derive(Debug)]
pub struct ExperimentalConfig {
    /// Allow launching herdr inside an existing herdr pane.
    pub allow_nested: bool,
    /// Experimental local Kitty graphics rendering for attached clients.
    pub kitty_graphics: bool,
}

impl Default for ExperimentalConfig {
    fn default() -> (r: Self)
        ensures
            !r.allow_nested,
            !r.kitty_graphics,
    {
        ExperimentalConfig { allow_nested: false, kitty_graphics: false }
    }
}

} // verus!
