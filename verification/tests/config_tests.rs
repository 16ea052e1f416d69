use herdr::config::{
    validated_sidebar_bounds, AgentPanelScopeConfig, Config, ServerConfig, ToastConfig,
    ToastDelivery, DEFAULT_SCROLLBACK_LIMIT_BYTES,
};

#[test]
fn validated_sidebar_bounds_rejects_inverted() {
    assert_eq!(validated_sidebar_bounds(18, 36), Some((18, 36)));
    assert_eq!(validated_sidebar_bounds(20, 20), Some((20, 20)));
    assert_eq!(validated_sidebar_bounds(0, u16::MAX), Some((0, u16::MAX)));
    assert_eq!(validated_sidebar_bounds(50, 30), None);
    assert_eq!(validated_sidebar_bounds(u16::MAX, 0), None);
}

#[test]
fn missing_onboarding_shows_setup() {
    let config = Config::default();
    assert!(config.should_show_onboarding());
}

#[test]
fn onboarding_setting_decides_when_present() {
    let mut config = Config::default();
    config.onboarding = Some(false);
    assert!(!config.should_show_onboarding());
    config.onboarding = Some(true);
    assert!(config.should_show_onboarding());
}

#[test]
fn advanced_defaults_include_scrollback_limit_bytes() {
    let config = Config::default();
    assert_eq!(config.advanced.scrollback_limit_bytes, DEFAULT_SCROLLBACK_LIMIT_BYTES);
}

// The `[ui.toast]` table's keys, as the TOML reader hands them over.

#[test]
fn toast_config_parses() {
    assert_eq!(ToastConfig::from_keys(Some(ToastDelivery::Terminal), None).delivery, ToastDelivery::Terminal);
}

#[test]
fn toast_config_parses_system_delivery() {
    assert_eq!(ToastConfig::from_keys(Some(ToastDelivery::System), None).delivery, ToastDelivery::System);
}

#[test]
fn toast_config_legacy_enabled_true_maps_to_herdr() {
    assert_eq!(ToastConfig::from_keys(None, Some(true)).delivery, ToastDelivery::Herdr);
}

#[test]
fn toast_config_legacy_enabled_false_maps_to_off() {
    assert_eq!(ToastConfig::from_keys(None, Some(false)).delivery, ToastDelivery::Off);
}

#[test]
fn toast_config_delivery_wins_over_legacy_enabled() {
    assert_eq!(ToastConfig::from_keys(Some(ToastDelivery::Terminal), Some(true)).delivery, ToastDelivery::Terminal);
}

#[test]
fn toast_config_without_keys_is_default() {
    assert_eq!(ToastConfig::from_keys(None, None).delivery, ToastConfig::default().delivery);
}

#[test]
fn config_defaults() {
    let config = Config::default();
    assert_eq!(config.ui.sidebar_min_width, 18);
    assert_eq!(config.ui.sidebar_max_width, 36);
    assert!(config.ui.mouse_capture);
    assert!(!config.ui.show_agent_labels_on_pane_borders);
    assert!(config.ui.prompt_new_tab_name);
    assert!(!config.experimental.kitty_graphics);
    let server = ServerConfig::default();
    assert!(!server.ws_enabled);
    assert_eq!(server.ws_port, 8090);
    assert!(server.ws_tls);
    assert_eq!(AgentPanelScopeConfig::default(), AgentPanelScopeConfig::All);
    assert_eq!(AgentPanelScopeConfig::Current.as_str(), "current");
}
