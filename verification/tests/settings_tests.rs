use herdr::config::{ServerConfig, ToastDelivery};
use herdr::settings::gateway::{
    begin_enable, begin_port, resume, GatewayAction, GatewayEvent, GatewayFlow, GatewayPhase,
    GatewaySettings,
};
use herdr::settings::nav::section_position;
use herdr::settings::theme_is_current;
use herdr::settings::screen::{
    handle_settings_key, handle_settings_mouse, open_settings, ScreenMode, SettingsAction, SettingsPointer,
    SettingsScreen,
};
use herdr::settings::nav::{
    list_index_at, section_selection, settings_click, settings_key, tab_at, CellRect, ModalChoice,
    SettingsClick, SettingsContext, SettingsKey, SettingsNav, SettingsOutcome, SettingsSave,
    SettingsSection,
};
use herdr::settings::{
    current_theme_index, display_path, normalize_theme_name, open_port_input, port_input_key,
    server_default_selection, server_rows, server_settings_description,
    server_settings_item_count, toast_delivery_for_index, toast_delivery_index,
    toast_delivery_value, PortKey, PortStep, PORT_INPUT_ERROR, SERVER_IDX_OFF, SERVER_IDX_ON,
};

fn ctx() -> SettingsContext {
    SettingsContext {
        theme_index: 0,
        sound_enabled: true,
        toast_delivery: ToastDelivery::Terminal,
        labels_enabled: false,
        server_enabled: false,
    }
}

#[test]
fn settings_sound_toggle_returns_save_action() {
    let nav = SettingsNav { section: SettingsSection::Sound, selected: 0 };
    let (after, out) = settings_key(nav, &ctx(), SettingsKey::Confirm, ModalChoice::Neither);
    assert_eq!(out, SettingsOutcome::Save(SettingsSave::Sound(true)));
    assert_eq!(after, nav);

    let mut screen = terminal_screen();
    open_settings(&mut screen, &THEMES);
    screen.nav = SettingsNav { section: SettingsSection::Sound, selected: 0 };
    let action = handle_settings_key(&mut screen, &ctx(), SettingsKey::Confirm, ModalChoice::Neither, &THEMES);
    assert_eq!(action, Some(SettingsAction::Save(SettingsSave::Sound(true))));
    assert_eq!(screen.mode, ScreenMode::Settings);
}

const THEMES: [&str; 3] = ["catppuccin", "dracula", "nord"];

fn terminal_screen() -> SettingsScreen {
    SettingsScreen {
        mode: ScreenMode::Terminal,
        nav: SettingsNav { section: SettingsSection::Theme, selected: 0 },
        theme_name: "catppuccin".to_string(),
        original_theme: None,
    }
}

#[test]
fn settings_cancel_restores_previewed_theme_from_other_sections() {
    let c = ctx();
    let mut screen = terminal_screen();
    let original_theme = screen.theme_name.clone();

    open_settings(&mut screen, &THEMES);
    assert_eq!(screen.mode, ScreenMode::Settings);
    handle_settings_key(&mut screen, &c, SettingsKey::Down, ModalChoice::Neither, &THEMES);
    assert_ne!(screen.theme_name, original_theme);

    handle_settings_key(&mut screen, &c, SettingsKey::Next, ModalChoice::Neither, &THEMES);
    assert_eq!(screen.nav.section, SettingsSection::Sound);

    handle_settings_key(&mut screen, &c, SettingsKey::Other, ModalChoice::Close, &THEMES);

    assert_eq!(screen.mode, ScreenMode::Terminal);
    assert_eq!(screen.theme_name, original_theme);
    assert_eq!(screen.original_theme, None);
}

#[test]
fn settings_hover_does_not_change_selection() {
    let c = ctx();
    let mut screen = terminal_screen();
    open_settings(&mut screen, &THEMES);
    screen.nav.selected = 0;

    let action = handle_settings_mouse(&mut screen, &c, SettingsPointer::Other, &THEMES);

    assert_eq!(action, None);
    assert_eq!(screen.nav.selected, 0);
    assert_eq!(screen.mode, ScreenMode::Settings);
}

#[test]
fn settings_apply_saves_previewed_theme() {
    let c = ctx();
    let mut screen = terminal_screen();
    open_settings(&mut screen, &THEMES);
    handle_settings_key(&mut screen, &c, SettingsKey::Down, ModalChoice::Neither, &THEMES);
    handle_settings_key(&mut screen, &c, SettingsKey::Down, ModalChoice::Neither, &THEMES);
    assert_eq!(screen.theme_name, "nord");
    handle_settings_key(&mut screen, &c, SettingsKey::Down, ModalChoice::Neither, &THEMES);
    assert_eq!(screen.nav.selected, 2);
    let action = handle_settings_key(&mut screen, &c, SettingsKey::Confirm, ModalChoice::Apply, &THEMES);
    assert_eq!(action, Some(SettingsAction::SaveTheme("nord".to_string())));
    assert_eq!(screen.mode, ScreenMode::Terminal);
    assert_eq!(screen.theme_name, "nord");
    assert_eq!(screen.original_theme, None);
}

#[test]
fn settings_click_previews_theme_and_saves_sound() {
    let c = ctx();
    let mut screen = terminal_screen();
    open_settings(&mut screen, &THEMES);
    let action = handle_settings_mouse(&mut screen, &c, SettingsPointer::Press(SettingsClick::Item(1)), &THEMES);
    assert_eq!(action, None);
    assert_eq!(screen.theme_name, "dracula");
    handle_settings_mouse(&mut screen, &c, SettingsPointer::Press(SettingsClick::Tab(SettingsSection::Sound)), &THEMES);
    let action = handle_settings_mouse(&mut screen, &c, SettingsPointer::Press(SettingsClick::Item(1)), &THEMES);
    assert_eq!(action, Some(SettingsAction::Save(SettingsSave::Sound(false))));
    assert_eq!(screen.mode, ScreenMode::Settings);
    handle_settings_mouse(&mut screen, &c, SettingsPointer::Press(SettingsClick::Outside), &THEMES);
    assert_eq!(screen.mode, ScreenMode::Terminal);
    assert_eq!(screen.theme_name, "catppuccin");
}

#[test]
fn tabs_cycle_and_select_current_setting() {
    let c = ctx();
    let mut nav = SettingsNav { section: SettingsSection::Theme, selected: 0 };
    let mut seen = Vec::new();
    for _ in 0..5 {
        let (n, _) = settings_key(nav, &c, SettingsKey::Next, ModalChoice::Neither);
        nav = n;
        seen.push((nav.section, nav.selected));
    }
    assert_eq!(
        seen,
        vec![
            (SettingsSection::Sound, 0),
            (SettingsSection::Toast, 2),
            (SettingsSection::PaneLabels, 1),
            (SettingsSection::Server, SERVER_IDX_OFF),
            (SettingsSection::Theme, 0),
        ]
    );
    let (back, _) = settings_key(SettingsNav { section: SettingsSection::Server, selected: 0 }, &c, SettingsKey::Prev, ModalChoice::Neither);
    assert_eq!(back, SettingsNav { section: SettingsSection::PaneLabels, selected: 1 });
    let (same, out) = settings_key(SettingsNav { section: SettingsSection::Theme, selected: 3 }, &c, SettingsKey::Prev, ModalChoice::Neither);
    assert_eq!((same.section, same.selected, out), (SettingsSection::Theme, 3, SettingsOutcome::Nothing));
}

#[test]
fn server_tab_keys() {
    let mut c = ctx();
    c.server_enabled = true;
    let nav = SettingsNav { section: SettingsSection::Server, selected: 1 };
    let (down, _) = settings_key(nav, &c, SettingsKey::Down, ModalChoice::Neither);
    assert_eq!(down.selected, 2);
    let (stay, _) = settings_key(down, &c, SettingsKey::Down, ModalChoice::Neither);
    assert_eq!(stay.selected, 2);
    let (_, out) = settings_key(down, &c, SettingsKey::Confirm, ModalChoice::Neither);
    assert_eq!(out, SettingsOutcome::OpenPortEditor);
    let (_, out) = settings_key(SettingsNav { selected: 0, ..nav }, &c, SettingsKey::Confirm, ModalChoice::Neither);
    assert_eq!(out, SettingsOutcome::Save(SettingsSave::ServerEnabled(true)));
    c.server_enabled = false;
    let (stay, _) = settings_key(nav, &c, SettingsKey::Down, ModalChoice::Neither);
    assert_eq!(stay.selected, 1);
    let (up, _) = settings_key(SettingsNav { selected: 0, ..nav }, &c, SettingsKey::Up, ModalChoice::Neither);
    assert_eq!(up.selected, 0);
    let (_, out) = settings_key(SettingsNav { selected: 2, ..nav }, &c, SettingsKey::Confirm, ModalChoice::Neither);
    assert_eq!(out, SettingsOutcome::Nothing);
}

#[test]
fn theme_tab_apply_and_toast_confirm() {
    let c = ctx();
    let theme = SettingsNav { section: SettingsSection::Theme, selected: 2 };
    assert_eq!(settings_key(theme, &c, SettingsKey::Confirm, ModalChoice::Apply).1, SettingsOutcome::ApplyTheme);
    let toast = SettingsNav { section: SettingsSection::Toast, selected: 9 };
    assert_eq!(
        settings_key(toast, &c, SettingsKey::Confirm, ModalChoice::Neither).1,
        SettingsOutcome::Save(SettingsSave::ToastDelivery(ToastDelivery::System))
    );
    let labels = SettingsNav { section: SettingsSection::PaneLabels, selected: 1 };
    let (toggled, _) = settings_key(labels, &c, SettingsKey::Up, ModalChoice::Neither);
    assert_eq!(toggled.selected, 0);
}

#[test]
fn settings_clicks() {
    let c = ctx();
    let nav = SettingsNav { section: SettingsSection::Toast, selected: 0 };
    let (n, out) = settings_click(nav, &c, SettingsClick::Item(1));
    assert_eq!((n.selected, out), (1, SettingsOutcome::Save(SettingsSave::ToastDelivery(ToastDelivery::Herdr))));
    let (n, out) = settings_click(nav, &c, SettingsClick::Tab(SettingsSection::Sound));
    assert_eq!((n.section, n.selected, out), (SettingsSection::Sound, 0, SettingsOutcome::Nothing));
    assert_eq!(settings_click(nav, &c, SettingsClick::Apply).1, SettingsOutcome::Leave);
    assert_eq!(settings_click(nav, &c, SettingsClick::Outside).1, SettingsOutcome::Cancel);
    let theme = SettingsNav { section: SettingsSection::Theme, selected: 0 };
    assert_eq!(settings_click(theme, &c, SettingsClick::Item(4)).1, SettingsOutcome::PreviewTheme);
    assert_eq!(settings_click(theme, &c, SettingsClick::Apply).1, SettingsOutcome::ApplyTheme);
}

#[test]
fn click_geometry() {
    let lens = [5usize, 5, 5];
    assert_eq!(tab_at(10, 4, 10, 5, &lens), Some(0));
    assert_eq!(tab_at(10, 4, 16, 5, &lens), Some(0));
    assert_eq!(tab_at(10, 4, 17, 5, &lens), None);
    assert_eq!(tab_at(10, 4, 18, 5, &lens), Some(1));
    assert_eq!(tab_at(10, 4, 18, 6, &lens), None);
    let area = CellRect { x: 2, y: 10, width: 40, height: 12 };
    assert_eq!(list_index_at(area, SettingsSection::Theme, 0, 20, false, 5, 13), Some(3));
    assert_eq!(list_index_at(area, SettingsSection::Theme, 15, 20, false, 5, 13), Some(7));
    assert_eq!(list_index_at(area, SettingsSection::Theme, 0, 2, false, 5, 13), None);
    assert_eq!(list_index_at(area, SettingsSection::Sound, 0, 0, false, 5, 14), Some(1));
    assert_eq!(list_index_at(area, SettingsSection::Sound, 0, 0, false, 5, 15), None);
    assert_eq!(list_index_at(area, SettingsSection::Toast, 0, 0, false, 5, 18), Some(2));
    assert_eq!(list_index_at(area, SettingsSection::Server, 0, 0, false, 5, 15), None);
    assert_eq!(list_index_at(area, SettingsSection::Server, 0, 0, true, 5, 15), Some(2));
    assert_eq!(list_index_at(area, SettingsSection::Server, 0, 0, true, 1, 15), None);
}

#[test]
fn toast_rows_round_trip() {
    for d in [ToastDelivery::Off, ToastDelivery::Herdr, ToastDelivery::Terminal, ToastDelivery::System] {
        assert_eq!(toast_delivery_for_index(toast_delivery_index(d)), d);
    }
    assert_eq!(toast_delivery_for_index(7), ToastDelivery::System);
    assert_eq!(toast_delivery_value(ToastDelivery::Terminal), "\"terminal\"");
}

#[test]
fn server_tab_rows() {
    assert_eq!(server_settings_item_count(true), 3);
    assert_eq!(server_settings_item_count(false), 2);
    assert_eq!(server_default_selection(true), SERVER_IDX_ON);
    let rows = server_rows(true, 8090, 2);
    assert_eq!(rows.len(), 3);
    assert_eq!(rows[0].text, " wss-server: on ✓");
    assert_eq!(rows[1].text, " wss-server: off");
    assert_eq!(rows[2].text, " port  8090");
    assert!(rows[0].active && !rows[1].active && !rows[2].active);
    assert!(rows[2].selected && !rows[0].selected);
    let rows = server_rows(false, 8090, 0);
    assert_eq!(rows.len(), 2);
    assert_eq!(rows[1].text, " wss-server: off ✓");
}

#[test]
fn theme_names_compare_normalized() {
    assert_eq!(normalize_theme_name("Catppuccin Mocha"), "catppuccin-mocha");
    assert_eq!(normalize_theme_name("Tokyo_Night"), "tokyo-night");
    let names = ["Catppuccin", "Tokyo Night", "Gruvbox"];
    assert_eq!(current_theme_index(&names, "tokyo_night"), 1);
    assert_eq!(current_theme_index(&names, "unknown"), 0);
}

#[test]
fn port_editor_keys() {
    let mut input = open_port_input(8090);
    assert_eq!(input.text, "8090");
    assert!(input.replace_on_type);
    assert_eq!(port_input_key(&mut input, PortKey::Char('9')), PortStep::Editing);
    assert_eq!(input.text, "9");
    for c in ['1', '2', '3', '4', '5'] {
        port_input_key(&mut input, PortKey::Char(c));
    }
    assert_eq!(input.text, "91234");
    port_input_key(&mut input, PortKey::Char('x'));
    port_input_key(&mut input, PortKey::Backspace);
    assert_eq!(input.text, "9123");
    assert_eq!(port_input_key(&mut input, PortKey::Save), PortStep::Save(9123));
    assert_eq!(input.text, "");
    let mut input = open_port_input(1);
    port_input_key(&mut input, PortKey::Clear);
    assert_eq!(port_input_key(&mut input, PortKey::Save), PortStep::Invalid);
    port_input_key(&mut input, PortKey::Char('0'));
    assert_eq!(port_input_key(&mut input, PortKey::Save), PortStep::Invalid);
    assert_eq!(PORT_INPUT_ERROR, "port must be a number between 1 and 65535");
    assert_eq!(port_input_key(&mut input, PortKey::Cancel), PortStep::Closed);
    let mut input = open_port_input(77);
    port_input_key(&mut input, PortKey::Backspace);
    assert_eq!(input.text, "");
    assert!(!input.replace_on_type);
}

#[test]
fn config_path_display() {
    assert_eq!(display_path("/home/u/.config/herdr/config.toml", Some("/home/u")), "~/.config/herdr/config.toml");
    assert_eq!(display_path("/etc/herdr.toml", Some("/home/u")), "/etc/herdr.toml");
    assert_eq!(display_path("/home/user2/x", Some("/home/u")), "/home/user2/x");
    assert_eq!(display_path("/a/b", None), "/a/b");
    assert_eq!(
        server_settings_description("~/c.toml"),
        "Password and TLS fingerprint are stored in [server] in:\n~/c.toml\n(wss-server uses TLS by default.)"
    );
}

fn settings(enabled: bool, password: Option<&str>, tls: bool) -> GatewaySettings {
    GatewaySettings { enabled, port: 8090, password: password.map(|s| s.to_string()), tls, fingerprint: None }
}

fn write(key: &'static str, value: &str) -> GatewayAction {
    GatewayAction::WriteValue { key, value: value.to_string() }
}

#[test]
fn first_enable_generates_password_and_certificate() {
    let (flow, a) = begin_enable(settings(false, None, true), true);
    assert_eq!(a, GatewayAction::GeneratePassword);
    let (flow, a) = resume(flow, GatewayEvent::Password(Ok("pw".to_string())));
    assert_eq!(a, write("password", "\"pw\""));
    let (flow, a) = resume(flow, GatewayEvent::Written(true));
    assert_eq!(a, GatewayAction::PrepareCertificate);
    let (flow, a) = resume(flow, GatewayEvent::Certificate(Ok("SHA256:f".to_string())));
    assert_eq!(a, write("fingerprint", "\"SHA256:f\""));
    let (flow, a) = resume(flow, GatewayEvent::Written(true));
    assert_eq!(a, write("port", "8090"));
    let (flow, a) = resume(flow, GatewayEvent::Written(true));
    assert_eq!(a, GatewayAction::Restart { port: 8090, password: Some("pw".to_string()), tls: true });
    let (flow, a) = resume(flow, GatewayEvent::Process(Ok(())));
    assert_eq!(a, GatewayAction::WriteEnabled(true));
    assert!(flow.settings.enabled);
    assert_eq!(flow.settings.fingerprint.as_deref(), Some("SHA256:f"));
    let (flow, a) = resume(flow, GatewayEvent::Written(true));
    assert_eq!(a, GatewayAction::Finish(None));
    assert_eq!(flow.phase, GatewayPhase::Done);
}

#[test]
fn enable_failures_finish_with_message() {
    let (flow, _) = begin_enable(settings(false, None, false), true);
    let (_, a) = resume(flow, GatewayEvent::Password(Err("no entropy".to_string())));
    assert_eq!(a, GatewayAction::Finish(Some("could not generate ws-server password: no entropy".to_string())));
    let (flow, a) = begin_enable(settings(false, Some("pw"), false), true);
    assert_eq!(a, write("port", "8090"));
    let (flow, a) = resume(flow, GatewayEvent::Written(true));
    assert!(matches!(a, GatewayAction::Restart { .. }));
    let (flow, a) = resume(flow, GatewayEvent::Process(Err("busy".to_string())));
    assert_eq!(a, GatewayAction::Finish(Some("ws-server start: busy".to_string())));
    assert!(!flow.settings.enabled);
    let (flow, _) = begin_enable(settings(false, Some("pw"), true), true);
    let (_, a) = resume(flow, GatewayEvent::Certificate(Err("disk".to_string())));
    assert_eq!(a, GatewayAction::Finish(Some("could not prepare ws-server TLS certificate: disk".to_string())));
}

#[test]
fn disabling_stops_then_records() {
    let (flow, a) = begin_enable(settings(true, Some("pw"), true), false);
    assert_eq!(a, GatewayAction::Stop);
    let (flow, a) = resume(flow, GatewayEvent::Process(Ok(())));
    assert_eq!(a, GatewayAction::WriteEnabled(false));
    let (_, a) = resume(flow, GatewayEvent::Written(false));
    assert_eq!(a, GatewayAction::Finish(Some("failed to save ws-server enabled state to config.toml".to_string())));
}

#[test]
fn port_change_restarts_running_gateway() {
    let (flow, a) = begin_port(settings(true, Some("pw"), true), 9000);
    assert_eq!(a, write("port", "9000"));
    let (flow, a) = resume(flow, GatewayEvent::Written(true));
    assert_eq!(a, GatewayAction::PrepareCertificate);
    let (flow, a) = resume(flow, GatewayEvent::Certificate(Err("x".to_string())));
    assert_eq!(a, GatewayAction::Restart { port: 9000, password: Some("pw".to_string()), tls: true });
    let (_, a) = resume(flow, GatewayEvent::Process(Err("bind".to_string())));
    assert_eq!(a, GatewayAction::Finish(Some("ws-server restart on port 9000: bind".to_string())));
    let (flow, _) = begin_port(settings(false, None, true), 9000);
    let (flow, a) = resume(flow, GatewayEvent::Written(true));
    assert_eq!(a, GatewayAction::Finish(None));
    assert_eq!(flow.settings.port, 9000);
    let (flow, _) = begin_port(settings(true, None, false), 1);
    let (_, a) = resume(flow, GatewayEvent::Written(false));
    assert_eq!(a, GatewayAction::Finish(Some("failed to save ws-server port to config.toml".to_string())));
}

#[test]
fn gateway_settings_from_config() {
    let g = GatewaySettings::from_config(&ServerConfig::default());
    assert!(!g.enabled);
    assert_eq!(g.port, 8090);
    assert!(g.tls);
    assert!(g.password.is_none());
    let flow = GatewayFlow { goal: herdr::settings::gateway::GatewayGoal::SetPort, phase: GatewayPhase::AwaitProcess, settings: g };
    let (_, a) = resume(flow, GatewayEvent::Process(Ok(())));
    assert_eq!(a, GatewayAction::Finish(None));
}

#[test]
fn theme_marker_and_tab_highlight() {
    assert!(theme_is_current("Tokyo Night", "tokyo_night"));
    assert!(!theme_is_current("Gruvbox", "tokyo_night"));
    assert_eq!(section_position(SettingsSection::Theme), 0);
    assert_eq!(section_position(SettingsSection::Server), 4);
}
