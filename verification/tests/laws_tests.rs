use herdr::remote::setup::{begin_setup, resume_setup, SetupAction, SetupEvent, SetupPhase};
use herdr::remote::{
    command_failed_message, extract_remote_args, fits_unix_socket_path, install_prompt,
    installed_version_mismatch, local_forward_socket_path, normalize_ws_url,
    not_interactive_message, override_binary_path, ws_bridge_args, InstallPlan, InstallSource,
    PathInspection, RemoteHerdr, RemotePlatform, WsLaunchConfig, PATH_CHECK_COMMAND,
};
use herdr::session::CURRENT_VERSION;
use herdr::settings::nav::SettingsSave;
use herdr::settings::writes::{agent_panel_scope_write, onboarding_write, settings_write, theme_write, ConfigEdit};
use herdr::settings::{open_port_input, port_input_key, PortKey, PortStep};
use herdr::config::{AgentPanelScopeConfig, ToastDelivery};
use herdr::ws_transport::bridge::{bearer_value, BridgeArgs};
use herdr::ws_transport::control::{pid_from_text, ws_server_args};
use herdr::ws_transport::server::{password_accepted, ServerArgs};

fn linux_x86() -> RemotePlatform {
    RemotePlatform { os: "linux", arch: "x86_64" }
}

#[test]
fn started_gateway_parses_its_own_arguments() {
    let args = ws_server_args(8123, Some("-p"), true);
    match herdr::ws_transport::server::parse_args(&args[1..]).unwrap() {
        ServerArgs::Run(cfg) => {
            assert_eq!(cfg.port, 8123);
            assert_eq!(cfg.password.as_deref(), Some("-p"));
            assert!(cfg.tls);
            assert!(!cfg.pubkey_auth && cfg.cert_path.is_none() && cfg.authorized_keys.is_none());
        }
        ServerArgs::Help => panic!("help"),
    }
}

#[test]
fn bridge_subprocess_parses_its_own_arguments() {
    let ws = WsLaunchConfig {
        password: Some("--help".to_string()),
        fingerprint: Some("SHA256:x".to_string()),
        pubkey_auth: true,
        identity_file: Some("-i".to_string()),
    };
    let args = ws_bridge_args("wss://h:1", &ws);
    match herdr::ws_transport::bridge::parse_args(&args[1..]).unwrap() {
        BridgeArgs::Run(cfg) => {
            assert_eq!(cfg.url, "wss://h:1");
            assert_eq!(cfg.password.as_deref(), Some("--help"));
            assert_eq!(cfg.fingerprint.as_deref(), Some("SHA256:x"));
            assert_eq!(cfg.identity_file.as_deref(), Some("-i"));
        }
        BridgeArgs::Help => panic!("help"),
    }
}

#[test]
fn bridge_password_passes_server_check() {
    for pw in ["secret", "a b", "Ünïcode"] {
        assert!(password_accepted(Some(pw), Some(&bearer_value(pw))));
        assert!(password_accepted(Some(pw), Some(pw)));
    }
}

#[test]
fn pid_file_round_trip() {
    for pid in [0u32, 7, 4242, u32::MAX] {
        assert_eq!(pid_from_text(&pid.to_string()), Some(pid));
    }
}

#[test]
fn port_editor_saves_shown_port() {
    for port in [1u16, 80, 8090, 65535] {
        let mut input = open_port_input(port);
        assert_eq!(port_input_key(&mut input, PortKey::Save), PortStep::Save(port));
    }
}

#[test]
fn socket_path_always_fits() {
    let long = format!("/{}", "d".repeat(200));
    for dir in ["/tmp", "/var/folders/xy/abcdefghijklmnopqrstuvw00000gn/T", long.as_str()] {
        let path = local_forward_socket_path(dir, u32::MAX, &"t".repeat(300), &"s".repeat(300));
        assert!(fits_unix_socket_path(&path), "{path}");
    }
}

#[test]
fn normalization_is_idempotent() {
    for t in ["http://h", "https://h", "ws://h", "user@host"] {
        let once = normalize_ws_url(t);
        assert_eq!(normalize_ws_url(&once), once);
    }
}

#[test]
fn extracted_arguments_hold_no_remote_option() {
    let args: Vec<String> = ["--remote", "--remote=a", "--remote-x", "x"].iter().map(|s| s.to_string()).collect();
    let (cleaned, remote) = extract_remote_args(&args).unwrap();
    assert_eq!(cleaned, vec!["--remote", "--remote-x", "x"]);
    assert_eq!(remote.unwrap().target, "a");
}

#[test]
fn override_binary_checks() {
    assert_eq!(override_binary_path(None, &PathInspection::File), Ok(None));
    assert_eq!(
        override_binary_path(Some(""), &PathInspection::File),
        Err("HERDR_REMOTE_BINARY must not be empty".to_string())
    );
    assert_eq!(
        override_binary_path(Some("/x"), &PathInspection::NotFile),
        Err("HERDR_REMOTE_BINARY path is not a file: /x".to_string())
    );
    assert_eq!(
        override_binary_path(Some("/x"), &PathInspection::Failed("gone".to_string())),
        Err("failed to inspect HERDR_REMOTE_BINARY path /x: gone".to_string())
    );
    assert_eq!(override_binary_path(Some("/x"), &PathInspection::File), Ok(Some("/x".to_string())));
}

#[test]
fn remote_messages() {
    assert_eq!(command_failed_message("ctx", "  oops \n", "exit status: 1"), "ctx: oops");
    assert_eq!(command_failed_message("ctx", " \n", "exit status: 1"), "ctx: exit status: 1");
    assert_eq!(
        not_interactive_message("/bin/h"),
        format!("matching remote herdr {CURRENT_VERSION} is not installed at /bin/h; run from an interactive terminal to approve installation")
    );
    let h = RemoteHerdr::for_platform(linux_x86());
    let (line, question) = install_prompt("dev", &h, "the current local herdr binary");
    assert_eq!(line, format!("matching herdr {CURRENT_VERSION} is not installed on dev for linux-x86_64."));
    assert_eq!(question, "Install the current local herdr binary to \"$HOME/.local/bin/herdr\"? [Y/n] ");
    assert_eq!(
        installed_version_mismatch("/h"),
        format!("installed remote herdr at /h, but it did not report version {CURRENT_VERSION}")
    );
    assert!(PATH_CHECK_COMMAND.contains("$HOME/.local/bin"));
}

#[test]
fn setup_uses_binary_on_path() {
    let (s, a) = begin_setup(linux_x86());
    assert!(matches!(a, SetupAction::DetectPlatform));
    let (s, a) = resume_setup(s, SetupEvent::Platform(Ok(linux_x86())));
    assert!(matches!(a, SetupAction::ReadOverride));
    let (s, a) = resume_setup(s, SetupEvent::Override(Ok(None)));
    assert!(matches!(a, SetupAction::ProbePath));
    let (s, a) = resume_setup(s, SetupEvent::Probe(Ok(Some(format!("/usr/bin/herdr\nherdr {CURRENT_VERSION}\n")))));
    assert_eq!(s.phase, SetupPhase::Done);
    match a {
        SetupAction::Finish(Ok((h, warn))) => {
            assert_eq!(h.shell_path, "/usr/bin/herdr");
            assert!(!warn);
        }
        other => panic!("{other:?}"),
    }
}

#[test]
fn setup_installs_after_approval() {
    let (s, _) = begin_setup(linux_x86());
    let (s, _) = resume_setup(s, SetupEvent::Platform(Ok(RemotePlatform { os: "linux", arch: "aarch64" })));
    let (s, _) = resume_setup(s, SetupEvent::Override(Ok(None)));
    let (s, a) = resume_setup(s, SetupEvent::Probe(Ok(None)));
    assert!(matches!(a, SetupAction::CheckVersion(_)));
    let (s, a) = resume_setup(s, SetupEvent::Version(Ok(Some("herdr 0.0.0".to_string()))));
    match &a {
        SetupAction::Confirm(d) => assert_eq!(d, &format!("the {CURRENT_VERSION} release asset for linux-aarch64")),
        other => panic!("{other:?}"),
    }
    let (s, a) = resume_setup(s, SetupEvent::Confirmed(Ok(())));
    assert!(matches!(a, SetupAction::ResolveSource(InstallPlan::Download, None)));
    let (s, a) = resume_setup(s, SetupEvent::Source(Ok(InstallSource::persistent("/bin/h".to_string()))));
    assert!(matches!(a, SetupAction::Install(_, _)));
    let (s, a) = resume_setup(s, SetupEvent::Installed(Ok(())));
    assert!(matches!(a, SetupAction::CheckVersion(_)));
    let (s, a) = resume_setup(s, SetupEvent::Version(Ok(Some(format!("herdr {CURRENT_VERSION}\n")))));
    assert!(matches!(a, SetupAction::CheckPath));
    let (s, a) = resume_setup(s, SetupEvent::PathChecked(Ok(false)));
    assert_eq!(s.phase, SetupPhase::Done);
    assert!(matches!(a, SetupAction::Finish(Ok((_, true)))));
}

#[test]
fn setup_failures() {
    let (s, _) = begin_setup(linux_x86());
    let (_, a) = resume_setup(s, SetupEvent::Platform(Err("unsupported remote platform: FreeBSD amd64".to_string())));
    assert!(matches!(a, SetupAction::Finish(Err(m)) if m == "unsupported remote platform: FreeBSD amd64"));
    let (s, _) = begin_setup(linux_x86());
    let (s, _) = resume_setup(s, SetupEvent::Platform(Ok(linux_x86())));
    let (s, a) = resume_setup(s, SetupEvent::Override(Ok(Some("/tmp/h".to_string()))));
    match &a {
        SetupAction::Confirm(d) => assert_eq!(d, "HERDR_REMOTE_BINARY (/tmp/h)"),
        other => panic!("{other:?}"),
    }
    let (s, a) = resume_setup(s, SetupEvent::Confirmed(Ok(())));
    assert!(matches!(a, SetupAction::ResolveSource(InstallPlan::Override, Some(ref p)) if p == "/tmp/h"));
    let (s, _) = resume_setup(s, SetupEvent::Source(Ok(InstallSource::persistent("/tmp/h".to_string()))));
    let (s, _) = resume_setup(s, SetupEvent::Installed(Ok(())));
    let (_, a) = resume_setup(s, SetupEvent::Version(Ok(None)));
    match a {
        SetupAction::Finish(Err(m)) => assert_eq!(
            m,
            format!("installed remote herdr at \"$HOME/.local/bin/herdr\", but it did not report version {CURRENT_VERSION}")
        ),
        other => panic!("{other:?}"),
    }
}

#[test]
fn settings_writes() {
    let w = theme_write("Tokyo Night");
    assert_eq!(w.context, "theme");
    assert_eq!(w.edits, vec![ConfigEdit::SetValue { section: "theme", key: "name", value: "\"Tokyo Night\"".to_string() }]);
    let w = settings_write(SettingsSave::ToastDelivery(ToastDelivery::System)).unwrap();
    assert_eq!(w.context, "toast setting");
    assert_eq!(
        w.edits,
        vec![
            ConfigEdit::SetValue { section: "ui.toast", key: "delivery", value: "\"system\"".to_string() },
            ConfigEdit::RemoveKey { section: "ui.toast", key: "enabled" },
        ]
    );
    let w = settings_write(SettingsSave::Sound(false)).unwrap();
    assert_eq!(w.edits, vec![ConfigEdit::SetBool { section: "ui.sound", key: "enabled", value: false }]);
    let w = settings_write(SettingsSave::AgentBorderLabels(true)).unwrap();
    assert_eq!(w.context, "agent border labels");
    assert!(settings_write(SettingsSave::ServerEnabled(true)).is_none());
    let w = onboarding_write();
    assert!(!w.reload);
    assert_eq!(w.edits, vec![ConfigEdit::SetTopLevelBool { key: "onboarding", value: false }]);
    let w = agent_panel_scope_write(AgentPanelScopeConfig::Current);
    assert_eq!(w.edits, vec![ConfigEdit::SetValue { section: "ui", key: "agent_panel_scope", value: "\"current\"".to_string() }]);
}
