use herdr::remote::{
    check_release_manifest, download_dir_name, extract_remote_args, fits_unix_socket_path,
    install_command, install_declined, install_plan, install_source_description,
    is_ws_target, local_forward_socket_path, normalize_ws_url, platform_from_uname_output,
    reattach_command, remote_bridge_command, remote_herdr_from_path_probe,
    remote_path_probe_command, reports_current_version, sanitize_path_component, shell_quote,
    short_socket_hash, validate_remote_target, version_check_command, ws_bridge_args,
    ws_reattach_command, InstallPlan, InstallSource, RemoteHerdr, RemotePlatform,
    WsLaunchConfig, MAX_SOCKET_PATH_BYTES,
};
use herdr::session::{CURRENT_VERSION, DEFAULT_SESSION_NAME};

fn args(list: &[&str]) -> Vec<String> {
    list.iter().map(|s| s.to_string()).collect()
}

fn linux_x86() -> RemotePlatform {
    RemotePlatform { os: "linux", arch: "x86_64" }
}

#[test]
fn extract_remote_args_removes_space_form() {
    let args = args(&["herdr", "--remote", "dev", "--help"]);
    let (cleaned, remote) = extract_remote_args(&args).unwrap();
    assert_eq!(cleaned, vec!["herdr", "--help"]);
    assert_eq!(remote.unwrap().target, "dev");
}

#[test]
fn extract_remote_args_removes_equals_form() {
    let args = args(&["herdr", "--remote=user@host"]);
    let (cleaned, remote) = extract_remote_args(&args).unwrap();
    assert_eq!(cleaned, vec!["herdr"]);
    assert_eq!(remote.unwrap().target, "user@host");
}

#[test]
fn extract_remote_args_requires_value() {
    let args = args(&["herdr", "--remote"]);
    let err = extract_remote_args(&args).unwrap_err();
    assert_eq!(err, "missing value for --remote");
}

#[test]
fn extract_remote_args_rejects_empty_value() {
    let args = args(&["herdr", "--remote="]);
    let err = extract_remote_args(&args).unwrap_err();
    assert_eq!(err, "missing value for --remote");
}

#[test]
fn extract_remote_args_rejects_duplicate_values() {
    let args = args(&["herdr", "--remote=dev", "--remote=prod"]);
    let err = extract_remote_args(&args).unwrap_err();
    assert_eq!(err, "--remote can only be specified once");
}

#[test]
fn extract_remote_args_rejects_option_like_target() {
    let args = args(&["herdr", "--remote", "-oProxyCommand=x"]);
    let err = extract_remote_args(&args).unwrap_err();
    assert_eq!(err, "--remote target must not start with '-'");
}

#[test]
fn extract_remote_args_keeps_ws_flags_for_ws_targets() {
    let args = args(&[
        "herdr",
        "--remote",
        "ws://host:8080",
        "--password",
        "pw",
        "--ws-fingerprint=SHA256:abc",
        "--ws-pubkey-auth",
        "--ws-identity",
        "/k",
        "--session",
        "work",
    ]);
    let (cleaned, remote) = extract_remote_args(&args).unwrap();
    assert_eq!(cleaned, vec!["herdr", "--session", "work"]);
    let remote = remote.unwrap();
    assert_eq!(remote.target, "ws://host:8080");
    let ws = remote.ws.unwrap();
    assert_eq!(ws.password.as_deref(), Some("pw"));
    assert_eq!(ws.fingerprint.as_deref(), Some("SHA256:abc"));
    assert!(ws.pubkey_auth);
    assert_eq!(ws.identity_file.as_deref(), Some("/k"));
}

#[test]
fn extract_remote_args_drops_ws_flags_for_ssh_targets() {
    let args = args(&["herdr", "--password=pw", "--remote", "user@host"]);
    let (cleaned, remote) = extract_remote_args(&args).unwrap();
    assert_eq!(cleaned, vec!["herdr"]);
    let remote = remote.unwrap();
    assert_eq!(remote.target, "user@host");
    assert!(remote.ws.is_none());
}

#[test]
fn extract_remote_args_flag_without_value_fails() {
    let args = args(&["herdr", "--ws-identity"]);
    assert_eq!(extract_remote_args(&args).unwrap_err(), "--ws-identity requires a value");
}

#[test]
fn extract_remote_args_without_remote() {
    let args = args(&["herdr", "--session", "x"]);
    let (cleaned, remote) = extract_remote_args(&args).unwrap();
    assert_eq!(cleaned, vec!["herdr", "--session", "x"]);
    assert!(remote.is_none());
}

#[test]
fn ws_targets_are_recognised_and_normalised() {
    assert!(is_ws_target("ws://h"));
    assert!(is_ws_target("wss://h"));
    assert!(is_ws_target("https://h"));
    assert!(!is_ws_target("user@host"));
    assert_eq!(normalize_ws_url("http://h:1"), "ws://h:1");
    assert_eq!(normalize_ws_url("https://h:1"), "wss://h:1");
    assert_eq!(normalize_ws_url("ws://h:1"), "ws://h:1");
    assert_eq!(validate_remote_target("host"), Ok("host"));
    assert!(validate_remote_target("").is_err());
}

#[test]
fn sanitize_path_component_removes_shell_sensitive_chars() {
    assert_eq!(sanitize_path_component("user@host:22"), "user-host-22");
}

#[test]
fn sanitize_path_component_trims_dashes_and_truncates() {
    assert_eq!(sanitize_path_component("--a b--"), "a-b");
    assert_eq!(sanitize_path_component(&"x".repeat(40)), "x".repeat(32));
}

#[test]
fn remote_platform_maps_uname_values() {
    assert_eq!(RemotePlatform::from_uname("Linux", "amd64").unwrap().asset_key(), "linux-x86_64");
    assert_eq!(RemotePlatform::from_uname("Darwin", "arm64").unwrap().asset_key(), "macos-aarch64");
    assert!(RemotePlatform::from_uname("FreeBSD", "x86_64").is_none());
}

#[test]
fn reattach_command_includes_remote_and_session() {
    assert_eq!(
        reattach_command("target/release/herdr", "user@host", "work"),
        "target/release/herdr --remote user@host --session work"
    );
    assert_eq!(reattach_command("herdr", "host name", DEFAULT_SESSION_NAME), "herdr --remote 'host name'");
}

#[test]
fn reattach_command_defaults_program_name() {
    assert_eq!(reattach_command("", "h", DEFAULT_SESSION_NAME), "herdr --remote h");
}

#[test]
fn ws_reattach_command_lists_ws_flags() {
    let cfg = WsLaunchConfig {
        password: Some("p w".to_string()),
        fingerprint: Some("SHA256:x".to_string()),
        pubkey_auth: true,
        identity_file: Some("/id".to_string()),
    };
    assert_eq!(
        ws_reattach_command("herdr", "ws://h:1", &cfg, "work"),
        "herdr --remote ws://h:1 --session work --password 'p w' --fingerprint SHA256:x --ws-pubkey-auth --ws-identity /id"
    );
}

#[test]
fn shell_quote_examples() {
    assert_eq!(shell_quote("plain/path-1.2_x"), "plain/path-1.2_x");
    assert_eq!(shell_quote(""), "''");
    assert_eq!(shell_quote("a b"), "'a b'");
    assert_eq!(shell_quote("it's"), "'it'\\''s'");
}

#[test]
fn remote_bridge_command_uses_installed_binary() {
    let remote_herdr = RemoteHerdr::for_platform(linux_x86());
    assert_eq!(
        remote_bridge_command(&remote_herdr, DEFAULT_SESSION_NAME),
        "exec \"$HOME/.local/bin/herdr\" remote-client-bridge"
    );
}

#[test]
fn remote_bridge_command_names_other_sessions() {
    let remote_herdr = RemoteHerdr::for_platform(linux_x86());
    assert_eq!(
        remote_bridge_command(&remote_herdr, "my work"),
        "exec \"$HOME/.local/bin/herdr\" --session 'my work' remote-client-bridge"
    );
}

#[test]
fn remote_path_probe_uses_path_binary_when_version_matches() {
    let remote_herdr = RemoteHerdr::for_platform(linux_x86());
    let stdout = format!("/usr/bin/herdr\nherdr {CURRENT_VERSION}\n");
    let remote_herdr = remote_herdr_from_path_probe(&remote_herdr, &stdout).expect("matching path binary");
    assert_eq!(
        remote_bridge_command(&remote_herdr, DEFAULT_SESSION_NAME),
        "exec /usr/bin/herdr remote-client-bridge"
    );
}

#[test]
fn remote_path_probe_quotes_discovered_binary() {
    let remote_herdr = RemoteHerdr::for_platform(linux_x86());
    let stdout = format!("/opt/herdr bin/herdr\nherdr {CURRENT_VERSION}\n");
    let remote_herdr = remote_herdr_from_path_probe(&remote_herdr, &stdout).expect("matching path binary");
    assert_eq!(
        remote_bridge_command(&remote_herdr, DEFAULT_SESSION_NAME),
        "exec '/opt/herdr bin/herdr' remote-client-bridge"
    );
}

#[test]
fn remote_path_probe_uses_macos_path_binary_when_version_matches() {
    let remote_herdr = RemoteHerdr::for_platform(RemotePlatform { os: "macos", arch: "aarch64" });
    let stdout = format!("/opt/homebrew/bin/herdr\nherdr {CURRENT_VERSION}\n");
    let remote_herdr = remote_herdr_from_path_probe(&remote_herdr, &stdout).expect("matching path binary");
    assert_eq!(
        remote_bridge_command(&remote_herdr, DEFAULT_SESSION_NAME),
        "exec /opt/homebrew/bin/herdr remote-client-bridge"
    );
    assert_eq!(remote_herdr.platform.asset_key(), "macos-aarch64");
}

#[test]
fn remote_path_probe_quotes_single_quotes_in_discovered_binary() {
    let remote_herdr = RemoteHerdr::for_platform(linux_x86());
    let stdout = format!("/opt/herdr's/bin/herdr\nherdr {CURRENT_VERSION}\n");
    let remote_herdr = remote_herdr_from_path_probe(&remote_herdr, &stdout).expect("matching path binary");
    assert_eq!(
        remote_bridge_command(&remote_herdr, DEFAULT_SESSION_NAME),
        "exec '/opt/herdr'\\''s/bin/herdr' remote-client-bridge"
    );
}

#[test]
fn remote_path_probe_ignores_version_mismatch() {
    let remote_herdr = RemoteHerdr::for_platform(linux_x86());
    let remote_herdr = remote_herdr_from_path_probe(&remote_herdr, "/usr/bin/herdr\nherdr 0.0.0\n");
    assert!(remote_herdr.is_none());
}

#[test]
fn remote_path_probe_ignores_relative_paths() {
    let remote_herdr = RemoteHerdr::for_platform(linux_x86());
    let stdout = format!("bin/herdr\nherdr {CURRENT_VERSION}\n");
    let remote_herdr = remote_herdr_from_path_probe(&remote_herdr, &stdout);
    assert!(remote_herdr.is_none());
}

#[test]
fn remote_path_probe_command_prints_path_and_version() {
    let cmd = remote_path_probe_command();
    assert!(cmd.starts_with("path=$(command -v herdr) || exit 1\n"));
    assert!(cmd.ends_with("printf '%s\\n%s\\n' \"$path\" \"$version\"\n"));
}

#[test]
fn version_check_accepts_only_current_version() {
    let remote_herdr = RemoteHerdr::for_platform(linux_x86());
    assert_eq!(
        version_check_command(&remote_herdr),
        "test -x \"$HOME/.local/bin/herdr\" && \"$HOME/.local/bin/herdr\" --version"
    );
    assert!(reports_current_version(&format!("  herdr {CURRENT_VERSION}\n")));
    assert!(!reports_current_version("herdr 0.0.0"));
}

#[test]
fn install_source_description_uses_override_binary() {
    let platform = RemotePlatform { os: "linux", arch: "aarch64" };
    assert_eq!(
        install_source_description(&platform, &linux_x86(), Some("/tmp/herdr-aarch64")),
        "HERDR_REMOTE_BINARY (/tmp/herdr-aarch64)"
    );
}

#[test]
fn install_source_description_without_override() {
    let arm = RemotePlatform { os: "linux", arch: "aarch64" };
    assert_eq!(install_source_description(&arm, &arm, None), "the current local herdr binary");
    assert_eq!(
        install_source_description(&arm, &linux_x86(), None),
        format!("the {CURRENT_VERSION} release asset for linux-aarch64")
    );
}

#[test]
fn resolve_install_source_uses_override_binary_without_temporary_cleanup() {
    let platform = RemotePlatform { os: "linux", arch: "aarch64" };
    assert_eq!(install_plan(&platform, &linux_x86(), true), InstallPlan::Override);
    let source = InstallSource::persistent("/tmp/herdr-aarch64".to_string());
    assert_eq!(source.path, "/tmp/herdr-aarch64");
    assert!(source.temporary_dir.is_none());
}

#[test]
fn install_plan_prefers_local_binary_then_download() {
    let arm = RemotePlatform { os: "linux", arch: "aarch64" };
    assert_eq!(install_plan(&arm, &arm, false), InstallPlan::CurrentExe);
    assert_eq!(install_plan(&arm, &linux_x86(), false), InstallPlan::Download);
    let t = InstallSource::temporary("/d/herdr.tmp".to_string(), "/d".to_string());
    assert_eq!(t.temporary_dir.as_deref(), Some("/d"));
}

#[test]
fn release_manifest_checks_version_and_asset() {
    let ok = check_release_manifest(&format!("v{CURRENT_VERSION}"), "linux-x86_64", Some("https://x/a".to_string()));
    assert_eq!(ok, Ok("https://x/a".to_string()));
    let missing = check_release_manifest(CURRENT_VERSION, "linux-x86_64", None);
    assert_eq!(
        missing,
        Err(format!("no linux-x86_64 binary in the release manifest for herdr {CURRENT_VERSION}"))
    );
    let old = check_release_manifest("v0.0.1", "linux-x86_64", Some("u".to_string()));
    assert_eq!(
        old,
        Err(format!(
            "remote host is linux-x86_64, but this local herdr is {CURRENT_VERSION} and the latest release manifest is v0.0.1; build herdr for the remote platform or install it there manually"
        ))
    );
}

#[test]
fn download_dir_names_count_attempts() {
    assert_eq!(download_dir_name(42, "linux-x86_64", 3), "herdr-remote-42-linux-x86_64-3");
}

#[test]
fn install_prompt_answers() {
    assert!(install_declined(" No\n"));
    assert!(install_declined("n"));
    assert!(!install_declined(""));
    assert!(!install_declined("yes"));
}

#[test]
fn install_command_runs_script_under_sh() {
    let remote_herdr = RemoteHerdr::for_platform(linux_x86());
    let cmd = install_command(&remote_herdr);
    assert!(cmd.starts_with("sh -eu -c '"));
    assert!(cmd.contains("dest=\"$HOME/.local/bin/herdr\""));
    assert!(cmd.contains("mv \"$tmp\" \"$dest\""));
}

#[test]
fn uname_output_gives_platform_or_error() {
    let p = platform_from_uname_output("Linux\nx86_64\n").unwrap();
    assert_eq!(p.asset_key(), "linux-x86_64");
    assert_eq!(
        platform_from_uname_output(" FreeBSD \n amd64 \n").unwrap_err(),
        "unsupported remote platform: FreeBSD amd64"
    );
}

#[test]
fn ws_bridge_args_pass_flags() {
    let cfg = WsLaunchConfig {
        password: Some("pw".to_string()),
        fingerprint: None,
        pubkey_auth: true,
        identity_file: Some("/id".to_string()),
    };
    assert_eq!(
        ws_bridge_args("wss://h", &cfg),
        vec!["ws-client-bridge", "wss://h", "--password", "pw", "--pubkey-auth", "--identity", "/id"]
    );
}

#[test]
fn local_forward_socket_path_uses_readable_name_when_it_fits() {
    let path = local_forward_socket_path("/tmp", 1234, "dev", "default");
    let filename = path.rsplit('/').next().unwrap_or("").to_string();
    assert!(filename.starts_with("herdr-remote-"), "expected readable name, got {filename}");
    assert!(filename.contains("-dev-default."), "got {filename}");
    assert!(fits_unix_socket_path(&path), "socket path too long: {} ({} bytes)", path, path.len());
}

#[test]
fn local_forward_socket_path_fits_in_sun_path() {
    let target = "longish-host.example.com";
    let session = "a-fairly-long-session-name-here";
    let tmpdir = "/var/folders/xy/abcdefghijklmnopqrstuvw00000gn/T";
    let path = local_forward_socket_path(tmpdir, 98765, target, session);
    assert!(fits_unix_socket_path(&path), "socket path too long for sun_path: {} ({} bytes)", path, path.len());
}

#[test]
fn local_forward_socket_path_falls_back_to_tmp_when_dir_is_long() {
    let long_dir = format!("/tmp/{}", "a".repeat(80));
    let path = local_forward_socket_path(&long_dir, 4242, "longish-host.example.com", "default");
    let fits = fits_unix_socket_path(&path);
    let (parent, filename) = path.rsplit_once('/').unwrap();
    assert!(fits, "fallback path still overflows: {}", path);
    assert_eq!(parent, "/tmp");
    assert!(filename.starts_with("herdr-r-"), "expected hashed fallback, got {filename}");
}

#[test]
fn socket_path_limit_counts_bytes() {
    assert!(fits_unix_socket_path(&"a".repeat(MAX_SOCKET_PATH_BYTES)));
    assert!(!fits_unix_socket_path(&"a".repeat(MAX_SOCKET_PATH_BYTES + 1)));
    assert!(!fits_unix_socket_path(&"é".repeat(52)));
}

#[test]
fn short_socket_hash_is_sixteen_hex_digits() {
    let h = short_socket_hash("host", "default");
    assert_eq!(h.len(), 16);
    assert!(h.chars().all(|c| c.is_ascii_hexdigit()));
    assert_eq!(h, short_socket_hash("host", "default"));
    assert_ne!(h, short_socket_hash("host", "other"));
}

#[test]
fn ws_reattach_words_read_back_as_the_launch() {
    let cfg = WsLaunchConfig {
        password: Some("--remote".to_string()),
        fingerprint: Some("SHA256:x".to_string()),
        pubkey_auth: true,
        identity_file: Some("/id".to_string()),
    };
    let words = args(&[
        "herdr", "--remote", "wss://h:1", "--session", "work", "--password", "--remote", "--fingerprint",
        "SHA256:x", "--ws-pubkey-auth", "--ws-identity", "/id",
    ]);
    let (cleaned, remote) = extract_remote_args(&words).unwrap();
    assert_eq!(cleaned, vec!["herdr", "--session", "work"]);
    let launch = remote.unwrap();
    assert_eq!(launch.target, "wss://h:1");
    let ws = launch.ws.unwrap();
    assert_eq!(ws.password, cfg.password);
    assert_eq!(ws.fingerprint, cfg.fingerprint);
    assert_eq!(ws.pubkey_auth, cfg.pubkey_auth);
    assert_eq!(ws.identity_file, cfg.identity_file);
}

#[test]
fn sanitized_names_keep_safe_names() {
    assert_eq!(sanitize_path_component("host.example_1"), "host.example_1");
    assert!(!sanitize_path_component("-x").starts_with('-'));
}
