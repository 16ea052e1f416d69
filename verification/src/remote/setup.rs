//! Making sure a matching herdr runs on the remote host before bridging to
//! it over SSH.
//!
//! Setting up is a dialogue: the flow asks for one step (detect the remote
//! platform, read the override, probe the remote `PATH`, check the
//! installed version, ask the user, fetch the binary, install it, check
//! `PATH`), is told how it went, and finishes with the remote herdr to run
//! (and whether to warn that `~/.local/bin` is not on `PATH`) or an error.
use vstd::prelude::*;

use crate::remote::{
    install_plan, install_source_description, installed_version_mismatch,
    remote_herdr_from_path_probe, reports_current_version, spec_install_plan,
    spec_install_source_description, spec_path_probe, spec_shell_quote, version_line,
    InstallPlan, InstallSource, RemoteHerdr, RemotePlatform,
};
use crate::text::trim;

verus! {

/// The step a setup waits on.
#[derive(Debug, Clone, Copy, PartialEq, Eq, Structural)]
pub enum SetupPhase {
    AwaitPlatform,
    AwaitOverride,
    AwaitProbe,
    AwaitVersion,
    AwaitConfirm,
    AwaitSource,
    AwaitInstall,
    AwaitInstalledVersion,
    AwaitPathCheck,
    Done,
}

/// A setup in progress.
#[derive(Debug, Clone)]
pub struct RemoteSetup {
    pub phase: SetupPhase,
    /// The platform this process runs on.
    pub local: RemotePlatform,
    /// Where herdr is expected on the remote host, once its platform is
    /// known.
    pub herdr: Option<RemoteHerdr>,
    /// The binary `HERDR_REMOTE_BINARY` names, once read.
    pub override_binary: Option<String>,
}

/// A step the setup asks for.
#[derive(Debug)]
pub enum SetupAction {
    /// Run `uname -s; uname -m` remotely and read the platform.
    DetectPlatform,
    /// Read and check `HERDR_REMOTE_BINARY`.
    ReadOverride,
    /// Run the `PATH` probe remotely; answer with its output when it
    /// succeeded.
    ProbePath,
    /// Run the version check for this install remotely; answer with its
    /// output when it succeeded.
    CheckVersion(RemoteHerdr),
    /// Ask the user to approve installing from the described source.
    Confirm(String),
    /// Get the binary to install according to the plan (the override path
    /// for `Override`).
    ResolveSource(InstallPlan, Option<String>),
    /// Copy the binary to the remote install location.
    Install(RemoteHerdr, InstallSource),
    /// Check remotely that `~/.local/bin` is on `PATH`.
    CheckPath,
    /// Done: the remote herdr and whether to warn about `PATH`, or why
    /// none can run.
    Finish(Result<(RemoteHerdr, bool), String>),
}

/// How a step went; an `Err` is the step's own failure.
#[derive(Debug)]
pub enum SetupEvent {
    Platform(Result<RemotePlatform, String>),
    Override(Result<Option<String>, String>),
    Probe(Result<Option<String>, String>),
    Version(Result<Option<String>, String>),
    Confirmed(Result<(), String>),
    Source(Result<InstallSource, String>),
    Installed(Result<(), String>),
    PathChecked(Result<bool, String>),
}

/// Whether an event answers the step a setup waits on.
pub open spec fn setup_event_fits(phase: SetupPhase, e: SetupEvent) -> bool {
    match phase {
        SetupPhase::AwaitPlatform => e is Platform,
        SetupPhase::AwaitOverride => e is Override,
        SetupPhase::AwaitProbe => e is Probe,
        SetupPhase::AwaitVersion | SetupPhase::AwaitInstalledVersion => e is Version,
        SetupPhase::AwaitConfirm => e is Confirmed,
        SetupPhase::AwaitSource => e is Source,
        SetupPhase::AwaitInstall => e is Installed,
        SetupPhase::AwaitPathCheck => e is PathChecked,
        SetupPhase::Done => false,
    }
}

/// Two descriptions of an install agree.
pub open spec fn same_herdr(a: RemoteHerdr, b: RemoteHerdr) -> bool {
    a.install_suffix@ == b.install_suffix@ && a.shell_path@ == b.shell_path@ && a.platform == b.platform
}

/// The default install for a platform.
pub open spec fn default_herdr(h: RemoteHerdr, p: RemotePlatform) -> bool {
    h.install_suffix@ == ".local/bin/herdr"@ && h.shell_path@ == "\"$HOME/.local/bin/herdr\""@ && h.platform == p
}

/// Whether a version check's output reports this version.
pub open spec fn version_ok(out: Option<String>) -> bool {
    match out {
        Some(s) => trim(s@) == version_line(),
        None => false,
    }
}

/// The setup finishes with this error.
pub open spec fn fails(r: (RemoteSetup, SetupAction), m: Seq<char>) -> bool {
    r.0.phase == SetupPhase::Done && (r.1 matches SetupAction::Finish(Err(x)) && x@ == m)
}

/// The setup finishes with this remote herdr and `PATH` warning.
pub open spec fn succeeds(r: (RemoteSetup, SetupAction), h: RemoteHerdr, warn: bool) -> bool {
    r.0.phase == SetupPhase::Done && (r.1 matches SetupAction::Finish(Ok((x, w))) && same_herdr(x, h) && w == warn)
}

/// The setup asks to approve the install, described as `install_source_description` does.
pub open spec fn asks_confirm(s: RemoteSetup, r: (RemoteSetup, SetupAction)) -> bool {
    &&& r.0.phase == SetupPhase::AwaitConfirm
    &&& r.1 matches SetupAction::Confirm(d) && (s.herdr matches Some(h) && d@ == spec_install_source_description(
        h.platform,
        s.local,
        match s.override_binary {
            Some(p) => Some(p@),
            None => None,
        },
    ))
}

/// What one step does to a setup.
pub open spec fn setup_step(s: RemoteSetup, e: SetupEvent, r: (RemoteSetup, SetupAction)) -> bool {
    let keeps = r.0.local == s.local;
    keeps && match (s.phase, e) {
        (SetupPhase::AwaitPlatform, SetupEvent::Platform(Err(m))) => fails(r, m@),
        (SetupPhase::AwaitPlatform, SetupEvent::Platform(Ok(p))) => {
            &&& r.0.phase == SetupPhase::AwaitOverride
            &&& (r.0.herdr matches Some(h) && default_herdr(h, p))
            &&& r.1 is ReadOverride
        },
        (SetupPhase::AwaitOverride, SetupEvent::Override(Err(m))) => fails(r, m@),
        (SetupPhase::AwaitOverride, SetupEvent::Override(Ok(None))) => {
            &&& r.0.phase == SetupPhase::AwaitProbe
            &&& r.0.herdr == s.herdr
            &&& r.0.override_binary is None
            &&& r.1 is ProbePath
        },
        (SetupPhase::AwaitOverride, SetupEvent::Override(Ok(Some(p)))) => {
            &&& (r.0.override_binary matches Some(q) && q@ == p@)
            &&& r.0.herdr == s.herdr
            &&& asks_confirm(r.0, r)
        },
        (SetupPhase::AwaitProbe, SetupEvent::Probe(Err(m))) => fails(r, m@),
        (SetupPhase::AwaitProbe, SetupEvent::Probe(Ok(out))) => {
            let found = match out {
                Some(o) => spec_path_probe(o@),
                None => None,
            };
            match found {
                Some(path) => r.0.phase == SetupPhase::Done && (r.1 matches SetupAction::Finish(Ok((x, w))) && !w
                    && (s.herdr matches Some(h) && x.shell_path@ == spec_shell_quote(path)
                    && x.install_suffix@ == h.install_suffix@ && x.platform == h.platform)),
                None => r.0.phase == SetupPhase::AwaitVersion && r.0.herdr == s.herdr
                    && (r.1 matches SetupAction::CheckVersion(x) && (s.herdr matches Some(h) && same_herdr(x, h))),
            }
        },
        (SetupPhase::AwaitVersion, SetupEvent::Version(Err(m))) => fails(r, m@),
        (SetupPhase::AwaitVersion, SetupEvent::Version(Ok(out))) => if version_ok(out) {
            (s.herdr matches Some(h) && succeeds(r, h, false))
        } else {
            r.0.herdr == s.herdr && r.0.override_binary == s.override_binary && asks_confirm(s, r)
        },
        (SetupPhase::AwaitConfirm, SetupEvent::Confirmed(Err(m))) => fails(r, m@),
        (SetupPhase::AwaitConfirm, SetupEvent::Confirmed(Ok(()))) => {
            &&& r.0.phase == SetupPhase::AwaitSource
            &&& r.0.herdr == s.herdr
            &&& r.1 matches SetupAction::ResolveSource(plan, path) && (s.herdr matches Some(h)
                && plan == spec_install_plan(h.platform, s.local, s.override_binary is Some)
                && path == s.override_binary)
        },
        (SetupPhase::AwaitSource, SetupEvent::Source(Err(m))) => fails(r, m@),
        (SetupPhase::AwaitSource, SetupEvent::Source(Ok(src))) => {
            &&& r.0.phase == SetupPhase::AwaitInstall
            &&& r.0.herdr == s.herdr
            &&& r.1 matches SetupAction::Install(x, y) && (s.herdr matches Some(h) && same_herdr(x, h) && y == src)
        },
        (SetupPhase::AwaitInstall, SetupEvent::Installed(Err(m))) => fails(r, m@),
        (SetupPhase::AwaitInstall, SetupEvent::Installed(Ok(()))) => {
            &&& r.0.phase == SetupPhase::AwaitInstalledVersion
            &&& r.0.herdr == s.herdr
            &&& r.1 matches SetupAction::CheckVersion(x) && (s.herdr matches Some(h) && same_herdr(x, h))
        },
        (SetupPhase::AwaitInstalledVersion, SetupEvent::Version(Err(m))) => fails(r, m@),
        (SetupPhase::AwaitInstalledVersion, SetupEvent::Version(Ok(out))) => if version_ok(out) {
            r.0.phase == SetupPhase::AwaitPathCheck && r.0.herdr == s.herdr && r.1 is CheckPath
        } else {
            (s.herdr matches Some(h) && fails(r, "installed remote herdr at "@ + h.shell_path@
                + ", but it did not report version "@ + crate::session::CURRENT_VERSION@))
        },
        (SetupPhase::AwaitPathCheck, SetupEvent::PathChecked(Err(m))) => fails(r, m@),
        (SetupPhase::AwaitPathCheck, SetupEvent::PathChecked(Ok(on_path))) => (s.herdr matches Some(h) && succeeds(r, h, !on_path)),
        _ => r.0.phase == SetupPhase::Done && r.1 is Finish,
    }
}

/// Starts a setup; `local` is the platform this process runs on.
pub fn begin_setup(local: RemotePlatform) -> (r: (RemoteSetup, SetupAction))
    ensures
        r.0.phase == SetupPhase::AwaitPlatform,
        r.0.local == local,
        r.0.herdr is None,
        r.0.override_binary is None,
        r.1 is DetectPlatform,
{
    (RemoteSetup { phase: SetupPhase::AwaitPlatform, local, herdr: None, override_binary: None }, SetupAction::DetectPlatform)
}

/// The setup's invariant: from the override on, the remote install is
/// known.
pub open spec fn setup_wf(s: RemoteSetup) -> bool {
    s.phase != SetupPhase::AwaitPlatform && s.phase != SetupPhase::Done ==> s.herdr is Some
}

fn finish_err(s: RemoteSetup, m: String) -> (r: (RemoteSetup, SetupAction))
    ensures
        fails(r, m@),
        r.0.local == s.local,
{
    (RemoteSetup { phase: SetupPhase::Done, ..s }, SetupAction::Finish(Err(m)))
}

fn ask_confirm(s: RemoteSetup) -> (r: (RemoteSetup, SetupAction))
    requires
        s.herdr is Some,
    ensures
        asks_confirm(s, r),
        r.0.herdr == s.herdr,
        r.0.override_binary == s.override_binary,
        r.0.local == s.local,
{
    let d = match &s.herdr {
        Some(h) => install_source_description(&h.platform, &s.local, match &s.override_binary {
            Some(p) => Some(p.as_str()),
            None => None,
        }),
        None => String::new(),
    };
    (RemoteSetup { phase: SetupPhase::AwaitConfirm, ..s }, SetupAction::Confirm(d))
}

/// The next step of a setup, given how the step it waited on went (an
/// event that answers another step ends the setup).
pub fn resume_setup(s: RemoteSetup, e: SetupEvent) -> (r: (RemoteSetup, SetupAction))
    requires
        setup_wf(s),
    ensures
        setup_step(s, e, r),
        setup_wf(r.0),
{
    match (s.phase, e) {
        (SetupPhase::AwaitPlatform, SetupEvent::Platform(Err(m))) => finish_err(s, m),
        (SetupPhase::AwaitPlatform, SetupEvent::Platform(Ok(p))) => {
            let h = RemoteHerdr::for_platform(p);
            (RemoteSetup { phase: SetupPhase::AwaitOverride, herdr: Some(h), ..s }, SetupAction::ReadOverride)
        },
        (SetupPhase::AwaitOverride, SetupEvent::Override(Err(m))) => finish_err(s, m),
        (SetupPhase::AwaitOverride, SetupEvent::Override(Ok(None))) => {
            (RemoteSetup { phase: SetupPhase::AwaitProbe, override_binary: None, ..s }, SetupAction::ProbePath)
        },
        (SetupPhase::AwaitOverride, SetupEvent::Override(Ok(Some(p)))) => {
            ask_confirm(RemoteSetup { override_binary: Some(p), ..s })
        },
        (SetupPhase::AwaitProbe, SetupEvent::Probe(Err(m))) => finish_err(s, m),
        (SetupPhase::AwaitProbe, SetupEvent::Probe(Ok(out))) => {
            let h = match &s.herdr {
                Some(h) => h.clone_herdr(),
                None => RemoteHerdr::for_platform(s.local),
            };
            let found = match &out {
                Some(o) => remote_herdr_from_path_probe(&h, o.as_str()),
                None => None,
            };
            match found {
                Some(x) => (RemoteSetup { phase: SetupPhase::Done, ..s }, SetupAction::Finish(Ok((x, false)))),
                None => (RemoteSetup { phase: SetupPhase::AwaitVersion, ..s }, SetupAction::CheckVersion(h)),
            }
        },
        (SetupPhase::AwaitVersion, SetupEvent::Version(Err(m))) => finish_err(s, m),
        (SetupPhase::AwaitVersion, SetupEvent::Version(Ok(out))) => {
            let ok = match &out {
                Some(o) => reports_current_version(o.as_str()),
                None => false,
            };
            if ok {
                let h = match &s.herdr {
                    Some(h) => h.clone_herdr(),
                    None => RemoteHerdr::for_platform(s.local),
                };
                (RemoteSetup { phase: SetupPhase::Done, ..s }, SetupAction::Finish(Ok((h, false))))
            } else {
                ask_confirm(s)
            }
        },
        (SetupPhase::AwaitConfirm, SetupEvent::Confirmed(Err(m))) => finish_err(s, m),
        (SetupPhase::AwaitConfirm, SetupEvent::Confirmed(Ok(()))) => {
            let plan = match &s.herdr {
                Some(h) => install_plan(&h.platform, &s.local, s.override_binary.is_some()),
                None => InstallPlan::Download,
            };
            let path = s.override_binary.clone();
            (RemoteSetup { phase: SetupPhase::AwaitSource, ..s }, SetupAction::ResolveSource(plan, path))
        },
        (SetupPhase::AwaitSource, SetupEvent::Source(Err(m))) => finish_err(s, m),
        (SetupPhase::AwaitSource, SetupEvent::Source(Ok(src))) => {
            let h = match &s.herdr {
                Some(h) => h.clone_herdr(),
                None => RemoteHerdr::for_platform(s.local),
            };
            (RemoteSetup { phase: SetupPhase::AwaitInstall, ..s }, SetupAction::Install(h, src))
        },
        (SetupPhase::AwaitInstall, SetupEvent::Installed(Err(m))) => finish_err(s, m),
        (SetupPhase::AwaitInstall, SetupEvent::Installed(Ok(()))) => {
            let h = match &s.herdr {
                Some(h) => h.clone_herdr(),
                None => RemoteHerdr::for_platform(s.local),
            };
            (RemoteSetup { phase: SetupPhase::AwaitInstalledVersion, ..s }, SetupAction::CheckVersion(h))
        },
        (SetupPhase::AwaitInstalledVersion, SetupEvent::Version(Err(m))) => finish_err(s, m),
        (SetupPhase::AwaitInstalledVersion, SetupEvent::Version(Ok(out))) => {
            let ok = match &out {
                Some(o) => reports_current_version(o.as_str()),
                None => false,
            };
            if ok {
                (RemoteSetup { phase: SetupPhase::AwaitPathCheck, ..s }, SetupAction::CheckPath)
            } else {
                let m = match &s.herdr {
                    Some(h) => installed_version_mismatch(h.shell_path.as_str()),
                    None => String::new(),
                };
                finish_err(s, m)
            }
        },
        (SetupPhase::AwaitPathCheck, SetupEvent::PathChecked(Err(m))) => finish_err(s, m),
        (SetupPhase::AwaitPathCheck, SetupEvent::PathChecked(Ok(on_path))) => {
            let h = match &s.herdr {
                Some(h) => h.clone_herdr(),
                None => RemoteHerdr::for_platform(s.local),
            };
            (RemoteSetup { phase: SetupPhase::Done, ..s }, SetupAction::Finish(Ok((h, !on_path))))
        },
        (_, e) => (RemoteSetup { phase: SetupPhase::Done, ..s }, SetupAction::Finish(Err(String::new()))),
    }
}

/// Nothing is fetched or installed without the user's approval: the
/// source is asked for only right after an approval, and the install only
/// right after the source.
pub proof fn lemma_install_needs_approval(s: RemoteSetup, e: SetupEvent, r: (RemoteSetup, SetupAction))
    requires
        setup_event_fits(s.phase, e),
        setup_step(s, e, r),
    ensures
        r.1 is ResolveSource ==> s.phase == SetupPhase::AwaitConfirm && (e matches SetupEvent::Confirmed(Ok(_))),
        r.0.phase == SetupPhase::AwaitSource ==> s.phase == SetupPhase::AwaitConfirm,
        r.1 is Install ==> s.phase == SetupPhase::AwaitSource && (e matches SetupEvent::Source(Ok(_))),
        r.0.phase == SetupPhase::AwaitInstall ==> s.phase == SetupPhase::AwaitSource,
{
}

/// A setup that finishes successfully after an install has seen the
/// installed binary report this version: the `PATH` check, the last step,
/// is asked for only then.
pub proof fn lemma_path_check_after_version(s: RemoteSetup, e: SetupEvent, r: (RemoteSetup, SetupAction))
    requires
        setup_event_fits(s.phase, e),
        setup_step(s, e, r),
    ensures
        r.1 is CheckPath ==> s.phase == SetupPhase::AwaitInstalledVersion && (e matches SetupEvent::Version(Ok(out)) && version_ok(out)),
{
}

} // verus!
