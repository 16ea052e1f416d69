//! Turning the gateway on or off, and changing its port, from the Settings
//! screen.
//!
//! Each change is a short dialogue: the flow asks for one step to be
//! performed (generate a password, prepare the certificate, write a value
//! to `config.toml`, start or stop the subprocess) and is told how it went,
//! until it finishes with the message to show, if any.
use vstd::prelude::*;
use vstd::string::*;

use crate::config::ServerConfig;
use crate::remote::opt_view;
use crate::text::{decimal, format_decimal, owned, push_str};

verus! {

/// What the Settings screen knows of the gateway.
#[derive(Debug, Clone)]
pub struct GatewaySettings {
    pub enabled: bool,
    pub port: u16,
    pub password: Option<String>,
    pub tls: bool,
    pub fingerprint: Option<String>,
}

/// The mathematical content of [`GatewaySettings`].
pub struct GatewayView {
    pub enabled: bool,
    pub port: u16,
    pub password: Option<Seq<char>>,
    pub tls: bool,
    pub fingerprint: Option<Seq<char>>,
}

impl View for GatewaySettings {
    type V = GatewayView;

    open spec fn view(&self) -> GatewayView {
        GatewayView {
            enabled: self.enabled,
            port: self.port,
            password: opt_view(self.password),
            tls: self.tls,
            fingerprint: opt_view(self.fingerprint),
        }
    }
}

impl GatewaySettings {
    /// The gateway settings of the `[server]` table.
    pub fn from_config(c: &ServerConfig) -> (r: Self)
        ensures
            r@ == (GatewayView {
                enabled: c.ws_enabled,
                port: c.ws_port,
                password: opt_view(c.ws_password),
                tls: c.ws_tls,
                fingerprint: opt_view(c.ws_fingerprint),
            }),
    {
        GatewaySettings {
            enabled: c.ws_enabled,
            port: c.ws_port,
            password: c.ws_password.clone(),
            tls: c.ws_tls,
            fingerprint: c.ws_fingerprint.clone(),
        }
    }
}

/// A step the flow asks for.
#[derive(Debug, Clone, PartialEq, Eq)]
pub enum GatewayAction {
    /// Generate a random password.
    GeneratePassword,
    /// Make sure the default certificate exists and read its fingerprint.
    PrepareCertificate,
    /// Write `key = value` (`value` as TOML) in the `[server]` table.
    WriteValue { key: &'static str, value: String },
    /// Write `enabled = <bool>` in the `[server]` table.
    WriteEnabled(bool),
    /// Stop any running gateway and start one with these settings.
    Restart { port: u16, password: Option<String>, tls: bool },
    /// Stop the running gateway, if any.
    Stop,
    /// Nothing more to do; the message to show, if any.
    Finish(Option<String>),
}

/// The mathematical content of a [`GatewayAction`].
pub enum ActionView {
    GeneratePassword,
    PrepareCertificate,
    WriteValue(Seq<char>, Seq<char>),
    WriteEnabled(bool),
    Restart(u16, Option<Seq<char>>, bool),
    Stop,
    Finish(Option<Seq<char>>),
}

impl View for GatewayAction {
    type V = ActionView;

    open spec fn view(&self) -> ActionView {
        match self {
            GatewayAction::GeneratePassword => ActionView::GeneratePassword,
            GatewayAction::PrepareCertificate => ActionView::PrepareCertificate,
            GatewayAction::WriteValue { key, value } => ActionView::WriteValue(key@, value@),
            GatewayAction::WriteEnabled(b) => ActionView::WriteEnabled(*b),
            GatewayAction::Restart { port, password, tls } => ActionView::Restart(*port, opt_view(*password), *tls),
            GatewayAction::Stop => ActionView::Stop,
            GatewayAction::Finish(m) => ActionView::Finish(opt_view(*m)),
        }
    }
}

/// How a step went.
#[derive(Debug)]
pub enum GatewayEvent {
    /// The generated password, or why none could be.
    Password(Result<String, String>),
    /// The certificate's fingerprint, or why it could not be prepared.
    Certificate(Result<String, String>),
    /// Whether `config.toml` was written.
    Written(bool),
    /// Whether starting or stopping the subprocess succeeded.
    Process(Result<(), String>),
}

/// The view of a result carrying text.
pub open spec fn text_result(r: Result<String, String>) -> Result<Seq<char>, Seq<char>> {
    match r {
        Ok(s) => Ok(s@),
        Err(e) => Err(e@),
    }
}

/// The mathematical content of a [`GatewayEvent`].
pub enum EventView {
    Password(Result<Seq<char>, Seq<char>>),
    Certificate(Result<Seq<char>, Seq<char>>),
    Written(bool),
    Process(Result<(), Seq<char>>),
}

impl View for GatewayEvent {
    type V = EventView;

    open spec fn view(&self) -> EventView {
        match self {
            GatewayEvent::Password(r) => EventView::Password(text_result(*r)),
            GatewayEvent::Certificate(r) => EventView::Certificate(text_result(*r)),
            GatewayEvent::Written(b) => EventView::Written(*b),
            GatewayEvent::Process(r) => EventView::Process(
                match r {
                    Ok(()) => Ok(()),
                    Err(e) => Err(e@),
                },
            ),
        }
    }
}

/// What a flow is for.
#[derive(Debug, Clone, Copy, PartialEq, Eq, Structural)]
pub enum GatewayGoal {
    /// Turn the gateway on (`true`) or off.
    Enable(bool),
    /// Save a new port, restarting a running gateway on it.
    SetPort,
}

/// The step a flow waits on.
#[derive(Debug, Clone, Copy, PartialEq, Eq, Structural)]
pub enum GatewayPhase {
    AwaitPassword,
    AwaitPasswordWrite,
    AwaitCertificate,
    AwaitFingerprintWrite,
    AwaitPortWrite,
    AwaitProcess,
    AwaitEnabledWrite,
    Done,
}

/// A change in progress.
#[derive(Debug, Clone)]
pub struct GatewayFlow {
    pub goal: GatewayGoal,
    pub phase: GatewayPhase,
    pub settings: GatewaySettings,
}

/// The mathematical content of a [`GatewayFlow`].
pub struct FlowView {
    pub goal: GatewayGoal,
    pub phase: GatewayPhase,
    pub settings: GatewayView,
}

impl View for GatewayFlow {
    type V = FlowView;

    open spec fn view(&self) -> FlowView {
        FlowView { goal: self.goal, phase: self.phase, settings: self.settings@ }
    }
}

/// Whether an event answers the step a flow waits on.
pub open spec fn event_fits(phase: GatewayPhase, e: EventView) -> bool {
    match phase {
        GatewayPhase::AwaitPassword => e is Password,
        GatewayPhase::AwaitCertificate => e is Certificate,
        GatewayPhase::AwaitProcess => e is Process,
        GatewayPhase::Done => false,
        _ => e is Written,
    }
}

/// A value written as a TOML string.
pub open spec fn quoted(v: Seq<char>) -> Seq<char> {
    "\""@ + v + "\""@
}

/// The message when the gateway would start without a password.
pub open spec fn msg_password_required() -> Seq<char> {
    "ws-server requires a password before it can start"@
}

/// The flow of turning the gateway on or off, from the start or stop of
/// the subprocess on.
pub open spec fn enable_process_stage(s: GatewayView, enabled: bool) -> (GatewayPhase, ActionView) {
    if enabled && s.password is None {
        (GatewayPhase::Done, ActionView::Finish(Some(msg_password_required())))
    } else if enabled {
        (GatewayPhase::AwaitProcess, ActionView::Restart(s.port, s.password, s.tls))
    } else {
        (GatewayPhase::AwaitProcess, ActionView::Stop)
    }
}

/// ... from the saving of the port on.
pub open spec fn enable_port_stage(s: GatewayView, enabled: bool) -> (GatewayPhase, ActionView) {
    if enabled {
        (GatewayPhase::AwaitPortWrite, ActionView::WriteValue("port"@, decimal(s.port as nat)))
    } else {
        enable_process_stage(s, enabled)
    }
}

/// ... from the preparation of the certificate on.
pub open spec fn enable_cert_stage(s: GatewayView, enabled: bool) -> (GatewayPhase, ActionView) {
    if enabled && s.tls {
        (GatewayPhase::AwaitCertificate, ActionView::PrepareCertificate)
    } else {
        enable_port_stage(s, enabled)
    }
}

/// The start of turning the gateway on or off.
pub open spec fn spec_begin_enable(s: GatewayView, enabled: bool) -> (FlowView, ActionView) {
    let goal = GatewayGoal::Enable(enabled);
    if enabled && s.password is None {
        (FlowView { goal, phase: GatewayPhase::AwaitPassword, settings: s }, ActionView::GeneratePassword)
    } else {
        let (ph, a) = enable_cert_stage(s, enabled);
        (FlowView { goal, phase: ph, settings: s }, a)
    }
}

/// The start of saving a new port.
pub open spec fn spec_begin_port(s: GatewayView, port: u16) -> (FlowView, ActionView) {
    (
        FlowView { goal: GatewayGoal::SetPort, phase: GatewayPhase::AwaitPortWrite, settings: GatewayView { port, ..s } },
        ActionView::WriteValue("port"@, decimal(port as nat)),
    )
}

/// The flow finished with a message.
pub open spec fn finish(f: FlowView, m: Option<Seq<char>>) -> (FlowView, ActionView) {
    (FlowView { phase: GatewayPhase::Done, ..f }, ActionView::Finish(m))
}

/// The flow moved on to a stage.
pub open spec fn goto(f: FlowView, s: GatewayView, stage: (GatewayPhase, ActionView)) -> (FlowView, ActionView) {
    (FlowView { phase: stage.0, settings: s, ..f }, stage.1)
}

/// The next step of turning the gateway on or off, once an event came.
pub open spec fn resume_enable(f: FlowView, enabled: bool, e: EventView) -> (FlowView, ActionView) {
    let s = f.settings;
    match (f.phase, e) {
        (GatewayPhase::AwaitPassword, EventView::Password(Ok(pw))) => {
            let s2 = GatewayView { password: Some(pw), ..s };
            goto(f, s2, (GatewayPhase::AwaitPasswordWrite, ActionView::WriteValue("password"@, quoted(pw))))
        },
        (GatewayPhase::AwaitPassword, EventView::Password(Err(err))) =>
            finish(f, Some("could not generate ws-server password: "@ + err)),
        (GatewayPhase::AwaitPasswordWrite, EventView::Written(ok)) => if ok {
            goto(f, s, enable_cert_stage(s, enabled))
        } else {
            finish(f, Some("failed to save ws-server password to config.toml"@))
        },
        (GatewayPhase::AwaitCertificate, EventView::Certificate(Ok(fp))) => {
            let s2 = GatewayView { fingerprint: Some(fp), ..s };
            goto(f, s2, (GatewayPhase::AwaitFingerprintWrite, ActionView::WriteValue("fingerprint"@, quoted(fp))))
        },
        (GatewayPhase::AwaitCertificate, EventView::Certificate(Err(err))) =>
            finish(f, Some("could not prepare ws-server TLS certificate: "@ + err)),
        (GatewayPhase::AwaitFingerprintWrite, EventView::Written(ok)) => if ok {
            goto(f, s, enable_port_stage(s, enabled))
        } else {
            finish(f, Some("failed to save ws-server TLS fingerprint to config.toml"@))
        },
        (GatewayPhase::AwaitPortWrite, EventView::Written(ok)) => if ok {
            goto(f, s, enable_process_stage(s, enabled))
        } else {
            finish(f, Some("failed to save ws-server port to config.toml"@))
        },
        (GatewayPhase::AwaitProcess, EventView::Process(Err(err))) =>
            finish(f, Some((if enabled { "ws-server start: "@ } else { "ws-server stop: "@ }) + err)),
        (GatewayPhase::AwaitProcess, EventView::Process(Ok(()))) => {
            let s2 = GatewayView { enabled, ..s };
            goto(f, s2, (GatewayPhase::AwaitEnabledWrite, ActionView::WriteEnabled(enabled)))
        },
        (GatewayPhase::AwaitEnabledWrite, EventView::Written(ok)) => if ok {
            finish(f, None)
        } else {
            finish(f, Some("failed to save ws-server enabled state to config.toml"@))
        },
        _ => finish(f, None),
    }
}

/// The restart of a running gateway on the saved port.
pub open spec fn port_restart(s: GatewayView) -> (GatewayPhase, ActionView) {
    (GatewayPhase::AwaitProcess, ActionView::Restart(s.port, s.password, s.tls))
}

/// The next step of saving a new port, once an event came.
pub open spec fn resume_port(f: FlowView, e: EventView) -> (FlowView, ActionView) {
    let s = f.settings;
    match (f.phase, e) {
        (GatewayPhase::AwaitPortWrite, EventView::Written(ok)) => if !ok {
            finish(f, Some("failed to save ws-server port to config.toml"@))
        } else if !s.enabled {
            finish(f, None)
        } else if s.tls {
            goto(f, s, (GatewayPhase::AwaitCertificate, ActionView::PrepareCertificate))
        } else {
            goto(f, s, port_restart(s))
        },
        (GatewayPhase::AwaitCertificate, EventView::Certificate(Ok(fp))) => {
            let s2 = GatewayView { fingerprint: Some(fp), ..s };
            goto(f, s2, (GatewayPhase::AwaitFingerprintWrite, ActionView::WriteValue("fingerprint"@, quoted(fp))))
        },
        (GatewayPhase::AwaitCertificate, EventView::Certificate(Err(_))) => goto(f, s, port_restart(s)),
        (GatewayPhase::AwaitFingerprintWrite, EventView::Written(_)) => goto(f, s, port_restart(s)),
        (GatewayPhase::AwaitProcess, EventView::Process(Err(err))) =>
            finish(f, Some("ws-server restart on port "@ + decimal(s.port as nat) + ": "@ + err)),
        _ => finish(f, None),
    }
}

/// The next step of a flow, once an event came.
pub open spec fn spec_resume(f: FlowView, e: EventView) -> (FlowView, ActionView) {
    match f.goal {
        GatewayGoal::Enable(enabled) => resume_enable(f, enabled, e),
        GatewayGoal::SetPort => resume_port(f, e),
    }
}

fn quote(v: &str) -> (r: String)
    ensures
        r@ == quoted(v@),
{
    let mut s = owned("\"");
    push_str(&mut s, v);
    push_str(&mut s, "\"");
    s
}

fn with_prefix(prefix: &str, v: &str) -> (r: String)
    ensures
        r@ == prefix@ + v@,
{
    let mut s = owned(prefix);
    push_str(&mut s, v);
    s
}

fn finish_exec(f: GatewayFlow, m: Option<String>) -> (r: (GatewayFlow, GatewayAction))
    ensures
        (r.0@, r.1@) == finish(f@, opt_view(m)),
{
    (GatewayFlow { phase: GatewayPhase::Done, ..f }, GatewayAction::Finish(m))
}

fn enable_process_stage_exec(s: &GatewaySettings, enabled: bool) -> (r: (GatewayPhase, GatewayAction))
    ensures
        (r.0, r.1@) == enable_process_stage(s@, enabled),
{
    if enabled && s.password.is_none() {
        (GatewayPhase::Done, GatewayAction::Finish(Some(owned("ws-server requires a password before it can start"))))
    } else if enabled {
        (GatewayPhase::AwaitProcess, GatewayAction::Restart { port: s.port, password: s.password.clone(), tls: s.tls })
    } else {
        (GatewayPhase::AwaitProcess, GatewayAction::Stop)
    }
}

fn enable_port_stage_exec(s: &GatewaySettings, enabled: bool) -> (r: (GatewayPhase, GatewayAction))
    ensures
        (r.0, r.1@) == enable_port_stage(s@, enabled),
{
    if enabled {
        (GatewayPhase::AwaitPortWrite, GatewayAction::WriteValue { key: "port", value: format_decimal(s.port as u64) })
    } else {
        enable_process_stage_exec(s, enabled)
    }
}

fn enable_cert_stage_exec(s: &GatewaySettings, enabled: bool) -> (r: (GatewayPhase, GatewayAction))
    ensures
        (r.0, r.1@) == enable_cert_stage(s@, enabled),
{
    if enabled && s.tls {
        (GatewayPhase::AwaitCertificate, GatewayAction::PrepareCertificate)
    } else {
        enable_port_stage_exec(s, enabled)
    }
}

/// Starts turning the gateway on (`enabled`) or off.
pub fn begin_enable(settings: GatewaySettings, enabled: bool) -> (r: (GatewayFlow, GatewayAction))
    ensures
        (r.0@, r.1@) == spec_begin_enable(settings@, enabled),
{
    let goal = GatewayGoal::Enable(enabled);
    if enabled && settings.password.is_none() {
        (GatewayFlow { goal, phase: GatewayPhase::AwaitPassword, settings }, GatewayAction::GeneratePassword)
    } else {
        let (phase, a) = enable_cert_stage_exec(&settings, enabled);
        (GatewayFlow { goal, phase, settings }, a)
    }
}

/// Starts saving a new port.
pub fn begin_port(settings: GatewaySettings, port: u16) -> (r: (GatewayFlow, GatewayAction))
    ensures
        (r.0@, r.1@) == spec_begin_port(settings@, port),
{
    let s = GatewaySettings { port, ..settings };
    (
        GatewayFlow { goal: GatewayGoal::SetPort, phase: GatewayPhase::AwaitPortWrite, settings: s },
        GatewayAction::WriteValue { key: "port", value: format_decimal(port as u64) },
    )
}

fn resume_enable_exec(f: GatewayFlow, enabled: bool, e: GatewayEvent) -> (r: (GatewayFlow, GatewayAction))
    ensures
        (r.0@, r.1@) == resume_enable(f@, enabled, e@),
{
    match (f.phase, e) {
        (GatewayPhase::AwaitPassword, GatewayEvent::Password(Ok(pw))) => {
            let value = quote(pw.as_str());
            let s = GatewaySettings { password: Some(pw), ..f.settings };
            (
                GatewayFlow { phase: GatewayPhase::AwaitPasswordWrite, settings: s, ..f },
                GatewayAction::WriteValue { key: "password", value },
            )
        },
        (GatewayPhase::AwaitPassword, GatewayEvent::Password(Err(err))) => {
            let m = with_prefix("could not generate ws-server password: ", err.as_str());
            finish_exec(f, Some(m))
        },
        (GatewayPhase::AwaitPasswordWrite, GatewayEvent::Written(ok)) => {
            if ok {
                let (phase, a) = enable_cert_stage_exec(&f.settings, enabled);
                (GatewayFlow { phase, ..f }, a)
            } else {
                finish_exec(f, Some(owned("failed to save ws-server password to config.toml")))
            }
        },
        (GatewayPhase::AwaitCertificate, GatewayEvent::Certificate(Ok(fp))) => {
            let value = quote(fp.as_str());
            let s = GatewaySettings { fingerprint: Some(fp), ..f.settings };
            (
                GatewayFlow { phase: GatewayPhase::AwaitFingerprintWrite, settings: s, ..f },
                GatewayAction::WriteValue { key: "fingerprint", value },
            )
        },
        (GatewayPhase::AwaitCertificate, GatewayEvent::Certificate(Err(err))) => {
            let m = with_prefix("could not prepare ws-server TLS certificate: ", err.as_str());
            finish_exec(f, Some(m))
        },
        (GatewayPhase::AwaitFingerprintWrite, GatewayEvent::Written(ok)) => {
            if ok {
                let (phase, a) = enable_port_stage_exec(&f.settings, enabled);
                (GatewayFlow { phase, ..f }, a)
            } else {
                finish_exec(f, Some(owned("failed to save ws-server TLS fingerprint to config.toml")))
            }
        },
        (GatewayPhase::AwaitPortWrite, GatewayEvent::Written(ok)) => {
            if ok {
                let (phase, a) = enable_process_stage_exec(&f.settings, enabled);
                (GatewayFlow { phase, ..f }, a)
            } else {
                finish_exec(f, Some(owned("failed to save ws-server port to config.toml")))
            }
        },
        (GatewayPhase::AwaitProcess, GatewayEvent::Process(Err(err))) => {
            let m = with_prefix(if enabled { "ws-server start: " } else { "ws-server stop: " }, err.as_str());
            finish_exec(f, Some(m))
        },
        (GatewayPhase::AwaitProcess, GatewayEvent::Process(Ok(()))) => {
            let s = GatewaySettings { enabled, ..f.settings };
            (GatewayFlow { phase: GatewayPhase::AwaitEnabledWrite, settings: s, ..f }, GatewayAction::WriteEnabled(enabled))
        },
        (GatewayPhase::AwaitEnabledWrite, GatewayEvent::Written(ok)) => {
            if ok {
                finish_exec(f, None)
            } else {
                finish_exec(f, Some(owned("failed to save ws-server enabled state to config.toml")))
            }
        },
        _ => finish_exec(f, None),
    }
}

fn port_restart_exec(f: GatewayFlow) -> (r: (GatewayFlow, GatewayAction))
    ensures
        (r.0@, r.1@) == goto(f@, f@.settings, port_restart(f@.settings)),
{
    let a = GatewayAction::Restart { port: f.settings.port, password: f.settings.password.clone(), tls: f.settings.tls };
    (GatewayFlow { phase: GatewayPhase::AwaitProcess, ..f }, a)
}

fn resume_port_exec(f: GatewayFlow, e: GatewayEvent) -> (r: (GatewayFlow, GatewayAction))
    ensures
        (r.0@, r.1@) == resume_port(f@, e@),
{
    match (f.phase, e) {
        (GatewayPhase::AwaitPortWrite, GatewayEvent::Written(ok)) => {
            if !ok {
                finish_exec(f, Some(owned("failed to save ws-server port to config.toml")))
            } else if !f.settings.enabled {
                finish_exec(f, None)
            } else if f.settings.tls {
                (GatewayFlow { phase: GatewayPhase::AwaitCertificate, ..f }, GatewayAction::PrepareCertificate)
            } else {
                port_restart_exec(f)
            }
        },
        (GatewayPhase::AwaitCertificate, GatewayEvent::Certificate(Ok(fp))) => {
            let value = quote(fp.as_str());
            let s = GatewaySettings { fingerprint: Some(fp), ..f.settings };
            (
                GatewayFlow { phase: GatewayPhase::AwaitFingerprintWrite, settings: s, ..f },
                GatewayAction::WriteValue { key: "fingerprint", value },
            )
        },
        (GatewayPhase::AwaitCertificate, GatewayEvent::Certificate(Err(_))) => port_restart_exec(f),
        (GatewayPhase::AwaitFingerprintWrite, GatewayEvent::Written(_)) => port_restart_exec(f),
        (GatewayPhase::AwaitProcess, GatewayEvent::Process(Err(err))) => {
            let mut m = owned("ws-server restart on port ");
            let p = format_decimal(f.settings.port as u64);
            push_str(&mut m, p.as_str());
            push_str(&mut m, ": ");
            push_str(&mut m, err.as_str());
            finish_exec(f, Some(m))
        },
        _ => finish_exec(f, None),
    }
}

/// The next step of a flow, given how the step it waited on went (an
/// event that answers another step ends the flow).
pub fn resume(flow: GatewayFlow, event: GatewayEvent) -> (r: (GatewayFlow, GatewayAction))
    ensures
        (r.0@, r.1@) == spec_resume(flow@, event@),
{
    match flow.goal {
        GatewayGoal::Enable(enabled) => resume_enable_exec(flow, enabled, event),
        GatewayGoal::SetPort => resume_port_exec(flow, event),
    }
}

/// How far a flow has come: the steps of each flow in the order it takes
/// them.
pub open spec fn flow_rank(goal: GatewayGoal, phase: GatewayPhase) -> nat {
    match goal {
        GatewayGoal::Enable(_) => match phase {
            GatewayPhase::AwaitPassword => 0,
            GatewayPhase::AwaitPasswordWrite => 1,
            GatewayPhase::AwaitCertificate => 2,
            GatewayPhase::AwaitFingerprintWrite => 3,
            GatewayPhase::AwaitPortWrite => 4,
            GatewayPhase::AwaitProcess => 5,
            GatewayPhase::AwaitEnabledWrite => 6,
            GatewayPhase::Done => 7,
        },
        GatewayGoal::SetPort => match phase {
            GatewayPhase::AwaitPortWrite => 0,
            GatewayPhase::AwaitCertificate => 1,
            GatewayPhase::AwaitFingerprintWrite => 2,
            GatewayPhase::AwaitProcess => 3,
            _ => 7,
        },
    }
}

/// Every step moves a flow forward, the goal stays the same, and the flow
/// asks for `Finish` exactly when it is done: so a flow ends after at most
/// seven steps.
pub proof fn lemma_flow_progresses(f: FlowView, e: EventView)
    requires
        event_fits(f.phase, e),
        f.goal is SetPort ==> flow_rank(f.goal, f.phase) < 7,
    ensures
        spec_resume(f, e).0.goal == f.goal,
        flow_rank(f.goal, spec_resume(f, e).0.phase) > flow_rank(f.goal, f.phase),
        (spec_resume(f, e).1 is Finish) <==> (spec_resume(f, e).0.phase == GatewayPhase::Done),
{
}

/// The first step of either flow is no `Finish` unless the flow is done
/// already, and a port change starts with its write.
pub proof fn lemma_flow_begins(s: GatewayView, enabled: bool, port: u16)
    ensures
        (spec_begin_enable(s, enabled).1 is Finish) <==> (spec_begin_enable(s, enabled).0.phase == GatewayPhase::Done),
        spec_begin_enable(s, enabled).0.settings == s,
        spec_begin_port(s, port).0.settings.port == port,
        !(spec_begin_port(s, port).1 is Finish),
{
}

/// Turning the gateway on never starts it without a password.
pub proof fn lemma_enable_restarts_with_password(s: GatewayView, f: FlowView, e: EventView)
    requires
        f.goal == GatewayGoal::Enable(true),
    ensures
        spec_begin_enable(s, true).1 is Restart ==> spec_begin_enable(s, true).1->Restart_1 is Some,
        spec_resume(f, e).1 is Restart ==> spec_resume(f, e).1->Restart_1 is Some,
{
}

/// The on/off state the Settings screen shows changes only once starting
/// or stopping the gateway succeeded, and then to the state asked for.
pub proof fn lemma_enabled_changes_after_process(f: FlowView, e: EventView)
    ensures
        spec_resume(f, e).0.settings.enabled != f.settings.enabled ==> {
            &&& f.phase == GatewayPhase::AwaitProcess
            &&& e is Process && e->Process_0 is Ok
            &&& f.goal == GatewayGoal::Enable(spec_resume(f, e).0.settings.enabled)
        },
{
}

/// A flow carried on through a list of events: the flow and the action it
/// ends on, and how many events it took (it takes none once done).
pub open spec fn run_flow(f: FlowView, a: ActionView, es: Seq<EventView>) -> (FlowView, ActionView, nat)
    decreases es.len(),
{
    if es.len() == 0 || f.phase == GatewayPhase::Done {
        (f, a, 0)
    } else {
        let (f2, a2) = spec_resume(f, es[0]);
        let r = run_flow(f2, a2, es.drop_first());
        (r.0, r.1, r.2 + 1)
    }
}

/// Whether every event a flow takes answers the step it waits on.
pub open spec fn fits_run(f: FlowView, es: Seq<EventView>) -> bool
    decreases es.len(),
{
    es.len() == 0 || f.phase == GatewayPhase::Done || (event_fits(f.phase, es[0]) && fits_run(
        spec_resume(f, es[0]).0,
        es.drop_first(),
    ))
}

/// Whether a step failed.
pub open spec fn event_failed(e: EventView) -> bool {
    match e {
        EventView::Password(r) => r is Err,
        EventView::Certificate(r) => r is Err,
        EventView::Written(ok) => !ok,
        EventView::Process(r) => r is Err,
    }
}

/// Whether some step failed.
pub open spec fn any_failed(es: Seq<EventView>) -> bool
    decreases es.len(),
{
    es.len() > 0 && (event_failed(es[0]) || any_failed(es.drop_first()))
}

/// Whether starting or stopping the gateway succeeded at some step.
pub open spec fn process_succeeded(es: Seq<EventView>) -> bool
    decreases es.len(),
{
    es.len() > 0 && (es[0] matches EventView::Process(Ok(_)) || process_succeeded(es.drop_first()))
}

proof fn lemma_enable_run_from(f: FlowView, a: ActionView, es: Seq<EventView>, enabled: bool)
    requires
        f.goal == GatewayGoal::Enable(enabled),
        f.phase != GatewayPhase::Done,
        !(a is Finish),
        f.phase == GatewayPhase::AwaitEnabledWrite ==> f.settings.enabled == enabled,
        fits_run(f, es),
    ensures
        ({
            let (fe, ae, k) = run_flow(f, a, es);
            let used = es.take(k as int);
            &&& k <= es.len()
            &&& (fe.phase == GatewayPhase::Done <==> ae is Finish)
            &&& any_failed(used) ==> {
                &&& fe.phase == GatewayPhase::Done
                &&& ae matches ActionView::Finish(Some(_))
                &&& event_failed(es[k - 1])
                &&& !any_failed(es.take(k - 1))
            }
            &&& fe.settings.enabled != f.settings.enabled ==> fe.settings.enabled == enabled && process_succeeded(used)
            &&& fe.phase == GatewayPhase::AwaitEnabledWrite ==> fe.settings.enabled == enabled
            &&& ae matches ActionView::Finish(None) ==> !any_failed(used) && fe.settings.enabled == enabled
        }),
    decreases es.len(),
{
    if es.len() > 0 {
        let e = es[0];
        let (f2, a2) = spec_resume(f, e);
        lemma_flow_progresses(f, e);
        lemma_enabled_changes_after_process(f, e);
        let rest = es.drop_first();
        let r = run_flow(f2, a2, rest);
        let k = r.2 + 1;
        if f2.phase == GatewayPhase::Done {
            assert(r.2 == 0);
            assert(es.take(1) =~= seq![e]);
            assert(seq![e].drop_first() =~= Seq::<EventView>::empty());
            assert(es.take(0) =~= Seq::<EventView>::empty());
            assert(!any_failed(Seq::<EventView>::empty()));
            assert(!process_succeeded(Seq::<EventView>::empty()));
        } else {
            assert(!event_failed(e));
            lemma_enable_run_from(f2, a2, rest, enabled);
            let used = es.take(k as int);
            assert(used =~= seq![e] + rest.take(r.2 as int));
            assert(used.drop_first() =~= rest.take(r.2 as int));
            assert(used[0] == e);
            if f2.settings.enabled != f.settings.enabled {
                assert(e matches EventView::Process(Ok(_)));
            }
            if r.2 > 0 {
                assert(es[k - 1] == rest[r.2 - 1]);
                assert(es.take(k - 1).drop_first() =~= rest.take(r.2 - 1));
                assert(es.take(k - 1)[0] == e);
            }
        }
    }
}

/// Turning the gateway on or off, over a whole run of answered steps: a
/// failed step ends the flow at once with a message, so nothing is started,
/// stopped or written after it; the on/off state the screen shows changes
/// only if starting or stopping the gateway succeeded, and then to the
/// state asked for; a flow that ends without a message had no failed step
/// and shows the state asked for. (That the gateway is never started
/// without a password is `lemma_enable_restarts_with_password`, step by
/// step.)
pub proof fn lemma_enable_run(s: GatewayView, enabled: bool, es: Seq<EventView>)
    requires
        fits_run(spec_begin_enable(s, enabled).0, es),
    ensures
        ({
            let (f0, a0) = spec_begin_enable(s, enabled);
            let (fe, ae, k) = run_flow(f0, a0, es);
            let used = es.take(k as int);
            &&& (fe.phase == GatewayPhase::Done <==> ae is Finish)
            &&& any_failed(used) ==> {
                &&& fe.phase == GatewayPhase::Done
                &&& ae matches ActionView::Finish(Some(_))
                &&& event_failed(es[k - 1])
                &&& !any_failed(es.take(k - 1))
            }
            &&& fe.settings.enabled != s.enabled ==> fe.settings.enabled == enabled && process_succeeded(used)
            &&& ae matches ActionView::Finish(None) ==> !any_failed(used) && fe.settings.enabled == enabled
        }),
{
    let (f0, a0) = spec_begin_enable(s, enabled);
    lemma_flow_begins(s, enabled, 0);
    assert(f0.phase != GatewayPhase::Done);
    lemma_enable_run_from(f0, a0, es, enabled);
}

proof fn lemma_run_one(f: FlowView, a: ActionView, es: Seq<EventView>)
    requires
        es.len() > 0,
        f.phase != GatewayPhase::Done,
    ensures
        run_flow(f, a, es) == ({
            let (f2, a2) = spec_resume(f, es[0]);
            let r = run_flow(f2, a2, es.drop_first());
            (r.0, r.1, r.2 + 1)
        }),
{
}

/// A port change on a running gateway restarts it on the new port, with its
/// password and TLS setting, once the new port is saved: whatever happens
/// to the certificate, the flow asks for that restart within its first
/// three answered steps, before it could ask to finish.
pub proof fn lemma_port_change_restarts(s: GatewayView, port: u16, es: Seq<EventView>)
    requires
        s.enabled,
        fits_run(spec_begin_port(s, port).0, es),
        es.len() >= 3,
        es[0] == EventView::Written(true),
    ensures
        ({
            let (f0, a0) = spec_begin_port(s, port);
            exists|j: int| 1 <= j <= 3 && #[trigger] run_flow(f0, a0, es.take(j)).1 == ActionView::Restart(port, s.password, s.tls)
        }),
{
    let (f0, a0) = spec_begin_port(s, port);
    let (f1, a1) = spec_resume(f0, es[0]);
    let t1 = es.take(1);
    lemma_run_one(f0, a0, t1);
    assert(t1.drop_first().len() == 0);
    if !s.tls {
        assert(a1 == ActionView::Restart(port, s.password, s.tls));
        assert(run_flow(f0, a0, es.take(1)).1 == ActionView::Restart(port, s.password, s.tls));
    } else {
        assert(f1.phase == GatewayPhase::AwaitCertificate);
        let e1 = es[1];
        assert(es.drop_first()[0] == e1);
        assert(fits_run(f1, es.drop_first()));
        assert(event_fits(f1.phase, e1));
        let (f2, a2) = spec_resume(f1, e1);
        let t2 = es.take(2);
        lemma_run_one(f0, a0, t2);
        assert(t2.drop_first() =~= seq![e1]);
        lemma_run_one(f1, a1, seq![e1]);
        assert(seq![e1].drop_first().len() == 0);
        match e1 {
            EventView::Certificate(Err(_)) => {
                assert(a2 == ActionView::Restart(port, s.password, s.tls));
                assert(run_flow(f0, a0, es.take(2)).1 == ActionView::Restart(port, s.password, s.tls));
            },
            _ => {
                assert(f2.phase == GatewayPhase::AwaitFingerprintWrite);
                let e2 = es[2];
                assert(es.drop_first().drop_first()[0] == e2);
                assert(fits_run(f2, es.drop_first().drop_first()));
                assert(event_fits(f2.phase, e2));
                let (f3, a3) = spec_resume(f2, e2);
                assert(a3 == ActionView::Restart(port, s.password, s.tls));
                let t3 = es.take(3);
                lemma_run_one(f0, a0, t3);
                assert(t3.drop_first() =~= seq![e1, e2]);
                lemma_run_one(f1, a1, seq![e1, e2]);
                assert(seq![e1, e2].drop_first() =~= seq![e2]);
                lemma_run_one(f2, a2, seq![e2]);
                assert(seq![e2].drop_first().len() == 0);
                assert(run_flow(f0, a0, es.take(3)).1 == ActionView::Restart(port, s.password, s.tls));
            },
        }
    }
}

} // verus!
