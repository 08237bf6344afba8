//! The daemon's presentation policy: on every main-loop tick, given what the
//! session looks like, decide whether to start a saver, stop the running
//! one, or leave things alone. The caller performs the decision.
use crate::controller::DaemonCommand;
use vstd::prelude::*;

verus! {

/// What the main loop observed this tick.
#[derive(Clone, Copy, Debug, PartialEq, Eq)]
pub struct TickInputs {
    /// A presentation is currently running.
    pub presentation_active: bool,
    /// The overlay surface is still shown.
    pub overlay_visible: bool,
    /// The session is locked.
    pub session_locked: bool,
    /// Some client inhibits the screensaver.
    pub inhibited: bool,
    /// The compositor reports the user idle.
    pub system_idle: bool,
    /// Idle activation is enabled in the configuration.
    pub idle_enabled: bool,
}

/// What to do with the presentation after any forced stop.
#[derive(Clone, Debug, PartialEq, Eq)]
pub enum PresentationAction {
    /// Leave the presentation as it is.
    Keep,
    /// Stop the running presentation.
    Stop,
    /// Start a preview of the named saver.
    StartPreview(String),
    /// Start the configured idle saver.
    StartIdle,
}

/// Decision for one tick.
#[derive(Clone, Debug, PartialEq, Eq)]
pub struct TickDecision {
    /// The overlay vanished under a running presentation: stop it first.
    pub stop_hidden: bool,
    /// What to do next.
    pub action: PresentationAction,
    /// The requested preview after this tick.
    pub preview: Option<String>,
}

/// How the main loop handles a queued command.
#[derive(Clone, Debug, PartialEq, Eq)]
pub enum LoopCommand {
    /// Remember a preview request.
    SetPreview(String),
    /// Forget any preview and stop the presentation.
    StopPreview,
    /// Persist a new timeout and hand it to the idle monitor.
    ApplyAndRetime(u32),
    /// Persist a settings change.
    Apply(DaemonCommand),
}

/// The policy, as a function of the requested preview and the observations.
pub open spec fn tick_decision(preview: Option<String>, t: TickInputs) -> TickDecision {
    let stop_hidden = t.presentation_active && !t.overlay_visible;
    let active = t.presentation_active && !stop_hidden;
    let preview = if stop_hidden {
        None
    } else {
        preview
    };
    if t.session_locked || t.inhibited {
        TickDecision {
            stop_hidden,
            action: if active {
                PresentationAction::Stop
            } else {
                PresentationAction::Keep
            },
            preview: None,
        }
    } else if preview is Some {
        TickDecision {
            stop_hidden,
            action: if !active {
                PresentationAction::StartPreview(preview->Some_0)
            } else {
                PresentationAction::Keep
            },
            preview,
        }
    } else if t.idle_enabled && t.system_idle && !active {
        TickDecision { stop_hidden, action: PresentationAction::StartIdle, preview }
    } else if active && !t.system_idle {
        TickDecision { stop_hidden, action: PresentationAction::Stop, preview }
    } else if !t.idle_enabled && active {
        TickDecision { stop_hidden, action: PresentationAction::Stop, preview }
    } else {
        TickDecision { stop_hidden, action: PresentationAction::Keep, preview }
    }
}

/// Whether a presentation runs after the tick, assuming that requested starts succeed.
pub open spec fn active_after(d: TickDecision, t: TickInputs) -> bool {
    match d.action {
        PresentationAction::Keep => t.presentation_active && !d.stop_hidden,
        PresentationAction::Stop => false,
        PresentationAction::StartPreview(_) => true,
        PresentationAction::StartIdle => true,
    }
}

/// Decides what the main loop does with the presentation this tick.
pub fn decide_tick(preview: Option<String>, t: TickInputs) -> (d: TickDecision)
    ensures
        d == tick_decision(preview, t),
{
    let stop_hidden = t.presentation_active && !t.overlay_visible;
    let active = t.presentation_active && !stop_hidden;
    let preview = if stop_hidden {
        None
    } else {
        preview
    };
    if t.session_locked || t.inhibited {
        TickDecision {
            stop_hidden,
            action: if active {
                PresentationAction::Stop
            } else {
                PresentationAction::Keep
            },
            preview: None,
        }
    } else if let Some(name) = preview {
        let action = if !active {
            PresentationAction::StartPreview(name.clone())
        } else {
            PresentationAction::Keep
        };
        TickDecision { stop_hidden, action, preview: Some(name) }
    } else if t.idle_enabled && t.system_idle && !active {
        TickDecision { stop_hidden, action: PresentationAction::StartIdle, preview: None }
    } else if active && !t.system_idle {
        TickDecision { stop_hidden, action: PresentationAction::Stop, preview: None }
    } else if !t.idle_enabled && active {
        TickDecision { stop_hidden, action: PresentationAction::Stop, preview: None }
    } else {
        TickDecision { stop_hidden, action: PresentationAction::Keep, preview: None }
    }
}

/// Routes a queued command in the main loop.
pub fn route_command(command: DaemonCommand) -> (r: LoopCommand)
    ensures
        match command {
            DaemonCommand::Preview(name) => r == LoopCommand::SetPreview(name),
            DaemonCommand::StopPresentation => r == LoopCommand::StopPreview,
            DaemonCommand::SetTimeout(m) => r == LoopCommand::ApplyAndRetime(m),
            _ => r == LoopCommand::Apply(command),
        },
{
    match command {
        DaemonCommand::Preview(name) => LoopCommand::SetPreview(name),
        DaemonCommand::StopPresentation => LoopCommand::StopPreview,
        DaemonCommand::SetTimeout(m) => LoopCommand::ApplyAndRetime(m),
        other => LoopCommand::Apply(other),
    }
}

/// Whether the daemon should exit because the pid file names another live daemon.
pub fn defer_to_running_daemon(recorded_pid: Option<i32>, recorded_alive: bool, own_pid: u32) -> (r: bool)
    ensures
        r == (recorded_pid matches Some(p) && recorded_alive && p != own_pid as i32),
{
    match recorded_pid {
        Some(pid) => recorded_alive && pid != own_pid as i32,
        None => false,
    }
}

/// A locked or inhibited session never gets a presentation: nothing starts,
/// a running one is stopped, and a pending preview is dropped.
pub proof fn lemma_locked_or_inhibited_never_presents(preview: Option<String>, t: TickInputs)
    requires
        t.session_locked || t.inhibited,
    ensures
        !active_after(tick_decision(preview, t), t),
        tick_decision(preview, t).preview is None,
        !(tick_decision(preview, t).action is StartPreview),
        !(tick_decision(preview, t).action is StartIdle),
{
}

/// A presentation runs after a tick only if the session is neither locked
/// nor inhibited, and either a preview is requested or idle activation is
/// enabled and the user is idle.
pub proof fn lemma_presentation_only_when_wanted(preview: Option<String>, t: TickInputs)
    ensures
        active_after(tick_decision(preview, t), t) ==> {
            &&& !t.session_locked
            &&& !t.inhibited
            &&& (tick_decision(preview, t).preview is Some || (t.idle_enabled && t.system_idle))
        },
{
}

/// A presentation is started only when none is running.
pub proof fn lemma_start_only_when_inactive(preview: Option<String>, t: TickInputs)
    ensures
        ({
            let d = tick_decision(preview, t);
            (d.action is StartPreview || d.action is StartIdle) ==> !(t.presentation_active && !d.stop_hidden)
        }),
{
}

/// A requested preview wins over idle activation and starts when the session allows it.
pub proof fn lemma_preview_takes_priority(name: String, t: TickInputs)
    requires
        !t.session_locked,
        !t.inhibited,
        !t.presentation_active,
    ensures
        tick_decision(Some(name), t).action == PresentationAction::StartPreview(name),
        tick_decision(Some(name), t).preview == Some(name),
{
}

/// With no preview, an enabled, idle, unlocked and uninhibited session with
/// nothing running starts the idle saver.
pub proof fn lemma_idle_starts_saver(t: TickInputs)
    requires
        !t.session_locked,
        !t.inhibited,
        !t.presentation_active,
        t.idle_enabled,
        t.system_idle,
    ensures
        tick_decision(None, t).action == PresentationAction::StartIdle,
{
}

/// User activity ends an idle presentation.
pub proof fn lemma_activity_stops_idle_presentation(t: TickInputs)
    requires
        t.presentation_active,
        !t.system_idle,
    ensures
        !active_after(tick_decision(None, t), t),
{
}

/// The overlay vanishing under a running presentation is what forces a stop
/// first, and such a stop drops the requested preview: nothing is then
/// stopped again, and no preview is started on that tick.
pub proof fn lemma_hidden_overlay_stops_and_drops_preview(preview: Option<String>, t: TickInputs)
    ensures
        tick_decision(preview, t).stop_hidden == (t.presentation_active && !t.overlay_visible),
        tick_decision(preview, t).stop_hidden ==> {
            &&& tick_decision(preview, t).preview is None
            &&& !(tick_decision(preview, t).action is Stop)
            &&& !(tick_decision(preview, t).action is StartPreview)
        },
{
}

/// With a preview requested, a session that allows it and the overlay still
/// shown (or nothing running), the preview is kept: a running presentation
/// keeps running whatever the user does, and one is started when none runs.
pub proof fn lemma_requested_preview_runs(name: String, t: TickInputs)
    requires
        !t.session_locked,
        !t.inhibited,
        !(t.presentation_active && !t.overlay_visible),
    ensures
        tick_decision(Some(name), t).preview == Some(name),
        !tick_decision(Some(name), t).stop_hidden,
        t.presentation_active ==> tick_decision(Some(name), t).action == PresentationAction::Keep,
        !t.presentation_active ==> tick_decision(Some(name), t).action == PresentationAction::StartPreview(name),
        active_after(tick_decision(Some(name), t), t),
{
}

/// Without a preview, in a session that allows presentations, the idle saver
/// starts exactly when activation is enabled, the user is idle and nothing
/// runs; a running one stops exactly when the user is active or activation is
/// disabled; otherwise nothing changes. The preview stays unset.
pub proof fn lemma_idle_policy(t: TickInputs)
    requires
        !t.session_locked,
        !t.inhibited,
    ensures
        ({
            let d = tick_decision(None, t);
            let running = t.presentation_active && t.overlay_visible;
            &&& d.preview is None
            &&& (d.action is StartIdle) == (t.idle_enabled && t.system_idle && !running)
            &&& (d.action is Stop) == (running && (!t.system_idle || !t.idle_enabled))
            &&& !(d.action is StartPreview)
            &&& (d.action is Keep) == (!(t.idle_enabled && t.system_idle && !running) && !(running && (!t.system_idle
                || !t.idle_enabled)))
        }),
{
}

/// In a locked or inhibited session a presentation still running after any
/// forced stop is stopped, and otherwise nothing happens.
pub proof fn lemma_locked_or_inhibited_action(preview: Option<String>, t: TickInputs)
    requires
        t.session_locked || t.inhibited,
    ensures
        tick_decision(preview, t).action == (if t.presentation_active && t.overlay_visible {
            PresentationAction::Stop
        } else {
            PresentationAction::Keep
        }),
{
}

} // verus!
