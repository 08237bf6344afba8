use idlescreen::controller::{
    CommandError, DaemonCommand, DaemonConfig, DaemonController, RenderScaleRequest, SaverCheck,
    normalize_render_scale, validate_idle_timeout, validate_saver_choice,
};
use idlescreen::presentation::{
    decide_tick, defer_to_running_daemon, route_command, LoopCommand, PresentationAction, TickInputs,
};

fn config() -> DaemonConfig {
    DaemonConfig {
        idle_enabled: true,
        idle_timeout_mins: 10,
        active_saver: None,
        show_fps_overlay: false,
        gpu_enabled: true,
        render_scale_bits: None,
    }
}

#[test]
fn idle_timeout_bounds() {
    assert_eq!(validate_idle_timeout(0), Err(CommandError::InvalidTimeout));
    assert_eq!(validate_idle_timeout(1), Ok(()));
    assert_eq!(validate_idle_timeout(240), Ok(()));
    assert_eq!(validate_idle_timeout(241), Err(CommandError::InvalidTimeout));
}

#[test]
fn saver_choice_and_render_scale() {
    assert_eq!(validate_saver_choice(None, SaverCheck::InvalidName), Ok(()));
    assert_eq!(validate_saver_choice(Some("beams"), SaverCheck::Valid), Ok(()));
    assert_eq!(validate_saver_choice(Some("../x"), SaverCheck::InvalidName), Err(CommandError::InvalidSaverName));
    assert_eq!(validate_saver_choice(Some("gone"), SaverCheck::Unresolvable), Err(CommandError::SaverNotFound));
    assert_eq!(normalize_render_scale(RenderScaleRequest::Clear), Ok(None));
    assert_eq!(normalize_render_scale(RenderScaleRequest::InRange(0.5f32.to_bits())), Ok(Some(0.5f32.to_bits())));
    assert_eq!(normalize_render_scale(RenderScaleRequest::OutOfRange), Err(CommandError::InvalidRenderScale));
}

/// Runs a command the way the daemon does: plan, save what is planned, record.
fn run(ctl: &mut DaemonController, cmd: DaemonCommand, check: SaverCheck, saves: &mut Vec<DaemonConfig>, ok: bool) -> Result<(), CommandError> {
    match ctl.apply_command(cmd, check)? {
        None => Ok(()),
        Some(c) => {
            saves.push(c.clone());
            ctl.mutate_config(c, ok)
        }
    }
}

#[test]
fn apply_command_persists_and_marks_dirty() {
    let mut ctl = DaemonController::new(config());
    let mut saves = Vec::new();
    assert_eq!(run(&mut ctl, DaemonCommand::SetTimeout(30), SaverCheck::Valid, &mut saves, true), Ok(()));
    assert_eq!(saves.len(), 1);
    assert_eq!(saves[0].idle_timeout_mins, 30);
    assert_eq!(ctl.config.idle_timeout_mins, 30);
    assert!(ctl.dirty);
    assert_eq!(run(&mut ctl, DaemonCommand::Disable, SaverCheck::Valid, &mut saves, true), Ok(()));
    assert!(!ctl.config.idle_enabled);
    assert_eq!(
        run(&mut ctl, DaemonCommand::SetSaver(Some("beams".to_string())), SaverCheck::Valid, &mut saves, true),
        Ok(())
    );
    assert_eq!(ctl.config.active_saver.as_deref(), Some("beams"));
    assert_eq!(
        run(&mut ctl, DaemonCommand::SetRenderScale(RenderScaleRequest::InRange(0.5f32.to_bits())), SaverCheck::Valid, &mut saves, true),
        Ok(())
    );
    assert_eq!(ctl.config.render_scale_bits, Some(0.5f32.to_bits()));
    assert_eq!(run(&mut ctl, DaemonCommand::SetShowFpsOverlay(true), SaverCheck::Valid, &mut saves, true), Ok(()));
    assert!(ctl.config.show_fps_overlay);
    assert_eq!(run(&mut ctl, DaemonCommand::SetGpuEnabled(false), SaverCheck::Valid, &mut saves, true), Ok(()));
    assert!(!ctl.config.gpu_enabled);
    assert_eq!(saves.len(), 6);
}

#[test]
fn apply_command_plans_without_changing_the_controller() {
    let ctl = DaemonController::new(config());
    let planned = ctl.apply_command(DaemonCommand::Enable, SaverCheck::Valid).unwrap().unwrap();
    assert_eq!(planned, config());
    let planned = ctl.apply_command(DaemonCommand::SetTimeout(5), SaverCheck::Valid).unwrap().unwrap();
    assert_eq!(planned.idle_timeout_mins, 5);
    assert_eq!(ctl.config, config());
    assert!(!ctl.dirty);
}

#[test]
fn refused_commands_change_and_save_nothing() {
    let mut ctl = DaemonController::new(config());
    let mut saves = Vec::new();
    assert_eq!(run(&mut ctl, DaemonCommand::SetTimeout(0), SaverCheck::Valid, &mut saves, true), Err(CommandError::InvalidTimeout));
    assert_eq!(run(&mut ctl, DaemonCommand::SetTimeout(241), SaverCheck::Valid, &mut saves, true), Err(CommandError::InvalidTimeout));
    assert_eq!(
        run(&mut ctl, DaemonCommand::SetSaver(Some("nope".to_string())), SaverCheck::InvalidName, &mut saves, true),
        Err(CommandError::InvalidSaverName)
    );
    assert_eq!(
        run(&mut ctl, DaemonCommand::SetSaver(Some("gone".to_string())), SaverCheck::Unresolvable, &mut saves, true),
        Err(CommandError::SaverNotFound)
    );
    assert_eq!(
        run(&mut ctl, DaemonCommand::SetRenderScale(RenderScaleRequest::OutOfRange), SaverCheck::Valid, &mut saves, true),
        Err(CommandError::InvalidRenderScale)
    );
    assert_eq!(run(&mut ctl, DaemonCommand::Preview("beams".to_string()), SaverCheck::Valid, &mut saves, true), Ok(()));
    assert_eq!(run(&mut ctl, DaemonCommand::StopPresentation, SaverCheck::Valid, &mut saves, true), Ok(()));
    assert!(saves.is_empty());
    assert_eq!(ctl.config, config());
    assert!(!ctl.dirty);
    assert_eq!(ctl.apply_command(DaemonCommand::Preview("x".to_string()), SaverCheck::Valid), Ok(None));
}

#[test]
fn failed_save_keeps_change_but_not_dirty() {
    let mut ctl = DaemonController::new(config());
    let changed = DaemonConfig { idle_timeout_mins: 5, ..config() };
    assert_eq!(ctl.mutate_config(changed.clone(), false), Err(CommandError::SaveFailed));
    assert_eq!(ctl.config.idle_timeout_mins, 5);
    assert!(!ctl.dirty);
    assert_eq!(ctl.mutate_config(changed, true), Ok(()));
    assert!(ctl.dirty);
}

fn inputs() -> TickInputs {
    TickInputs {
        presentation_active: false,
        overlay_visible: false,
        session_locked: false,
        inhibited: false,
        system_idle: false,
        idle_enabled: true,
    }
}

#[test]
fn idle_session_starts_saver_and_activity_stops_it() {
    let d = decide_tick(None, TickInputs { system_idle: true, ..inputs() });
    assert_eq!(d.action, PresentationAction::StartIdle);
    assert!(!d.stop_hidden);
    let d = decide_tick(None, TickInputs { presentation_active: true, overlay_visible: true, ..inputs() });
    assert_eq!(d.action, PresentationAction::Stop);
    let d = decide_tick(None, TickInputs { presentation_active: true, overlay_visible: true, system_idle: true, ..inputs() });
    assert_eq!(d.action, PresentationAction::Keep);
    let d = decide_tick(
        None,
        TickInputs { presentation_active: true, overlay_visible: true, system_idle: true, idle_enabled: false, ..inputs() },
    );
    assert_eq!(d.action, PresentationAction::Stop);
}

#[test]
fn lock_and_inhibit_win_over_everything() {
    let d = decide_tick(Some("beams".to_string()), TickInputs { session_locked: true, system_idle: true, ..inputs() });
    assert_eq!(d.action, PresentationAction::Keep);
    assert_eq!(d.preview, None);
    let d = decide_tick(
        None,
        TickInputs { presentation_active: true, overlay_visible: true, inhibited: true, system_idle: true, ..inputs() },
    );
    assert_eq!(d.action, PresentationAction::Stop);
}

#[test]
fn preview_starts_and_hidden_overlay_drops_it() {
    let d = decide_tick(Some("beams".to_string()), inputs());
    assert_eq!(d.action, PresentationAction::StartPreview("beams".to_string()));
    assert_eq!(d.preview, Some("beams".to_string()));
    let d = decide_tick(Some("beams".to_string()), TickInputs { presentation_active: true, ..inputs() });
    assert!(d.stop_hidden);
    assert_eq!(d.preview, None);
    assert_eq!(d.action, PresentationAction::Keep);
}

#[test]
fn main_loop_routes_commands() {
    assert_eq!(route_command(DaemonCommand::Preview("x".to_string())), LoopCommand::SetPreview("x".to_string()));
    assert_eq!(route_command(DaemonCommand::StopPresentation), LoopCommand::StopPreview);
    assert_eq!(route_command(DaemonCommand::SetTimeout(7)), LoopCommand::ApplyAndRetime(7));
    assert_eq!(route_command(DaemonCommand::Enable), LoopCommand::Apply(DaemonCommand::Enable));
    assert_eq!(route_command(DaemonCommand::SetGpuEnabled(true)), LoopCommand::Apply(DaemonCommand::SetGpuEnabled(true)));
}

#[test]
fn pid_file_check() {
    assert!(defer_to_running_daemon(Some(42), true, 7));
    assert!(!defer_to_running_daemon(Some(42), false, 7));
    assert!(!defer_to_running_daemon(Some(7), true, 7));
    assert!(!defer_to_running_daemon(None, true, 7));
}
