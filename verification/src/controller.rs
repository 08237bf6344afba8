//! Daemon configuration and the commands that change it.
use vstd::prelude::*;

verus! {

/// Persisted daemon settings.
#[derive(Clone, Debug, PartialEq, Eq)]
pub struct DaemonConfig {
    pub idle_enabled: bool,
    pub idle_timeout_mins: u32,
    pub active_saver: Option<String>,
    pub show_fps_overlay: bool,
    /// Render savers on the GPU when one is available.
    pub gpu_enabled: bool,
    /// Stored render scale, as the bit pattern of an `f32`; `None` uses the default.
    pub render_scale_bits: Option<u32>,
}

/// A render-scale request as the caller classified the `f32` it received.
#[derive(Clone, Copy, Debug, PartialEq, Eq)]
pub enum RenderScaleRequest {
    /// No value, or a value `<= 0.0`: clear the stored scale.
    Clear,
    /// A finite value in `0.25..=1.0`, given by its bit pattern.
    InRange(u32),
    /// Any other value.
    OutOfRange,
}

/// What the saver registry said of a requested saver name.
#[derive(Clone, Copy, Debug, PartialEq, Eq)]
pub enum SaverCheck {
    /// The name is allowed and resolves to an installed saver.
    Valid,
    /// The name is not an allowed saver name.
    InvalidName,
    /// The name is allowed but no saver binary resolves for it.
    Unresolvable,
}

/// Commands sent to the daemon.
#[derive(Clone, Debug, PartialEq, Eq)]
pub enum DaemonCommand {
    Enable,
    Disable,
    SetTimeout(u32),
    SetSaver(Option<String>),
    SetShowFpsOverlay(bool),
    SetGpuEnabled(bool),
    SetRenderScale(RenderScaleRequest),
    Preview(String),
    StopPresentation,
}

/// A single change to the configuration.
#[derive(Clone, Debug, PartialEq, Eq)]
pub enum ConfigEdit {
    IdleEnabled(bool),
    IdleTimeout(u32),
    ActiveSaver(Option<String>),
    ShowFpsOverlay(bool),
    GpuEnabled(bool),
    RenderScale(Option<u32>),
}

/// Why a command was refused or not persisted.
#[derive(Clone, Copy, Debug, PartialEq, Eq)]
pub enum CommandError {
    /// The timeout is outside 1..=240 minutes.
    InvalidTimeout,
    /// The saver name is unknown or invalid.
    InvalidSaverName,
    /// No saver binary resolves for the name.
    SaverNotFound,
    /// The render scale is outside 0.25..=1.0.
    InvalidRenderScale,
    /// The changed configuration could not be saved.
    SaveFailed,
}

/// Shortest accepted idle timeout, in minutes.
pub const MIN_IDLE_TIMEOUT_MINS: u32 = 1;

/// Longest accepted idle timeout, in minutes.
pub const MAX_IDLE_TIMEOUT_MINS: u32 = 240;

/// The configuration after an edit.
pub open spec fn apply_edit(c: DaemonConfig, e: ConfigEdit) -> DaemonConfig {
    match e {
        ConfigEdit::IdleEnabled(b) => DaemonConfig { idle_enabled: b, ..c },
        ConfigEdit::IdleTimeout(m) => DaemonConfig { idle_timeout_mins: m, ..c },
        ConfigEdit::ActiveSaver(s) => DaemonConfig { active_saver: s, ..c },
        ConfigEdit::ShowFpsOverlay(b) => DaemonConfig { show_fps_overlay: b, ..c },
        ConfigEdit::GpuEnabled(b) => DaemonConfig { gpu_enabled: b, ..c },
        ConfigEdit::RenderScale(r) => DaemonConfig { render_scale_bits: r, ..c },
    }
}

/// Whether an idle timeout is accepted.
pub open spec fn timeout_valid(minutes: u32) -> bool {
    MIN_IDLE_TIMEOUT_MINS <= minutes <= MAX_IDLE_TIMEOUT_MINS
}

/// The stored render scale for a request, or why it is refused.
pub open spec fn render_scale_for(req: RenderScaleRequest) -> Result<Option<u32>, CommandError> {
    match req {
        RenderScaleRequest::Clear => Ok(None),
        RenderScaleRequest::InRange(bits) => Ok(Some(bits)),
        RenderScaleRequest::OutOfRange => Err(CommandError::InvalidRenderScale),
    }
}

/// Whether a saver choice is accepted: clearing it always is.
pub open spec fn saver_choice_result(has_name: bool, check: SaverCheck) -> Result<(), CommandError> {
    if !has_name {
        Ok(())
    } else {
        match check {
            SaverCheck::Valid => Ok(()),
            SaverCheck::InvalidName => Err(CommandError::InvalidSaverName),
            SaverCheck::Unresolvable => Err(CommandError::SaverNotFound),
        }
    }
}

/// The edit a command asks for (`None` for commands that change no setting), or why it is refused.
pub open spec fn command_edit(cmd: DaemonCommand, check: SaverCheck) -> Result<Option<ConfigEdit>, CommandError> {
    match cmd {
        DaemonCommand::Enable => Ok(Some(ConfigEdit::IdleEnabled(true))),
        DaemonCommand::Disable => Ok(Some(ConfigEdit::IdleEnabled(false))),
        DaemonCommand::SetTimeout(m) => if timeout_valid(m) {
            Ok(Some(ConfigEdit::IdleTimeout(m)))
        } else {
            Err(CommandError::InvalidTimeout)
        },
        DaemonCommand::SetSaver(name) => match saver_choice_result(name is Some, check) {
            Ok(_) => Ok(Some(ConfigEdit::ActiveSaver(name))),
            Err(e) => Err(e),
        },
        DaemonCommand::SetShowFpsOverlay(b) => Ok(Some(ConfigEdit::ShowFpsOverlay(b))),
        DaemonCommand::SetGpuEnabled(b) => Ok(Some(ConfigEdit::GpuEnabled(b))),
        DaemonCommand::SetRenderScale(req) => match render_scale_for(req) {
            Ok(stored) => Ok(Some(ConfigEdit::RenderScale(stored))),
            Err(e) => Err(e),
        },
        DaemonCommand::Preview(_) => Ok(None),
        DaemonCommand::StopPresentation => Ok(None),
    }
}

/// Accepts an idle timeout of 1 to 240 minutes.
pub fn validate_idle_timeout(minutes: u32) -> (r: Result<(), CommandError>)
    ensures
        r is Ok <==> timeout_valid(minutes),
        r is Err ==> r == Err::<(), CommandError>(CommandError::InvalidTimeout),
{
    if minutes == 0 || minutes > MAX_IDLE_TIMEOUT_MINS {
        return Err(CommandError::InvalidTimeout);
    }
    Ok(())
}

/// Accepts clearing the saver, or a saver whose check succeeded.
pub fn validate_saver_choice(saver: Option<&str>, check: SaverCheck) -> (r: Result<(), CommandError>)
    ensures
        r == saver_choice_result(saver is Some, check),
{
    if saver.is_some() {
        match check {
            SaverCheck::Valid => {},
            SaverCheck::InvalidName => return Err(CommandError::InvalidSaverName),
            SaverCheck::Unresolvable => return Err(CommandError::SaverNotFound),
        }
    }
    Ok(())
}

/// The render scale to store for a request.
pub fn normalize_render_scale(req: RenderScaleRequest) -> (r: Result<Option<u32>, CommandError>)
    ensures
        r == render_scale_for(req),
{
    match req {
        RenderScaleRequest::Clear => Ok(None),
        RenderScaleRequest::InRange(bits) => Ok(Some(bits)),
        RenderScaleRequest::OutOfRange => Err(CommandError::InvalidRenderScale),
    }
}

impl ConfigEdit {
    /// Applies this edit to `config`.
    pub fn apply(self, config: &mut DaemonConfig)
        ensures
            *final(config) == apply_edit(*old(config), self),
    {
        match self {
            ConfigEdit::IdleEnabled(b) => config.idle_enabled = b,
            ConfigEdit::IdleTimeout(m) => config.idle_timeout_mins = m,
            ConfigEdit::ActiveSaver(s) => config.active_saver = s,
            ConfigEdit::ShowFpsOverlay(b) => config.show_fps_overlay = b,
            ConfigEdit::GpuEnabled(b) => config.gpu_enabled = b,
            ConfigEdit::RenderScale(r) => config.render_scale_bits = r,
        }
    }
}

/// The daemon's configuration and whether its published status is stale.
#[derive(Clone, Debug)]
pub struct DaemonController {
    pub config: DaemonConfig,
    pub dirty: bool,
}

impl DaemonController {
    pub fn new(config: DaemonConfig) -> (c: Self)
        ensures
            c.config == config,
            !c.dirty,
    {
        DaemonController { config, dirty: false }
    }

    /// Flags the published status as stale.
    pub fn mark_dirty(&mut self)
        ensures
            final(self).dirty,
            final(self).config == old(self).config,
    {
        self.dirty = true;
    }

    /// Records `config` as the current configuration after the caller tried
    /// to save it. A successful save marks the status stale; a failed one
    /// keeps the change in memory and returns `SaveFailed`.
    pub fn mutate_config(&mut self, config: DaemonConfig, saved: bool) -> (r: Result<(), CommandError>)
        ensures
            final(self).config == config,
            final(self).dirty == (old(self).dirty || saved),
            r == if saved {
                Ok::<(), CommandError>(())
            } else {
                Err(CommandError::SaveFailed)
            },
    {
        self.config = config;
        if !saved {
            return Err(CommandError::SaveFailed);
        }
        self.mark_dirty();
        Ok(())
    }

    /// Validates a command and returns the configuration it asks to persist:
    /// `None` for commands that are not settings (`Preview`,
    /// `StopPresentation`), and an error for a refused command, in which
    /// case there is nothing to save. The controller itself is not changed;
    /// the caller saves the returned configuration and hands it, with the
    /// outcome of the save, to `mutate_config`. `saver_check` is what the
    /// saver registry said of the name in a `SetSaver` command and is not
    /// read for other commands.
    pub fn apply_command(&self, command: DaemonCommand, saver_check: SaverCheck) -> (r: Result<Option<DaemonConfig>, CommandError>)
        ensures
            match command_edit(command, saver_check) {
                Err(e) => r == Err::<Option<DaemonConfig>, CommandError>(e),
                Ok(None) => r == Ok::<Option<DaemonConfig>, CommandError>(None),
                Ok(Some(edit)) => r == Ok::<Option<DaemonConfig>, CommandError>(Some(apply_edit(self.config, edit))),
            },
    {
        let edit = match command {
            DaemonCommand::Enable => ConfigEdit::IdleEnabled(true),
            DaemonCommand::Disable => ConfigEdit::IdleEnabled(false),
            DaemonCommand::SetTimeout(minutes) => {
                validate_idle_timeout(minutes)?;
                ConfigEdit::IdleTimeout(minutes)
            },
            DaemonCommand::SetSaver(name) => {
                let checked = match &name {
                    Some(n) => validate_saver_choice(Some(n.as_str()), saver_check),
                    None => validate_saver_choice(None, saver_check),
                };
                if let Err(e) = checked {
                    return Err(e);
                }
                ConfigEdit::ActiveSaver(name)
            },
            DaemonCommand::SetShowFpsOverlay(enabled) => ConfigEdit::ShowFpsOverlay(enabled),
            DaemonCommand::SetGpuEnabled(enabled) => ConfigEdit::GpuEnabled(enabled),
            DaemonCommand::SetRenderScale(req) => {
                let stored = match normalize_render_scale(req) {
                    Ok(s) => s,
                    Err(e) => return Err(e),
                };
                ConfigEdit::RenderScale(stored)
            },
            DaemonCommand::Preview(_) | DaemonCommand::StopPresentation => return Ok(None),
        };
        let mut config = copy_config(&self.config);
        edit.apply(&mut config);
        Ok(Some(config))
    }
}

/// A copy of `c`.
pub fn copy_config(c: &DaemonConfig) -> (r: DaemonConfig)
    ensures
        r == *c,
{
    DaemonConfig {
        idle_enabled: c.idle_enabled,
        idle_timeout_mins: c.idle_timeout_mins,
        active_saver: match &c.active_saver {
            Some(s) => Some(s.clone()),
            None => None,
        },
        show_fps_overlay: c.show_fps_overlay,
        gpu_enabled: c.gpu_enabled,
        render_scale_bits: c.render_scale_bits,
    }
}

/// Applying the same edit twice is the same as applying it once.
pub proof fn lemma_edit_idempotent(c: DaemonConfig, e: ConfigEdit)
    ensures
        apply_edit(apply_edit(c, e), e) == apply_edit(c, e),
{
}

/// No accepted command puts the idle timeout outside 1..=240 minutes.
pub proof fn lemma_commands_keep_timeout_valid(c: DaemonConfig, cmd: DaemonCommand, check: SaverCheck)
    requires
        timeout_valid(c.idle_timeout_mins),
    ensures
        command_edit(cmd, check) matches Ok(Some(e)) ==> timeout_valid(apply_edit(c, e).idle_timeout_mins),
{
}

/// A saver that fails the registry check is never stored: the command is
/// refused with the matching error.
pub proof fn lemma_unchecked_saver_never_stored(name: String, check: SaverCheck)
    requires
        check != SaverCheck::Valid,
    ensures
        command_edit(DaemonCommand::SetSaver(Some(name)), check) == Err::<Option<ConfigEdit>, CommandError>(
            if check == SaverCheck::InvalidName {
                CommandError::InvalidSaverName
            } else {
                CommandError::SaverNotFound
            },
        ),
{
}

/// An edit changes only the setting it names.
pub proof fn lemma_edit_touches_one_setting(c: DaemonConfig, e: ConfigEdit)
    ensures
        !(e is IdleEnabled) ==> apply_edit(c, e).idle_enabled == c.idle_enabled,
        !(e is IdleTimeout) ==> apply_edit(c, e).idle_timeout_mins == c.idle_timeout_mins,
        !(e is ActiveSaver) ==> apply_edit(c, e).active_saver == c.active_saver,
        !(e is ShowFpsOverlay) ==> apply_edit(c, e).show_fps_overlay == c.show_fps_overlay,
        !(e is GpuEnabled) ==> apply_edit(c, e).gpu_enabled == c.gpu_enabled,
        !(e is RenderScale) ==> apply_edit(c, e).render_scale_bits == c.render_scale_bits,
{
}

/// Whether `cmd` is accepted and asks to persist exactly `expected` when the
/// configuration is `c`.
pub open spec fn yields_config(cmd: DaemonCommand, check: SaverCheck, c: DaemonConfig, expected: DaemonConfig) -> bool {
    match command_edit(cmd, check) {
        Ok(Some(e)) => apply_edit(c, e) == expected,
        _ => false,
    }
}

/// Whether `cmd` is refused with `err`.
pub open spec fn refused_with(cmd: DaemonCommand, check: SaverCheck, err: CommandError) -> bool {
    command_edit(cmd, check) == Err::<Option<ConfigEdit>, CommandError>(err)
}

/// Every accepted setting command yields the configuration with exactly
/// that setting changed to the requested value; only `Preview` and
/// `StopPresentation` yield nothing to save; and each refusal names its cause.
pub proof fn lemma_setting_commands_set_their_setting(
    c: DaemonConfig,
    b: bool,
    minutes: u32,
    name: Option<String>,
    bits: u32,
    preview: String,
    check: SaverCheck,
)
    ensures
        yields_config(DaemonCommand::Enable, check, c, (DaemonConfig { idle_enabled: true, ..c })),
        yields_config(DaemonCommand::Disable, check, c, (DaemonConfig { idle_enabled: false, ..c })),
        yields_config(DaemonCommand::SetShowFpsOverlay(b), check, c, (DaemonConfig { show_fps_overlay: b, ..c })),
        yields_config(DaemonCommand::SetGpuEnabled(b), check, c, (DaemonConfig { gpu_enabled: b, ..c })),
        1 <= minutes <= 240 ==> yields_config(
            DaemonCommand::SetTimeout(minutes),
            check,
            c,
            (DaemonConfig { idle_timeout_mins: minutes, ..c }),
        ),
        !(1 <= minutes <= 240) ==> refused_with(DaemonCommand::SetTimeout(minutes), check, CommandError::InvalidTimeout),
        (name is None || check == SaverCheck::Valid) ==> yields_config(
            DaemonCommand::SetSaver(name),
            check,
            c,
            (DaemonConfig { active_saver: name, ..c }),
        ),
        (name is Some && check == SaverCheck::InvalidName) ==> refused_with(
            DaemonCommand::SetSaver(name),
            check,
            CommandError::InvalidSaverName,
        ),
        (name is Some && check == SaverCheck::Unresolvable) ==> refused_with(
            DaemonCommand::SetSaver(name),
            check,
            CommandError::SaverNotFound,
        ),
        yields_config(
            DaemonCommand::SetRenderScale(RenderScaleRequest::Clear),
            check,
            c,
            (DaemonConfig { render_scale_bits: None, ..c }),
        ),
        yields_config(
            DaemonCommand::SetRenderScale(RenderScaleRequest::InRange(bits)),
            check,
            c,
            (DaemonConfig { render_scale_bits: Some(bits), ..c }),
        ),
        refused_with(
            DaemonCommand::SetRenderScale(RenderScaleRequest::OutOfRange),
            check,
            CommandError::InvalidRenderScale,
        ),
        command_edit(DaemonCommand::Preview(preview), check) == Ok::<Option<ConfigEdit>, CommandError>(None),
        command_edit(DaemonCommand::StopPresentation, check) == Ok::<Option<ConfigEdit>, CommandError>(None),
{
}

} // verus!
