use vstd::prelude::*;

verus! {

/// The font sizes the display service accepts.
#[derive(Debug, Clone, Copy, PartialEq, Eq, Structural)]
pub enum FontSize {
    F6x8,
    F6x12,
    F8x16,
    F12x16,
}

/// One abstract display instruction. Rendering a screen issues an ordered
/// sequence of these; executing them against the display service is the
/// caller's job.
#[derive(Debug, Clone, PartialEq, Eq)]
pub enum RenderCommand {
    /// Clear the display buffer.
    Clear,
    /// Write `text` at pixel position (`x`, `y`) in the given font.
    Write { x: i32, y: i32, text: String, font: FontSize },
    /// Flush the display buffer to the panel.
    Flush,
    /// Draw a monochrome bitmap of `width` by `height` pixels at (`x`, `y`).
    Draw { bytes: Vec<u8>, width: i32, height: i32, x: i32, y: i32 },
    /// Switch the display panel on or off.
    Power { on: bool },
}

/// The mathematical value of a [`RenderCommand`].
pub enum CommandV {
    Clear,
    Write { x: int, y: int, text: Seq<char>, font: FontSize },
    Flush,
    Draw { bytes: Seq<u8>, width: int, height: int, x: int, y: int },
    Power { on: bool },
}

impl View for RenderCommand {
    type V = CommandV;

    open spec fn view(&self) -> CommandV {
        match self {
            RenderCommand::Clear => CommandV::Clear,
            RenderCommand::Write { x, y, text, font } => CommandV::Write {
                x: *x as int,
                y: *y as int,
                text: text@,
                font: *font,
            },
            RenderCommand::Flush => CommandV::Flush,
            RenderCommand::Draw { bytes, width, height, x, y } => CommandV::Draw {
                bytes: bytes@,
                width: *width as int,
                height: *height as int,
                x: *x as int,
                y: *y as int,
            },
            RenderCommand::Power { on } => CommandV::Power { on: *on },
        }
    }
}

/// One step of a render plan: a display command, a network mode change, the
/// fixed settling delay before power-off, or the terminal operating-system
/// shutdown. The non-command steps are the only places where rendering acts
/// on anything but the display.
#[derive(Debug, Clone, PartialEq, Eq)]
pub enum PlanStep {
    Command(RenderCommand),
    /// Ask the network service to deploy the access point.
    ActivateAp,
    /// Ask the network service to activate the wireless client.
    ActivateClient,
    /// Wait a fixed settling delay so the message on screen becomes visible.
    Settle,
    /// Invoke the operating system's shutdown action.
    OsShutdown,
}

/// The mathematical value of a [`PlanStep`].
pub enum StepV {
    Command(CommandV),
    ActivateAp,
    ActivateClient,
    Settle,
    OsShutdown,
}

impl View for PlanStep {
    type V = StepV;

    open spec fn view(&self) -> StepV {
        match self {
            PlanStep::Command(c) => StepV::Command(c@),
            PlanStep::ActivateAp => StepV::ActivateAp,
            PlanStep::ActivateClient => StepV::ActivateClient,
            PlanStep::Settle => StepV::Settle,
            PlanStep::OsShutdown => StepV::OsShutdown,
        }
    }
}

/// The mathematical value of a whole render plan.
pub open spec fn steps_view(v: Vec<PlanStep>) -> Seq<StepV> {
    v@.map_values(|s: PlanStep| s@)
}

/// A `Write` step in the small font at the given position.
pub open spec fn spec_write6(x: int, y: int, text: Seq<char>) -> StepV {
    StepV::Command(CommandV::Write { x, y, text, font: FontSize::F6x8 })
}

/// Builds a `Write` step in the small font, the size every menu screen
/// uses.
pub fn write6(x: i32, y: i32, text: String) -> (s: PlanStep)
    ensures
        s@ == spec_write6(x as int, y as int, text@),
{
    PlanStep::Command(RenderCommand::Write { x, y, text, font: FontSize::F6x8 })
}

/// Builds a `Clear` step.
pub fn clear_step() -> (s: PlanStep)
    ensures
        s@ == StepV::Command(CommandV::Clear),
{
    PlanStep::Command(RenderCommand::Clear)
}

/// Builds a `Flush` step.
pub fn flush_step() -> (s: PlanStep)
    ensures
        s@ == StepV::Command(CommandV::Flush),
{
    PlanStep::Command(RenderCommand::Flush)
}

/// Builds a `Power` step.
pub fn power_step(on: bool) -> (s: PlanStep)
    ensures
        s@ == StepV::Command(CommandV::Power { on }),
{
    PlanStep::Command(RenderCommand::Power { on })
}

/// Whether a plan invokes the operating system's shutdown action.
pub open spec fn has_os_shutdown(p: Seq<StepV>) -> bool {
    exists|i: int| 0 <= i < p.len() && p[i] == StepV::OsShutdown
}

/// The text standing at a display row after a plan runs, starting from the
/// row texts `rows`: each `Write` at the left edge replaces its row's text.
/// This models what the selection-marker screens leave on the panel.
pub open spec fn apply_writes(rows: Map<int, Seq<char>>, p: Seq<StepV>) -> Map<int, Seq<char>>
    decreases p.len(),
{
    if p.len() == 0 {
        rows
    } else {
        let prefix = apply_writes(rows, p.drop_last());
        match p.last() {
            StepV::Command(c) => match c {
                CommandV::Write { x, y, text, .. } => if x == 0 {
                    prefix.insert(y, text)
                } else {
                    prefix
                },
                _ => prefix,
            },
            _ => prefix,
        }
    }
}

} // verus!
