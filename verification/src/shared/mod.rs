//! Shared enums used between the control window and the engine.
use vstd::prelude::*;

pub mod lfo_engine;

verus! {

/// Preview source selection.
#[derive(Debug, Clone, Copy, PartialEq, Eq, Structural)]
pub enum PreviewSource {
    Block1,
    Block2,
    /// Final output
    Block3,
    Input1,
    Input2,
}

impl PreviewSource {
    /// Display name of a preview source.
    pub open spec fn spec_display_name(self) -> Seq<char> {
        match self {
            PreviewSource::Block1 => "Block 1"@,
            PreviewSource::Block2 => "Block 2"@,
            PreviewSource::Block3 => "Block 3 (Final)"@,
            PreviewSource::Input1 => "Input 1"@,
            PreviewSource::Input2 => "Input 2"@,
        }
    }

    /// Get the display name.
    pub fn display_name(&self) -> (r: &'static str)
        ensures
            r@ == self.spec_display_name(),
    {
        match self {
            PreviewSource::Block1 => "Block 1",
            PreviewSource::Block2 => "Block 2",
            PreviewSource::Block3 => "Block 3 (Final)",
            PreviewSource::Input1 => "Input 1",
            PreviewSource::Input2 => "Input 2",
        }
    }
}

impl Default for PreviewSource {
    fn default() -> (r: Self)
        ensures
            r == PreviewSource::Block1,
    {
        PreviewSource::Block1
    }
}

/// Input change request sent from the control window to the engine.
#[derive(Debug, Clone, Copy, PartialEq, Eq, Structural)]
pub enum InputChangeRequest {
    /// No change requested
    NoChange,
    StartWebcam { input_id: u8, device_index: usize, width: u32, height: u32, fps: u32 },
    StopInput { input_id: u8 },
}

/// Audio change request sent from the control window to the engine.
#[derive(Debug, Clone, Copy, PartialEq, Eq, Structural)]
pub enum AudioChangeRequest {
    /// No change requested
    NoChange,
    ChangeDevice { device_index: i32 },
}

/// Debug visualization modes for Block 1.
#[derive(Debug, Clone, Copy, PartialEq, Eq, Structural)]
pub enum Block1DebugView {
    /// Normal final output
    Normal,
    /// Stage 1: input sampling output
    Stage1Input,
    /// Stage 2: effects output (if enabled)
    Stage2Effects,
    /// Stage 3: mixing output
    Stage3Mix,
    /// Feedback buffer contents
    FeedbackBuffer,
}

impl Default for Block1DebugView {
    fn default() -> (r: Self)
        ensures
            r == Block1DebugView::Normal,
    {
        Block1DebugView::Normal
    }
}

/// Output display mode: which block to show.
#[derive(Debug, Clone, Copy, PartialEq, Eq, Structural)]
pub enum OutputMode {
    Block1,
    Block2,
    Block3,
    PreviewInput1,
    PreviewInput2,
}

impl Default for OutputMode {
    fn default() -> (r: Self)
        ensures
            r == OutputMode::Block3,
    {
        OutputMode::Block3
    }
}

} // verus!
