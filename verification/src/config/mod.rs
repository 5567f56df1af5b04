//! Application configuration: window, pipeline, input, NDI and control
//! settings, tab identifiers and resolution presets.
use vstd::prelude::*;
use vstd::string::StringExecFns;

pub mod layout;
pub mod resolution;

pub use layout::TabId;
pub use resolution::{ResolutionConfig, ResolutionPreset, ResolutionSettings};

verus! {

/// Window configuration.
#[derive(Debug, Clone)]
pub struct WindowConfig {
    /// Window width in pixels
    pub width: u32,
    /// Window height in pixels
    pub height: u32,
    /// X position (None for default)
    pub x: Option<i32>,
    /// Y position (None for default)
    pub y: Option<i32>,
    /// Window title
    pub title: String,
    /// Whether window is resizable
    pub resizable: bool,
    /// Whether window has decorations
    pub decorated: bool,
    /// Target frame rate
    pub fps: u32,
    /// Enable VSync
    pub vsync: bool,
}

/// Pipeline configuration.
#[derive(Debug, Clone, PartialEq, Eq, Structural)]
pub struct PipelineConfig {
    /// Internal processing resolution width
    pub internal_width: u32,
    /// Internal processing resolution height
    pub internal_height: u32,
    /// Maximum feedback delay frames
    pub max_delay_frames: usize,
    /// Enable temporal filtering
    pub temporal_filter: bool,
    /// Default mix mode (0=lerp, 1=add, 2=diff, 3=mult, 4=dodge)
    pub default_mix_mode: i32,
}

/// Input source configuration.
#[derive(Debug, Clone)]
pub struct InputConfig {
    /// Primary input device ID (webcam index)
    pub input1_device: i32,
    /// Secondary input device ID (webcam index)
    pub input2_device: i32,
    /// Input source type (0=None, 1=Webcam, 2=NDI, 3=Spout, 4=Video, 5=Test Pattern)
    pub input1_type: i32,
    pub input2_type: i32,
    /// NDI source names
    pub ndi_sources: Vec<String>,
    /// Input resolution
    pub input_width: u32,
    pub input_height: u32,
    /// Whether to auto-start webcams on startup
    pub auto_start_webcams: bool,
}

/// NDI output configuration.
#[derive(Debug, Clone, PartialEq, Eq, Structural)]
pub struct NdiConfig {
    /// Enable NDI output
    pub enabled: bool,
    /// NDI output width
    pub width: u32,
    /// NDI output height
    pub height: u32,
    /// Frame rate
    pub fps: u32,
}

/// Control interface configuration.
#[derive(Debug, Clone)]
pub struct ControlConfig {
    /// OSC receive port
    pub osc_receive_port: u16,
    /// OSC send port
    pub osc_send_port: u16,
    /// OSC send IP
    pub osc_send_ip: String,
    /// Enable OSC
    pub osc_enabled: bool,
    /// MIDI input device
    pub midi_device: Option<String>,
    /// Presets directory
    pub presets_dir: std::path::PathBuf,
}

impl WindowConfig {
    /// The output window's default: 1280x720 at (100, 100), fixed size,
    /// decorated, 60 frames per second with VSync.
    pub fn default_output() -> (r: Self)
        ensures
            r.width == 1280 && r.height == 720,
            r.x == Some(100i32) && r.y == Some(100i32),
            r.title@ == "RustJay Waaaves - Output"@,
            !r.resizable && r.decorated && r.fps == 60 && r.vsync,
    {
        WindowConfig {
            width: 1280,
            height: 720,
            x: Some(100),
            y: Some(100),
            title: String::from_str("RustJay Waaaves - Output"),
            resizable: false,
            decorated: true,
            fps: 60,
            vsync: true,
        }
    }

    /// The control window's default: 1920x1080 at the system's position,
    /// resizable, decorated, 30 frames per second with VSync.
    pub fn default_control() -> (r: Self)
        ensures
            r.width == 1920 && r.height == 1080,
            r.x is None && r.y is None,
            r.title@ == "RustJay Waaaves - Control"@,
            r.resizable && r.decorated && r.fps == 30 && r.vsync,
    {
        WindowConfig {
            width: 1920,
            height: 1080,
            x: None,
            y: None,
            title: String::from_str("RustJay Waaaves - Control"),
            resizable: true,
            decorated: true,
            fps: 30,
            vsync: true,
        }
    }
}

impl Default for PipelineConfig {
    fn default() -> (r: Self)
        ensures
            r == (PipelineConfig {
                internal_width: 1280,
                internal_height: 720,
                max_delay_frames: 120,
                temporal_filter: true,
                default_mix_mode: 0,
            }),
    {
        PipelineConfig {
            internal_width: 1280,
            internal_height: 720,
            max_delay_frames: 120,
            temporal_filter: true,
            default_mix_mode: 0,
        }
    }
}

impl Default for InputConfig {
    fn default() -> (r: Self)
        ensures
            r.input1_device == 0 && r.input2_device == 1,
            r.input1_type == 1 && r.input2_type == 0,
            r.ndi_sources@.len() == 0,
            r.input_width == 640 && r.input_height == 480,
            r.auto_start_webcams,
    {
        InputConfig {
            input1_device: 0,
            input2_device: 1,
            input1_type: 1,
            input2_type: 0,
            ndi_sources: Vec::new(),
            input_width: 640,
            input_height: 480,
            auto_start_webcams: true,
        }
    }
}

impl Default for NdiConfig {
    fn default() -> (r: Self)
        ensures
            r == (NdiConfig { enabled: false, width: 1280, height: 720, fps: 30 }),
    {
        NdiConfig { enabled: false, width: 1280, height: 720, fps: 30 }
    }
}

/// `std::path::PathBuf`, carried through the configuration unread.
#[verifier::external_type_specification]
#[verifier::external_body]
pub struct ExPathBuf(std::path::PathBuf);

/// `PathBuf::clone`, which the derived `Clone` of `ControlConfig` calls;
/// nothing is claimed of the copy it returns.
pub assume_specification[ <std::path::PathBuf as std::clone::Clone>::clone ](
    p: &std::path::PathBuf,
) -> std::path::PathBuf;

} // verus!
