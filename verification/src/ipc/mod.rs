//! Inter-process video sharing (Spout on Windows, Syphon on macOS): pixel
//! formats, errors, frames and the descriptions of discovered sources.
use vstd::prelude::*;
use vstd::string::StringExecFns;

pub mod spout;
pub mod syphon;
pub mod syphon_sys;

verus! {

/// Pixel layout of a CPU frame buffer.
#[derive(Debug, Clone, Copy, PartialEq, Eq, Structural)]
pub enum PixelFormat {
    /// 8-bit red, green, blue, alpha
    RGBA,
    /// 8-bit blue, green, red, alpha
    BGRA,
    /// Planar luma plus interleaved half-resolution chroma
    NV12,
    /// 8-bit red, green, blue
    RGB24,
    /// Packed 4:2:2 luma/chroma
    YUYV,
}

impl PixelFormat {
    /// Bytes a `width` x `height` frame takes in this format.
    pub open spec fn spec_buffer_size(self, width: u32, height: u32) -> nat {
        let px = width as nat * height as nat;
        match self {
            PixelFormat::RGBA => px * 4,
            PixelFormat::BGRA => px * 4,
            PixelFormat::RGB24 => px * 3,
            PixelFormat::YUYV => px * 2,
            PixelFormat::NV12 => px * 3 / 2,
        }
    }

    /// Bytes a `width` x `height` frame takes in this format.
    pub fn buffer_size(&self, width: u32, height: u32) -> (r: u128)
        ensures
            r as nat == self.spec_buffer_size(width, height),
    {
        let w: u128 = width as u128;
        let h: u128 = height as u128;
        assert(w * h <= 0xffff_ffff_ffff_ffff_ffff_ffff_ffffu128) by (nonlinear_arith)
            requires
                w <= 0xffff_ffffu128,
                h <= 0xffff_ffffu128,
        ;
        let px: u128 = w * h;
        match self {
            PixelFormat::RGBA => px * 4,
            PixelFormat::BGRA => px * 4,
            PixelFormat::RGB24 => px * 3,
            PixelFormat::YUYV => px * 2,
            PixelFormat::NV12 => px * 3 / 2,
        }
    }
}

/// Errors of the video sharing inputs and outputs.
#[derive(Debug, Clone)]
pub enum IpcError {
    /// The input is already connected to a source
    AlreadyConnected,
    /// The output has no server yet
    NotInitialized,
    /// GPU texture sharing is switched off or unavailable
    SharingNotAvailable,
    /// Dimensions that are zero or do not match the server
    InvalidDimensions { width: u32, height: u32 },
    /// Connecting to a source failed
    ConnectionFailed(String),
    /// An error reported by the platform
    NativeError(String),
}

/// Result of a video sharing operation.
pub type IpcResult<T> = Result<T, IpcError>;

/// A received frame held in CPU memory.
pub enum IpcFrame {
    CpuBuffer { data: Vec<u8>, format: PixelFormat, width: u32, height: u32 },
}

/// A video source found on this machine.
#[derive(Debug, Clone)]
pub struct IpcSourceInfo {
    /// Name of the source
    pub name: String,
    /// Application that publishes it
    pub app_name: String,
    /// Frame size, when known
    pub dimensions: Option<(u32, u32)>,
    /// Platform identifier of the source
    pub handle: String,
}

/// The plain values of a source description.
pub struct IpcSourceView {
    pub name: Seq<char>,
    pub app_name: Seq<char>,
    pub dimensions: Option<(u32, u32)>,
    pub handle: Seq<char>,
}

impl View for IpcSourceInfo {
    type V = IpcSourceView;

    open spec fn view(&self) -> IpcSourceView {
        IpcSourceView {
            name: self.name@,
            app_name: self.app_name@,
            dimensions: self.dimensions,
            handle: self.handle@,
        }
    }
}

impl IpcSourceInfo {
    /// The description of a server listed by a Syphon server directory: its
    /// name, owning application and identifier; the size is not known.
    pub fn from_server(name: String, app_name: String, uuid: String) -> (r: Self)
        ensures
            r@ == (IpcSourceView {
                name: name@,
                app_name: app_name@,
                dimensions: None,
                handle: uuid@,
            }),
    {
        IpcSourceInfo { name, app_name, dimensions: None, handle: uuid }
    }

    /// A field-by-field copy.
    pub fn duplicate(&self) -> (r: Self)
        ensures
            r@ == self@,
    {
        IpcSourceInfo {
            name: String::from_str(self.name.as_str()),
            app_name: String::from_str(self.app_name.as_str()),
            dimensions: self.dimensions,
            handle: String::from_str(self.handle.as_str()),
        }
    }
}

/// Copies of every source description in `sources`.
pub fn duplicate_sources(sources: &Vec<IpcSourceInfo>) -> (r: Vec<IpcSourceInfo>)
    ensures
        r@.len() == sources@.len(),
        forall|i: int| 0 <= i < sources@.len() ==> #[trigger] r@[i]@ == sources@[i]@,
{
    let mut out: Vec<IpcSourceInfo> = Vec::new();
    let mut i: usize = 0;
    while i < sources.len()
        invariant
            i <= sources@.len(),
            out@.len() == i,
            forall|j: int| 0 <= j < i ==> #[trigger] out@[j]@ == sources@[j]@,
        decreases sources@.len() - i,
    {
        out.push(sources[i].duplicate());
        i += 1;
    }
    out
}

/// Whether some source in `sources` is named `name`.
pub open spec fn has_source_named(sources: Seq<IpcSourceInfo>, name: Seq<char>) -> bool {
    exists|i: int| 0 <= i < sources.len() && #[trigger] sources[i].name@ == name
}

/// Whether some source in `sources` is named `name`.
pub fn any_source_named(sources: &Vec<IpcSourceInfo>, name: &str) -> (r: bool)
    ensures
        r == has_source_named(sources@, name@),
{
    let wanted = String::from_str(name);
    let mut i: usize = 0;
    while i < sources.len()
        invariant
            i <= sources@.len(),
            wanted@ == name@,
            forall|j: int| 0 <= j < i ==> #[trigger] sources@[j].name@ != name@,
        decreases sources@.len() - i,
    {
        if sources[i].name == wanted {
            return true;
        }
        i += 1;
    }
    false
}

} // verus!
