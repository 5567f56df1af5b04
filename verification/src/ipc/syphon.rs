//! Syphon video sharing (macOS): the state of an input connected to a
//! Syphon server, of an output publishing as one, and the list of servers
//! last found. The framework calls themselves are made by the caller, which
//! hands their outcomes in.
use vstd::prelude::*;
use vstd::string::StringExecFns;
use super::spout::{buffer_too_small_message, opt_as_str, opt_view};
use super::{
    any_source_named, duplicate_sources, has_source_named, IpcError, IpcFrame, IpcResult,
    IpcSourceInfo, PixelFormat,
};
use crate::text::append_decimal;

verus! {

/// Syphon source discovery.
pub struct SyphonDiscovery {
    /// Last discovered sources
    pub sources: Vec<IpcSourceInfo>,
}

impl SyphonDiscovery {
    /// Create a new Syphon discovery, with no sources.
    pub fn new() -> (r: Self)
        ensures
            r.sources@.len() == 0,
    {
        SyphonDiscovery { sources: Vec::new() }
    }

    /// Replace the server list with the servers a directory listing just
    /// found.
    pub fn refresh(&mut self, discovered: Vec<IpcSourceInfo>)
        ensures
            final(self).sources@ == discovered@,
    {
        self.sources = discovered;
    }

    /// Replace the server list with the servers just found, and return a
    /// copy of it.
    pub fn discover_sources(&mut self, timeout_ms: u32, discovered: Vec<IpcSourceInfo>) -> (r: Vec<
        IpcSourceInfo,
    >)
        ensures
            final(self).sources@ == discovered@,
            r@.len() == discovered@.len(),
            forall|i: int| 0 <= i < discovered@.len() ==> #[trigger] r@[i]@ == discovered@[i]@,
    {
        self.refresh(discovered);
        duplicate_sources(&self.sources)
    }

    /// Whether the last listing had a server named `name`.
    pub fn is_source_available(&self, name: &str) -> (r: bool)
        ensures
            r == has_source_named(self.sources@, name@),
    {
        any_source_named(&self.sources, name)
    }
}

impl Default for SyphonDiscovery {
    fn default() -> (r: Self)
        ensures
            r.sources@.len() == 0,
    {
        Self::new()
    }
}

/// Syphon input client.
pub struct SyphonInput {
    /// Connected server name
    server_name: Option<String>,
    /// Current dimensions
    dimensions: Option<(u32, u32)>,
}

impl SyphonInput {
    /// Name of the server the input is connected to.
    pub closed spec fn spec_source(&self) -> Option<Seq<char>> {
        opt_view(self.server_name)
    }

    /// Frame size last seen from the server.
    pub closed spec fn spec_resolution(&self) -> Option<(u32, u32)> {
        self.dimensions
    }

    /// Create a new, unconnected Syphon input.
    pub fn new() -> (r: Self)
        ensures
            r.spec_source() is None,
            r.spec_resolution() is None,
    {
        SyphonInput { server_name: None, dimensions: None }
    }

    /// Record the outcome of connecting a Syphon client to `source`: the
    /// size of the first frame it delivered, if any, or the client's error.
    /// An input that is already connected refuses, whatever the outcome.
    pub fn connect(&mut self, source: &str, outcome: Result<Option<(u32, u32)>, String>) -> (r:
        IpcResult<()>)
        ensures
            old(self).spec_source() is Some ==> r == Err::<(), IpcError>(IpcError::AlreadyConnected)
                && final(self).spec_source() == old(self).spec_source()
                && final(self).spec_resolution() == old(self).spec_resolution(),
            old(self).spec_source() is None && outcome is Ok ==> r is Ok && final(self).spec_source()
                == Some(source@) && final(self).spec_resolution() == match outcome {
                Ok(Some(d)) => Some(d),
                _ => old(self).spec_resolution(),
            },
            old(self).spec_source() is None ==> (outcome matches Err(e) ==> (r matches Err(
                IpcError::ConnectionFailed(m),
            ) && m == e) && final(self).spec_source() == old(self).spec_source()
                && final(self).spec_resolution() == old(self).spec_resolution()),
    {
        if self.is_connected() {
            return Err(IpcError::AlreadyConnected);
        }
        match outcome {
            Ok(first_frame) => {
                self.server_name = Some(String::from_str(source));
                match first_frame {
                    Some(d) => {
                        self.dimensions = Some(d);
                    },
                    None => {},
                }
                Ok(())
            },
            Err(e) => Err(IpcError::ConnectionFailed(e)),
        }
    }

    /// Disconnect from the server, forgetting its frame size.
    pub fn disconnect(&mut self)
        ensures
            final(self).spec_source() is None,
            old(self).spec_source() is Some ==> final(self).spec_resolution() is None,
            old(self).spec_source() is None ==> final(self).spec_resolution() == old(self).spec_resolution(),
    {
        if !self.is_connected() {
            return;
        }
        self.server_name = None;
        self.dimensions = None;
    }

    /// Whether the input is connected to a server.
    pub fn is_connected(&self) -> (r: bool)
        ensures
            r <==> self.spec_source() is Some,
    {
        self.server_name.is_some()
    }

    /// Take in what the client delivered when asked for a frame: nothing, or
    /// a frame's size and, when its pixels could be read, its BGRA bytes. A
    /// delivered frame's size becomes the input's; readable pixels come back
    /// as a CPU frame. An unconnected input takes in nothing.
    pub fn receive_frame(&mut self, received: Option<(u32, u32, Option<Vec<u8>>)>) -> (r: Option<
        IpcFrame,
    >)
        ensures
            final(self).spec_source() == old(self).spec_source(),
            old(self).spec_source() is None ==> r is None && final(self).spec_resolution() == old(
                self,
            ).spec_resolution(),
            old(self).spec_source() is Some && received is None ==> r is None
                && final(self).spec_resolution() == old(self).spec_resolution(),
            old(self).spec_source() is Some ==> (received matches Some(f) ==> final(self).spec_resolution()
                == Some((f.0, f.1))),
            old(self).spec_source() is Some ==> (received matches Some((w, h, None)) ==> r is None),
            old(self).spec_source() is Some ==> (received matches Some((w, h, Some(d))) ==> (r matches Some(
                IpcFrame::CpuBuffer { data, format, width, height },
            ) && data@ == d@ && format == PixelFormat::BGRA && width == w && height == h)),
    {
        if !self.is_connected() {
            return None;
        }
        match received {
            Some((width, height, pixels)) => {
                self.dimensions = Some((width, height));
                match pixels {
                    Some(data) => Some(IpcFrame::CpuBuffer { data, format: PixelFormat::BGRA, width, height }),
                    None => None,
                }
            },
            None => None,
        }
    }

    /// Frame size of the server, when known.
    pub fn resolution(&self) -> (r: Option<(u32, u32)>)
        ensures
            r == self.spec_resolution(),
    {
        self.dimensions
    }

    /// Name of the connected server.
    pub fn source_name(&self) -> (r: Option<&str>)
        ensures
            match r {
                Some(v) => self.spec_source() == Some(v@),
                None => self.spec_source() is None,
            },
    {
        opt_as_str(&self.server_name)
    }
}

/// Why a zero-copy GPU output could not be created.
#[derive(Debug, Clone)]
pub enum GpuOutputError {
    /// The Syphon framework is not installed; its message
    FrameworkNotFound(String),
    /// Any other failure; its message
    Other(String),
}

/// Message of the error for a missing framework.
pub open spec fn framework_not_found_message(msg: Seq<char>) -> Seq<char> {
    "Syphon framework not found. Install from https://github.com/Syphon/Syphon-Framework/releases: "@
        + msg
}

/// Message of the error for another failure to create the output.
pub open spec fn create_failed_message(msg: Seq<char>) -> Seq<char> {
    "Failed to create Syphon output: "@ + msg
}

/// Syphon output server.
pub struct SyphonOutput {
    /// Server name
    server_name: Option<String>,
    /// Current dimensions
    dimensions: Option<(u32, u32)>,
    /// Whether a zero-copy GPU output is attached
    gpu_output: bool,
    /// Whether we have a valid server
    has_server: bool,
}

impl SyphonOutput {
    /// Name of the server this output publishes as.
    pub closed spec fn spec_server(&self) -> Option<Seq<char>> {
        opt_view(self.server_name)
    }

    /// Frame size of the server.
    pub closed spec fn spec_dimensions(&self) -> Option<(u32, u32)> {
        self.dimensions
    }

    /// Whether a zero-copy GPU output is attached.
    pub closed spec fn spec_gpu_output(&self) -> bool {
        self.gpu_output
    }

    /// Whether the output has a server.
    pub closed spec fn spec_active(&self) -> bool {
        self.has_server
    }

    /// Whether the server has a frame size other than `width` x `height`.
    pub open spec fn spec_size_differs(&self, width: u32, height: u32) -> bool {
        match self.spec_dimensions() {
            Some(d) => d != (width, height),
            None => false,
        }
    }

    /// Create a Syphon output with no server (CPU fallback mode).
    pub fn new() -> (r: Self)
        ensures
            r.spec_server() is None,
            r.spec_dimensions() is None,
            !r.spec_gpu_output(),
            !r.spec_active(),
    {
        SyphonOutput { server_name: None, dimensions: None, gpu_output: false, has_server: false }
    }

    /// Record the outcome of creating a zero-copy GPU output named `name`
    /// of `width` x `height`: on success an output publishing through it;
    /// otherwise the error, with its message.
    pub fn new_with_wgpu(name: &str, width: u32, height: u32, created: Result<(), GpuOutputError>) -> (r:
        IpcResult<Self>)
        ensures
            created is Ok ==> (r matches Ok(o) && o.spec_server() == Some(name@) && o.spec_dimensions()
                == Some((width, height)) && o.spec_gpu_output() && o.spec_active()),
            created matches Err(GpuOutputError::FrameworkNotFound(m)) ==> (r matches Err(IpcError::NativeError(e)) && e@
                == framework_not_found_message(m@)),
            created matches Err(GpuOutputError::Other(m)) ==> (r matches Err(IpcError::NativeError(e)) && e@
                == create_failed_message(m@)),
    {
        match created {
            Ok(()) => Ok(SyphonOutput {
                server_name: Some(String::from_str(name)),
                dimensions: Some((width, height)),
                gpu_output: true,
                has_server: true,
            }),
            Err(GpuOutputError::FrameworkNotFound(msg)) => {
                let mut e = String::from_str(
                    "Syphon framework not found. Install from https://github.com/Syphon/Syphon-Framework/releases: ",
                );
                e.append(msg.as_str());
                Err(IpcError::NativeError(e))
            },
            Err(GpuOutputError::Other(msg)) => {
                let mut e = String::from_str("Failed to create Syphon output: ");
                e.append(msg.as_str());
                Err(IpcError::NativeError(e))
            },
        }
    }

    /// Create a server named `name` of the given size (CPU fallback mode),
    /// replacing any server this output had; zero dimensions are refused.
    pub fn create_server(&mut self, name: &str, width: u32, height: u32) -> (r: IpcResult<()>)
        ensures
            (width == 0 || height == 0) ==> r == Err::<(), IpcError>(
                IpcError::InvalidDimensions { width, height },
            ),
            (width == 0 || height == 0) && old(self).spec_active() ==> final(self).spec_server() is None
                && final(self).spec_dimensions() is None && !final(self).spec_active(),
            (width == 0 || height == 0) && !old(self).spec_active() ==> final(self).spec_server()
                == old(self).spec_server() && final(self).spec_dimensions() == old(self).spec_dimensions()
                && final(self).spec_active() == old(self).spec_active(),
            (width != 0 && height != 0) ==> r is Ok && final(self).spec_server() == Some(name@)
                && final(self).spec_dimensions() == Some((width, height)) && final(self).spec_active(),
            old(self).spec_active() ==> !final(self).spec_gpu_output(),
            !old(self).spec_active() ==> final(self).spec_gpu_output() == old(self).spec_gpu_output(),
    {
        if self.is_active() {
            self.destroy_server();
        }
        if width == 0 || height == 0 {
            return Err(IpcError::InvalidDimensions { width, height });
        }
        self.server_name = Some(String::from_str(name));
        self.dimensions = Some((width, height));
        self.has_server = true;
        Ok(())
    }

    /// Stop publishing: the server, its size and the GPU output are dropped.
    pub fn destroy_server(&mut self)
        ensures
            old(self).spec_active() ==> final(self).spec_server() is None && final(self).spec_dimensions() is None
                && !final(self).spec_gpu_output() && !final(self).spec_active(),
            !old(self).spec_active() ==> final(self).spec_server() == old(self).spec_server()
                && final(self).spec_dimensions() == old(self).spec_dimensions()
                && final(self).spec_gpu_output() == old(self).spec_gpu_output() && !final(self).spec_active(),
    {
        if !self.is_active() {
            return;
        }
        self.gpu_output = false;
        self.server_name = None;
        self.dimensions = None;
        self.has_server = false;
    }

    /// Whether this output has a server.
    pub fn is_active(&self) -> (r: bool)
        ensures
            r == self.spec_active(),
    {
        self.has_server
    }

    /// Whether a zero-copy GPU output is attached.
    pub fn has_gpu_output(&self) -> (r: bool)
        ensures
            r == self.spec_gpu_output(),
    {
        self.gpu_output
    }

    /// Decide whether a GPU texture can be published: refused without a
    /// server, and without a GPU output (CPU fallback mode); otherwise the
    /// caller publishes it through the GPU output.
    pub fn send_texture(&mut self) -> (r: IpcResult<()>)
        ensures
            !old(self).spec_active() ==> r == Err::<(), IpcError>(IpcError::NotInitialized),
            old(self).spec_active() && old(self).spec_gpu_output() ==> r is Ok,
            old(self).spec_active() && !old(self).spec_gpu_output() ==> r == Err::<(), IpcError>(
                IpcError::SharingNotAvailable,
            ),
            final(self).spec_server() == old(self).spec_server(),
            final(self).spec_dimensions() == old(self).spec_dimensions(),
            final(self).spec_gpu_output() == old(self).spec_gpu_output(),
            final(self).spec_active() == old(self).spec_active(),
    {
        if !self.is_active() {
            return Err(IpcError::NotInitialized);
        }
        if self.gpu_output {
            return Ok(());
        }
        Err(IpcError::SharingNotAvailable)
    }

    /// Publish a CPU buffer of `width` x `height` pixels in `format`. It is
    /// refused without a server, when the size differs from the server's,
    /// and when `data` is shorter than a frame of that size.
    pub fn send_buffer(&mut self, data: &[u8], format: PixelFormat, width: u32, height: u32) -> (r:
        IpcResult<()>)
        ensures
            !old(self).spec_active() ==> r == Err::<(), IpcError>(IpcError::NotInitialized),
            old(self).spec_active() && old(self).spec_size_differs(width, height) ==> r == Err::<
                (),
                IpcError,
            >(IpcError::InvalidDimensions { width, height }),
            old(self).spec_active() && !old(self).spec_size_differs(width, height) && data@.len()
                < format.spec_buffer_size(width, height) ==> (r matches Err(IpcError::NativeError(m))
                && m@ == buffer_too_small_message(data@.len(), format.spec_buffer_size(width, height))),
            old(self).spec_active() && !old(self).spec_size_differs(width, height) && data@.len()
                >= format.spec_buffer_size(width, height) ==> r is Ok,
            final(self).spec_server() == old(self).spec_server(),
            final(self).spec_dimensions() == old(self).spec_dimensions(),
            final(self).spec_gpu_output() == old(self).spec_gpu_output(),
            final(self).spec_active() == old(self).spec_active(),
    {
        if !self.is_active() {
            return Err(IpcError::NotInitialized);
        }
        match self.dimensions {
            Some((w, h)) => {
                if w != width || h != height {
                    return Err(IpcError::InvalidDimensions { width, height });
                }
            },
            None => {},
        }
        let expected_size = format.buffer_size(width, height);
        let len = data.len();
        if (len as u128) < expected_size {
            let mut msg = String::from_str("Buffer too small: ");
            append_decimal(&mut msg, len as u128);
            msg.append(" < ");
            append_decimal(&mut msg, expected_size);
            return Err(IpcError::NativeError(msg));
        }
        Ok(())
    }

    /// Name of the server.
    pub fn server_name(&self) -> (r: Option<&str>)
        ensures
            match r {
                Some(v) => self.spec_server() == Some(v@),
                None => self.spec_server() is None,
            },
    {
        opt_as_str(&self.server_name)
    }

    /// Frame size of the server.
    pub fn dimensions(&self) -> (r: Option<(u32, u32)>)
        ensures
            r == self.spec_dimensions(),
    {
        self.dimensions
    }
}

} // verus!
