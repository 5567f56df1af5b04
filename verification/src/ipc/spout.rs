//! Spout video sharing (Windows): an input that receives from a Spout
//! sender, an output that publishes as one, and discovery of senders.
use vstd::prelude::*;
use vstd::string::StringExecFns;
use super::{
    any_source_named, has_source_named, IpcError, IpcFrame, IpcResult, IpcSourceInfo, PixelFormat,
};
use crate::text::{append_decimal, decimal};

verus! {

/// Spout input receiver.
pub struct SpoutInput {
    /// Connected sender name
    sender_name: Option<String>,
    /// Current dimensions
    dimensions: Option<(u32, u32)>,
    /// Whether to use GPU texture sharing
    use_gpu_sharing: bool,
}

/// The name held by an optional string.
pub open spec fn opt_view(s: Option<String>) -> Option<Seq<char>> {
    match s {
        Some(v) => Some(v@),
        None => None,
    }
}

/// The string slice of an optional string.
pub(crate) fn opt_as_str(s: &Option<String>) -> (r: Option<&str>)
    ensures
        match r {
            Some(v) => opt_view(*s) == Some(v@),
            None => s is None,
        },
{
    match s {
        Some(v) => Some(v.as_str()),
        None => None,
    }
}

impl SpoutInput {
    /// Name of the sender the input is connected to.
    pub closed spec fn spec_source(&self) -> Option<Seq<char>> {
        opt_view(self.sender_name)
    }

    /// Frame size last seen from the sender.
    pub closed spec fn spec_resolution(&self) -> Option<(u32, u32)> {
        self.dimensions
    }

    /// Whether GPU texture sharing is on.
    pub closed spec fn spec_gpu_sharing(&self) -> bool {
        self.use_gpu_sharing
    }

    /// A frame size is known only while connected.
    #[verifier::type_invariant]
    closed spec fn size_only_when_connected(self) -> bool {
        self.sender_name is None ==> self.dimensions is None
    }

    /// Whether GPU texture sharing is on.
    pub fn use_gpu_sharing(&self) -> (r: bool)
        ensures
            r == self.spec_gpu_sharing(),
    {
        self.use_gpu_sharing
    }

    /// Create a new Spout input receiver, with GPU sharing.
    pub fn new() -> (r: Self)
        ensures
            r.spec_source() is None,
            r.spec_resolution() is None,
            r.spec_gpu_sharing(),
    {
        SpoutInput { sender_name: None, dimensions: None, use_gpu_sharing: true }
    }

    /// Create with CPU fallback only.
    pub fn new_cpu_only() -> (r: Self)
        ensures
            r.spec_source() is None,
            r.spec_resolution() is None,
            !r.spec_gpu_sharing(),
    {
        SpoutInput { sender_name: None, dimensions: None, use_gpu_sharing: false }
    }

    /// Whether the Spout SDK can be used; it is assumed present.
    pub fn is_available() -> (r: bool)
        ensures
            r,
    {
        true
    }

    /// Enable or disable GPU sharing.
    pub fn set_gpu_sharing(&mut self, enabled: bool)
        ensures
            final(self).spec_gpu_sharing() == enabled,
            final(self).spec_source() == old(self).spec_source(),
            final(self).spec_resolution() == old(self).spec_resolution(),
    {
        proof {
            use_type_invariant(&*self);
        }
        self.use_gpu_sharing = enabled;
    }

    /// Connect to a sender; refused while already connected.
    pub fn connect(&mut self, source: &str) -> (r: IpcResult<()>)
        ensures
            old(self).spec_source() is Some ==> r == Err::<(), IpcError>(IpcError::AlreadyConnected)
                && final(self).spec_source() == old(self).spec_source(),
            old(self).spec_source() is None ==> r is Ok && final(self).spec_source() == Some(
                source@,
            ),
            final(self).spec_resolution() == old(self).spec_resolution(),
            final(self).spec_gpu_sharing() == old(self).spec_gpu_sharing(),
    {
        if self.is_connected() {
            return Err(IpcError::AlreadyConnected);
        }
        self.sender_name = Some(String::from_str(source));
        Ok(())
    }

    /// Disconnect from the sender, forgetting its frame size.
    pub fn disconnect(&mut self)
        ensures
            final(self).spec_source() is None,
            final(self).spec_resolution() is None,
            final(self).spec_gpu_sharing() == old(self).spec_gpu_sharing(),
    {
        proof {
            use_type_invariant(&*self);
        }
        if !self.is_connected() {
            return;
        }
        self.dimensions = None;
        self.sender_name = None;
    }

    /// Whether the input is connected to a sender.
    pub fn is_connected(&self) -> (r: bool)
        ensures
            r <==> self.spec_source() is Some,
    {
        self.sender_name.is_some()
    }

    /// Take a received frame; frame reception is not implemented, so there
    /// never is one.
    pub fn receive_frame(&mut self) -> (r: Option<IpcFrame>)
        ensures
            r is None,
            final(self).spec_source() == old(self).spec_source(),
            final(self).spec_resolution() == old(self).spec_resolution(),
            final(self).spec_gpu_sharing() == old(self).spec_gpu_sharing(),
    {
        if !self.is_connected() {
            return None;
        }
        None
    }

    /// Frame size of the sender, when known.
    pub fn resolution(&self) -> (r: Option<(u32, u32)>)
        ensures
            r == self.spec_resolution(),
    {
        self.dimensions
    }

    /// Name of the connected sender.
    pub fn source_name(&self) -> (r: Option<&str>)
        ensures
            match r {
                Some(v) => self.spec_source() == Some(v@),
                None => self.spec_source() is None,
            },
    {
        opt_as_str(&self.sender_name)
    }
}

impl Default for SpoutInput {
    fn default() -> (r: Self)
        ensures
            r.spec_source() is None,
            r.spec_resolution() is None,
            r.spec_gpu_sharing(),
    {
        Self::new()
    }
}

/// Spout output sender.
pub struct SpoutOutput {
    /// Sender name
    sender_name: Option<String>,
    /// Current dimensions
    dimensions: Option<(u32, u32)>,
    /// Whether to use GPU texture sharing
    use_gpu_sharing: bool,
}

/// The message of the error for a buffer shorter than a frame.
pub open spec fn buffer_too_small_message(len: nat, expected: nat) -> Seq<char> {
    "Buffer too small: "@ + decimal(len) + " < "@ + decimal(expected)
}

impl SpoutOutput {
    /// Name of the sender this output publishes as.
    pub closed spec fn spec_server(&self) -> Option<Seq<char>> {
        opt_view(self.sender_name)
    }

    /// Frame size of the sender.
    pub closed spec fn spec_dimensions(&self) -> Option<(u32, u32)> {
        self.dimensions
    }

    /// Whether GPU texture sharing is on.
    pub closed spec fn spec_gpu_sharing(&self) -> bool {
        self.use_gpu_sharing
    }

    /// A frame size is known only while publishing.
    #[verifier::type_invariant]
    closed spec fn size_only_when_active(self) -> bool {
        self.sender_name is None ==> self.dimensions is None
    }

    /// Whether GPU texture sharing is on.
    pub fn use_gpu_sharing(&self) -> (r: bool)
        ensures
            r == self.spec_gpu_sharing(),
    {
        self.use_gpu_sharing
    }

    /// Whether the sender has a frame size other than `width` x `height`.
    pub open spec fn spec_size_differs(&self, width: u32, height: u32) -> bool {
        match self.spec_dimensions() {
            Some(d) => d != (width, height),
            None => false,
        }
    }

    /// Create a new Spout output sender, with GPU sharing.
    pub fn new() -> (r: Self)
        ensures
            r.spec_server() is None,
            r.spec_dimensions() is None,
            r.spec_gpu_sharing(),
    {
        SpoutOutput { sender_name: None, dimensions: None, use_gpu_sharing: true }
    }

    /// Create with CPU fallback only.
    pub fn new_cpu_only() -> (r: Self)
        ensures
            r.spec_server() is None,
            r.spec_dimensions() is None,
            !r.spec_gpu_sharing(),
    {
        SpoutOutput { sender_name: None, dimensions: None, use_gpu_sharing: false }
    }

    /// Whether the Spout SDK can be used; it is assumed present.
    pub fn is_available() -> (r: bool)
        ensures
            r,
    {
        SpoutInput::is_available()
    }

    /// Enable or disable GPU sharing.
    pub fn set_gpu_sharing(&mut self, enabled: bool)
        ensures
            final(self).spec_gpu_sharing() == enabled,
            final(self).spec_server() == old(self).spec_server(),
            final(self).spec_dimensions() == old(self).spec_dimensions(),
    {
        proof {
            use_type_invariant(&*self);
        }
        self.use_gpu_sharing = enabled;
    }

    /// Publish as a sender named `name` with the given frame size, replacing
    /// any sender this output had; zero dimensions are refused.
    pub fn create_server(&mut self, name: &str, width: u32, height: u32) -> (r: IpcResult<()>)
        ensures
            (width == 0 || height == 0) ==> r == Err::<(), IpcError>(
                IpcError::InvalidDimensions { width, height },
            ),
            (width == 0 || height == 0) ==> final(self).spec_server() is None
                && final(self).spec_dimensions() is None,
            (width != 0 && height != 0) ==> r is Ok && final(self).spec_server() == Some(name@)
                && final(self).spec_dimensions() == Some((width, height)),
            final(self).spec_gpu_sharing() == old(self).spec_gpu_sharing(),
    {
        proof {
            use_type_invariant(&*self);
        }
        if self.is_active() {
            self.destroy_server();
        }
        if width == 0 || height == 0 {
            return Err(IpcError::InvalidDimensions { width, height });
        }
        self.sender_name = Some(String::from_str(name));
        self.dimensions = Some((width, height));
        Ok(())
    }

    /// Stop publishing; the sender's name and size are forgotten.
    pub fn destroy_server(&mut self)
        ensures
            final(self).spec_server() is None,
            final(self).spec_dimensions() is None,
            final(self).spec_gpu_sharing() == old(self).spec_gpu_sharing(),
    {
        proof {
            use_type_invariant(&*self);
        }
        if !self.is_active() {
            return;
        }
        self.dimensions = None;
        self.sender_name = None;
    }

    /// Whether this output publishes as a sender.
    pub fn is_active(&self) -> (r: bool)
        ensures
            r <==> self.spec_server() is Some,
    {
        self.sender_name.is_some()
    }

    /// Publish the current GPU texture: refused without a sender, and when
    /// GPU sharing is off.
    pub fn send_texture(&mut self) -> (r: IpcResult<()>)
        ensures
            old(self).spec_server() is None ==> r == Err::<(), IpcError>(IpcError::NotInitialized),
            old(self).spec_server() is Some && !old(self).spec_gpu_sharing() ==> r == Err::<
                (),
                IpcError,
            >(IpcError::SharingNotAvailable),
            old(self).spec_server() is Some && old(self).spec_gpu_sharing() ==> r is Ok,
            final(self).spec_server() == old(self).spec_server(),
            final(self).spec_dimensions() == old(self).spec_dimensions(),
            final(self).spec_gpu_sharing() == old(self).spec_gpu_sharing(),
    {
        if !self.is_active() {
            return Err(IpcError::NotInitialized);
        }
        if !self.use_gpu_sharing {
            return Err(IpcError::SharingNotAvailable);
        }
        Ok(())
    }

    /// Publish a CPU buffer of `width` x `height` pixels in `format`. It is
    /// refused without a sender, when the size differs from the sender's, and
    /// when `data` is shorter than a frame of that size.
    pub fn send_buffer(&mut self, data: &[u8], format: PixelFormat, width: u32, height: u32) -> (r:
        IpcResult<()>)
        ensures
            old(self).spec_server() is None ==> r == Err::<(), IpcError>(IpcError::NotInitialized),
            old(self).spec_server() is Some && old(self).spec_size_differs(width, height) ==> r
                == Err::<(), IpcError>(IpcError::InvalidDimensions { width, height }),
            old(self).spec_server() is Some && !old(self).spec_size_differs(width, height)
                && data@.len() < format.spec_buffer_size(width, height) ==> (r matches Err(
                IpcError::NativeError(m),
            ) && m@ == buffer_too_small_message(
                data@.len(),
                format.spec_buffer_size(width, height),
            )),
            old(self).spec_server() is Some && !old(self).spec_size_differs(width, height)
                && data@.len() >= format.spec_buffer_size(width, height) ==> r is Ok,
            final(self).spec_server() == old(self).spec_server(),
            final(self).spec_dimensions() == old(self).spec_dimensions(),
            final(self).spec_gpu_sharing() == old(self).spec_gpu_sharing(),
    {
        if !self.is_active() {
            return Err(IpcError::NotInitialized);
        }
        match self.dimensions {
            Some((w, h)) => {
                if w != width || h != height {
                    return Err(IpcError::InvalidDimensions { width, height });
                }
            },
            None => {},
        }
        let expected_size = format.buffer_size(width, height);
        let len = data.len();
        if (len as u128) < expected_size {
            let mut msg = String::from_str("Buffer too small: ");
            append_decimal(&mut msg, len as u128);
            msg.append(" < ");
            append_decimal(&mut msg, expected_size);
            return Err(IpcError::NativeError(msg));
        }
        Ok(())
    }

    /// Name of the sender.
    pub fn server_name(&self) -> (r: Option<&str>)
        ensures
            match r {
                Some(v) => self.spec_server() == Some(v@),
                None => self.spec_server() is None,
            },
    {
        opt_as_str(&self.sender_name)
    }

    /// Frame size of the sender.
    pub fn dimensions(&self) -> (r: Option<(u32, u32)>)
        ensures
            r == self.spec_dimensions(),
    {
        self.dimensions
    }
}

impl Default for SpoutOutput {
    fn default() -> (r: Self)
        ensures
            r.spec_server() is None,
            r.spec_dimensions() is None,
            r.spec_gpu_sharing(),
    {
        Self::new()
    }
}

/// Spout sender discovery.
pub struct SpoutDiscovery {
    /// Last discovered sources
    sources: Vec<IpcSourceInfo>,
}

impl SpoutDiscovery {
    /// The sources found by the last discovery.
    pub closed spec fn spec_sources(&self) -> Seq<IpcSourceInfo> {
        self.sources@
    }

    /// Create a new Spout discovery, with no sources.
    pub fn new() -> (r: Self)
        ensures
            r.spec_sources().len() == 0,
    {
        SpoutDiscovery { sources: Vec::new() }
    }

    /// Discover senders. Enumeration is not implemented: the list is cleared
    /// and the (empty) list returned.
    pub fn discover_sources(&mut self, timeout_ms: u32) -> (r: Vec<IpcSourceInfo>)
        ensures
            r@.len() == 0,
            final(self).spec_sources().len() == 0,
    {
        self.sources.clear();
        Vec::new()
    }

    /// Whether the last discovery found a sender named `name`.
    pub fn is_source_available(&self, name: &str) -> (r: bool)
        ensures
            r == has_source_named(self.spec_sources(), name@),
    {
        any_source_named(&self.sources, name)
    }
}

impl Default for SpoutDiscovery {
    fn default() -> (r: Self)
        ensures
            r.spec_sources().len() == 0,
    {
        Self::new()
    }
}

/// DirectX (DXGI) format number of a pixel format; formats DirectX cannot
/// share directly are converted to RGBA.
pub open spec fn spec_pixel_format_to_dxgi(format: PixelFormat) -> u32 {
    match format {
        PixelFormat::RGBA => 28,
        PixelFormat::BGRA => 87,
        PixelFormat::NV12 => 103,
        PixelFormat::RGB24 => 28,
        PixelFormat::YUYV => 28,
    }
}

/// Convert pixel format to DirectX DXGI format.
pub fn pixel_format_to_dxgi(format: PixelFormat) -> (r: u32)
    ensures
        r == spec_pixel_format_to_dxgi(format),
{
    // DXGI_FORMAT_R8G8B8A8_UNORM = 28
    // DXGI_FORMAT_B8G8R8A8_UNORM = 87
    // DXGI_FORMAT_NV12 = 103
    match format {
        PixelFormat::RGBA => 28,
        PixelFormat::BGRA => 87,
        PixelFormat::NV12 => 103,
        PixelFormat::RGB24 | PixelFormat::YUYV => 28,
    }
}

} // verus!
