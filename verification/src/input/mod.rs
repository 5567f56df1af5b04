//! Video input sources: webcam capture (not built in) and NDI, two input
//! slots and the list of webcam devices.
use vstd::prelude::*;
use vstd::string::StringExecFns;
use crate::shared::InputChangeRequest;

pub mod syphon_input;

verus! {

/// `std::sync::mpsc::Receiver`, the channel a started capture delivers
/// frames on; only carried.
#[verifier::external_type_specification]
#[verifier::external_body]
#[verifier::reject_recursive_types(T)]
pub struct ExReceiver<T>(std::sync::mpsc::Receiver<T>);

/// A frame captured from a webcam.
pub struct WebcamFrame {
    pub width: u32,
    pub height: u32,
    pub data: Vec<u8>,
    pub timestamp: std::time::Instant,
}

/// Errors of starting an input.
#[derive(Debug, Clone)]
pub enum InputError {
    /// Webcam capture is not part of this build
    WebcamUnavailable,
    /// The NDI receiver could not start; its message
    NdiStart(String),
}

/// Message of the error for a missing webcam capture.
pub open spec fn webcam_unavailable_message() -> Seq<char> {
    "Webcam support not compiled. Enable the 'webcam' feature."@
}

impl InputError {
    /// The error's message.
    pub fn message(&self) -> (r: String)
        ensures
            *self matches InputError::WebcamUnavailable ==> r@ == webcam_unavailable_message(),
            *self matches InputError::NdiStart(m) ==> r@ == m@,
    {
        match self {
            InputError::WebcamUnavailable => String::from_str(
                "Webcam support not compiled. Enable the 'webcam' feature.",
            ),
            InputError::NdiStart(m) => m.clone(),
        }
    }
}

/// Webcam capture; this build has none, so no value of this type can be
/// made.
pub struct WebcamCapture {
    _private: (),
}

impl WebcamCapture {
    /// No capture exists in this build.
    #[verifier::type_invariant]
    closed spec fn capture_exists(self) -> bool {
        false
    }

    /// Open a webcam: always refused, webcam support is not built in.
    pub fn new(device_index: usize, width: u32, height: u32, fps: u32) -> (r: Result<
        Self,
        InputError,
    >)
        ensures
            r matches Err(InputError::WebcamUnavailable),
    {
        Err(InputError::WebcamUnavailable)
    }

    /// Start capturing. No capture can exist in this build, so this is
    /// never reached.
    pub fn start(&mut self) -> (r: Result<std::sync::mpsc::Receiver<WebcamFrame>, InputError>) {
        proof {
            use_type_invariant(&*self);
        }
        vstd::pervasive::unreached()
    }

    /// Stop capturing.
    pub fn stop(&mut self) -> (r: Result<(), InputError>)
        ensures
            r is Ok,
    {
        Ok(())
    }
}

/// List the webcams: none, webcam support is not built in.
pub fn list_cameras() -> (r: Vec<String>)
    ensures
        r@.len() == 0,
{
    Vec::new()
}

/// Input source types.
#[derive(Debug, Clone, Copy, PartialEq, Eq, Structural)]
pub enum InputType {
    /// No input
    Disabled,
    Webcam,
    Ndi,
    Spout,
    VideoFile,
}

/// Webcam device information.
#[derive(Debug, Clone)]
pub struct WebcamDeviceInfo {
    pub index: usize,
    pub name: String,
}

/// The plain values of an input source.
pub struct InputSourceView {
    pub input_type: InputType,
    pub device_index: i32,
    pub ndi_source: Option<Seq<char>>,
    pub texture_id: Option<usize>,
    pub resolution: (u32, u32),
    pub active: bool,
    pub current_frame: Option<Seq<u8>>,
}

/// An input source that was never started, of type `input_type`.
pub open spec fn fresh_source(input_type: InputType) -> InputSourceView {
    InputSourceView {
        input_type,
        device_index: -1i32,
        ndi_source: None,
        texture_id: None,
        resolution: (640u32, 480u32),
        active: false,
        current_frame: None,
    }
}

/// A source after `stop`: inactive, no type, device or NDI source, no
/// frame; the resolution and texture are kept.
pub open spec fn stopped(v: InputSourceView) -> InputSourceView {
    InputSourceView {
        input_type: InputType::Disabled,
        device_index: -1i32,
        ndi_source: None,
        active: false,
        current_frame: None,
        ..v
    }
}

/// A source after `update` with the latest frame delivered since the last
/// update (width, height, bytes): an inactive source is unchanged; an
/// active one takes the frame's size and bytes.
pub open spec fn updated(v: InputSourceView, frame: Option<(u32, u32, Seq<u8>)>) -> InputSourceView {
    if !v.active {
        v
    } else {
        match frame {
            Some(f) => InputSourceView { resolution: (f.0, f.1), current_frame: Some(f.2), ..v },
            None => v,
        }
    }
}

/// A source after a successful NDI start on `source`.
pub open spec fn started_ndi(v: InputSourceView, source: Seq<char>) -> InputSourceView {
    InputSourceView {
        input_type: InputType::Ndi,
        ndi_source: Some(source),
        active: true,
        ..stopped(v)
    }
}

/// The plain value of an optional frame.
pub open spec fn frame_view(f: Option<(u32, u32, Vec<u8>)>) -> Option<(u32, u32, Seq<u8>)> {
    match f {
        Some(t) => Some((t.0, t.1, t.2@)),
        None => None,
    }
}

/// Individual input source.
pub struct InputSource {
    /// Type of input
    pub input_type: InputType,
    /// Device index (for webcam)
    pub device_index: i32,
    /// NDI source name
    pub ndi_source: Option<String>,
    /// Texture slot of the engine holding this input, if any
    pub texture_id: Option<usize>,
    /// Input resolution
    pub resolution: (u32, u32),
    /// Whether input is active
    pub active: bool,
    /// Current frame data (CPU side)
    pub current_frame: Option<Vec<u8>>,
}

impl View for InputSource {
    type V = InputSourceView;

    open spec fn view(&self) -> InputSourceView {
        InputSourceView {
            input_type: self.input_type,
            device_index: self.device_index,
            ndi_source: match self.ndi_source {
                Some(s) => Some(s@),
                None => None,
            },
            texture_id: self.texture_id,
            resolution: self.resolution,
            active: self.active,
            current_frame: match self.current_frame {
                Some(f) => Some(f@),
                None => None,
            },
        }
    }
}

impl InputSource {
    /// Create a new, inactive input source.
    pub fn new(input_type: InputType) -> (r: Self)
        ensures
            r@ == fresh_source(input_type),
            active_is_typed(r@),
    {
        InputSource {
            input_type,
            device_index: -1i32,
            ndi_source: None,
            texture_id: None,
            resolution: (640, 480),
            active: false,
            current_frame: None,
        }
    }

    /// Start webcam capture on a device. The running input is stopped first;
    /// then the capture cannot be opened in this build, so the source stays
    /// stopped and the error is returned.
    pub fn start_webcam(&mut self, device_index: usize, width: u32, height: u32, fps: u32) -> (r:
        Result<(), InputError>)
        ensures
            r matches Err(InputError::WebcamUnavailable),
            final(self)@ == stopped(old(self)@),
            active_is_typed(final(self)@),
    {
        self.stop();
        let mut webcam = match WebcamCapture::new(device_index, width, height, fps) {
            Ok(w) => w,
            Err(e) => {
                return Err(e);
            },
        };
        let _frames = match webcam.start() {
            Ok(rx) => rx,
            Err(e) => {
                return Err(e);
            },
        };
        self.input_type = InputType::Webcam;
        self.device_index = device_index as i32;
        self.resolution = (width, height);
        self.active = true;
        Ok(())
    }

    /// Record the outcome of starting an NDI receiver on `source_name`: the
    /// running input is stopped first; when the receiver started the source
    /// becomes an active NDI input, otherwise it stays stopped and the
    /// receiver's error is returned.
    pub fn start_ndi(&mut self, source_name: String, receiver_started: Result<(), String>) -> (r:
        Result<(), InputError>)
        ensures
            receiver_started is Ok ==> r is Ok && final(self)@ == started_ndi(
                old(self)@,
                source_name@,
            ),
            receiver_started matches Err(m) ==> (r matches Err(InputError::NdiStart(e)) && e == m)
                && final(self)@ == stopped(old(self)@),
            active_is_typed(final(self)@),
    {
        self.stop();
        match receiver_started {
            Err(m) => Err(InputError::NdiStart(m)),
            Ok(()) => {
                self.input_type = InputType::Ndi;
                self.ndi_source = Some(source_name);
                self.active = true;
                Ok(())
            },
        }
    }

    /// Stop the input source.
    pub fn stop(&mut self)
        ensures
            final(self)@ == stopped(old(self)@),
            active_is_typed(final(self)@),
    {
        self.active = false;
        self.current_frame = None;
        self.input_type = InputType::Disabled;
        self.device_index = -1;
        self.ndi_source = None;
    }

    /// Take in the latest frame delivered by the capture since the last
    /// update, if any.
    pub fn update(&mut self, latest_frame: Option<(u32, u32, Vec<u8>)>)
        ensures
            final(self)@ == updated(old(self)@, frame_view(latest_frame)),
            active_is_typed(old(self)@) ==> active_is_typed(final(self)@),
    {
        if !self.active {
            return;
        }
        match latest_frame {
            Some((width, height, data)) => {
                self.resolution = (width, height);
                self.current_frame = Some(data);
            },
            None => {},
        }
    }

    /// Whether a frame is waiting to be taken.
    pub fn has_new_frame(&self) -> (r: bool)
        ensures
            r <==> self@.current_frame is Some,
    {
        self.current_frame.is_some()
    }

    /// Take the waiting frame, if any.
    pub fn take_frame(&mut self) -> (r: Option<Vec<u8>>)
        ensures
            match r {
                Some(f) => old(self)@.current_frame == Some(f@),
                None => old(self)@.current_frame is None,
            },
            final(self)@ == (InputSourceView { current_frame: None, ..old(self)@ }),
            active_is_typed(old(self)@) ==> active_is_typed(final(self)@),
    {
        self.current_frame.take()
    }

    /// The waiting frame's bytes, if any.
    pub fn current_frame(&self) -> (r: Option<&[u8]>)
        ensures
            match r {
                Some(f) => self@.current_frame == Some(f@),
                None => self@.current_frame is None,
            },
    {
        match &self.current_frame {
            Some(f) => Some(f.as_slice()),
            None => None,
        }
    }

    /// Get the input type.
    pub fn get_type(&self) -> (r: InputType)
        ensures
            r == self@.input_type,
    {
        self.input_type
    }

    /// Whether the input is active.
    pub fn is_active(&self) -> (r: bool)
        ensures
            r == self@.active,
    {
        self.active
    }

    /// Texture slot of the engine holding this input.
    pub fn texture_id(&self) -> (r: Option<usize>)
        ensures
            r == self@.texture_id,
    {
        self.texture_id
    }

    /// Current input resolution.
    pub fn resolution(&self) -> (r: (u32, u32))
        ensures
            r == self@.resolution,
    {
        self.resolution
    }
}

/// Stopping twice is the same as stopping once.
pub proof fn law_stop_idempotent(v: InputSourceView)
    ensures
        stopped(stopped(v)) == stopped(v),
{
}

/// A frame taken in by an active source is what the next take gives back,
/// and after the take no frame is waiting.
pub proof fn law_take_returns_updated_frame(v: InputSourceView, w: u32, h: u32, data: Seq<u8>)
    requires
        v.active,
    ensures
        updated(v, Some((w, h, data))).current_frame == Some(data),
        updated(v, Some((w, h, data))).resolution == (w, h),
{
}

/// A stopped source ignores frames.
pub proof fn law_stopped_ignores_frames(v: InputSourceView, frame: Option<(u32, u32, Seq<u8>)>)
    ensures
        updated(stopped(v), frame) == stopped(v),
{
}

/// An active source is a webcam or an NDI source.
pub open spec fn active_is_typed(v: InputSourceView) -> bool {
    v.active ==> (v.input_type == InputType::Webcam || v.input_type == InputType::Ndi)
}

/// Every state an input source reaches through `new`, `start_webcam`,
/// `start_ndi`, `stop`, `update` and `take_frame` is either inactive or a
/// webcam or NDI source: a new source is inactive, stopping (and so a
/// failed webcam start) makes it inactive, a started NDI source is an NDI
/// source, and updates and takes keep the type and the activity.
pub proof fn law_active_source_is_webcam_or_ndi(
    t: InputType,
    v: InputSourceView,
    frame: Option<(u32, u32, Seq<u8>)>,
    source: Seq<char>,
)
    ensures
        active_is_typed(fresh_source(t)),
        active_is_typed(stopped(v)),
        active_is_typed(started_ndi(v, source)),
        active_is_typed(v) ==> active_is_typed(updated(v, frame)),
        active_is_typed(v) ==> active_is_typed(InputSourceView { current_frame: None, ..v }),
{
}

/// The names of a list of webcam devices.
pub open spec fn device_names(devices: Seq<WebcamDeviceInfo>) -> Seq<Seq<char>> {
    devices.map_values(|d: WebcamDeviceInfo| d.name@)
}

/// Input manager: two input slots and the webcam devices found.
pub struct InputManager {
    /// Input 1
    pub input1: InputSource,
    /// Input 2
    pub input2: InputSource,
    /// Available webcam devices
    pub webcam_devices: Vec<WebcamDeviceInfo>,
    /// Device list needs refresh
    pub devices_dirty: bool,
}

impl InputManager {
    /// Input 1.
    pub open spec fn spec_input1(&self) -> InputSourceView {
        self.input1@
    }

    /// Input 2.
    pub open spec fn spec_input2(&self) -> InputSourceView {
        self.input2@
    }

    /// Names of the webcam devices found.
    pub open spec fn spec_device_names(&self) -> Seq<Seq<char>> {
        device_names(self.webcam_devices@)
    }

    /// Whether the device list waits for a refresh.
    pub open spec fn spec_devices_dirty(&self) -> bool {
        self.devices_dirty
    }

    /// Create an input manager with both inputs off and the webcams listed.
    pub fn new() -> (r: Self)
        ensures
            r.spec_input1() == fresh_source(InputType::Disabled),
            r.spec_input2() == fresh_source(InputType::Disabled),
            r.spec_device_names().len() == 0,
            !r.spec_devices_dirty(),
    {
        let device_strings = list_cameras();
        let mut webcam_devices: Vec<WebcamDeviceInfo> = Vec::new();
        let mut idx: usize = 0;
        while idx < device_strings.len()
            invariant
                idx <= device_strings@.len(),
                webcam_devices@.len() == idx,
                forall|j: int|
                    0 <= j < idx ==> (#[trigger] webcam_devices@[j]).index == j
                        && webcam_devices@[j].name@ == device_strings@[j]@,
            decreases device_strings@.len() - idx,
        {
            webcam_devices.push(WebcamDeviceInfo { index: idx, name: device_strings[idx].clone() });
            idx += 1;
        }
        InputManager {
            input1: InputSource::new(InputType::Disabled),
            input2: InputSource::new(InputType::Disabled),
            webcam_devices,
            devices_dirty: false,
        }
    }

    /// Take in the latest frames delivered to each input.
    pub fn update(
        &mut self,
        input1_frame: Option<(u32, u32, Vec<u8>)>,
        input2_frame: Option<(u32, u32, Vec<u8>)>,
    )
        ensures
            final(self).spec_input1() == updated(old(self).spec_input1(), frame_view(input1_frame)),
            final(self).spec_input2() == updated(old(self).spec_input2(), frame_view(input2_frame)),
            final(self).spec_device_names() == old(self).spec_device_names(),
            final(self).spec_devices_dirty() == old(self).spec_devices_dirty(),
    {
        self.input1.update(input1_frame);
        self.input2.update(input2_frame);
    }

    /// Get the input 1 texture id.
    pub fn get_input1_texture_id(&self) -> (r: Option<usize>)
        ensures
            r == self.spec_input1().texture_id,
    {
        self.input1.texture_id()
    }

    /// Get the input 2 texture id.
    pub fn get_input2_texture_id(&self) -> (r: Option<usize>)
        ensures
            r == self.spec_input2().texture_id,
    {
        self.input2.texture_id()
    }

    /// Get the input 1 frame waiting for upload.
    pub fn get_input1_frame(&self) -> (r: Option<&[u8]>)
        ensures
            match r {
                Some(f) => self.spec_input1().current_frame == Some(f@),
                None => self.spec_input1().current_frame is None,
            },
    {
        self.input1.current_frame()
    }

    /// Get the input 2 frame waiting for upload.
    pub fn get_input2_frame(&self) -> (r: Option<&[u8]>)
        ensures
            match r {
                Some(f) => self.spec_input2().current_frame == Some(f@),
                None => self.spec_input2().current_frame is None,
            },
    {
        self.input2.current_frame()
    }

    /// Refresh the webcam devices: without webcam support there are none to
    /// list, and nothing changes.
    pub fn refresh_webcam_devices(&mut self) -> (r: Vec<String>)
        ensures
            r@.len() == 0,
            final(self).spec_input1() == old(self).spec_input1(),
            final(self).spec_input2() == old(self).spec_input2(),
            final(self).spec_device_names() == old(self).spec_device_names(),
            final(self).spec_devices_dirty() == old(self).spec_devices_dirty(),
    {
        Vec::new()
    }

    /// Get the names of the webcam devices; empty while the list waits for a
    /// refresh.
    pub fn get_webcam_devices(&self) -> (r: Vec<String>)
        ensures
            self.spec_devices_dirty() ==> r@.len() == 0,
            !self.spec_devices_dirty() ==> r@.map_values(|s: String| s@) == self.spec_device_names(),
    {
        if self.devices_dirty {
            return Vec::new();
        }
        let mut names: Vec<String> = Vec::new();
        let mut i: usize = 0;
        while i < self.webcam_devices.len()
            invariant
                i <= self.webcam_devices@.len(),
                names@.len() == i,
                forall|j: int|
                    0 <= j < i ==> (#[trigger] names@[j])@ == self.webcam_devices@[j].name@,
            decreases self.webcam_devices@.len() - i,
        {
            names.push(self.webcam_devices[i].name.clone());
            i += 1;
        }
        assert(names@.map_values(|s: String| s@) =~= device_names(self.webcam_devices@));
        names
    }

    /// Start webcam capture on input 1 (always refused in this build).
    pub fn start_input1_webcam(&mut self, device_index: usize, width: u32, height: u32, fps: u32) -> (r:
        Result<(), InputError>)
        ensures
            r matches Err(InputError::WebcamUnavailable),
            final(self).spec_input1() == stopped(old(self).spec_input1()),
            final(self).spec_input2() == old(self).spec_input2(),
            final(self).spec_device_names() == old(self).spec_device_names(),
            final(self).spec_devices_dirty() == old(self).spec_devices_dirty(),
    {
        self.input1.start_webcam(device_index, width, height, fps)
    }

    /// Start webcam capture on input 2 (always refused in this build).
    pub fn start_input2_webcam(&mut self, device_index: usize, width: u32, height: u32, fps: u32) -> (r:
        Result<(), InputError>)
        ensures
            r matches Err(InputError::WebcamUnavailable),
            final(self).spec_input2() == stopped(old(self).spec_input2()),
            final(self).spec_input1() == old(self).spec_input1(),
            final(self).spec_device_names() == old(self).spec_device_names(),
            final(self).spec_devices_dirty() == old(self).spec_devices_dirty(),
    {
        self.input2.start_webcam(device_index, width, height, fps)
    }

    /// Record the outcome of starting an NDI receiver for input 1.
    pub fn start_input1_ndi(&mut self, source_name: String, receiver_started: Result<(), String>) -> (r:
        Result<(), InputError>)
        ensures
            receiver_started is Ok ==> r is Ok && final(self).spec_input1() == started_ndi(
                old(self).spec_input1(),
                source_name@,
            ),
            receiver_started matches Err(m) ==> (r matches Err(InputError::NdiStart(e)) && e == m)
                && final(self).spec_input1() == stopped(old(self).spec_input1()),
            final(self).spec_input2() == old(self).spec_input2(),
            final(self).spec_device_names() == old(self).spec_device_names(),
            final(self).spec_devices_dirty() == old(self).spec_devices_dirty(),
    {
        self.input1.start_ndi(source_name, receiver_started)
    }

    /// Record the outcome of starting an NDI receiver for input 2.
    pub fn start_input2_ndi(&mut self, source_name: String, receiver_started: Result<(), String>) -> (r:
        Result<(), InputError>)
        ensures
            receiver_started is Ok ==> r is Ok && final(self).spec_input2() == started_ndi(
                old(self).spec_input2(),
                source_name@,
            ),
            receiver_started matches Err(m) ==> (r matches Err(InputError::NdiStart(e)) && e == m)
                && final(self).spec_input2() == stopped(old(self).spec_input2()),
            final(self).spec_input1() == old(self).spec_input1(),
            final(self).spec_device_names() == old(self).spec_device_names(),
            final(self).spec_devices_dirty() == old(self).spec_devices_dirty(),
    {
        self.input2.start_ndi(source_name, receiver_started)
    }

    /// Stop input 1.
    pub fn stop_input1(&mut self)
        ensures
            final(self).spec_input1() == stopped(old(self).spec_input1()),
            final(self).spec_input2() == old(self).spec_input2(),
            final(self).spec_device_names() == old(self).spec_device_names(),
            final(self).spec_devices_dirty() == old(self).spec_devices_dirty(),
    {
        self.input1.stop();
    }

    /// Stop input 2.
    pub fn stop_input2(&mut self)
        ensures
            final(self).spec_input2() == stopped(old(self).spec_input2()),
            final(self).spec_input1() == old(self).spec_input1(),
            final(self).spec_device_names() == old(self).spec_device_names(),
            final(self).spec_devices_dirty() == old(self).spec_devices_dirty(),
    {
        self.input2.stop();
    }

    /// Get the input 1 resolution.
    pub fn get_input1_resolution(&self) -> (r: (u32, u32))
        ensures
            r == self.spec_input1().resolution,
    {
        self.input1.resolution()
    }

    /// Get the input 2 resolution.
    pub fn get_input2_resolution(&self) -> (r: (u32, u32))
        ensures
            r == self.spec_input2().resolution,
    {
        self.input2.resolution()
    }

    /// Whether input 1 has a frame waiting.
    pub fn input1_has_new_frame(&self) -> (r: bool)
        ensures
            r <==> self.spec_input1().current_frame is Some,
    {
        self.input1.has_new_frame()
    }

    /// Whether input 2 has a frame waiting.
    pub fn input2_has_new_frame(&self) -> (r: bool)
        ensures
            r <==> self.spec_input2().current_frame is Some,
    {
        self.input2.has_new_frame()
    }

    /// Take the input 1 frame.
    pub fn take_input1_frame(&mut self) -> (r: Option<Vec<u8>>)
        ensures
            match r {
                Some(f) => old(self).spec_input1().current_frame == Some(f@),
                None => old(self).spec_input1().current_frame is None,
            },
            final(self).spec_input1() == (InputSourceView {
                current_frame: None,
                ..old(self).spec_input1()
            }),
            final(self).spec_input2() == old(self).spec_input2(),
            final(self).spec_device_names() == old(self).spec_device_names(),
            final(self).spec_devices_dirty() == old(self).spec_devices_dirty(),
    {
        self.input1.take_frame()
    }

    /// Take the input 2 frame.
    pub fn take_input2_frame(&mut self) -> (r: Option<Vec<u8>>)
        ensures
            match r {
                Some(f) => old(self).spec_input2().current_frame == Some(f@),
                None => old(self).spec_input2().current_frame is None,
            },
            final(self).spec_input2() == (InputSourceView {
                current_frame: None,
                ..old(self).spec_input2()
            }),
            final(self).spec_input1() == old(self).spec_input1(),
            final(self).spec_device_names() == old(self).spec_device_names(),
            final(self).spec_devices_dirty() == old(self).spec_devices_dirty(),
    {
        self.input2.take_frame()
    }

    /// Carry out a change request from the control window on input 1:
    /// start a webcam, stop the input, or nothing.
    pub fn apply_input1_request(&mut self, request: InputChangeRequest) -> (r: Result<(), InputError>)
        ensures
            request matches InputChangeRequest::StartWebcam { .. } ==> (r matches Err(
                InputError::WebcamUnavailable,
            )) && final(self).spec_input1() == stopped(old(self).spec_input1()),
            request matches InputChangeRequest::StopInput { .. } ==> r is Ok && final(self).spec_input1()
                == stopped(old(self).spec_input1()),
            request matches InputChangeRequest::NoChange ==> r is Ok && final(self).spec_input1()
                == old(self).spec_input1(),
            final(self).spec_input2() == old(self).spec_input2(),
            final(self).spec_device_names() == old(self).spec_device_names(),
            final(self).spec_devices_dirty() == old(self).spec_devices_dirty(),
    {
        match request {
            InputChangeRequest::StartWebcam { device_index, width, height, fps, .. } => {
                self.start_input1_webcam(device_index, width, height, fps)
            },
            InputChangeRequest::StopInput { .. } => {
                self.stop_input1();
                Ok(())
            },
            InputChangeRequest::NoChange => Ok(()),
        }
    }

    /// Carry out a change request from the control window on input 2:
    /// start a webcam, stop the input, or nothing.
    pub fn apply_input2_request(&mut self, request: InputChangeRequest) -> (r: Result<(), InputError>)
        ensures
            request matches InputChangeRequest::StartWebcam { .. } ==> (r matches Err(
                InputError::WebcamUnavailable,
            )) && final(self).spec_input2() == stopped(old(self).spec_input2()),
            request matches InputChangeRequest::StopInput { .. } ==> r is Ok && final(self).spec_input2()
                == stopped(old(self).spec_input2()),
            request matches InputChangeRequest::NoChange ==> r is Ok && final(self).spec_input2()
                == old(self).spec_input2(),
            final(self).spec_input1() == old(self).spec_input1(),
            final(self).spec_device_names() == old(self).spec_device_names(),
            final(self).spec_devices_dirty() == old(self).spec_devices_dirty(),
    {
        match request {
            InputChangeRequest::StartWebcam { device_index, width, height, fps, .. } => {
                self.start_input2_webcam(device_index, width, height, fps)
            },
            InputChangeRequest::StopInput { .. } => {
                self.stop_input2();
                Ok(())
            },
            InputChangeRequest::NoChange => Ok(()),
        }
    }
}

/// Stopping a source leaves it inactive, with no type, device or NDI source
/// and no frame waiting (so nothing is taken afterwards); its resolution and
/// texture are kept.
pub proof fn law_stop_drops_waiting_frame(v: InputSourceView)
    ensures
        stopped(v).current_frame is None,
        !stopped(v).active,
        stopped(v).input_type == InputType::Disabled,
        stopped(v).device_index == -1,
        stopped(v).ndi_source is None,
        stopped(v).resolution == v.resolution,
        stopped(v).texture_id == v.texture_id,
        updated(stopped(v), Some((1u32, 1u32, seq![0u8]))).current_frame is None,
{
}

/// A new source is inactive, has no device, NDI source or waiting frame,
/// and starts at 640x480.
pub proof fn law_new_source_is_idle(t: InputType)
    ensures
        fresh_source(t).input_type == t,
        !fresh_source(t).active,
        fresh_source(t).current_frame is None,
        fresh_source(t).device_index == -1,
        fresh_source(t).ndi_source is None,
        fresh_source(t).resolution == (640u32, 480u32),
{
}

/// An update that brings no new frame changes nothing: a waiting frame
/// stays until it is taken.
pub proof fn law_update_without_frame_keeps_state(v: InputSourceView)
    ensures
        updated(v, None) == v,
{
}

/// A started NDI source is active, of type NDI, receives from the named
/// source, has no device and no waiting frame, and keeps its resolution.
pub proof fn law_started_ndi_receives_from_source(v: InputSourceView, source: Seq<char>)
    ensures
        started_ndi(v, source).active,
        started_ndi(v, source).input_type == InputType::Ndi,
        started_ndi(v, source).ndi_source == Some(source),
        started_ndi(v, source).device_index == -1,
        started_ndi(v, source).current_frame is None,
        started_ndi(v, source).resolution == v.resolution,
{
}

} // verus!
