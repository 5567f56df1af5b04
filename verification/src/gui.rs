//! Tab selections of the control window and the parameter lists it offers
//! for audio modulation.
use vstd::prelude::*;
use vstd::string::StringExecFns;
use crate::input::InputType;
use crate::text::push_char;
use vstd::string::StrSliceExecFns;
use crate::shared::{InputChangeRequest, OutputMode};

verus! {

/// Block 1 sub-tabs.
#[derive(Debug, Clone, Copy, PartialEq, Eq, Structural)]
pub enum Block1Tab {
    Ch1Adjust,
    Ch2MixAndKey,
    Ch2Adjust,
    Fb1Parameters,
    Lfo,
}

/// Block 2 sub-tabs.
#[derive(Debug, Clone, Copy, PartialEq, Eq, Structural)]
pub enum Block2Tab {
    InputAdjust,
    Fb2Parameters,
    Lfo,
}

/// Block 3 sub-tabs.
#[derive(Debug, Clone, Copy, PartialEq, Eq, Structural)]
pub enum Block3Tab {
    Block1Reprocess,
    Block2Reprocess,
    MatrixMixer,
    FinalMix,
    Lfo,
}

/// Main tab selection.
#[derive(Debug, Clone, Copy, PartialEq, Eq, Structural)]
pub enum MainTab {
    Block1,
    Block2,
    Block3,
    Macros,
    Inputs,
    Settings,
}

/// Names of the Block 1 parameters offered for audio modulation.
pub open spec fn spec_block1_param_names() -> Seq<Seq<char>> {
    seq![
        "ch1_x_displace"@,
        "ch1_y_displace"@,
        "ch1_z_displace"@,
        "ch1_rotate"@,
        "ch1_hsb_attenuate.x"@,
        "ch1_hsb_attenuate.y"@,
        "ch1_hsb_attenuate.z"@,
        "ch1_kaleidoscope_amount"@,
        "ch1_blur_amount"@,
        "ch2_mix_amount"@,
        "ch2_x_displace"@,
        "ch2_y_displace"@,
        "ch2_rotate"@,
        "fb1_mix_amount"@,
        "fb1_x_displace"@,
        "fb1_y_displace"@,
        "fb1_rotate"@,
    ]
}

/// Get the list of Block 1 parameter names for audio modulation.
pub fn get_block1_param_names() -> (r: Vec<String>)
    ensures
        r@.map_values(|s: String| s@) == spec_block1_param_names(),
{
    let mut v: Vec<String> = Vec::new();
    v.push(String::from_str("ch1_x_displace"));
    v.push(String::from_str("ch1_y_displace"));
    v.push(String::from_str("ch1_z_displace"));
    v.push(String::from_str("ch1_rotate"));
    v.push(String::from_str("ch1_hsb_attenuate.x"));
    v.push(String::from_str("ch1_hsb_attenuate.y"));
    v.push(String::from_str("ch1_hsb_attenuate.z"));
    v.push(String::from_str("ch1_kaleidoscope_amount"));
    v.push(String::from_str("ch1_blur_amount"));
    v.push(String::from_str("ch2_mix_amount"));
    v.push(String::from_str("ch2_x_displace"));
    v.push(String::from_str("ch2_y_displace"));
    v.push(String::from_str("ch2_rotate"));
    v.push(String::from_str("fb1_mix_amount"));
    v.push(String::from_str("fb1_x_displace"));
    v.push(String::from_str("fb1_y_displace"));
    v.push(String::from_str("fb1_rotate"));
    assert(v@.map_values(|s: String| s@) =~= spec_block1_param_names());
    v
}

/// Names of the Block 2 parameters offered for audio modulation.
pub open spec fn spec_block2_param_names() -> Seq<Seq<char>> {
    seq![
        "block2_input_x_displace"@,
        "block2_input_y_displace"@,
        "block2_input_rotate"@,
        "block2_input_blur_amount"@,
        "fb2_mix_amount"@,
        "fb2_x_displace"@,
        "fb2_y_displace"@,
        "fb2_rotate"@,
    ]
}

/// Get the list of Block 2 parameter names for audio modulation.
pub fn get_block2_param_names() -> (r: Vec<String>)
    ensures
        r@.map_values(|s: String| s@) == spec_block2_param_names(),
{
    let mut v: Vec<String> = Vec::new();
    v.push(String::from_str("block2_input_x_displace"));
    v.push(String::from_str("block2_input_y_displace"));
    v.push(String::from_str("block2_input_rotate"));
    v.push(String::from_str("block2_input_blur_amount"));
    v.push(String::from_str("fb2_mix_amount"));
    v.push(String::from_str("fb2_x_displace"));
    v.push(String::from_str("fb2_y_displace"));
    v.push(String::from_str("fb2_rotate"));
    assert(v@.map_values(|s: String| s@) =~= spec_block2_param_names());
    v
}

/// Names of the Block 3 parameters offered for audio modulation.
pub open spec fn spec_block3_param_names() -> Seq<Seq<char>> {
    seq![
        "block1_x_displace"@,
        "block1_y_displace"@,
        "block1_rotate"@,
        "block2_x_displace"@,
        "block2_y_displace"@,
        "block2_rotate"@,
        "final_mix_amount"@,
    ]
}

/// Get the list of Block 3 parameter names for audio modulation.
pub fn get_block3_param_names() -> (r: Vec<String>)
    ensures
        r@.map_values(|s: String| s@) == spec_block3_param_names(),
{
    let mut v: Vec<String> = Vec::new();
    v.push(String::from_str("block1_x_displace"));
    v.push(String::from_str("block1_y_displace"));
    v.push(String::from_str("block1_rotate"));
    v.push(String::from_str("block2_x_displace"));
    v.push(String::from_str("block2_y_displace"));
    v.push(String::from_str("block2_rotate"));
    v.push(String::from_str("final_mix_amount"));
    assert(v@.map_values(|s: String| s@) =~= spec_block3_param_names());
    v
}

/// The input type a configuration code selects: 0 none, 1 webcam, 2 NDI,
/// 3 Spout, 4 video file; anything else none.
pub open spec fn spec_input_type_from_code(code: i32) -> InputType {
    if code == 1 {
        InputType::Webcam
    } else if code == 2 {
        InputType::Ndi
    } else if code == 3 {
        InputType::Spout
    } else if code == 4 {
        InputType::VideoFile
    } else {
        InputType::Disabled
    }
}

/// The configuration code of an input type.
pub open spec fn spec_input_type_code(t: InputType) -> i32 {
    match t {
        InputType::Disabled => 0,
        InputType::Webcam => 1,
        InputType::Ndi => 2,
        InputType::Spout => 3,
        InputType::VideoFile => 4,
    }
}

/// The input type a configuration code selects.
pub fn input_type_from_code(code: i32) -> (r: InputType)
    ensures
        r == spec_input_type_from_code(code),
{
    match code {
        1 => InputType::Webcam,
        2 => InputType::Ndi,
        3 => InputType::Spout,
        4 => InputType::VideoFile,
        _ => InputType::Disabled,
    }
}

/// The configuration code of an input type.
pub fn input_type_code(t: InputType) -> (r: i32)
    ensures
        r == spec_input_type_code(t),
{
    match t {
        InputType::Disabled => 0,
        InputType::Webcam => 1,
        InputType::Ndi => 2,
        InputType::Spout => 3,
        InputType::VideoFile => 4,
    }
}

/// Saving an input type's code and loading it back gives the type again.
pub proof fn law_input_type_code_roundtrip(t: InputType)
    ensures
        spec_input_type_from_code(spec_input_type_code(t)) == t,
{
}

/// The configuration codes of the input types are their places in the
/// panel's type list: 0 none, 1 webcam, 2 NDI, 3 Spout, 4 video file; every
/// other code loads as none.
pub proof fn law_input_type_codes(code: i32)
    ensures
        spec_input_type_code(InputType::Disabled) == 0,
        spec_input_type_code(InputType::Webcam) == 1,
        spec_input_type_code(InputType::Ndi) == 2,
        spec_input_type_code(InputType::Spout) == 3,
        spec_input_type_code(InputType::VideoFile) == 4,
        !(1 <= code <= 4) ==> spec_input_type_from_code(code) == InputType::Disabled,
        0 <= code <= 4 ==> spec_input_type_code(spec_input_type_from_code(code)) == code,
{
}

/// A configured webcam index kept only when it names a listed device;
/// otherwise -1 (none selected).
pub open spec fn spec_valid_device(index: i32, device_count: nat) -> i32 {
    if index >= 0 && index < device_count {
        index
    } else {
        -1i32
    }
}

/// A webcam index that names a listed device, or -1.
fn valid_device(index: i32, device_count: usize) -> (r: i32)
    ensures
        r == spec_valid_device(index, device_count as nat),
{
    if index >= 0 && (index as usize) < device_count {
        index
    } else {
        -1
    }
}

/// The control window's input selection: the type of each input, the
/// webcam selected for each (-1 for none) and the webcams listed.
pub struct InputSelection {
    pub input1_type: InputType,
    pub input2_type: InputType,
    pub selected_webcam1: i32,
    pub selected_webcam2: i32,
    pub webcam_devices: Vec<String>,
}

/// Resolution and rate a webcam is started with at startup.
pub open spec fn auto_start_request(input_id: u8, device_index: usize) -> InputChangeRequest {
    InputChangeRequest::StartWebcam { input_id, device_index, width: 1280, height: 720, fps: 30 }
}

impl InputSelection {
    /// The selection loaded from the configured type codes and webcam
    /// indices; an index that names no listed webcam selects none.
    pub fn from_config(
        input1_type: i32,
        input1_device: i32,
        input2_type: i32,
        input2_device: i32,
        webcam_devices: Vec<String>,
    ) -> (r: Self)
        ensures
            r.input1_type == spec_input_type_from_code(input1_type),
            r.input2_type == spec_input_type_from_code(input2_type),
            r.selected_webcam1 == spec_valid_device(input1_device, webcam_devices@.len()),
            r.selected_webcam2 == spec_valid_device(input2_device, webcam_devices@.len()),
            r.webcam_devices@ == webcam_devices@,
    {
        let n = webcam_devices.len();
        InputSelection {
            input1_type: input_type_from_code(input1_type),
            input2_type: input_type_from_code(input2_type),
            selected_webcam1: valid_device(input1_device, n),
            selected_webcam2: valid_device(input2_device, n),
            webcam_devices,
        }
    }

    /// Take a new list of webcams; a selection that no longer names a
    /// listed webcam becomes none.
    pub fn refresh_devices(&mut self, webcam_devices: Vec<String>)
        ensures
            final(self).webcam_devices@ == webcam_devices@,
            final(self).selected_webcam1 == (if old(self).selected_webcam1 >= 0
                && old(self).selected_webcam1 >= webcam_devices@.len() {
                -1i32
            } else {
                old(self).selected_webcam1
            }),
            final(self).selected_webcam2 == (if old(self).selected_webcam2 >= 0
                && old(self).selected_webcam2 >= webcam_devices@.len() {
                -1i32
            } else {
                old(self).selected_webcam2
            }),
            final(self).input1_type == old(self).input1_type,
            final(self).input2_type == old(self).input2_type,
    {
        self.webcam_devices = webcam_devices;
        if self.selected_webcam1 >= 0 && (self.selected_webcam1 as usize) >= self.webcam_devices.len() {
            self.selected_webcam1 = -1;
        }
        if self.selected_webcam2 >= 0 && (self.selected_webcam2 as usize) >= self.webcam_devices.len() {
            self.selected_webcam2 = -1;
        }
    }

    /// The configuration values to save: the type codes and the selected
    /// webcams of both inputs.
    pub fn saved_values(&self) -> (r: (i32, i32, i32, i32))
        ensures
            r == (
                spec_input_type_code(self.input1_type),
                spec_input_type_code(self.input2_type),
                self.selected_webcam1,
                self.selected_webcam2,
            ),
    {
        (
            input_type_code(self.input1_type),
            input_type_code(self.input2_type),
            self.selected_webcam1,
            self.selected_webcam2,
        )
    }

    /// The webcam start requests made at startup: with auto-start on, an
    /// input set to webcam whose selected webcam is listed gets a request
    /// to start it at 1280x720, 30 frames per second.
    pub fn auto_start_requests(&self, auto_start: bool) -> (r: (
        Option<InputChangeRequest>,
        Option<InputChangeRequest>,
    ))
        ensures
            r.0 == (if auto_start && self.input1_type == InputType::Webcam && self.selected_webcam1 >= 0
                && self.selected_webcam1 < self.webcam_devices@.len() {
                Some(auto_start_request(1, self.selected_webcam1 as usize))
            } else {
                None
            }),
            r.1 == (if auto_start && self.input2_type == InputType::Webcam && self.selected_webcam2 >= 0
                && self.selected_webcam2 < self.webcam_devices@.len() {
                Some(auto_start_request(2, self.selected_webcam2 as usize))
            } else {
                None
            }),
    {
        if !auto_start {
            return (None, None);
        }
        let n = self.webcam_devices.len();
        let first = if self.input1_type == InputType::Webcam && self.selected_webcam1 >= 0
            && (self.selected_webcam1 as usize) < n {
            Some(
                InputChangeRequest::StartWebcam {
                    input_id: 1,
                    device_index: self.selected_webcam1 as usize,
                    width: 1280,
                    height: 720,
                    fps: 30,
                },
            )
        } else {
            None
        };
        let second = if self.input2_type == InputType::Webcam && self.selected_webcam2 >= 0
            && (self.selected_webcam2 as usize) < n {
            Some(
                InputChangeRequest::StartWebcam {
                    input_id: 2,
                    device_index: self.selected_webcam2 as usize,
                    width: 1280,
                    height: 720,
                    fps: 30,
                },
            )
        } else {
            None
        };
        (first, second)
    }
}

/// The request "Start Webcam" sends for an input: only when the input is
/// set to webcam, webcams are listed (the button is shown only then) and
/// one is selected.
pub open spec fn spec_start_request(
    input_id: u8,
    t: InputType,
    selected: i32,
    device_count: nat,
) -> Option<InputChangeRequest> {
    if t == InputType::Webcam && device_count > 0 && selected >= 0 {
        Some(auto_start_request(input_id, selected as usize))
    } else {
        None
    }
}

/// Set an input's type as picked; a change to webcam with no webcam
/// selected selects the first listed one. Returns whether the type changed.
fn choose_type(t: &mut InputType, selected: &mut i32, device_count: usize, new_type: InputType) -> (r:
    bool)
    ensures
        r == (new_type != *old(t)),
        *final(t) == new_type,
        *final(selected) == (if r && new_type == InputType::Webcam && *old(selected) < 0
            && device_count > 0 {
            0i32
        } else {
            *old(selected)
        }),
{
    let changed = new_type != *t;
    *t = new_type;
    if changed && new_type == InputType::Webcam && *selected < 0 && device_count > 0 {
        *selected = 0;
    }
    changed
}

impl InputSelection {
    /// Input 1's type was picked in the panel: it is set, a change to
    /// webcam with none selected selects the first webcam, and the result
    /// says whether the type changed (the configuration is then saved).
    pub fn choose_input1_type(&mut self, new_type: InputType) -> (r: bool)
        ensures
            r == (new_type != old(self).input1_type),
            final(self).input1_type == new_type,
            final(self).selected_webcam1 == (if r && new_type == InputType::Webcam
                && old(self).selected_webcam1 < 0 && old(self).webcam_devices@.len() > 0 {
                0i32
            } else {
                old(self).selected_webcam1
            }),
            final(self).input2_type == old(self).input2_type,
            final(self).selected_webcam2 == old(self).selected_webcam2,
            final(self).webcam_devices@ == old(self).webcam_devices@,
    {
        let n = self.webcam_devices.len();
        choose_type(&mut self.input1_type, &mut self.selected_webcam1, n, new_type)
    }

    /// Input 2's type was picked in the panel (as for input 1).
    pub fn choose_input2_type(&mut self, new_type: InputType) -> (r: bool)
        ensures
            r == (new_type != old(self).input2_type),
            final(self).input2_type == new_type,
            final(self).selected_webcam2 == (if r && new_type == InputType::Webcam
                && old(self).selected_webcam2 < 0 && old(self).webcam_devices@.len() > 0 {
                0i32
            } else {
                old(self).selected_webcam2
            }),
            final(self).input1_type == old(self).input1_type,
            final(self).selected_webcam1 == old(self).selected_webcam1,
            final(self).webcam_devices@ == old(self).webcam_devices@,
    {
        let n = self.webcam_devices.len();
        choose_type(&mut self.input2_type, &mut self.selected_webcam2, n, new_type)
    }

    /// Input 1's webcam was picked; whether it changed (then saved).
    pub fn choose_webcam1(&mut self, selected: i32) -> (r: bool)
        ensures
            r == (selected != old(self).selected_webcam1),
            final(self).selected_webcam1 == selected,
            final(self).selected_webcam2 == old(self).selected_webcam2,
            final(self).input1_type == old(self).input1_type,
            final(self).input2_type == old(self).input2_type,
            final(self).webcam_devices@ == old(self).webcam_devices@,
    {
        let changed = self.selected_webcam1 != selected;
        self.selected_webcam1 = selected;
        changed
    }

    /// Input 2's webcam was picked; whether it changed (then saved).
    pub fn choose_webcam2(&mut self, selected: i32) -> (r: bool)
        ensures
            r == (selected != old(self).selected_webcam2),
            final(self).selected_webcam2 == selected,
            final(self).selected_webcam1 == old(self).selected_webcam1,
            final(self).input1_type == old(self).input1_type,
            final(self).input2_type == old(self).input2_type,
            final(self).webcam_devices@ == old(self).webcam_devices@,
    {
        let changed = self.selected_webcam2 != selected;
        self.selected_webcam2 = selected;
        changed
    }

    /// The request "Start Webcam 1" sends.
    pub fn start_request1(&self) -> (r: Option<InputChangeRequest>)
        ensures
            r == spec_start_request(1, self.input1_type, self.selected_webcam1, self.webcam_devices@.len()),
    {
        if self.input1_type == InputType::Webcam && self.webcam_devices.len() > 0
            && self.selected_webcam1 >= 0 {
            Some(
                InputChangeRequest::StartWebcam {
                    input_id: 1,
                    device_index: self.selected_webcam1 as usize,
                    width: 1280,
                    height: 720,
                    fps: 30,
                },
            )
        } else {
            None
        }
    }

    /// The request "Start Webcam 2" sends.
    pub fn start_request2(&self) -> (r: Option<InputChangeRequest>)
        ensures
            r == spec_start_request(2, self.input2_type, self.selected_webcam2, self.webcam_devices@.len()),
    {
        if self.input2_type == InputType::Webcam && self.webcam_devices.len() > 0
            && self.selected_webcam2 >= 0 {
            Some(
                InputChangeRequest::StartWebcam {
                    input_id: 2,
                    device_index: self.selected_webcam2 as usize,
                    width: 1280,
                    height: 720,
                    fps: 30,
                },
            )
        } else {
            None
        }
    }
}

/// `param_id` with every `_` and `.` turned into `/`.
pub open spec fn osc_path(param_id: Seq<char>) -> Seq<char> {
    param_id.map_values(|c: char| if c == '_' || c == '.' { '/' } else { c })
}

/// `prefix` followed by the OSC path of `param_id`.
fn osc_address(prefix: &str, param_id: &str) -> (r: String)
    ensures
        r@ == prefix@ + osc_path(param_id@),
{
    let mut out = String::from_str(prefix);
    let n = param_id.unicode_len();
    let mut i: usize = 0;
    while i < n
        invariant
            n == param_id@.len(),
            i <= n,
            out@ == prefix@ + osc_path(param_id@.take(i as int)),
        decreases n - i,
    {
        let c = param_id.get_char(i);
        let d = if c == '_' || c == '.' {
            '/'
        } else {
            c
        };
        push_char(&mut out, d);
        proof {
            assert(osc_path(param_id@.take(i + 1)) =~= osc_path(param_id@.take(i as int)).push(d));
        }
        i += 1;
    }
    proof {
        assert(param_id@.take(n as int) =~= param_id@);
    }
    out
}

/// Generate the OSC address of a Block 1 parameter.
pub fn get_osc_address_block1(param_id: &str) -> (r: String)
    ensures
        r@ == "/block1/"@ + osc_path(param_id@),
{
    osc_address("/block1/", param_id)
}

/// Generate the OSC address of a Block 2 parameter.
pub fn get_osc_address_block2(param_id: &str) -> (r: String)
    ensures
        r@ == "/block2/"@ + osc_path(param_id@),
{
    osc_address("/block2/", param_id)
}

/// Generate the OSC address of a Block 3 parameter.
pub fn get_osc_address_block3(param_id: &str) -> (r: String)
    ensures
        r@ == "/block3/"@ + osc_path(param_id@),
{
    osc_address("/block3/", param_id)
}

/// Position of an output mode in the settings panel's output list.
pub open spec fn spec_output_mode_index(m: OutputMode) -> usize {
    match m {
        OutputMode::Block1 => 0,
        OutputMode::Block2 => 1,
        OutputMode::Block3 => 2,
        OutputMode::PreviewInput1 => 3,
        OutputMode::PreviewInput2 => 4,
    }
}

/// The output mode at a position of the settings panel's output list;
/// anything past the list shows Block 3.
pub open spec fn spec_output_mode_at(index: usize) -> OutputMode {
    if index == 0 {
        OutputMode::Block1
    } else if index == 1 {
        OutputMode::Block2
    } else if index == 3 {
        OutputMode::PreviewInput1
    } else if index == 4 {
        OutputMode::PreviewInput2
    } else {
        OutputMode::Block3
    }
}

/// Position of an output mode in the settings panel's output list.
pub fn output_mode_index(m: OutputMode) -> (r: usize)
    ensures
        r == spec_output_mode_index(m),
{
    match m {
        OutputMode::Block1 => 0,
        OutputMode::Block2 => 1,
        OutputMode::Block3 => 2,
        OutputMode::PreviewInput1 => 3,
        OutputMode::PreviewInput2 => 4,
    }
}

/// The output mode picked at a position of the settings panel's list.
pub fn output_mode_at(index: usize) -> (r: OutputMode)
    ensures
        r == spec_output_mode_at(index),
{
    match index {
        0 => OutputMode::Block1,
        1 => OutputMode::Block2,
        2 => OutputMode::Block3,
        3 => OutputMode::PreviewInput1,
        4 => OutputMode::PreviewInput2,
        _ => OutputMode::Block3,
    }
}

/// Showing an output mode in the list and picking it back gives it again.
pub proof fn law_output_mode_roundtrip(m: OutputMode)
    ensures
        spec_output_mode_at(spec_output_mode_index(m)) == m,
        spec_output_mode_index(m) < 5,
{
}

/// A configured webcam index is kept exactly when it names a listed webcam
/// (index 0 included); any other index selects none (-1).
pub proof fn law_valid_device_keeps_listed(index: i32, device_count: nat)
    ensures
        0 <= index < device_count ==> spec_valid_device(index, device_count) == index,
        !(0 <= index < device_count) ==> spec_valid_device(index, device_count) == -1,
{
}

/// The panel lists the output modes in the order Block 1, Block 2, Block 3,
/// Input 1, Input 2 at positions 0 to 4, and a position past the list shows
/// Block 3.
pub proof fn law_output_mode_list_order(index: usize)
    ensures
        spec_output_mode_index(OutputMode::Block1) == 0,
        spec_output_mode_index(OutputMode::Block1) < spec_output_mode_index(OutputMode::Block2),
        spec_output_mode_index(OutputMode::Block2) < spec_output_mode_index(OutputMode::Block3),
        spec_output_mode_index(OutputMode::Block3) < spec_output_mode_index(OutputMode::PreviewInput1),
        spec_output_mode_index(OutputMode::PreviewInput1) < spec_output_mode_index(
            OutputMode::PreviewInput2,
        ),
        spec_output_mode_index(OutputMode::PreviewInput2) == 4,
        index >= 5 ==> spec_output_mode_at(index) == OutputMode::Block3,
        forall|m: OutputMode| spec_output_mode_at(#[trigger] spec_output_mode_index(m)) == m,
{
    assert forall|m: OutputMode| spec_output_mode_at(#[trigger] spec_output_mode_index(m)) == m by {
        law_output_mode_roundtrip(m);
    }
}

/// Saving a selection and loading it back with the same webcams listed
/// gives the same types and the same selected webcams, when each selection
/// is none (-1) or names a listed webcam.
pub proof fn law_saved_selection_loads_back(
    t1: InputType,
    t2: InputType,
    w1: i32,
    w2: i32,
    device_count: nat,
)
    requires
        w1 == -1 || 0 <= w1 < device_count,
        w2 == -1 || 0 <= w2 < device_count,
    ensures
        spec_input_type_from_code(spec_input_type_code(t1)) == t1,
        spec_input_type_from_code(spec_input_type_code(t2)) == t2,
        spec_valid_device(w1, device_count) == w1,
        spec_valid_device(w2, device_count) == w2,
{
}

} // verus!
