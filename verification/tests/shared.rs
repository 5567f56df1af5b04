use rustjay_waaaves::gui::{
    get_block1_param_names, get_block2_param_names, get_block3_param_names, get_osc_address_block1,
    get_osc_address_block2, get_osc_address_block3, output_mode_at, output_mode_index,
};
use rustjay_waaaves::shared::lfo_engine::Waveform;
use rustjay_waaaves::shared::{Block1DebugView, OutputMode, PreviewSource};

#[test]
fn waveform_from_code() {
    assert_eq!(Waveform::from(0), Waveform::Sine);
    assert_eq!(Waveform::from(1), Waveform::Triangle);
    assert_eq!(Waveform::from(2), Waveform::Ramp);
    assert_eq!(Waveform::from(3), Waveform::Saw);
    assert_eq!(Waveform::from(4), Waveform::Square);
    assert_eq!(Waveform::from(5), Waveform::Sine);
    assert_eq!(Waveform::from(-1), Waveform::Sine);
}

#[test]
fn preview_and_output_defaults() {
    assert_eq!(PreviewSource::default(), PreviewSource::Block1);
    assert_eq!(PreviewSource::Block3.display_name(), "Block 3 (Final)");
    assert_eq!(OutputMode::default(), OutputMode::Block3);
    assert_eq!(Block1DebugView::default(), Block1DebugView::Normal);
}

#[test]
fn modulation_parameter_lists() {
    let b1 = get_block1_param_names();
    assert_eq!(b1.len(), 17);
    assert_eq!(b1[0], "ch1_x_displace");
    assert_eq!(b1[4], "ch1_hsb_attenuate.x");
    assert_eq!(b1[16], "fb1_rotate");
    let b2 = get_block2_param_names();
    assert_eq!(b2.len(), 8);
    assert_eq!(b2[3], "block2_input_blur_amount");
    let b3 = get_block3_param_names();
    assert_eq!(b3.len(), 7);
    assert_eq!(b3[6], "final_mix_amount");
}

#[test]
fn osc_addresses() {
    assert_eq!(get_osc_address_block1("ch1_hsb_attenuate.x"), "/block1/ch1/hsb/attenuate/x");
    assert_eq!(get_osc_address_block2("fb2_rotate"), "/block2/fb2/rotate");
    assert_eq!(get_osc_address_block3(""), "/block3/");
}

#[test]
fn output_mode_list_positions() {
    assert_eq!(output_mode_index(OutputMode::PreviewInput1), 3);
    assert_eq!(output_mode_at(1), OutputMode::Block2);
    assert_eq!(output_mode_at(9), OutputMode::Block3);
    assert_eq!(output_mode_at(output_mode_index(OutputMode::PreviewInput2)), OutputMode::PreviewInput2);
}
