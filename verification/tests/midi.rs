use rustjay_waaaves::midi::{
    cc_name, join_with_spaces, param_display_name, param_range_kind, param_words, title_case_word,
    MidiMessageType, ParamRangeKind,
};
use rustjay_waaaves::midi::mapping_matches;
use rustjay_waaaves::midi::learn::{
    learnable_param_ids, learnable_params, learnable_params_for_block, learns_from, LearnSession,
};
use rustjay_waaaves::midi::{MappingEntry, MidiState};

#[test]
fn cc_names_single_and_ranges() {
    assert_eq!(cc_name(0), "Bank Select");
    assert_eq!(cc_name(7), "Channel Volume");
    assert_eq!(cc_name(16), "General Purpose");
    assert_eq!(cc_name(19), "General Purpose");
    assert_eq!(cc_name(32), "LSB (14-bit)");
    assert_eq!(cc_name(63), "LSB (14-bit)");
    assert_eq!(cc_name(83), "General Purpose");
    assert_eq!(cc_name(127), "Poly Mode On");
    assert_eq!(cc_name(3), "Undefined");
    assert_eq!(cc_name(20), "Undefined");
    assert_eq!(cc_name(200), "Undefined");
}

#[test]
fn param_display_names() {
    assert_eq!(param_display_name("block1.fb1_mix_amount"), "Fb1 Mix Amount");
    assert_eq!(param_display_name("ch1_hsb_attenuate.x"), "X");
    assert_eq!(param_display_name("ROTATE"), "Rotate");
    assert_eq!(param_display_name(""), "");
    assert_eq!(param_display_name("a__b"), "A  B");
    assert_eq!(param_display_name("x."), "");
    assert_eq!(param_display_name("_lead"), " Lead");
    assert_eq!(param_display_name("stra\u{df}e_\u{e9}t\u{c9}"), "Stra\u{df}e \u{c9}t\u{e9}");
    assert_eq!(param_display_name("\u{df}x"), "SSx");
}

#[test]
fn message_type_names() {
    assert_eq!(MidiMessageType::ControlChange.name(), "CC");
    assert_eq!(MidiMessageType::PitchBend.name(), "Pitch Bend");
    assert!(MidiMessageType::ProgramChange.uses_controller());
    assert!(MidiMessageType::NoteOff.uses_controller());
    assert!(!MidiMessageType::PitchBend.uses_controller());
    assert!(!MidiMessageType::ChannelAftertouch.uses_controller());
    assert_eq!(MidiMessageType::default(), MidiMessageType::ControlChange);
}

#[test]
fn param_words_split() {
    let w = param_words("block2.fb2_x_displace");
    let as_strings: Vec<String> = w.iter().map(|c| c.iter().collect()).collect();
    assert_eq!(as_strings, vec!["fb2", "x", "displace"]);
    let w = param_words("a.b.c__");
    let as_strings: Vec<String> = w.iter().map(|c| c.iter().collect()).collect();
    assert_eq!(as_strings, vec!["c", "", ""]);
    assert_eq!(param_words("").len(), 1);
}

#[test]
fn join_and_title_case() {
    let joined = join_with_spaces(&vec!["Fb2".to_string(), "".to_string(), "Rotate".to_string()]);
    assert_eq!(joined, "Fb2  Rotate");
    assert_eq!(join_with_spaces(&vec![]), "");
    assert_eq!(title_case_word(&vec!['m', 'I', 'X']), "Mix");
    assert_eq!(title_case_word(&vec![]), "");
}

#[test]
fn param_range_classes() {
    assert_eq!(param_range_kind("block1.fb1_mix_amount"), ParamRangeKind::Unit);
    assert_eq!(param_range_kind("ch1_x_displace"), ParamRangeKind::Displace);
    assert_eq!(param_range_kind("block2_input_y_displace"), ParamRangeKind::Displace);
    assert_eq!(param_range_kind("fb1_x_displace_amount"), ParamRangeKind::Displace);
    assert_eq!(param_range_kind("ch1_z_displace"), ParamRangeKind::ZDisplace);
    assert_eq!(param_range_kind("fb1_rotate"), ParamRangeKind::Rotate);
    assert_eq!(param_range_kind("ch2_key_threshold"), ParamRangeKind::Bipolar);
    assert_eq!(param_range_kind("fb2_key_soft"), ParamRangeKind::Bipolar);
    assert_eq!(param_range_kind("ch1_h_mirror"), ParamRangeKind::Unit);
    assert_eq!(param_range_kind("ch1_blur_radius"), ParamRangeKind::Unit);
    // "_on" anywhere marks a switch, even inside another word.
    assert_eq!(param_range_kind("fb1_rotate_on"), ParamRangeKind::Unit);
    assert_eq!(param_range_kind("fb1_key_one"), ParamRangeKind::Unit);
    assert_eq!(param_range_kind("hue"), ParamRangeKind::Unit);
    assert_eq!(param_range_kind(""), ParamRangeKind::Unit);
}

#[test]
fn default_mapping_curve() {
    assert_eq!(rustjay_waaaves::midi::default_curve(), "linear");
}

#[test]
fn mapping_match_rules() {
    let cc = MidiMessageType::ControlChange;
    assert!(mapping_matches("", cc, 0, 7, "dev", cc, 3, 7));
    assert!(mapping_matches("dev", cc, 3, 7, "dev", cc, 3, 7));
    assert!(!mapping_matches("dev", cc, 3, 7, "other", cc, 3, 7));
    assert!(!mapping_matches("", cc, 3, 7, "dev", cc, 4, 7));
    assert!(mapping_matches("", cc, 3, 7, "dev", cc, 0, 7));
    assert!(!mapping_matches("", cc, 0, 7, "dev", cc, 0, 8));
    assert!(!mapping_matches("", cc, 0, 7, "dev", MidiMessageType::NoteOn, 0, 7));
    let pb = MidiMessageType::PitchBend;
    assert!(mapping_matches("", pb, 0, 0, "dev", pb, 1, 99));
}

#[test]
fn learn_session_steps() {
    assert!(learns_from(MidiMessageType::ControlChange, 0));
    assert!(!learns_from(MidiMessageType::NoteOn, 0));
    assert!(learns_from(MidiMessageType::NoteOn, 1));
    assert!(!learns_from(MidiMessageType::ProgramChange, 9));
    let mut s = LearnSession::new();
    assert!(!s.is_active(0));
    assert_eq!(s.handle_midi_message(0, MidiMessageType::ControlChange, 10), None);
    s.start("block1.fb1_rotate".to_string());
    assert!(s.is_active(10_000));
    assert!(!s.is_active(10_001));
    assert!(s.is_learning(5, "block1.fb1_rotate"));
    assert_eq!(s.handle_midi_message(5, MidiMessageType::NoteOff, 10), None);
    assert_eq!(s.handle_midi_message(20_000, MidiMessageType::ControlChange, 10), None);
    assert_eq!(
        s.handle_midi_message(5, MidiMessageType::ControlChange, 10),
        Some("block1.fb1_rotate".to_string())
    );
    assert!(!s.is_active(0));
    s.start("x".to_string());
    s.cancel();
    assert!(!s.is_active(0));
    assert_eq!(s.param_id, "");
}

fn entry(p: &str, dev: &str, t: MidiMessageType, ch: u8, ctrl: u8) -> MappingEntry {
    MappingEntry { param_id: p.to_string(), device: dev.to_string(), message_type: t, channel: ch, controller: ctrl }
}

#[test]
fn midi_state_table_and_dispatch() {
    let cc = MidiMessageType::ControlChange;
    let mut m = MidiState::new();
    assert!(m.last_message.is_none());
    m.add_mapping("a".to_string(), entry("a", "", cc, 0, 1));
    m.add_mapping("b".to_string(), entry("b", "dev", cc, 2, 1));
    assert_eq!(m.mappings.len(), 2);
    m.add_mapping("a".to_string(), entry("a", "", cc, 0, 5));
    assert_eq!(m.mappings.len(), 2);
    assert_eq!(m.mappings[0].mapping.controller, 5);
    assert_eq!(m.find_mapping("dev", cc, 2, 1), Some(1));
    assert_eq!(m.find_mapping("x", cc, 9, 5), Some(0));
    assert_eq!(m.find_mapping("x", cc, 9, 7), None);
    assert_eq!(m.process_midi_event(0, "dev", cc, 2, 1, 64), Some("b".to_string()));
    let last = m.last_message.clone().unwrap();
    assert_eq!((last.device_id.as_str(), last.channel, last.number, last.velocity), ("dev", 2, 1, 64));
    m.channel_filter = 3;
    assert_eq!(m.process_midi_event(0, "dev", cc, 2, 1, 64), None);
    assert_eq!(m.process_midi_event(0, "x", cc, 0, 5, 64), Some("a".to_string()));
    m.channel_filter = 0;
    m.start_learning("c".to_string());
    assert_eq!(m.process_midi_event(100, "pad", MidiMessageType::NoteOn, 4, 36, 0), None);
    assert_eq!(m.process_midi_event(100, "pad", MidiMessageType::PitchBend, 4, 36, 0), Some("c".to_string()));
    assert_eq!(m.mappings.len(), 3);
    assert_eq!(m.mappings[2].key, "c");
    assert_eq!(m.mappings[2].mapping.device, "pad");
    assert_eq!(m.mappings[2].mapping.controller, 0);
    assert_eq!(m.last_message.clone().unwrap().message_type, MidiMessageType::PitchBend);
    assert!(!m.learn.is_active(0));
    assert!(m.remove_mapping("a"));
    assert!(!m.remove_mapping("a"));
    assert_eq!(m.mappings[0].key, "b");
    m.start_learning("d".to_string());
    m.cancel_learning(1);
    assert!(!m.learn.is_active(1));
    m.clear_mappings();
    assert!(m.mappings.is_empty());
}

#[test]
fn mapping_keyed_by_given_id() {
    let cc = MidiMessageType::ControlChange;
    let mut m = MidiState::new();
    // Stored under "key" while the mapping names "other": removal goes by key,
    // firing returns the mapping's own parameter ID.
    m.add_mapping("key".to_string(), entry("other", "", cc, 0, 9));
    assert_eq!(m.process_midi_event(0, "d", cc, 1, 9, 1), Some("other".to_string()));
    assert!(!m.remove_mapping("other"));
    assert!(m.remove_mapping("key"));
}

#[test]
fn learnable_parameter_list() {
    let ids = learnable_param_ids();
    assert_eq!(ids.len(), 56);
    assert_eq!(ids[0], "block1.ch1_x_displace");
    assert_eq!(ids[55], "global.bpm");
    let params = learnable_params();
    assert_eq!(params[0].1, "Ch1 X Displace");
    assert_eq!(params[51].0, "block3.matrix_mix_b_to_b");
    assert_eq!(params[51].1, "Matrix Mix B To B");
}

#[test]
fn learnable_parameters_per_block() {
    assert_eq!(learnable_params_for_block("block1").len(), 24);
    assert_eq!(learnable_params_for_block("block2").len(), 11);
    let b3 = learnable_params_for_block("block3");
    assert_eq!(b3.len(), 20);
    assert_eq!(b3[0].0, "block3.block1_x_displace");
    assert_eq!(learnable_params_for_block("global").len(), 1);
    assert_eq!(learnable_params_for_block("").len(), 56);
    assert!(learnable_params_for_block("block4").is_empty());
}
