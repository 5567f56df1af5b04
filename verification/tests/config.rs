use rustjay_waaaves::config::{ResolutionConfig, ResolutionPreset, ResolutionSettings, TabId};
use rustjay_waaaves::config::layout::PoppedTabs;
use rustjay_waaaves::config::{InputConfig, NdiConfig, PipelineConfig, WindowConfig};

#[test]
fn all_presets_listed_once() {
    let all = ResolutionPreset::all();
    assert_eq!(all.len(), 13);
    assert_eq!(all[0], ResolutionPreset::R640x480);
    assert_eq!(all[12], ResolutionPreset::Custom);
    for (i, p) in all.iter().enumerate() {
        for q in &all[i + 1..] {
            assert_ne!(p, q);
        }
    }
}

#[test]
fn preset_names_and_dimensions() {
    assert_eq!(ResolutionPreset::R1920x1080.name(), "1920x1080 (Full HD 1080p)");
    assert_eq!(ResolutionPreset::Custom.name(), "Custom...");
    assert_eq!(ResolutionPreset::R1080x1920.dimensions(), Some((1080, 1920)));
    assert_eq!(ResolutionPreset::Custom.dimensions(), None);
    assert!(ResolutionPreset::Custom.is_custom());
    assert!(!ResolutionPreset::R640x480.is_custom());
    assert_eq!(ResolutionPreset::default(), ResolutionPreset::R1280x720);
}

#[test]
fn from_dimensions_inverts_dimensions() {
    for p in ResolutionPreset::all() {
        if let Some((w, h)) = p.dimensions() {
            assert_eq!(ResolutionPreset::from_dimensions(w, h), *p);
        }
    }
    assert_eq!(ResolutionPreset::from_dimensions(4096, 2160), ResolutionPreset::R4096x2160);
    assert_eq!(ResolutionPreset::from_dimensions(1234, 567), ResolutionPreset::Custom);
    assert_eq!(ResolutionPreset::from_dimensions(2160, 4096), ResolutionPreset::Custom);
}

#[test]
fn resolution_config_preset_and_custom() {
    let c = ResolutionConfig::new_preset(ResolutionPreset::R2560x1440);
    assert_eq!(c.dimensions(), (2560, 1440));
    assert_eq!(c.display_string(), "2560x1440");
    let custom = ResolutionConfig::new_preset(ResolutionPreset::Custom);
    assert_eq!((custom.custom_width, custom.custom_height), (1280, 720));
    let c2 = ResolutionConfig::new_custom(1000, 500);
    assert_eq!(c2.width(), 1000);
    assert_eq!(c2.height(), 500);
    assert_eq!(c2.display_string(), "1000x500 (Custom)");
    assert_eq!(ResolutionConfig::new_custom(0, 10).display_string(), "0x10 (Custom)");
    assert_eq!(
        ResolutionConfig::new_custom(u32::MAX, 7).display_string(),
        "4294967295x7 (Custom)"
    );
}

#[test]
fn set_dimensions_then_set_preset() {
    let mut c = ResolutionConfig::default();
    assert_eq!(c.dimensions(), (1280, 720));
    c.set_dimensions(1920, 1080);
    // Matching a preset's size still leaves the configuration Custom.
    assert_eq!(c.preset, ResolutionPreset::Custom);
    assert_eq!(c.dimensions(), (1920, 1080));
    assert_eq!(c.display_string(), "1920x1080 (Custom)");
    c.set_preset(ResolutionPreset::R800x600);
    assert_eq!(c.dimensions(), (800, 600));
    assert_eq!((c.custom_width, c.custom_height), (800, 600));
    c.set_preset(ResolutionPreset::Custom);
    assert_eq!(c.dimensions(), (800, 600));
}

#[test]
fn resolution_settings_default() {
    let s = ResolutionSettings::default();
    assert_eq!(s.input.dimensions(), (1280, 720));
    assert_eq!(s.internal.dimensions(), (1280, 720));
    assert_eq!(s.output.dimensions(), (1920, 1080));
}

#[test]
fn tab_names_and_titles() {
    assert_eq!(TabId::Block1Ch2MixKey.display_name(), "CH2 Mix & Key");
    assert_eq!(TabId::Block3B1Reprocess.window_title(), "Block 1 Re-process");
    assert_eq!(TabId::Settings.window_title(), TabId::Settings.display_name());
}

#[test]
fn popped_tabs_cascade_and_toggle() {
    let mut p = PoppedTabs::new();
    assert_eq!(p.pop_tab(TabId::Inputs), Some(0));
    assert_eq!(p.pop_tab(TabId::Macros), Some(1));
    assert_eq!(p.pop_tab(TabId::Inputs), None);
    assert_eq!(p.len(), 2);
    assert_eq!(p.toggle_popped(TabId::Inputs), None);
    assert!(!p.is_popped(TabId::Inputs));
    assert!(p.is_popped(TabId::Macros));
    assert_eq!(p.toggle_popped(TabId::Block3Lfo), Some(1));
    p.dock_tab(TabId::Settings);
    assert_eq!(p.len(), 2);
}

#[test]
fn configuration_defaults() {
    let o = WindowConfig::default_output();
    assert_eq!((o.width, o.height, o.x, o.fps), (1280, 720, Some(100), 60));
    assert_eq!(o.title, "RustJay Waaaves - Output");
    let c = WindowConfig::default_control();
    assert_eq!((c.width, c.height, c.x, c.resizable), (1920, 1080, None, true));
    assert_eq!(PipelineConfig::default().max_delay_frames, 120);
    let i = InputConfig::default();
    assert_eq!((i.input1_type, i.input2_device, i.input_width), (1, 1, 640));
    assert_eq!(NdiConfig::default().fps, 30);
}
