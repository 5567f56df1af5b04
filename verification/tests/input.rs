use rustjay_waaaves::input::syphon_input::{SyphonDiscovery, SyphonServerInfo};
use rustjay_waaaves::input::{
    list_cameras, InputError, InputManager, InputSource, InputType, WebcamCapture,
};
use rustjay_waaaves::ipc::syphon_sys::ServerInfo;
use rustjay_waaaves::shared::InputChangeRequest;
use rustjay_waaaves::input::syphon_input::{discovery_due, server_listed, servers_from_directory};
use rustjay_waaaves::utils::frame_due;
use rustjay_waaaves::gui::{input_type_code, input_type_from_code, InputSelection};

#[test]
fn webcam_capture_is_not_built_in() {
    match WebcamCapture::new(0, 640, 480, 30) {
        Err(e) => assert_eq!(
            e.message(),
            "Webcam support not compiled. Enable the 'webcam' feature."
        ),
        Ok(_) => panic!("webcam capture cannot be opened"),
    }
    assert!(list_cameras().is_empty());
}

#[test]
fn new_source_is_idle() {
    let s = InputSource::new(InputType::Webcam);
    assert_eq!(s.get_type(), InputType::Webcam);
    assert_eq!(s.device_index, -1);
    assert_eq!(s.resolution, (640, 480));
    assert!(!s.is_active());
    assert!(!s.has_new_frame());
}

#[test]
fn start_webcam_fails_and_stops() {
    let mut s = InputSource::new(InputType::Disabled);
    s.start_ndi("cam".to_string(), Ok(())).unwrap();
    assert!(matches!(
        s.start_webcam(0, 1920, 1080, 30),
        Err(InputError::WebcamUnavailable)
    ));
    assert!(!s.is_active());
    assert_eq!(s.get_type(), InputType::Disabled);
    assert_eq!(s.ndi_source, None);
}

#[test]
fn ndi_frames_flow_through() {
    let mut s = InputSource::new(InputType::Disabled);
    // Frames before the start are ignored.
    s.update(Some((2, 2, vec![1; 16])));
    assert!(!s.has_new_frame());
    s.start_ndi("Studio".to_string(), Ok(())).unwrap();
    assert!(s.is_active());
    assert_eq!(s.get_type(), InputType::Ndi);
    assert_eq!(s.ndi_source.as_deref(), Some("Studio"));
    s.update(Some((3, 1, vec![9, 8, 7])));
    assert!(s.has_new_frame());
    assert_eq!(s.resolution, (3, 1));
    assert_eq!(s.take_frame(), Some(vec![9, 8, 7]));
    assert!(!s.has_new_frame());
    assert_eq!(s.take_frame(), None);
    s.stop();
    assert!(!s.is_active());
    assert_eq!(s.device_index, -1);
    assert_eq!(s.resolution, (3, 1));
}

#[test]
fn failed_ndi_start_reports_message() {
    let mut s = InputSource::new(InputType::Disabled);
    match s.start_ndi("Gone".to_string(), Err("no such source".to_string())) {
        Err(InputError::NdiStart(m)) => assert_eq!(m, "no such source"),
        other => panic!("unexpected {:?}", other),
    }
    assert!(!s.is_active());
    assert_eq!(s.ndi_source, None);
}

#[test]
fn input_manager_slots() {
    let mut m = InputManager::new();
    assert!(m.get_webcam_devices().is_empty());
    assert!(m.refresh_webcam_devices().is_empty());
    assert!(m.start_input1_webcam(0, 640, 480, 30).is_err());
    m.start_input2_ndi("B".to_string(), Ok(())).unwrap();
    m.update(Some((1, 1, vec![5])), Some((4, 4, vec![6, 6])));
    assert!(!m.input1_has_new_frame());
    assert!(m.input2_has_new_frame());
    assert_eq!(m.get_input2_frame(), Some(&[6u8, 6][..]));
    assert_eq!(m.get_input1_frame(), None);
    assert_eq!(m.get_input2_resolution(), (4, 4));
    assert_eq!(m.get_input1_resolution(), (640, 480));
    assert_eq!(m.take_input2_frame(), Some(vec![6, 6]));
    assert_eq!(m.take_input1_frame(), None);
    assert_eq!(m.get_input1_texture_id(), None);
    assert_eq!(m.get_input2_texture_id(), None);
    m.stop_input2();
    assert!(!m.input2.is_active());
    m.start_input1_ndi("A".to_string(), Ok(())).unwrap();
    m.stop_input1();
    assert!(!m.input1.is_active());
    assert!(m.start_input2_webcam(1, 640, 480, 30).is_err());
}

#[test]
fn syphon_input_test_discovery_creation() {
    let discovery = SyphonDiscovery::new();
    let servers = discovery.discover_servers();
    assert!(servers.is_empty());
}

#[test]
fn syphon_server_info_from_directory_entry() {
    let info = ServerInfo {
        name: "Out".to_string(),
        app_name: "App".to_string(),
        uuid: "id".to_string(),
        width: 1280,
        height: 720,
    };
    let s = SyphonServerInfo::from(info);
    assert_eq!(s.name, "Out");
    assert_eq!(s.app_name, "App");
    assert_eq!(s.uuid, "id");
    assert_eq!(s.dimensions, Some((1280, 720)));
    assert!(!SyphonDiscovery::new().is_server_available("Out"));
}

#[test]
fn change_requests_apply_to_their_slot() {
    let mut m = InputManager::new();
    m.start_input1_ndi("A".to_string(), Ok(())).unwrap();
    m.start_input2_ndi("B".to_string(), Ok(())).unwrap();
    assert!(m.apply_input1_request(InputChangeRequest::NoChange).is_ok());
    assert!(m.input1.is_active());
    assert!(m.apply_input2_request(InputChangeRequest::StopInput { input_id: 2 }).is_ok());
    assert!(!m.input2.is_active());
    assert!(m.input1.is_active());
    let start = InputChangeRequest::StartWebcam { input_id: 1, device_index: 0, width: 640, height: 480, fps: 30 };
    assert!(matches!(m.apply_input1_request(start), Err(InputError::WebcamUnavailable)));
    assert!(!m.input1.is_active());
}

#[test]
fn syphon_directory_conversion_keeps_order() {
    let entry = |n: &str| ServerInfo {
        name: n.to_string(),
        app_name: "App".to_string(),
        uuid: format!("id-{}", n),
        width: 10,
        height: 20,
    };
    let servers = servers_from_directory(vec![entry("a"), entry("b"), entry("c")]);
    let names: Vec<&str> = servers.iter().map(|s| s.name.as_str()).collect();
    assert_eq!(names, vec!["a", "b", "c"]);
    assert_eq!(servers[1].uuid, "id-b");
    assert_eq!(servers[2].dimensions, Some((10, 20)));
    assert!(server_listed(&servers, "b"));
    assert!(!server_listed(&servers, "d"));
}

#[test]
fn active_sources_are_webcam_or_ndi() {
    let mut s = InputSource::new(InputType::Spout);
    assert!(!s.is_active());
    s.start_ndi("n".to_string(), Ok(())).unwrap();
    assert!(s.is_active() && s.get_type() == InputType::Ndi);
    s.update(Some((1, 1, vec![0])));
    let _ = s.take_frame();
    assert!(s.is_active() && s.get_type() == InputType::Ndi);
    let _ = s.start_webcam(0, 1, 1, 1);
    assert!(!s.is_active());
}

#[test]
fn gui_input_selection() {
    assert_eq!(input_type_from_code(2), InputType::Ndi);
    assert_eq!(input_type_from_code(9), InputType::Disabled);
    assert_eq!(input_type_code(InputType::VideoFile), 4);
    let devices = vec!["cam0".to_string(), "cam1".to_string()];
    let mut sel = InputSelection::from_config(1, 1, 1, 5, devices);
    assert_eq!(sel.input1_type, InputType::Webcam);
    assert_eq!((sel.selected_webcam1, sel.selected_webcam2), (1, -1));
    assert_eq!(sel.saved_values(), (1, 1, 1, -1));
    let (a, b) = sel.auto_start_requests(true);
    assert_eq!(
        a,
        Some(InputChangeRequest::StartWebcam { input_id: 1, device_index: 1, width: 1280, height: 720, fps: 30 })
    );
    assert_eq!(b, None);
    assert_eq!(sel.auto_start_requests(false), (None, None));
    sel.refresh_devices(vec!["only".to_string()]);
    assert_eq!(sel.selected_webcam1, -1);
}

#[test]
fn input_panel_steps() {
    let mut sel = InputSelection::from_config(0, -1, 0, -1, vec!["cam".to_string()]);
    assert_eq!(sel.start_request1(), None);
    assert!(sel.choose_input1_type(InputType::Webcam));
    assert_eq!(sel.selected_webcam1, 0);
    assert!(!sel.choose_input1_type(InputType::Webcam));
    assert_eq!(
        sel.start_request1(),
        Some(InputChangeRequest::StartWebcam { input_id: 1, device_index: 0, width: 1280, height: 720, fps: 30 })
    );
    assert!(!sel.choose_webcam1(0));
    assert!(sel.choose_webcam1(-1));
    assert_eq!(sel.start_request1(), None);
    assert!(sel.choose_input2_type(InputType::Ndi));
    assert_eq!(sel.selected_webcam2, -1);
    assert_eq!(sel.start_request2(), None);
    assert!(sel.choose_webcam2(0));
    let mut empty = InputSelection::from_config(0, -1, 0, -1, vec![]);
    assert!(empty.choose_input1_type(InputType::Webcam));
    assert_eq!(empty.selected_webcam1, -1);
}

#[test]
fn time_decisions() {
    assert!(frame_due(16_666_667, 16_666_667));
    assert!(!frame_due(1, 2));
    assert!(discovery_due(None));
    assert!(!discovery_due(Some(5)));
    assert!(discovery_due(Some(6)));
}
