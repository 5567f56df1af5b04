use rustjay_waaaves::output::{rgba_to_bgra, BufferState, ReadbackBuffers};

#[test]
fn test_buffer_state() {
    assert_ne!(BufferState::Free, BufferState::InFlight);
}

#[test]
fn test_rgba_to_bgra_conversion() {
    // Red pixel in RGBA
    let rgba = vec![255, 0, 0, 255];
    let bgra = rgba_to_bgra(&rgba);

    assert_eq!(bgra[0], 0); // B
    assert_eq!(bgra[1], 0); // G
    assert_eq!(bgra[2], 255); // R
    assert_eq!(bgra[3], 255); // A
}

#[test]
fn rgba_to_bgra_twice_is_identity() {
    let rgba: Vec<u8> = (0u8..16).collect();
    let once = rgba_to_bgra(&rgba);
    assert_eq!(once, vec![2, 1, 0, 3, 6, 5, 4, 7, 10, 9, 8, 11, 14, 13, 12, 15]);
    assert_eq!(rgba_to_bgra(&once), rgba);
}

#[test]
fn rgba_to_bgra_zeroes_partial_pixel() {
    assert_eq!(rgba_to_bgra(&[1, 2, 3, 4, 5, 6]), vec![3, 2, 1, 4, 0, 0]);
    assert_eq!(rgba_to_bgra(&[7, 8, 9]), vec![0, 0, 0]);
    assert!(rgba_to_bgra(&[]).is_empty());
}

#[test]
fn readback_buffers_hand_out_in_order() {
    let mut buffers = ReadbackBuffers::new(3);
    assert_eq!(buffers.len(), 3);
    assert_eq!(buffers.free_buffer_count(), 3);
    assert!(!buffers.is_overloaded());
    assert_eq!(buffers.acquire_buffer(), Some(0));
    assert_eq!(buffers.acquire_buffer(), Some(1));
    assert_eq!(buffers.free_buffer_count(), 1);
    assert_eq!(buffers.acquire_buffer(), Some(2));
    assert!(buffers.is_overloaded());
    assert_eq!(buffers.free_buffer_count(), 0);
    assert_eq!(buffers.acquire_buffer(), None);
    buffers.release_buffer(1);
    assert_eq!(buffers.state(1), BufferState::Free);
    assert!(!buffers.is_overloaded());
    assert_eq!(buffers.acquire_buffer(), Some(1));
    buffers.release_buffer(7);
    assert_eq!(buffers.free_buffer_count(), 0);
}

#[test]
fn readback_buffers_acquire_release_restores() {
    let mut buffers = ReadbackBuffers::new(2);
    let i = buffers.acquire_buffer().unwrap();
    buffers.release_buffer(i);
    assert_eq!(buffers.free_buffer_count(), 2);
    assert_eq!(buffers.state(0), BufferState::Free);
    assert_eq!(buffers.state(1), BufferState::Free);
}

#[test]
fn empty_readback_set_is_overloaded() {
    let mut buffers = ReadbackBuffers::new(0);
    assert!(buffers.is_overloaded());
    assert_eq!(buffers.free_buffer_count(), 0);
    assert_eq!(buffers.acquire_buffer(), None);
}
