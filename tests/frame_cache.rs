use base64::Engine;
use jieqibox_native::frame::{
    downscale_frame, drop_alpha, encode_capture, get_latest_container, RgbaFrame, CAPTURE_HEIGHT,
    CAPTURE_WIDTH,
};
use jieqibox_native::{get_latest_capture_raw, CaptureError, FrameCache, LatestCapture};

fn frame_filled(value: u8, ts: u64) -> LatestCapture {
    LatestCapture { buffer: vec![value; 640 * 640 * 3], width: 640, height: 640, ts }
}

#[test]
fn drop_alpha_keeps_red_green_blue() {
    let rgba = vec![1, 2, 3, 255, 4, 5, 6, 0];
    assert_eq!(drop_alpha(&rgba), vec![1, 2, 3, 4, 5, 6]);
}

#[test]
fn drop_alpha_of_nothing_is_nothing() {
    assert_eq!(drop_alpha(&Vec::new()), Vec::<u8>::new());
}

#[test]
fn downscale_full_hd_gives_fixed_resolution() {
    let frame = RgbaFrame { pixels: vec![200; 1920 * 1080 * 4], width: 1920, height: 1080 };
    let out = downscale_frame(frame, 42);
    assert_eq!((out.width, out.height), (640, 640));
    assert_eq!(out.buffer.len(), 640 * 640 * 3);
    assert_eq!(out.ts, 42);
    assert!(out.buffer.iter().all(|&b| b == 200));
}

#[test]
fn downscale_tiny_source_gives_fixed_resolution() {
    let frame = RgbaFrame { pixels: vec![10, 20, 30, 40, 10, 20, 30, 40], width: 2, height: 1 };
    let out = downscale_frame(frame, 7);
    assert_eq!((out.width, out.height), (CAPTURE_WIDTH, CAPTURE_HEIGHT));
    assert_eq!(out.buffer.len(), 640 * 640 * 3);
    assert_eq!(&out.buffer[0..3], &[10, 20, 30]);
    assert!(out.is_cacheable());
}

#[test]
fn downscale_empty_source_gives_fixed_resolution() {
    let frame = RgbaFrame { pixels: Vec::new(), width: 0, height: 0 };
    let out = downscale_frame(frame, 0);
    assert_eq!(out.buffer.len(), 640 * 640 * 3);
}

#[test]
fn get_latest_before_publish_is_no_capture_yet() {
    let cache = FrameCache::new();
    assert_eq!(get_latest_capture_raw(&cache), Err(CaptureError::NoCaptureYet));
    assert!(matches!(cache.snapshot(), Err(CaptureError::NoCaptureYet)));
    let container = get_latest_container();
    assert_eq!(get_latest_capture_raw(&container), Err(CaptureError::NoCaptureYet));
    assert_eq!(CaptureError::NoCaptureYet.message(), "no capture yet");
}

#[test]
fn get_latest_returns_last_of_many_publishes() {
    let mut cache = FrameCache::new();
    for i in 0..5u8 {
        cache.publish(frame_filled(i, i as u64 * 50));
    }
    let snap = cache.snapshot().unwrap();
    assert_eq!(snap.ts, 200);
    assert!(snap.buffer.iter().all(|&b| b == 4));
    let encoded = get_latest_capture_raw(&cache).unwrap();
    let decoded = base64::engine::general_purpose::STANDARD.decode(encoded).unwrap();
    assert_eq!(decoded, vec![4u8; 640 * 640 * 3]);
}

#[test]
fn encode_capture_is_padded_base64_of_pixels() {
    let mut frame = frame_filled(0, 1);
    frame.buffer[0] = 0xff;
    let text = encode_capture(&frame);
    assert_eq!(text.len(), 640 * 640 * 3 / 3 * 4);
    assert!(text.starts_with("/wAAAAAA"));
}

#[test]
fn well_formedness_checks_buffer_length() {
    let good = frame_filled(1, 0);
    assert!(good.is_well_formed() && good.is_cacheable());
    let short = LatestCapture { buffer: vec![0; 5], width: 640, height: 640, ts: 0 };
    assert!(!short.is_well_formed());
    let small = LatestCapture { buffer: vec![0; 12], width: 2, height: 2, ts: 0 };
    assert!(small.is_well_formed() && !small.is_cacheable());
}

#[test]
fn duplicate_copies_every_field() {
    let frame = frame_filled(9, 77);
    let copy = frame.duplicate();
    assert_eq!(copy.buffer, frame.buffer);
    assert_eq!((copy.width, copy.height, copy.ts), (640, 640, 77));
}
