use base64::Engine;
use jieqibox_native::capture::{
    find_window, frame_interval_ms, pacing_delay_ms, IterationOutcome, LoopReport,
};
use jieqibox_native::frame::RgbaFrame;
use jieqibox_native::{
    capture_window, get_window_info, CaptureError, Capturer, FrameCache, LatestCapture,
    WindowInfo,
};

fn window(id: u32, name: &str) -> WindowInfo {
    WindowInfo {
        id,
        name: name.to_string(),
        x: 0,
        y: 0,
        width: 800,
        height: 600,
        is_minimized: false,
    }
}

fn frame_filled(value: u8, ts: u64) -> LatestCapture {
    LatestCapture { buffer: vec![value; 640 * 640 * 3], width: 640, height: 640, ts }
}

#[test]
fn interval_follows_frame_rate() {
    assert_eq!(frame_interval_ms(0), 50);
    assert_eq!(frame_interval_ms(20), 50);
    assert_eq!(frame_interval_ms(30), 33);
    assert_eq!(frame_interval_ms(1000), 1);
    assert_eq!(frame_interval_ms(2000), 0);
}

#[test]
fn pacing_sleeps_the_rest_of_the_interval() {
    assert_eq!(pacing_delay_ms(50, 20), 30);
    assert_eq!(pacing_delay_ms(50, 50), 0);
    assert_eq!(pacing_delay_ms(50, 80), 0);
}

#[test]
fn second_start_does_not_launch_another_loop() {
    let mut capturer = Capturer::new();
    assert!(!capturer.is_running());
    let first = capturer.init_capturer(7, 10, 0);
    assert!(first.is_some());
    assert_eq!(first.unwrap().session().interval_ms, 100);
    assert!(capturer.init_capturer(7, 10, 5).is_none());
    assert!(capturer.init_capturer(8, 30, 9).is_none());
    assert!(capturer.is_running());
}

#[test]
fn iteration_publishes_captured_frame() {
    let mut capturer = Capturer::new();
    let mut lp = capturer.init_capturer(1, 20, 0).unwrap();
    let mut cache = FrameCache::new();
    let out = lp.on_iteration(&mut cache, Some(frame_filled(3, 10)), 10, 12);
    assert_eq!(out, IterationOutcome { report: None, sleep_ms: 38 });
    assert_eq!(cache.snapshot().unwrap().ts, 10);
}

#[test]
fn missing_target_keeps_last_frame_and_loop() {
    let mut capturer = Capturer::new();
    let mut lp = capturer.init_capturer(1, 20, 0).unwrap();
    let mut cache = FrameCache::new();
    lp.on_iteration(&mut cache, Some(frame_filled(6, 100)), 100, 5);
    for t in 1..10u64 {
        let out = lp.on_iteration(&mut cache, None, 100 + t * 50, 60);
        assert_eq!(out.sleep_ms, 0);
    }
    let snap = cache.snapshot().unwrap();
    assert_eq!(snap.ts, 100);
    assert!(snap.buffer.iter().all(|&b| b == 6));
    assert_eq!(snap.buffer.len(), 640 * 640 * 3);
}

#[test]
fn reports_come_after_more_than_five_whole_seconds() {
    let mut capturer = Capturer::new();
    let mut lp = capturer.init_capturer(4, 25, 1000).unwrap();
    let mut cache = FrameCache::new();
    assert_eq!(lp.on_iteration(&mut cache, None, 6999, 0).report, None);
    assert_eq!(
        lp.on_iteration(&mut cache, None, 7000, 0).report,
        Some(LoopReport::TargetMissing(4))
    );
    assert_eq!(lp.on_iteration(&mut cache, None, 12000, 0).report, None);
    assert_eq!(
        lp.on_iteration(&mut cache, Some(frame_filled(1, 13000)), 13000, 0).report,
        Some(LoopReport::Running(25))
    );
}

#[test]
fn window_lookup_takes_first_match() {
    let windows = vec![window(1, "a"), window(2, "board"), window(2, "other")];
    assert_eq!(find_window(&windows, 2), Some(1));
    assert_eq!(find_window(&windows, 9), None);
    let info = get_window_info(windows, 2).unwrap();
    assert_eq!(info.name, "board");
}

#[test]
fn window_lookup_reports_missing_window() {
    let windows = vec![window(1, "a")];
    assert!(matches!(get_window_info(windows, 5), Err(CaptureError::WindowNotFound)));
    assert_eq!(CaptureError::WindowNotFound.message(), "Window not found");
}

#[test]
fn capture_window_gives_png_as_base64() {
    let frame = RgbaFrame { pixels: vec![255, 0, 0, 255, 0, 255, 0, 128], width: 2, height: 1 };
    let result = capture_window(frame).unwrap();
    assert_eq!((result.width, result.height), (2, 1));
    let png = base64::engine::general_purpose::STANDARD.decode(&result.image_base64).unwrap();
    assert_eq!(&png[0..8], &[0x89, b'P', b'N', b'G', 0x0d, 0x0a, 0x1a, 0x0a]);
    let image = image::load_from_memory(&png).unwrap().to_rgb8();
    assert_eq!(image.into_raw(), vec![255, 0, 0, 0, 255, 0]);
}

#[test]
fn capture_window_of_empty_image_is_an_encode_error() {
    let frame = RgbaFrame { pixels: Vec::new(), width: 0, height: 0 };
    let result = capture_window(frame);
    assert!(matches!(result, Err(CaptureError::Encode(_))));
}
