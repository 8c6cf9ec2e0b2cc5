//! Capture targets, one-off window captures, and the decisions of the
//! background capture loop.
//!
//! The loop itself (enumerating windows, grabbing pixels, sleeping) runs
//! outside the library; each iteration hands its result to
//! [`CaptureLoop::on_iteration`], which updates the cache and says how long
//! to sleep and what to log.
use vstd::prelude::*;
use crate::frame::{
    CaptureError, CaptureView, FrameCache, LatestCapture, RgbaFrame, after_publish, base64_of,
    base64_encode, drop_alpha, rgb_of,
};

verus! {

/// The pacing interval used when no frame rate is given.
pub const DEFAULT_INTERVAL_MS: u64 = 50;

/// The loop reports its state once more than this many whole seconds have
/// passed since its last report.
pub const LOG_PERIOD_SECS: u64 = 5;

/// A window that can be captured.
pub struct WindowInfo {
    pub id: u32,
    pub name: String,
    pub x: i32,
    pub y: i32,
    pub width: u32,
    pub height: u32,
    pub is_minimized: bool,
}

/// A one-off capture: the PNG image as base64 text, and its size.
pub struct CaptureResult {
    pub image_base64: String,
    pub width: u32,
    pub height: u32,
}

/// The first index in `windows` whose identifier is `window_id`.
pub fn find_window(windows: &Vec<WindowInfo>, window_id: u32) -> (r: Option<usize>)
    ensures
        r is None ==> forall|i: int| 0 <= i < windows@.len() ==> #[trigger] windows@[i].id
            != window_id,
        r is Some ==> r->Some_0 < windows@.len() && windows@[r->Some_0 as int].id == window_id
            && forall|i: int| 0 <= i < r->Some_0 ==> #[trigger] windows@[i].id != window_id,
{
    let mut i: usize = 0;
    while i < windows.len()
        invariant
            i <= windows@.len(),
            forall|k: int| 0 <= k < i ==> #[trigger] windows@[k].id != window_id,
        decreases windows@.len() - i,
    {
        if windows[i].id == window_id {
            return Some(i);
        }
        i = i + 1;
    }
    None
}

/// The description of the window `window_id` among `windows` (the first one
/// with that identifier), or `WindowNotFound`.
pub fn get_window_info(windows: Vec<WindowInfo>, window_id: u32) -> (r: Result<
    WindowInfo,
    CaptureError,
>)
    ensures
        (exists|i: int| 0 <= i < windows@.len() && #[trigger] windows@[i].id == window_id)
            ==> exists|i: int|
            0 <= i < windows@.len() && r == Ok::<WindowInfo, CaptureError>(#[trigger] windows@[i])
                && forall|k: int| 0 <= k < i ==> #[trigger] windows@[k].id != window_id,
        (forall|i: int| 0 <= i < windows@.len() ==> #[trigger] windows@[i].id != window_id) ==> r
            == Err::<WindowInfo, CaptureError>(CaptureError::WindowNotFound),
{
    let mut windows = windows;
    match find_window(&windows, window_id) {
        Some(i) => Ok(windows.remove(i)),
        None => Err(CaptureError::WindowNotFound),
    }
}

#[verifier::external_type_specification]
#[verifier::external_body]
pub struct ExImageError(image::ImageError);

/// The PNG file that the image library writes for RGB pixels of the given
/// size, or `None` where its encoder refuses them.
pub uninterp spec fn png_of(rgb: Seq<u8>, width: u32, height: u32) -> Option<Seq<u8>>;

/// Relies on `image::ImageBuffer::write_to` with `ImageFormat::Png`, writing
/// an RGB8 image into memory. What it writes depends on the pixels and the
/// size alone. Like every `Vec`, the result holds at most `isize::MAX` bytes.
#[verifier::external_body]
fn encode_png(rgb: Vec<u8>, width: u32, height: u32) -> (r: Result<Vec<u8>, image::ImageError>)
    requires
        rgb@.len() == width as int * height as int * 3,
    ensures
        r is Ok == png_of(rgb@, width, height) is Some,
        r is Ok ==> r->Ok_0@ == png_of(rgb@, width, height)->Some_0,
        r is Ok ==> r->Ok_0@.len() <= isize::MAX,
{
    let image = image::RgbImage::from_raw(width, height, rgb).expect("width * height pixels");
    let mut png: Vec<u8> = Vec::new();
    image.write_to(&mut std::io::Cursor::new(&mut png), image::ImageFormat::Png)?;
    Ok(png)
}

/// A one-off capture of `frame` for display: its alpha channel is dropped,
/// the pixels are written as PNG, and the PNG is given as base64 text with
/// the frame's own size. Fails with `Encode` where the encoder refuses.
pub fn capture_window(frame: RgbaFrame) -> (r: Result<CaptureResult, CaptureError>)
    requires
        frame.wf(),
    ensures
        png_of(rgb_of(frame.pixels@), frame.width, frame.height) is None ==> r is Err && r->Err_0 is Encode,
        png_of(rgb_of(frame.pixels@), frame.width, frame.height) is Some ==> r is Ok
            && r->Ok_0.image_base64@ == base64_of(
            png_of(rgb_of(frame.pixels@), frame.width, frame.height)->Some_0,
        ) && r->Ok_0.width == frame.width && r->Ok_0.height == frame.height,
{
    let rgb = drop_alpha(&frame.pixels);
    match encode_png(rgb, frame.width, frame.height) {
        Ok(png) => {
            let image_base64 = base64_encode(png.as_slice());
            Ok(CaptureResult { image_base64, width: frame.width, height: frame.height })
        },
        Err(e) => Err(CaptureError::Encode(e.to_string())),
    }
}

/// The pacing interval for `fps` frames a second; zero means the default.
pub open spec fn interval_for(fps: u32) -> u64 {
    if fps == 0 {
        DEFAULT_INTERVAL_MS
    } else {
        (1000u32 / fps) as u64
    }
}

/// The pacing interval in milliseconds for `fps` frames a second.
pub fn frame_interval_ms(fps: u32) -> (r: u64)
    ensures
        r == interval_for(fps),
{
    if fps == 0 {
        DEFAULT_INTERVAL_MS
    } else {
        (1000 / fps) as u64
    }
}

/// How long to sleep after an iteration that took `elapsed_ms`: what is left
/// of the interval, or nothing when the iteration overran it.
pub open spec fn pacing_for(interval_ms: u64, elapsed_ms: u64) -> u64 {
    if elapsed_ms < interval_ms {
        (interval_ms - elapsed_ms) as u64
    } else {
        0
    }
}

/// The sleep that paces the loop to `interval_ms`.
pub fn pacing_delay_ms(interval_ms: u64, elapsed_ms: u64) -> (r: u64)
    ensures
        r == pacing_for(interval_ms, elapsed_ms),
{
    if elapsed_ms < interval_ms {
        interval_ms - elapsed_ms
    } else {
        0
    }
}

/// The target and pacing of the capture session.
#[derive(Clone, Copy, Debug, PartialEq, Eq, Structural)]
pub struct CaptureSession {
    pub target: u32,
    pub fps: u32,
    pub interval_ms: u64,
}

/// The session that a start request for `target` at `fps` records.
pub open spec fn session_for(target: u32, fps: u32) -> CaptureSession {
    CaptureSession { target, fps, interval_ms: interval_for(fps) }
}

/// Records whether the capture session runs; it starts at most once.
pub struct Capturer {
    session: Option<CaptureSession>,
}

impl View for Capturer {
    type V = Option<CaptureSession>;

    closed spec fn view(&self) -> Option<CaptureSession> {
        self.session
    }
}

/// Whether a start request launches a loop while the session is `session`.
pub open spec fn start_launches(session: Option<CaptureSession>) -> bool {
    session is None
}

/// The session after a start request for `target` at `fps`: unchanged when
/// one already runs.
pub open spec fn after_start(session: Option<CaptureSession>, target: u32, fps: u32) -> Option<
    CaptureSession,
> {
    if session is None {
        Some(session_for(target, fps))
    } else {
        session
    }
}

/// The session after the start requests `requests`, in order.
pub open spec fn after_starts(session: Option<CaptureSession>, requests: Seq<(u32, u32)>) -> Option<
    CaptureSession,
>
    decreases requests.len(),
{
    if requests.len() == 0 {
        session
    } else {
        let prior = after_starts(session, requests.drop_last());
        after_start(prior, requests.last().0, requests.last().1)
    }
}

/// How many of the start requests `requests` launch a loop.
pub open spec fn launches(session: Option<CaptureSession>, requests: Seq<(u32, u32)>) -> nat
    decreases requests.len(),
{
    if requests.len() == 0 {
        0
    } else {
        let prior = after_starts(session, requests.drop_last());
        launches(session, requests.drop_last()) + if start_launches(prior) {
            1nat
        } else {
            0nat
        }
    }
}

/// What the loop reports in its periodic log line.
#[derive(Clone, Copy, Debug, PartialEq, Eq, Structural)]
pub enum LoopReport {
    /// The target window was not found in this iteration.
    TargetMissing(u32),
    /// The loop is capturing at this target frame rate.
    Running(u32),
}

/// What the loop does after an iteration: log, if a report is due, and sleep.
#[derive(Clone, Copy, Debug, PartialEq, Eq, Structural)]
pub struct IterationOutcome {
    pub report: Option<LoopReport>,
    pub sleep_ms: u64,
}

/// The cache slot after an iteration that captured `frame`, or nothing.
pub open spec fn after_iteration(slot: Option<CaptureView>, frame: Option<CaptureView>) -> Option<
    CaptureView,
> {
    match frame {
        Some(f) => after_publish(slot, f),
        None => slot,
    }
}

/// Whether a report is due at `now_ms` after the last one at `last_ms`: more
/// than the log period, counted in whole seconds, has passed.
pub open spec fn report_due(last_ms: u64, now_ms: u64) -> bool {
    now_ms >= last_ms && (now_ms - last_ms) / 1000 > LOG_PERIOD_SECS
}

/// The state of the running capture loop.
pub struct CaptureLoop {
    session: CaptureSession,
    last_log_ms: u64,
}

impl CaptureLoop {
    /// The session this loop serves.
    pub closed spec fn spec_session(&self) -> CaptureSession {
        self.session
    }

    /// When the loop last reported, on the session clock.
    pub closed spec fn spec_last_log_ms(&self) -> u64 {
        self.last_log_ms
    }

    /// The session this loop serves.
    pub fn session(&self) -> (r: CaptureSession)
        ensures
            r == self.spec_session(),
    {
        self.session
    }

    /// Ends an iteration at `now_ms` that took `elapsed_ms` and captured
    /// `frame`, or nothing when the target was missing. A captured frame
    /// replaces the cached one; a missing target leaves the cache as it was.
    /// The loop never ends: the outcome only says what to log and how long
    /// to sleep.
    pub fn on_iteration(
        &mut self,
        cache: &mut FrameCache,
        frame: Option<LatestCapture>,
        now_ms: u64,
        elapsed_ms: u64,
    ) -> (r: IterationOutcome)
        requires
            frame is Some ==> frame->Some_0@.cacheable(),
        ensures
            final(cache)@ == after_iteration(
                old(cache)@,
                match frame {
                    Some(f) => Some(f@),
                    None => None,
                },
            ),
            r.sleep_ms == pacing_for(old(self).spec_session().interval_ms, elapsed_ms),
            final(self).spec_session() == old(self).spec_session(),
            report_due(old(self).spec_last_log_ms(), now_ms) ==> r.report == Some(
                if frame is Some {
                    LoopReport::Running(old(self).spec_session().fps)
                } else {
                    LoopReport::TargetMissing(old(self).spec_session().target)
                },
            ) && final(self).spec_last_log_ms() == now_ms,
            !report_due(old(self).spec_last_log_ms(), now_ms) ==> r.report is None
                && final(self).spec_last_log_ms() == old(self).spec_last_log_ms(),
    {
        let captured = frame.is_some();
        match frame {
            Some(f) => cache.publish(f),
            None => {},
        }
        let due = now_ms >= self.last_log_ms && (now_ms - self.last_log_ms) / 1000 > LOG_PERIOD_SECS;
        let report = if due {
            self.last_log_ms = now_ms;
            if captured {
                Some(LoopReport::Running(self.session.fps))
            } else {
                Some(LoopReport::TargetMissing(self.session.target))
            }
        } else {
            None
        };
        IterationOutcome { report, sleep_ms: pacing_delay_ms(self.session.interval_ms, elapsed_ms) }
    }
}

impl Capturer {
    /// No session runs yet.
    pub fn new() -> (r: Capturer)
        ensures
            r@ is None,
    {
        Capturer { session: None }
    }

    /// Whether a session runs.
    pub fn is_running(&self) -> (r: bool)
        ensures
            r == self@ is Some,
    {
        self.session.is_some()
    }

    /// Starts capturing `window_id` at `fps` frames a second, `now_ms` on the
    /// session clock. When a session already runs the request succeeds
    /// without starting a second loop and `None` comes back; otherwise the
    /// new loop's state comes back, for the caller to run.
    pub fn init_capturer(&mut self, window_id: u32, fps: u32, now_ms: u64) -> (r: Option<
        CaptureLoop,
    >)
        ensures
            final(self)@ == after_start(old(self)@, window_id, fps),
            r is Some == start_launches(old(self)@),
            r is Some ==> r->Some_0.spec_session() == session_for(window_id, fps)
                && r->Some_0.spec_last_log_ms() == now_ms,
    {
        if self.session.is_some() {
            None
        } else {
            let session = CaptureSession {
                target: window_id,
                fps,
                interval_ms: frame_interval_ms(fps),
            };
            self.session = Some(session);
            Some(CaptureLoop { session, last_log_ms: now_ms })
        }
    }
}

/// Starting is idempotent: however many start requests come, with the same
/// target or not, at most one of them launches a loop, and none does when a
/// session already runs.
pub proof fn lemma_single_capture_loop(session: Option<CaptureSession>, requests: Seq<(u32, u32)>)
    ensures
        launches(session, requests) <= 1,
        session is Some ==> launches(session, requests) == 0,
        requests.len() > 0 && launches(session, requests) == 1 ==> after_starts(session, requests)
            is Some,
    decreases requests.len(),
{
    if requests.len() > 0 {
        lemma_single_capture_loop(session, requests.drop_last());
        lemma_starts_keep_running(session, requests.drop_last());
    }
}

proof fn lemma_starts_keep_running(session: Option<CaptureSession>, requests: Seq<(u32, u32)>)
    ensures
        launches(session, requests) > 0 || session is Some ==> after_starts(session, requests) is Some,
        launches(session, requests) == 0 ==> after_starts(session, requests) == session,
    decreases requests.len(),
{
    if requests.len() > 0 {
        lemma_starts_keep_running(session, requests.drop_last());
    }
}

/// A capture iteration whose target is missing leaves the cached frame as it
/// was: a frame cached before stays retrievable, whole and unchanged.
pub proof fn lemma_missing_target_keeps_frame(slot: Option<CaptureView>)
    ensures
        after_iteration(slot, None) == slot,
        slot is Some ==> after_iteration(slot, None) == Some(slot->Some_0),
{
}

} // verus!
