//! Captured frames and the single-slot cache that holds the newest one.
//!
//! A raw capture arrives as RGBA pixels of any size. It is resampled to a fixed
//! resolution, its alpha channel is dropped, and the result replaces whatever
//! the cache held before: readers only ever see the newest frame, whole.
use vstd::prelude::*;

verus! {

/// Width of every cached frame, in pixels.
pub const CAPTURE_WIDTH: u32 = 640;

/// Height of every cached frame, in pixels.
pub const CAPTURE_HEIGHT: u32 = 640;

/// Bytes per pixel of a cached frame (red, green, blue).
pub const RGB_CHANNELS: u32 = 3;

/// Why a capture query or a capture could not give a result.
#[derive(Debug, PartialEq, Eq)]
pub enum CaptureError {
    /// Nothing has been published to the cache yet.
    NoCaptureYet,
    /// No capture target with the requested identifier exists right now.
    WindowNotFound,
    /// The image encoder refused the frame; the text is its message.
    Encode(String),
}

impl CaptureError {
    /// The message shown to the user interface.
    pub fn message(&self) -> (r: String)
        ensures
            *self == CaptureError::NoCaptureYet ==> r@ == "no capture yet"@,
            *self == CaptureError::WindowNotFound ==> r@ == "Window not found"@,
            self is Encode ==> r@ == self->Encode_0@,
    {
        match self {
            CaptureError::NoCaptureYet => String::from_str("no capture yet"),
            CaptureError::WindowNotFound => String::from_str("Window not found"),
            CaptureError::Encode(m) => m.clone(),
        }
    }
}

/// An RGBA image as the capture source delivers it: row-major, four bytes a
/// pixel.
pub struct RgbaFrame {
    pub pixels: Vec<u8>,
    pub width: u32,
    pub height: u32,
}

impl RgbaFrame {
    /// The pixel buffer holds exactly `width * height` pixels.
    pub open spec fn wf(&self) -> bool {
        self.pixels@.len() == self.width as int * self.height as int * 4
    }

    /// Resampling to the cache resolution needs a scratch image of `width` by
    /// `CAPTURE_HEIGHT` pixels of four `f32` channels, which must fit in memory.
    pub open spec fn fits_resampling(&self) -> bool {
        self.width as int * CAPTURE_HEIGHT as int * 16 <= isize::MAX
    }

    /// Whether [`Self::fits_resampling`] holds.
    pub fn can_resample(&self) -> (r: bool)
        ensures
            r == self.fits_resampling(),
    {
        let w = self.width as u128;
        proof {
            assert(w * 640 * 16 <= 0xffff_ffffu128 * 640 * 16) by (nonlinear_arith)
                requires
                    w <= 0xffff_ffffu128,
            ;
        }
        w * (CAPTURE_HEIGHT as u128) * 16 <= isize::MAX as u128
    }
}

/// The newest downscaled frame: row-major RGB pixels, its size, and the time
/// of its capture in milliseconds on the capture session's clock.
pub struct LatestCapture {
    pub buffer: Vec<u8>,
    pub width: u32,
    pub height: u32,
    pub ts: u64,
}

/// What a [`LatestCapture`] holds, as plain values.
pub struct CaptureView {
    pub buffer: Seq<u8>,
    pub width: u32,
    pub height: u32,
    pub ts: u64,
}

impl CaptureView {
    /// The buffer holds exactly `width * height` RGB pixels.
    pub open spec fn wf(&self) -> bool {
        self.buffer.len() == self.width as int * self.height as int * RGB_CHANNELS as int
    }

    /// A well-formed frame of the fixed cache resolution.
    pub open spec fn cacheable(&self) -> bool {
        &&& self.wf()
        &&& self.width == CAPTURE_WIDTH
        &&& self.height == CAPTURE_HEIGHT
    }
}

impl View for LatestCapture {
    type V = CaptureView;

    open spec fn view(&self) -> CaptureView {
        CaptureView { buffer: self.buffer@, width: self.width, height: self.height, ts: self.ts }
    }
}

impl LatestCapture {
    /// Whether the buffer holds exactly `width * height` RGB pixels.
    pub fn is_well_formed(&self) -> (r: bool)
        ensures
            r == self@.wf(),
    {
        let w = self.width as u128;
        let h = self.height as u128;
        proof {
            assert(w * h * 3 <= 0xffff_ffffu128 * 0xffff_ffffu128 * 3) by (nonlinear_arith)
                requires
                    w <= 0xffff_ffffu128,
                    h <= 0xffff_ffffu128,
            ;
        }
        let expected = w * h * (RGB_CHANNELS as u128);
        self.buffer.len() as u128 == expected
    }

    /// Whether the frame is well formed and of the fixed cache resolution.
    pub fn is_cacheable(&self) -> (r: bool)
        ensures
            r == self@.cacheable(),
    {
        self.width == CAPTURE_WIDTH && self.height == CAPTURE_HEIGHT && self.is_well_formed()
    }

    /// A copy of the frame, field for field.
    pub fn duplicate(&self) -> (r: LatestCapture)
        ensures
            r@ == self@,
    {
        let buffer = self.buffer.clone();
        assert(buffer@ =~= self.buffer@);
        LatestCapture { buffer, width: self.width, height: self.height, ts: self.ts }
    }
}

/// The RGB bytes of RGBA pixels: each pixel's alpha byte is left out.
pub open spec fn rgb_of(rgba: Seq<u8>) -> Seq<u8> {
    Seq::new((rgba.len() / 4) * 3, |j: int| rgba[(j / 3) * 4 + j % 3])
}

/// Drops the alpha byte of every pixel of an RGBA buffer.
pub fn drop_alpha(rgba: &Vec<u8>) -> (rgb: Vec<u8>)
    ensures
        rgb@ == rgb_of(rgba@),
{
    let n: usize = rgba.len();
    let pixels: usize = n / 4;
    let mut rgb: Vec<u8> = Vec::new();
    let mut p: usize = 0;
    while p < pixels
        invariant
            n == rgba@.len(),
            pixels == n / 4,
            p <= pixels,
            rgb@.len() == 3 * p,
            forall|j: int| 0 <= j < 3 * p ==> rgb@[j] == rgba@[(j / 3) * 4 + j % 3],
        decreases pixels - p,
    {
        assert(4 * p + 4 <= n);
        let base: usize = 4 * p;
        rgb.push(rgba[base]);
        rgb.push(rgba[base + 1]);
        rgb.push(rgba[base + 2]);
        assert forall|j: int| 0 <= j < 3 * p + 3 implies #[trigger] rgb@[j] == rgba@[(j / 3) * 4
            + j % 3] by {
            if j >= 3 * p {
                assert(j / 3 == p);
                assert(j % 3 == j - 3 * p);
            }
        }
        p = p + 1;
    }
    assert(rgb@ =~= rgb_of(rgba@));
    rgb
}

/// What the image library's triangle-filter resampling makes of an RGBA
/// buffer of `width` by `height` pixels at `new_width` by `new_height`.
pub uninterp spec fn triangle_resized(
    rgba: Seq<u8>,
    width: u32,
    height: u32,
    new_width: u32,
    new_height: u32,
) -> Seq<u8>;

/// Relies on `image::imageops::resize` with `FilterType::Triangle` (the
/// resampling that `DynamicImage::resize_exact` runs): it returns an RGBA
/// buffer of exactly the requested size. Its scratch image holds
/// `width * new_height` four-channel `f32` pixels, whence the bound.
#[verifier::external_body]
fn resize_rgba(rgba: Vec<u8>, width: u32, height: u32, new_width: u32, new_height: u32) -> (r: Vec<
    u8,
>)
    requires
        rgba@.len() == width as int * height as int * 4,
        width as int * new_height as int * 16 <= isize::MAX,
        new_width as int * new_height as int * 4 <= isize::MAX,
    ensures
        r@.len() == new_width as int * new_height as int * 4,
        r@ == triangle_resized(rgba@, width, height, new_width, new_height),
{
    let image = image::RgbaImage::from_raw(width, height, rgba).expect("width * height pixels");
    image::imageops::resize(&image, new_width, new_height, image::imageops::FilterType::Triangle)
        .into_raw()
}

/// The cached frame made of a raw capture taken at `ts`.
pub open spec fn downscaled(frame: Seq<u8>, width: u32, height: u32, ts: u64) -> CaptureView {
    CaptureView {
        buffer: rgb_of(triangle_resized(frame, width, height, CAPTURE_WIDTH, CAPTURE_HEIGHT)),
        width: CAPTURE_WIDTH,
        height: CAPTURE_HEIGHT,
        ts,
    }
}

/// Resamples a raw capture to the fixed cache resolution and drops its alpha
/// channel. The result has the fixed size whatever the source size was.
pub fn downscale_frame(frame: RgbaFrame, ts: u64) -> (r: LatestCapture)
    requires
        frame.wf(),
        frame.fits_resampling(),
    ensures
        r@ == downscaled(frame.pixels@, frame.width, frame.height, ts),
        r@.wf(),
        r.width == CAPTURE_WIDTH,
        r.height == CAPTURE_HEIGHT,
        r@.cacheable(),
{
    let RgbaFrame { pixels, width, height } = frame;
    let rgba = resize_rgba(pixels, width, height, CAPTURE_WIDTH, CAPTURE_HEIGHT);
    let buffer = drop_alpha(&rgba);
    LatestCapture { buffer, width: CAPTURE_WIDTH, height: CAPTURE_HEIGHT, ts }
}

/// The standard base64 text (RFC 4648 alphabet, padded) of `bytes`.
pub uninterp spec fn base64_of(bytes: Seq<u8>) -> Seq<char>;

/// Relies on `base64::Engine::encode` of the `STANDARD` engine: padded
/// base64, four characters for every started group of three bytes. It panics
/// when that length overflows `usize`.
#[verifier::external_body]
pub(crate) fn base64_encode(bytes: &[u8]) -> (r: String)
    requires
        (bytes@.len() + 2) / 3 * 4 <= usize::MAX,
    ensures
        r@ == base64_of(bytes@),
        r@.len() == (bytes@.len() + 2) / 3 * 4,
{
    base64::Engine::encode(&base64::engine::general_purpose::STANDARD, bytes)
}

/// The base64 text of a cached frame's pixel buffer.
pub fn encode_capture(capture: &LatestCapture) -> (r: String)
    requires
        capture@.cacheable(),
    ensures
        r@ == base64_of(capture.buffer@),
{
    base64_encode(capture.buffer.as_slice())
}

/// A single-slot, latest-wins holder of the newest cached frame. Every
/// publish replaces the slot whole; a reader sees one frame or none.
pub struct FrameCache {
    latest: Option<LatestCapture>,
}

impl View for FrameCache {
    type V = Option<CaptureView>;

    closed spec fn view(&self) -> Option<CaptureView> {
        match &self.latest {
            Some(c) => Some(c@),
            None => None,
        }
    }
}

/// The slot after publishing `frame`: the frame, whatever was there before.
pub open spec fn after_publish(slot: Option<CaptureView>, frame: CaptureView) -> Option<
    CaptureView,
> {
    Some(frame)
}

/// The slot after publishing `frames` in order, starting from `slot`.
pub open spec fn after_publishing(slot: Option<CaptureView>, frames: Seq<CaptureView>) -> Option<
    CaptureView,
>
    decreases frames.len(),
{
    if frames.len() == 0 {
        slot
    } else {
        after_publish(after_publishing(slot, frames.drop_last()), frames.last())
    }
}

impl FrameCache {
    /// Every cached frame is well formed and of the fixed cache resolution.
    #[verifier::type_invariant]
    spec fn holds_cacheable(&self) -> bool {
        match &self.latest {
            Some(c) => c@.cacheable(),
            None => true,
        }
    }

    /// An empty cache.
    pub fn new() -> (r: FrameCache)
        ensures
            r@ is None,
    {
        FrameCache { latest: None }
    }

    /// Replaces the cached frame with `frame`.
    pub fn publish(&mut self, frame: LatestCapture)
        requires
            frame@.cacheable(),
        ensures
            final(self)@ == after_publish(old(self)@, frame@),
    {
        self.latest = Some(frame);
    }

    /// A copy of the newest frame, or `NoCaptureYet` when nothing has been
    /// published.
    pub fn snapshot(&self) -> (r: Result<LatestCapture, CaptureError>)
        ensures
            self@ is None ==> r == Err::<LatestCapture, CaptureError>(CaptureError::NoCaptureYet),
            self@ is Some ==> r is Ok && r->Ok_0@ == self@->Some_0,
            r is Ok ==> r->Ok_0@.cacheable(),
    {
        proof {
            use_type_invariant(self);
        }
        match &self.latest {
            Some(c) => Ok(c.duplicate()),
            None => Err(CaptureError::NoCaptureYet),
        }
    }
}

/// A fresh, empty container for the latest capture.
pub fn get_latest_container() -> (r: FrameCache)
    ensures
        r@ is None,
{
    FrameCache::new()
}

/// The newest frame's pixels as base64 text, or `NoCaptureYet` when nothing
/// has been published. The copy is taken first and encoded afterwards, so a
/// caller that holds the cache behind a lock can release it in between.
pub fn get_latest_capture_raw(cache: &FrameCache) -> (r: Result<String, CaptureError>)
    ensures
        cache@ is None ==> r is Err && r->Err_0 == CaptureError::NoCaptureYet,
        cache@ is Some ==> r is Ok && r->Ok_0@ == base64_of(cache@->Some_0.buffer),
{
    match cache.snapshot() {
        Ok(c) => Ok(encode_capture(&c)),
        Err(e) => Err(e),
    }
}

/// Latest wins: after any nonempty run of publishes, the cache holds exactly
/// the last frame published, with its own pixels, size and timestamp, and
/// nothing of the frames before it.
pub proof fn lemma_latest_wins(slot: Option<CaptureView>, frames: Seq<CaptureView>)
    requires
        frames.len() > 0,
    ensures
        after_publishing(slot, frames) == Some(frames.last()),
{
}

} // verus!
