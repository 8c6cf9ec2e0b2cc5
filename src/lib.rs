//! Native runtime support for a board-automation desktop tool: supervision of
//! an external text-protocol engine, a latest-wins screen capture cache, and
//! scripted pointer sequences.
use vstd::prelude::*;

pub mod capture;
pub mod engine;
pub mod frame;
pub mod platform;
pub mod pointer;
pub mod text;

pub use capture::{CaptureResult, Capturer, CaptureLoop, WindowInfo, capture_window, get_window_info};
pub use engine::{EngineError, EngineStep, EngineSupervisor};
pub use frame::{CaptureError, FrameCache, LatestCapture, get_latest_capture_raw};
pub use pointer::{PointerOp, simulate_click, simulate_move};

verus! {

} // verus!
