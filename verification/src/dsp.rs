//! Signal-processing building blocks shared with the audio thread: the
//! filter kinds, and the lock-free meter values handed from the audio
//! thread to the UI.
use vstd::prelude::*;
use std::sync::atomic::{AtomicU32, Ordering};

verus! {

/// Biquad filter response.
#[derive(Debug, Clone, Copy, PartialEq, Eq, Structural)]
pub enum FilterType {
    Peaking,
}

/// Lock-free meter values for audio→UI thread handoff.  Each level is kept
/// as the bit pattern of an `f32`.
///
/// Another thread may store between any two calls, so nothing is promised
/// about which values a load returns.
pub struct AtomicMeter {
    peak_l: AtomicU32,
    peak_r: AtomicU32,
    rms_l: AtomicU32,
    rms_r: AtomicU32,
    /// Detected BPM from onset detection (fixed-point ×100), 0 = not yet detected.
    pub detected_bpm: AtomicU32,
}

impl AtomicMeter {
    /// All levels at zero (the bit pattern of `0.0`), no BPM detected.
    pub fn new() -> Self {
        AtomicMeter {
            peak_l: AtomicU32::new(0),
            peak_r: AtomicU32::new(0),
            rms_l: AtomicU32::new(0),
            rms_r: AtomicU32::new(0),
            detected_bpm: AtomicU32::new(0),
        }
    }

    /// Publish the peak and RMS levels of both sides (as `f32` bit patterns).
    pub fn store(&self, peak_l: u32, peak_r: u32, rms_l: u32, rms_r: u32) {
        self.peak_l.store(peak_l, Ordering::Release);
        self.peak_r.store(peak_r, Ordering::Release);
        self.rms_l.store(rms_l, Ordering::Release);
        self.rms_r.store(rms_r, Ordering::Release);
    }

    /// The latest published levels: peak left, peak right, RMS left, RMS
    /// right (as `f32` bit patterns).
    pub fn load(&self) -> (u32, u32, u32, u32) {
        let peak_l = self.peak_l.load(Ordering::Acquire);
        let peak_r = self.peak_r.load(Ordering::Acquire);
        let rms_l = self.rms_l.load(Ordering::Acquire);
        let rms_r = self.rms_r.load(Ordering::Acquire);
        (peak_l, peak_r, rms_l, rms_r)
    }
}

} // verus!
