//! The immutable request snapshot handed to a worker at submission time.

use vstd::prelude::*;

verus! {

/// Dimensions handed to the pipeline must be multiples of this unit.
pub const DIMENSION_UNIT: u32 = 8;

/// Which device the pipeline should run on.
#[derive(Clone, Copy, Debug, PartialEq, Eq, Structural)]
pub enum DevicePreference {
    PreferAccelerated,
    CpuOnly,
}

/// Whether the pipeline should trade throughput for a smaller peak footprint.
#[derive(Clone, Copy, Debug, PartialEq, Eq, Structural)]
pub enum MemoryMode {
    Standard,
    LowMemory,
}

/// Snapshot of everything a generation job needs. It is taken at submission
/// and never mutated afterwards; the worker owns its copy exclusively.
#[derive(Clone, Debug, PartialEq)]
pub struct GenerationRequest {
    pub positive_prompt: String,
    pub negative_prompt: String,
    pub width: u32,
    pub height: u32,
    pub steps: usize,
    pub seed: u64,
    pub device_preference: DevicePreference,
    pub memory_mode: MemoryMode,
}

/// Rounds a dimension down to the nearest multiple of the alignment unit,
/// as the editing surface does before a snapshot is taken. The controller
/// itself never adjusts a snapshot.
pub fn align_dimension(v: u32) -> (r: u32)
    ensures
        r == (v / DIMENSION_UNIT) * DIMENSION_UNIT,
        r % DIMENSION_UNIT == 0,
        r <= v,
        v % DIMENSION_UNIT == 0 ==> r == v,
{
    proof {
        assert((v / 8) * 8 <= v && ((v / 8) * 8) % 8 == 0 && (v % 8 == 0 ==> (v / 8) * 8 == v))
            by (nonlinear_arith);
    }
    (v / DIMENSION_UNIT) * DIMENSION_UNIT
}

/// The request a fresh editing surface starts from: empty prompts, a
/// 512 by 512 canvas, 32 iterations, the accelerated device and the
/// standard memory mode, with the given seed.
pub fn default_request(seed: u64) -> (r: GenerationRequest)
    ensures
        r.positive_prompt@ == Seq::<char>::empty(),
        r.negative_prompt@ == Seq::<char>::empty(),
        r.width == 512,
        r.height == 512,
        r.steps == 32,
        r.seed == seed,
        r.device_preference is PreferAccelerated,
        r.memory_mode is Standard,
{
    GenerationRequest {
        positive_prompt: String::new(),
        negative_prompt: String::new(),
        width: 512,
        height: 512,
        steps: 32,
        seed,
        device_preference: DevicePreference::PreferAccelerated,
        memory_mode: MemoryMode::Standard,
    }
}

/// Relies on rand::random: an arbitrary value; nothing is promised of it.
pub assume_specification<T>[ rand::random::<T> ]() -> (r: T)
    where
        rand::distributions::Standard: rand::distributions::Distribution<T>,
;

/// Draws a fresh reproducibility seed. The value is random, so nothing is
/// stated about it; every caller must work for every seed.
pub fn fresh_seed() -> u64 {
    rand::random::<u64>()
}

} // verus!
