//! Stream formats, output-configuration ranges, format negotiation, and
//! integer sizing of the latency buffer.

use vstd::prelude::*;

verus! {

/// A negotiated stream format: interleaved channel count and per-channel
/// sample rate. Both must be positive for the format to be valid.
#[derive(Clone, Copy, PartialEq, Eq, Structural, Debug)]
pub struct StreamFormat {
    pub channels: u16,
    pub sample_rate: u32,
}

impl StreamFormat {
    /// Channel count and sample rate are positive integers.
    pub open spec fn valid(self) -> bool {
        self.channels > 0 && self.sample_rate > 0
    }
}

/// One supported output configuration: a channel count together with the
/// range of sample rates the device accepts for it.
#[derive(Clone, Copy, PartialEq, Eq, Structural, Debug)]
pub struct OutputConfigRange {
    pub channels: u16,
    pub min_sample_rate: u32,
    pub max_sample_rate: u32,
}

/// An output configuration supports a format when the channel counts match
/// and the format's sample rate lies within the configuration's range.
pub open spec fn config_supports(cfg: OutputConfigRange, fmt: StreamFormat) -> bool {
    &&& cfg.channels == fmt.channels
    &&& cfg.min_sample_rate <= fmt.sample_rate
    &&& fmt.sample_rate <= cfg.max_sample_rate
}

/// The index of the first output configuration that supports `fmt`, if any.
pub fn find_output_config(configs: &Vec<OutputConfigRange>, fmt: StreamFormat) -> (r: Option<
    usize,
>)
    ensures
        match r {
            Some(i) => {
                &&& i < configs@.len()
                &&& config_supports(configs@[i as int], fmt)
                &&& forall|j: int| 0 <= j < i ==> !config_supports(configs@[j], fmt)
            },
            None => forall|j: int|
                0 <= j < configs@.len() ==> !config_supports(configs@[j], fmt),
        },
{
    let mut i: usize = 0;
    while i < configs.len()
        invariant
            i <= configs@.len(),
            forall|j: int| 0 <= j < i ==> !config_supports(configs@[j], fmt),
        decreases configs@.len() - i,
    {
        let cfg = configs[i];
        if cfg.channels == fmt.channels && cfg.min_sample_rate <= fmt.sample_rate
            && fmt.sample_rate <= cfg.max_sample_rate {
            return Some(i);
        }
        i += 1;
    }
    None
}

/// The number of frames that cover `latency_ms` milliseconds at `sample_rate`
/// frames per second, rounded to the nearest frame.
pub open spec fn spec_latency_frames(sample_rate: nat, latency_ms: nat) -> nat {
    (sample_rate * latency_ms + 500) / 1000
}

/// The number of interleaved samples that cover the target latency:
/// rounded frame count times channel count.
pub open spec fn spec_latency_samples(fmt: StreamFormat, latency_ms: nat) -> nat {
    spec_latency_frames(fmt.sample_rate as nat, latency_ms) * (fmt.channels as nat)
}

/// Computes the latency window in interleaved samples for `fmt` at the target
/// latency `latency_ms` (milliseconds).
pub fn latency_samples(fmt: StreamFormat, latency_ms: u32) -> (r: u64)
    requires
        spec_latency_samples(fmt, latency_ms as nat) <= u64::MAX,
    ensures
        r == spec_latency_samples(fmt, latency_ms as nat),
{
    let rate: u64 = fmt.sample_rate as u64;
    let ms: u64 = latency_ms as u64;
    assert(rate * ms + 500 <= u64::MAX) by (nonlinear_arith)
        requires
            rate <= u32::MAX,
            ms <= u32::MAX,
    ;
    let frames: u64 = (rate * ms + 500) / 1000;
    assert(frames == spec_latency_frames(fmt.sample_rate as nat, latency_ms as nat));
    assert(frames * fmt.channels as u64 == spec_latency_samples(fmt, latency_ms as nat));
    frames * fmt.channels as u64
}

} // verus!
