//! Burst sampling: a fixed-capacity buffer of raw analog readings, filled one
//! sample at a time by the driver loop that owns the hardware handle.
//!
//! The buffer is created fresh for each reading request with a target length
//! equal to the configured sample count, so a completed burst always holds
//! exactly that many samples. Raw samples arrive as unsigned ADC words and
//! are narrowed to the signed 16-bit range before they are stored, matching
//! the width the median filter sorts and compares.

use vstd::prelude::*;

verus! {

/// How long the driver loop pauses between consecutive samples of one burst,
/// in milliseconds, to let the underlying hardware settle.
pub const SETTLE_PAUSE_MILLIS: u64 = 1;

/// The two's-complement narrowing of a raw unsigned ADC word to the signed
/// 16-bit range the buffer stores.
pub open spec fn sample_of(raw: u16) -> i16 {
    if raw <= 32767 {
        raw as i16
    } else {
        ((raw as int) - 65536) as i16
    }
}

/// The sample buffer of one burst: the readings collected so far, oldest
/// first, and the number of readings the burst is configured to take.
pub struct SampleBuffer {
    samples: Vec<i16>,
    target: usize,
}

impl SampleBuffer {
    /// The samples collected so far, oldest first.
    pub closed spec fn samples_seq(&self) -> Seq<i16> {
        self.samples@
    }

    /// The number of samples one full burst collects.
    pub closed spec fn target_count(&self) -> int {
        self.target as int
    }

    /// The buffer never holds more than its target and the target is at
    /// least one sample.
    pub open spec fn wf(&self) -> bool {
        &&& self.samples_seq().len() <= self.target_count()
        &&& self.target_count() >= 1
    }

    /// The burst has collected every sample it was configured to take.
    pub open spec fn complete(&self) -> bool {
        self.samples_seq().len() == self.target_count()
    }

    /// An empty buffer for a burst of `num_readings` samples.
    pub fn new(num_readings: usize) -> (b: SampleBuffer)
        requires
            num_readings >= 1,
        ensures
            b.wf(),
            b.samples_seq() == Seq::<i16>::empty(),
            b.target_count() == num_readings,
    {
        SampleBuffer { samples: Vec::new(), target: num_readings }
    }

    /// Append one raw sample, narrowed to the signed 16-bit range.
    pub fn push_sample(&mut self, raw: u16)
        requires
            old(self).wf(),
            !old(self).complete(),
        ensures
            final(self).wf(),
            final(self).target_count() == old(self).target_count(),
            final(self).samples_seq() == old(self).samples_seq().push(sample_of(raw)),
    {
        let wide: i32 = raw as i32;
        let narrowed: i16 = if wide <= 32767 {
            wide as i16
        } else {
            (wide - 65536) as i16
        };
        self.samples.push(narrowed);
    }

    /// Whether the burst still needs more samples.
    pub fn is_complete(&self) -> (r: bool)
        ensures
            r == self.complete(),
    {
        self.samples.len() == self.target
    }

    /// Whether the driver loop should pause before the next sample: it
    /// pauses after a sample exactly when more samples remain to be taken.
    pub fn needs_settle_pause(&self) -> (r: bool)
        ensures
            r == !self.complete(),
    {
        self.samples.len() != self.target
    }

    /// How many samples have been collected so far.
    pub fn len(&self) -> (n: usize)
        ensures
            n == self.samples_seq().len(),
    {
        self.samples.len()
    }

    /// Give up the buffer, yielding the collected samples.
    pub fn into_samples(self) -> (v: Vec<i16>)
        ensures
            v@ == self.samples_seq(),
    {
        self.samples
    }
}

} // verus!
