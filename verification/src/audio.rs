//! The normalized in-memory audio representation.
//!
//! Audio is stored mono, one 32-bit float per time step. Floating-point
//! values are held as their IEEE-754 bit patterns (`u32`), so that the
//! container and its invariants can be reasoned about; turning a bit
//! pattern back into a float is the caller's one-to-one conversion.

use vstd::prelude::*;

verus! {

/// Errors that could occur while operating with audio data
#[derive(Debug)]
pub enum AudioError {
    /// An operating-system I/O failure, rendered as its message
    IoError(String),
    /// Error during reading/writing audio file
    ReadWriteError(String),
    /// Error during converting audio
    ConvertError(&'static str),
    /// Audio format not supported
    NotSupported(&'static str),
    /// Other error
    Other(String),
}

/// Contains audio data in Float32 format (mono), each sample held as
/// the bit pattern of its 32-bit float value
#[derive(Debug)]
pub struct AudioData {
    sample_rate: u32,
    samples: Vec<u32>,
}

impl AudioData {
    /// The number of samples per second; positive for every live value.
    pub closed spec fn spec_sample_rate(&self) -> u32 {
        self.sample_rate
    }

    /// The mono sample sequence, as 32-bit float bit patterns.
    pub closed spec fn spec_samples(&self) -> Seq<u32> {
        self.samples@
    }

    /// Every live `AudioData` has a positive sample rate.
    #[verifier::type_invariant]
    pub closed spec fn wf(&self) -> bool {
        self.sample_rate > 0
    }

    /// Non-mutable access to audio data
    pub fn samples(&self) -> (r: &Vec<u32>)
        ensures
            r@ == self.spec_samples(),
    {
        &self.samples
    }

    /// Returns the number of samples
    pub fn len(&self) -> (r: usize)
        ensures
            r == self.spec_samples().len(),
    {
        self.samples.len()
    }

    /// The number of samples per second
    pub fn sample_rate(&self) -> (r: u32)
        ensures
            r == self.spec_sample_rate(),
            r > 0,
    {
        proof {
            use_type_invariant(self);
        }
        self.sample_rate
    }

    /// Create new audio data
    ///
    /// A zero sample rate is a contract violation by the caller, not a
    /// recoverable failure, and is ruled out here.
    pub fn new(data: Vec<u32>, sample_rate: u32) -> (r: AudioData)
        requires
            sample_rate != 0,
        ensures
            r.spec_sample_rate() == sample_rate,
            r.spec_samples() == data@,
    {
        AudioData { sample_rate, samples: data }
    }
}

} // verus!
