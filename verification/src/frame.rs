use vstd::prelude::*;

verus! {

/// One captured run of signed 16-bit mono samples.
///
/// Frames are immutable once produced. The capture source stamps each frame
/// with a monotonically increasing counter, so later frames carry larger
/// timestamps.
pub struct AudioFrame {
    /// Monotone stamp given by the producer.
    pub timestamp: u64,
    /// The raw samples of this frame.
    pub samples: Vec<i16>,
}

} // verus!
