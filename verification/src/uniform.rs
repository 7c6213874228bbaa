//! The per-frame uniform block and the animation clock that drives it.
//!
//! The uniform block is a small fixed-size GPU buffer holding a 4×4
//! transform matrix as 64 bytes, overwritten once per frame through a
//! queue-level copy. The matrix itself is floating-point camera math and is
//! computed by the platform layer from the animation time this module
//! accumulates; what is verified here is that the clock advances on every
//! tick with a nonzero elapsed time, so the matrix input is never frozen.

use vstd::prelude::*;

verus! {

/// Size in bytes of the uniform block: one 4×4 matrix of 32-bit floats.
pub const UNIFORM_BYTES: usize = 64;

/// The uniform buffer's current contents.
pub struct UniformBlock {
    pub data: Vec<u8>,
}

impl UniformBlock {
    /// Invariant: the block is always exactly one matrix wide.
    pub open spec fn wf(self) -> bool {
        self.data@.len() == UNIFORM_BYTES
    }

    /// A zero-initialized uniform block, as the buffer is created before the
    /// first frame writes it.
    pub fn new() -> (u: UniformBlock)
        ensures
            u.wf(),
            forall|i: int| 0 <= i < u.data@.len() ==> u.data@[i] == 0,
    {
        let mut data: Vec<u8> = Vec::new();
        let mut i: usize = 0;
        while i < UNIFORM_BYTES
            invariant
                data@.len() == i,
                i <= UNIFORM_BYTES,
                forall|j: int| 0 <= j < data@.len() ==> data@[j] == 0,
            decreases UNIFORM_BYTES - i,
        {
            data.push(0);
            i = i + 1;
        }
        UniformBlock { data }
    }

    /// Overwrite the block's full contents with this frame's matrix bytes.
    /// The queue's command ordering makes the write visible to every draw
    /// submitted after it; no other synchronization is involved.
    pub fn write(&mut self, bytes: Vec<u8>)
        requires
            bytes@.len() == UNIFORM_BYTES,
        ensures
            final(self).wf(),
            final(self).data@ == bytes@,
    {
        self.data = bytes;
    }
}

/// The animation time after a tick: elapsed wall-clock microseconds are
/// added onto the accumulator, saturating at the top of the range.
pub open spec fn advanced(t: u64, elapsed: u64) -> u64 {
    if t + elapsed > u64::MAX {
        u64::MAX
    } else {
        (t + elapsed) as u64
    }
}

/// Animation liveness law: as long as the clock has not saturated, a tick
/// with a nonzero elapsed time moves it to a strictly different (larger)
/// value, so the transform recomputed from it is recomputed from fresh
/// input.
pub proof fn lemma_tick_advances(t: u64, elapsed: u64)
    requires
        elapsed > 0,
        t < u64::MAX,
    ensures
        advanced(t, elapsed) != t,
        advanced(t, elapsed) > t,
{
}

/// The frame driver's only persistent state: the running animation-time
/// accumulator, in microseconds of wall-clock time.
pub struct Animator {
    pub time_micros: u64,
}

impl Animator {
    pub fn new() -> (a: Animator)
        ensures
            a.time_micros == 0,
    {
        Animator { time_micros: 0 }
    }

    /// Accumulate the wall-clock time elapsed since the previous frame and
    /// return the new animation time, from which the platform layer derives
    /// this frame's transform.
    pub fn tick(&mut self, elapsed_micros: u64) -> (t: u64)
        ensures
            final(self).time_micros == advanced(old(self).time_micros, elapsed_micros),
            t == final(self).time_micros,
    {
        if elapsed_micros > u64::MAX - self.time_micros {
            self.time_micros = u64::MAX;
        } else {
            self.time_micros = self.time_micros + elapsed_micros;
        }
        self.time_micros
    }
}

} // verus!
