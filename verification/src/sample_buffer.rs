//! Accumulation of raw sampled-values input for one power-system cycle.

use vstd::prelude::*;
use vstd::arithmetic::div_mod::{lemma_mod_self_0, lemma_small_mod};

verus! {

/// One sample delivered by the sampled-values stream.
#[derive(Debug, Clone, PartialEq, Eq, Structural)]
pub struct SampleData {
    /// Raw ADC value for current, in counts.
    pub current_adc: i32,
    /// Sample number within the cycle.
    pub sample_number: u16,
    /// Timestamp in microseconds.
    pub timestamp: u64,
}

/// Fixed-capacity accumulator of raw samples with overwrite-on-full
/// semantics.
///
/// The buffer first fills up to its capacity by appending; once full,
/// each further sample overwrites the slot at the write cursor, which
/// wraps modulo the capacity. Retrieval is in physical slot order,
/// which is chronological only while the buffer has not wrapped since
/// the last `clear`; the intended usage clears once per cycle.
pub struct SvSampleBuffer {
    /// Stored samples, in slot order.
    pub samples: Vec<i32>,
    /// Number of slots; fixed at construction.
    pub capacity: usize,
    /// Slot the next sample lands in once the buffer is full.
    pub current_index: usize,
}

impl SvSampleBuffer {
    /// A usable buffer: non-zero capacity, never more samples than
    /// slots, the cursor inside the slot range and, while still
    /// filling, at the append position.
    pub open spec fn wf(&self) -> bool {
        &&& self.capacity > 0
        &&& self.samples@.len() <= self.capacity
        &&& self.current_index < self.capacity
        &&& self.samples@.len() < self.capacity ==> self.current_index == self.samples@.len()
    }

    /// Create an empty buffer with the given number of slots (the
    /// samples-per-cycle of the stream).
    pub fn new(capacity: usize) -> (r: Self)
        requires
            capacity > 0,
        ensures
            r.wf(),
            r.capacity == capacity,
            r.samples@.len() == 0,
            r.current_index == 0,
    {
        Self { samples: Vec::new(), capacity, current_index: 0 }
    }

    /// Accept one sample unconditionally: append while below capacity,
    /// overwrite the slot at the cursor once full; the cursor advances
    /// modulo the capacity on every call.
    pub fn add_sample(&mut self, sample: i32)
        requires
            old(self).wf(),
        ensures
            final(self).wf(),
            final(self).capacity == old(self).capacity,
            old(self).samples@.len() < old(self).capacity ==> final(self).samples@ == old(
                self,
            ).samples@.push(sample),
            old(self).samples@.len() == old(self).capacity ==> final(self).samples@ == old(
                self,
            ).samples@.update(old(self).current_index as int, sample),
            final(self).current_index == (old(self).current_index + 1) % old(
                self,
            ).capacity as int,
    {
        if self.samples.len() < self.capacity {
            self.samples.push(sample);
        } else {
            self.samples.set(self.current_index, sample);
        }
        proof {
            if old(self).current_index + 1 < old(self).capacity {
                lemma_small_mod((old(self).current_index + 1) as nat, old(self).capacity as nat);
            } else {
                lemma_mod_self_0(old(self).capacity as int);
            }
        }
        self.current_index = (self.current_index + 1) % self.capacity;
    }

    /// True once the buffer holds one complete cycle.
    pub fn is_full(&self) -> (r: bool)
        ensures
            r == (self.samples@.len() == self.capacity),
    {
        self.samples.len() == self.capacity
    }

    /// The stored samples, in slot order (see the type-level caveat on
    /// ordering after wraparound).
    pub fn samples(&self) -> (r: &Vec<i32>)
        ensures
            r@ == self.samples@,
    {
        &self.samples
    }

    /// Number of samples currently stored.
    pub fn len(&self) -> (r: usize)
        ensures
            r == self.samples@.len(),
    {
        self.samples.len()
    }

    /// True while no sample is stored.
    pub fn is_empty(&self) -> (r: bool)
        ensures
            r == (self.samples@.len() == 0),
    {
        self.samples.len() == 0
    }

    /// Drop every sample and rewind the cursor, keeping the capacity.
    pub fn clear(&mut self)
        ensures
            final(self).capacity == old(self).capacity,
            final(self).samples@.len() == 0,
            final(self).current_index == 0,
            old(self).wf() ==> final(self).wf(),
    {
        self.samples.clear();
        self.current_index = 0;
    }

    /// Number of slots.
    pub fn capacity(&self) -> (r: usize)
        ensures
            r == self.capacity,
    {
        self.capacity
    }
}

} // verus!
