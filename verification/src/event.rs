//! The event that travels from the sampler to every subscriber.

use vstd::prelude::*;

verus! {

/// Mask of the exponent bits of a single-precision IEEE-754 pattern.
pub const EXPONENT_MASK: u32 = 0x7f80_0000u32;

/// A reading is finite exactly when its exponent bits are not all ones
/// (all ones encodes the infinities and the NaNs).
pub open spec fn reading_is_finite(bits: u32) -> bool {
    bits & EXPONENT_MASK != EXPONENT_MASK
}

/// Every reading of `readings` is finite.
pub open spec fn readings_are_finite(readings: Seq<u32>) -> bool {
    forall|i: int| 0 <= i < readings.len() ==> reading_is_finite(#[trigger] readings[i])
}

/// One observation of the machine.
///
/// A utilisation percentage is carried as the bit pattern of its
/// single-precision value, so that an event is a plain, comparable value.
#[derive(Debug, Clone, PartialEq, Eq)]
pub enum Event {
    /// Per-core utilisation, one reading per logical core, in core index order.
    Snapshot { cpus: Vec<u32> },
}

impl View for Event {
    type V = Seq<u32>;

    /// The readings of the snapshot, in core index order.
    open spec fn view(&self) -> Seq<u32> {
        match *self {
            Event::Snapshot { cpus } => cpus@,
        }
    }
}

impl Event {
    /// Builds the snapshot of one sampling tick: one reading per core, in
    /// the order in which the cores were read.
    pub fn snapshot(readings: Vec<u32>) -> (event: Event)
        ensures
            event@ == readings@,
    {
        Event::Snapshot { cpus: readings }
    }

    /// The readings, in core index order.
    pub fn cpus(&self) -> (readings: &Vec<u32>)
        ensures
            readings@ == self@,
    {
        match self {
            Event::Snapshot { cpus } => cpus,
        }
    }

    /// The number of logical cores that the snapshot covers.
    pub fn core_count(&self) -> (n: usize)
        ensures
            n == self@.len(),
    {
        self.cpus().len()
    }

    /// A copy that carries the same readings.
    pub fn duplicate(&self) -> (copy: Event)
        ensures
            copy@ == self@,
    {
        let source = self.cpus();
        let mut readings: Vec<u32> = Vec::new();
        let mut i: usize = 0;
        while i < source.len()
            invariant
                i <= source.len(),
                readings@ == source@.subrange(0, i as int),
            decreases source.len() - i,
        {
            readings.push(source[i]);
            proof {
                assert(source@.subrange(0, i as int).push(source@[i as int])
                    =~= source@.subrange(0, i + 1));
            }
            i = i + 1;
        }
        proof {
            assert(source@.subrange(0, source@.len() as int) =~= source@);
        }
        Event::Snapshot { cpus: readings }
    }

    /// Whether every reading is a finite number.
    pub fn all_finite(&self) -> (finite: bool)
        ensures
            finite == readings_are_finite(self@),
    {
        let readings = self.cpus();
        let mut i: usize = 0;
        while i < readings.len()
            invariant
                i <= readings.len(),
                readings@ == self@,
                forall|j: int| 0 <= j < i ==> reading_is_finite(#[trigger] readings@[j]),
            decreases readings.len() - i,
        {
            if !is_finite(readings[i]) {
                return false;
            }
            i = i + 1;
        }
        true
    }
}

/// A snapshot built from the readings of one tick covers exactly as many
/// cores as were read, and when every reading is finite, so is every value
/// that the snapshot carries.
pub proof fn snapshot_of_finite_readings(event: Event, readings: Seq<u32>)
    requires
        event@ == readings,
        readings_are_finite(readings),
    ensures
        event@.len() == readings.len(),
        readings_are_finite(event@),
        forall|i: int| 0 <= i < event@.len() ==> reading_is_finite(#[trigger] event@[i]),
{
}

/// Whether `bits` encodes a finite single-precision number.
pub fn is_finite(bits: u32) -> (finite: bool)
    ensures
        finite == reading_is_finite(bits),
{
    bits & EXPONENT_MASK != EXPONENT_MASK
}

} // verus!
