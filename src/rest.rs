use crate::Sample;
use vstd::prelude::*;

verus! {

/// Answer of the health endpoint.
#[derive(Debug, Clone, Copy, PartialEq, Eq, Structural)]
pub struct Health {
    pub running: bool,
}

/// The health of a service that answers at all: it is running.
pub fn health() -> (r: Health)
    ensures
        r.running,
{
    Health { running: true }
}

/// One point of an occupation answer: when it was taken and the reading,
/// as the bit pattern of an `f32`.
#[derive(Debug, Clone, Copy, PartialEq, Eq, Structural)]
pub struct OccupationSample {
    pub timestamp: u64,
    pub value: u32,
}

/// The points of an occupation answer: the timestamp and reading of each
/// sample, in the order of `samples`.
pub fn occupation_samples(samples: &Vec<Sample>) -> (r: Vec<OccupationSample>)
    ensures
        r@.len() == samples@.len(),
        forall|i: int|
            0 <= i < r@.len() ==> (#[trigger] r@[i]).timestamp == samples@[i].timestamp
                && r@[i].value == samples@[i].value,
{
    let mut out: Vec<OccupationSample> = Vec::new();
    let mut i: usize = 0;
    while i < samples.len()
        invariant
            i <= samples@.len(),
            out@.len() == i,
            forall|j: int|
                0 <= j < i ==> (#[trigger] out@[j]).timestamp == samples@[j].timestamp
                    && out@[j].value == samples@[j].value,
        decreases samples@.len() - i,
    {
        out.push(OccupationSample { timestamp: samples[i].timestamp, value: samples[i].value });
        i = i + 1;
    }
    out
}

} // verus!
